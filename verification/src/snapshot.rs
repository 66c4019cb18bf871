use crate::config::{AppConfig, ConfigModel};
use crate::key_map::KeyMap;
use crate::keys::LogicalKey;
use crate::profile::{history_view, switches_view, ProfileModel, SessionRecord, UserProfile};
use crate::switches::{HistoryModel, SwitchData, SwitchHistoryEntry, SwitchModel};
use crate::time::Timestamp;
use vstd::prelude::*;

verus! {

/// How the last attempt to persist the profile ended, as a value.
pub struct SaveResultModel {
    pub success: bool,
    pub message: Seq<char>,
    pub timestamp: Timestamp,
}

/// How the last attempt to persist the profile ended.
#[derive(Debug)]
pub struct LastSaveResult {
    pub success: bool,
    pub message: String,
    pub timestamp: Timestamp,
}

impl View for LastSaveResult {
    type V = SaveResultModel;

    open spec fn view(&self) -> SaveResultModel {
        SaveResultModel { success: self.success, message: self.message@, timestamp: self.timestamp }
    }
}

impl Clone for LastSaveResult {
    fn clone(&self) -> (r: LastSaveResult)
        ensures
            r == *self,
    {
        LastSaveResult {
            success: self.success,
            message: self.message.clone(),
            timestamp: self.timestamp,
        }
    }
}

/// The text of an optional message.
pub open spec fn message_view(m: Option<String>) -> Option<Seq<char>> {
    match m {
        Some(text) => Some(text@),
        None => None,
    }
}

/// An optional save result as a value.
pub open spec fn save_result_view(r: Option<LastSaveResult>) -> Option<SaveResultModel> {
    match r {
        Some(result) => Some(result@),
        None => None,
    }
}

/// What readers see of the monitor, as a value.
pub struct SnapshotModel {
    pub is_connected: bool,
    pub is_game_running: bool,
    pub config: ConfigModel,
    pub profile_name: Seq<char>,
    pub bindings: Seq<(LogicalKey, u32)>,
    pub switches: Seq<(LogicalKey, SwitchModel)>,
    pub switch_history: Seq<HistoryModel>,
    pub current_pressed_keys: Seq<LogicalKey>,
    pub raw_button_state: u32,
    pub last_status_message: Option<Seq<char>>,
    pub last_save_result: Option<SaveResultModel>,
    pub recent_sessions: Seq<SessionRecord>,
}

impl SnapshotModel {
    /// What readers see before the monitor has published anything.
    pub open spec fn initial() -> SnapshotModel {
        SnapshotModel {
            is_connected: false,
            is_game_running: false,
            config: ConfigModel::initial(),
            profile_name: Seq::empty(),
            bindings: Seq::empty(),
            switches: Seq::empty(),
            switch_history: Seq::empty(),
            current_pressed_keys: Seq::empty(),
            raw_button_state: 0,
            last_status_message: None,
            last_save_result: None,
            recent_sessions: Seq::empty(),
        }
    }

    /// The snapshot of `profile` in the given connection, session and input
    /// state. Status message and save result are those of `self`, the
    /// snapshot that it supersedes.
    pub open spec fn superseded_by(
        self,
        profile: ProfileModel,
        is_connected: bool,
        is_game_running: bool,
        pressed: Seq<LogicalKey>,
        raw: u32,
    ) -> SnapshotModel {
        SnapshotModel {
            is_connected,
            is_game_running,
            config: profile.config,
            profile_name: profile.mapping.profile_name,
            bindings: profile.mapping.bindings,
            switches: profile.switches,
            switch_history: profile.switch_history,
            current_pressed_keys: pressed,
            raw_button_state: raw,
            last_status_message: self.last_status_message,
            last_save_result: self.last_save_result,
            recent_sessions: profile.recent_sessions,
        }
    }
}

/// A self-contained copy of the monitor's state for its readers.
#[derive(Debug)]
pub struct MonitorSharedState {
    pub is_connected: bool,
    pub is_game_running: bool,
    pub config: AppConfig,
    pub profile_name: String,
    pub bindings: KeyMap<u32>,
    pub switches: KeyMap<SwitchData>,
    pub switch_history: Vec<SwitchHistoryEntry>,
    pub current_pressed_keys: Vec<LogicalKey>,
    pub raw_button_state: u32,
    pub last_status_message: Option<String>,
    pub last_save_result: Option<LastSaveResult>,
    pub recent_sessions: Vec<SessionRecord>,
}

impl View for MonitorSharedState {
    type V = SnapshotModel;

    open spec fn view(&self) -> SnapshotModel {
        SnapshotModel {
            is_connected: self.is_connected,
            is_game_running: self.is_game_running,
            config: self.config@,
            profile_name: self.profile_name@,
            bindings: self.bindings@,
            switches: switches_view(self.switches@),
            switch_history: history_view(self.switch_history@),
            current_pressed_keys: self.current_pressed_keys@,
            raw_button_state: self.raw_button_state,
            last_status_message: message_view(self.last_status_message),
            last_save_result: save_result_view(self.last_save_result),
            recent_sessions: self.recent_sessions@,
        }
    }
}

impl Default for MonitorSharedState {
    fn default() -> (s: MonitorSharedState)
        ensures
            s@ == SnapshotModel::initial(),
    {
        let s = MonitorSharedState {
            is_connected: false,
            is_game_running: false,
            config: AppConfig::default(),
            profile_name: String::new(),
            bindings: KeyMap::new(),
            switches: KeyMap::new(),
            switch_history: Vec::new(),
            current_pressed_keys: Vec::new(),
            raw_button_state: 0,
            last_status_message: None,
            last_save_result: None,
            recent_sessions: Vec::new(),
        };
        assert(s@.switches =~= Seq::empty());
        assert(s@.switch_history =~= Seq::empty());
        s
    }
}

impl Clone for MonitorSharedState {
    fn clone(&self) -> (s: MonitorSharedState)
        ensures
            s@ == self@,
    {
        let bindings = self.bindings.clone();
        assert(bindings@ =~= self.bindings@);
        let switches = self.switches.clone();
        assert(switches@ =~= self.switches@);
        let switch_history = self.switch_history.clone();
        assert(switch_history@ =~= self.switch_history@);
        let current_pressed_keys = self.current_pressed_keys.clone();
        assert(current_pressed_keys@ =~= self.current_pressed_keys@);
        let recent_sessions = self.recent_sessions.clone();
        assert(recent_sessions@ =~= self.recent_sessions@);
        let last_status_message = match &self.last_status_message {
            Some(text) => Some(text.clone()),
            None => None,
        };
        let last_save_result = match &self.last_save_result {
            Some(result) => Some(result.clone()),
            None => None,
        };
        MonitorSharedState {
            is_connected: self.is_connected,
            is_game_running: self.is_game_running,
            config: self.config.clone(),
            profile_name: self.profile_name.clone(),
            bindings,
            switches,
            switch_history,
            current_pressed_keys,
            raw_button_state: self.raw_button_state,
            last_status_message,
            last_save_result,
            recent_sessions,
        }
    }
}

impl MonitorSharedState {
    /// The snapshot of `profile` that supersedes `self`: status message and
    /// save result carry over, everything else is taken anew.
    pub fn supersede(
        &mut self,
        profile: &UserProfile,
        is_connected: bool,
        is_game_running: bool,
        pressed: Vec<LogicalKey>,
        raw: u32,
    )
        ensures
            final(self)@ == old(self)@.superseded_by(
                profile@,
                is_connected,
                is_game_running,
                pressed@,
                raw,
            ),
    {
        let copy = profile.clone();
        self.is_connected = is_connected;
        self.is_game_running = is_game_running;
        self.config = copy.config;
        self.profile_name = copy.mapping.profile_name;
        self.bindings = copy.mapping.bindings;
        self.switches = copy.switches;
        self.switch_history = copy.switch_history;
        self.current_pressed_keys = pressed;
        self.raw_button_state = raw;
        self.recent_sessions = copy.recent_sessions;
    }
}

} // verus!
