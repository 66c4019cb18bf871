use crate::config::{AppConfig, ConfigModel};
use crate::key_map::{map_entries, KeyMap};
use crate::keys::LogicalKey;
use crate::switches::{HistoryModel, SwitchData, SwitchHistoryEntry, SwitchModel};
use crate::time::Timestamp;
use crate::text::{decimal, push_decimal};
use vstd::prelude::*;
use vstd::string::StringExecFns;

verus! {

/// The schema version that this library reads and writes.
pub const CURRENT_SCHEMA_VERSION: u32 = 1;

/// A named set of bindings, as a value.
pub struct ButtonMapModel {
    pub profile_name: Seq<char>,
    pub bindings: Seq<(LogicalKey, u32)>,
}

impl ButtonMapModel {
    /// The bindings of a new profile.
    pub open spec fn initial() -> ButtonMapModel {
        ButtonMapModel {
            profile_name: "Default"@,
            bindings: seq![
                (LogicalKey::Key1, 8u32),
                (LogicalKey::Key2, 1u32),
                (LogicalKey::Key3, 2u32),
                (LogicalKey::Key4, 4u32),
                (LogicalKey::Key5, 64u32),
                (LogicalKey::Key6, 256u32),
                (LogicalKey::Key7, 128u32),
                (LogicalKey::E1, 1024u32),
                (LogicalKey::E2, 2048u32),
                (LogicalKey::E3, 8192u32),
                (LogicalKey::E4, 16384u32),
            ],
        }
    }
}

/// Which raw button mask each logical key is bound to; mask 0 means unbound.
#[derive(Debug)]
pub struct ButtonMap {
    pub profile_name: String,
    pub bindings: KeyMap<u32>,
}

impl View for ButtonMap {
    type V = ButtonMapModel;

    open spec fn view(&self) -> ButtonMapModel {
        ButtonMapModel { profile_name: self.profile_name@, bindings: self.bindings@ }
    }
}

impl Default for ButtonMap {
    fn default() -> (m: ButtonMap)
        ensures
            m@ == ButtonMapModel::initial(),
    {
        let mut bindings: KeyMap<u32> = KeyMap::new();
        bindings.insert_new(LogicalKey::Key1, 8);
        bindings.insert_new(LogicalKey::Key2, 1);
        bindings.insert_new(LogicalKey::Key3, 2);
        bindings.insert_new(LogicalKey::Key4, 4);
        bindings.insert_new(LogicalKey::Key5, 64);
        bindings.insert_new(LogicalKey::Key6, 256);
        bindings.insert_new(LogicalKey::Key7, 128);
        bindings.insert_new(LogicalKey::E1, 1024);
        bindings.insert_new(LogicalKey::E2, 2048);
        bindings.insert_new(LogicalKey::E3, 8192);
        bindings.insert_new(LogicalKey::E4, 16384);
        let m = ButtonMap { profile_name: "Default".to_owned(), bindings };
        assert(m@.bindings =~= ButtonMapModel::initial().bindings);
        m
    }
}

impl Clone for ButtonMap {
    fn clone(&self) -> (m: ButtonMap)
        ensures
            m@ == self@,
    {
        let bindings = self.bindings.clone();
        assert(bindings@ =~= self.bindings@);
        ButtonMap { profile_name: self.profile_name.clone(), bindings }
    }
}

/// A completed play session.
#[derive(Debug, Clone, Copy, PartialEq, Eq, Structural)]
pub struct SessionRecord {
    pub id: Option<i64>,
    pub start_time: Timestamp,
    pub end_time: Timestamp,
    pub duration_secs: u64,
}

impl SessionRecord {
    /// The record of a session that ran from `start` to `end`.
    pub open spec fn spanning(start: Timestamp, end: Timestamp) -> SessionRecord {
        SessionRecord {
            id: None,
            start_time: start,
            end_time: end,
            duration_secs: start.whole_seconds_until(end) as u64,
        }
    }

    /// The record of a session that ran from `start` to `end`.
    pub fn new(start: Timestamp, end: Timestamp) -> (r: SessionRecord)
        ensures
            r == SessionRecord::spanning(start, end),
    {
        SessionRecord {
            id: None,
            start_time: start,
            end_time: end,
            duration_secs: start.seconds_until(&end),
        }
    }
}

/// What one key did in one session, as a value.
pub struct SessionKeyStatsModel {
    pub session_id: i64,
    pub key_name: Seq<char>,
    pub presses: nat,
    pub chatters: nat,
    pub chatter_releases: nat,
}

/// What one key did in one session.
#[derive(Debug)]
pub struct SessionKeyStats {
    pub session_id: i64,
    pub key_name: String,
    pub presses: u64,
    pub chatters: u64,
    pub chatter_releases: u64,
}

impl View for SessionKeyStats {
    type V = SessionKeyStatsModel;

    open spec fn view(&self) -> SessionKeyStatsModel {
        SessionKeyStatsModel {
            session_id: self.session_id,
            key_name: self.key_name@,
            presses: self.presses as nat,
            chatters: self.chatters as nat,
            chatter_releases: self.chatter_releases as nat,
        }
    }
}

impl Clone for SessionKeyStats {
    fn clone(&self) -> (s: SessionKeyStats)
        ensures
            s == *self,
    {
        SessionKeyStats {
            session_id: self.session_id,
            key_name: self.key_name.clone(),
            presses: self.presses,
            chatters: self.chatters,
            chatter_releases: self.chatter_releases,
        }
    }
}

/// Everything that is persisted for one user, as a value.
pub struct ProfileModel {
    pub schema_version: u32,
    pub config: ConfigModel,
    pub mapping: ButtonMapModel,
    pub switches: Seq<(LogicalKey, SwitchModel)>,
    pub switch_history: Seq<HistoryModel>,
    pub recent_sessions: Seq<SessionRecord>,
}

impl ProfileModel {
    /// The profile of a user who has none yet.
    pub open spec fn initial() -> ProfileModel {
        ProfileModel {
            schema_version: CURRENT_SCHEMA_VERSION,
            config: ConfigModel::initial(),
            mapping: ButtonMapModel::initial(),
            switches: Seq::empty(),
            switch_history: Seq::empty(),
            recent_sessions: Seq::empty(),
        }
    }
}

/// The switch records as values.
pub open spec fn switches_view(s: Seq<(LogicalKey, SwitchData)>) -> Seq<(LogicalKey, SwitchModel)> {
    map_entries(s, |d: SwitchData| d@)
}

/// The history entries as values.
pub open spec fn history_view(s: Seq<SwitchHistoryEntry>) -> Seq<HistoryModel> {
    s.map_values(|e: SwitchHistoryEntry| e@)
}

/// Everything that is persisted for one user.
#[derive(Debug)]
pub struct UserProfile {
    pub schema_version: u32,
    pub config: AppConfig,
    pub mapping: ButtonMap,
    pub switches: KeyMap<SwitchData>,
    pub switch_history: Vec<SwitchHistoryEntry>,
    pub recent_sessions: Vec<SessionRecord>,
}

impl View for UserProfile {
    type V = ProfileModel;

    open spec fn view(&self) -> ProfileModel {
        ProfileModel {
            schema_version: self.schema_version,
            config: self.config@,
            mapping: self.mapping@,
            switches: switches_view(self.switches@),
            switch_history: history_view(self.switch_history@),
            recent_sessions: self.recent_sessions@,
        }
    }
}

/// What is reported of a profile written under another schema version.
pub open spec fn schema_mismatch_message(found: u32) -> Seq<char> {
    "Schema version mismatch: expected "@ + decimal(CURRENT_SCHEMA_VERSION as nat) + ", found "@
        + decimal(found as nat) + ". Migration not implemented."@
}

impl UserProfile {
    /// Accepts a profile of the current schema version and rejects any
    /// other: a profile of another version is never read as if it were of
    /// this one.
    pub fn check_schema_version(&self) -> (r: Result<(), String>)
        ensures
            r is Ok <==> self.schema_version == CURRENT_SCHEMA_VERSION,
            r matches Err(message) ==> message@ == schema_mismatch_message(self.schema_version),
    {
        if self.schema_version == CURRENT_SCHEMA_VERSION {
            Ok(())
        } else {
            let mut message = "Schema version mismatch: expected ".to_owned();
            push_decimal(&mut message, CURRENT_SCHEMA_VERSION as u64);
            message.append(", found ");
            push_decimal(&mut message, self.schema_version as u64);
            message.append(". Migration not implemented.");
            Err(message)
        }
    }
}

impl Default for UserProfile {
    fn default() -> (p: UserProfile)
        ensures
            p@ == ProfileModel::initial(),
    {
        let p = UserProfile {
            schema_version: CURRENT_SCHEMA_VERSION,
            config: AppConfig::default(),
            mapping: ButtonMap::default(),
            switches: KeyMap::new(),
            switch_history: Vec::new(),
            recent_sessions: Vec::new(),
        };
        assert(p@.switches =~= Seq::empty());
        assert(p@.switch_history =~= Seq::empty());
        p
    }
}

impl Clone for UserProfile {
    fn clone(&self) -> (p: UserProfile)
        ensures
            p@ == self@,
    {
        let switches = self.switches.clone();
        assert(switches@ =~= self.switches@);
        let switch_history = self.switch_history.clone();
        assert(switch_history@ =~= self.switch_history@);
        let recent_sessions = self.recent_sessions.clone();
        assert(recent_sessions@ =~= self.recent_sessions@);
        UserProfile {
            schema_version: self.schema_version,
            config: self.config.clone(),
            mapping: self.mapping.clone(),
            switches,
            switch_history,
            recent_sessions,
        }
    }
}

} // verus!
