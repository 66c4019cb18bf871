use crate::backends::{buttons_of, InputError};
use crate::commands::{CommandModel, MonitorCommand};
use crate::config::InputMethod;
use crate::detector::{ChatterDetector, DetectorModel};
use crate::key_map::lemma_map_entries;
use crate::keys::LogicalKey;
use crate::polling::{
    bound_keys_have_headroom, observe_all, observe_keys, pressed_keys, switch_or_unknown,
};
use crate::profile::{ProfileModel, SessionRecord, UserProfile};
use crate::session::{key_stats_view, session_key_stats, CompletedSession};
use crate::snapshot::{LastSaveResult, MonitorSharedState, SaveResultModel, SnapshotModel};
use crate::switches::SwitchData;
use crate::time::Timestamp;
use vstd::prelude::*;
use vstd::string::StringExecFns;

verus! {

/// Milliseconds between two checks for the game's process.
pub const PROCESS_CHECK_INTERVAL_MS: u64 = 2000;

/// Milliseconds after which a snapshot is published unasked.
pub const PUBLISH_INTERVAL_MS: u64 = 30;

/// Milliseconds between two automatic saves of the profile.
pub const SAVE_INTERVAL_MS: u64 = 60000;

/// The three clocks the monitor reads: a monotonic one for its intervals,
/// Unix milliseconds for the detector, and the calendar time for records.
#[derive(Debug, Clone, Copy)]
pub struct Clock {
    pub monotonic_ms: u64,
    pub unix_ms: u64,
    pub utc: Timestamp,
}

/// What is to be done with the high-resolution timer.
#[derive(Debug, Clone, Copy, PartialEq, Eq, Structural)]
pub enum TimerAction {
    Keep,
    Acquire,
    Release,
}

/// Whether the loop goes on.
#[derive(Debug, Clone, Copy, PartialEq, Eq, Structural)]
pub enum Flow {
    Continue,
    Stop,
}

/// The occasion of a save.
#[derive(Debug, Clone, Copy, PartialEq, Eq, Structural)]
pub enum SaveKind {
    Forced,
    Auto,
    Exit,
}

/// What a handled command leaves for its caller to do outside the profile.
#[derive(Debug, Clone, Copy, PartialEq, Eq, Structural)]
pub struct CommandEffect {
    /// The input backend to switch to, where the command changed it.
    pub switch_input_to: Option<InputMethod>,
    /// The command asks for the profile to be saved now.
    pub save_now: bool,
}

/// At least `interval` has passed from `since` to `now`.
pub open spec fn elapsed(since: u64, now: u64, interval: u64) -> bool {
    now - since >= interval
}

/// What is reported of a save of the given kind that ended as `result` says.
pub open spec fn save_message(kind: SaveKind, result: Result<(), String>) -> Seq<char> {
    match result {
        Ok(_) => match kind {
            SaveKind::Forced => "Saved successfully"@,
            SaveKind::Auto => "Auto save succeeded"@,
            SaveKind::Exit => "Exit save succeeded"@,
        },
        Err(error) => match kind {
            SaveKind::Forced => "Save failed: "@ + error@,
            SaveKind::Auto => "Auto save failed: "@ + error@,
            SaveKind::Exit => "Exit save failed: "@ + error@,
        },
    }
}

/// The monitor as a value.
pub struct MonitorModel {
    pub profile: ProfileModel,
    pub detector: DetectorModel,
    pub shared: SnapshotModel,
    pub was_connected: bool,
    pub was_game_running: bool,
    pub timer_active: bool,
    pub session_start: Option<Timestamp>,
    pub last_process_check: u64,
    pub last_publish: u64,
    pub last_save: u64,
    pub force_publish: bool,
}

impl MonitorModel {
    /// A monitor that starts on `profile` at `started_ms` of the monotonic
    /// clock.
    pub open spec fn initial(profile: ProfileModel, started_ms: u64) -> MonitorModel {
        MonitorModel {
            profile,
            detector: DetectorModel::fresh(profile.config.chatter_threshold_ms),
            shared: SnapshotModel::initial(),
            was_connected: false,
            was_game_running: false,
            timer_active: false,
            session_start: None,
            last_process_check: started_ms,
            last_publish: started_ms,
            last_save: started_ms,
            force_publish: false,
        }
    }

    /// What a command leaves to be done outside the profile.
    pub open spec fn effect_of(self, cmd: CommandModel) -> CommandEffect {
        match cmd {
            CommandModel::UpdateConfig(cfg) => CommandEffect {
                switch_input_to: if cfg.input_method != self.profile.config.input_method {
                    Some(cfg.input_method)
                } else {
                    None
                },
                save_now: false,
            },
            CommandModel::ForceSave => CommandEffect { switch_input_to: None, save_now: true },
            _ => CommandEffect { switch_input_to: None, save_now: false },
        }
    }

    /// The monitor after a command handled at `now`. A new configuration
    /// brings a new detector with its threshold.
    pub open spec fn handle(self, cmd: CommandModel, now: Timestamp) -> MonitorModel {
        MonitorModel {
            profile: self.profile.apply(cmd, now),
            detector: match cmd {
                CommandModel::UpdateConfig(cfg) => DetectorModel::fresh(cfg.chatter_threshold_ms),
                _ => self.detector,
            },
            ..self
        }
    }

    /// The monitor after a command was taken from the queue at `now`:
    /// `Shutdown` changes nothing, any other command is handled and marks
    /// the iteration for a publish.
    pub open spec fn receive(self, cmd: CommandModel, now: Timestamp) -> MonitorModel {
        if cmd is Shutdown {
            self
        } else {
            MonitorModel { force_publish: true, ..self.handle(cmd, now) }
        }
    }

    /// How long to wait for a command before the next poll.
    pub open spec fn polling_interval(self) -> u64 {
        if self.was_connected {
            self.profile.config.polling_rate_ms_connected
        } else {
            self.profile.config.polling_rate_ms_disconnected
        }
    }

    /// It is time to look for the game's process again.
    pub open spec fn process_check_due(self, monotonic_ms: u64) -> bool {
        elapsed(self.last_process_check, monotonic_ms, PROCESS_CHECK_INTERVAL_MS)
    }

    /// It is time to save the profile unasked.
    pub open spec fn auto_save_due(self, monotonic_ms: u64) -> bool {
        elapsed(self.last_save, monotonic_ms, SAVE_INTERVAL_MS)
    }

    /// The keys can be observed at `now_ms`: the detector admits the time,
    /// and no counter of a bound key's switch is at its limit.
    pub open spec fn can_observe(self, now_ms: u64) -> bool {
        self.detector.admits(now_ms) && bound_keys_have_headroom(
            self.profile.mapping.bindings,
            self.profile.switches,
        )
    }

    /// What a change of the connection asks of the timer: acquired on
    /// connecting, released on disconnecting.
    pub open spec fn timer_action(self, is_connected: bool) -> TimerAction {
        if is_connected != self.was_connected {
            if is_connected && !self.timer_active {
                TimerAction::Acquire
            } else if !is_connected && self.timer_active {
                TimerAction::Release
            } else {
                TimerAction::Keep
            }
        } else {
            TimerAction::Keep
        }
    }

    /// The monitor after the connection was found to be `is_connected`.
    pub open spec fn after_connection(self, is_connected: bool) -> MonitorModel {
        if is_connected != self.was_connected {
            MonitorModel {
                was_connected: is_connected,
                timer_active: is_connected,
                force_publish: true,
                ..self
            }
        } else {
            self
        }
    }

    /// Whether the game counts as running: as just observed, or as before
    /// where no check was made.
    pub open spec fn game_running(self, observed: Option<bool>) -> bool {
        match observed {
            Some(running) => running,
            None => self.was_game_running,
        }
    }

    /// The monitor after a check for the game's process, if one was made.
    pub open spec fn after_process_check(self, observed: Option<bool>, monotonic_ms: u64) -> MonitorModel {
        match observed {
            Some(_) => MonitorModel { last_process_check: monotonic_ms, ..self },
            None => self,
        }
    }

    /// The monitor after every bound key was observed in the reading, if
    /// the controller gave one.
    pub open spec fn after_input(
        self,
        buttons: Option<u32>,
        now_ms: u64,
        session_active: bool,
    ) -> MonitorModel {
        match buttons {
            Some(raw) => {
                let (detector, switches) = observe_keys(
                    self.profile.mapping.bindings,
                    self.profile.mapping.bindings.len() as int,
                    self.detector,
                    self.profile.switches,
                    raw,
                    now_ms,
                    session_active,
                );
                MonitorModel {
                    detector,
                    profile: ProfileModel { switches, ..self.profile },
                    ..self
                }
            },
            None => self,
        }
    }

    /// The keys that are pressed in the reading.
    pub open spec fn pressed_in(self, buttons: Option<u32>) -> Seq<LogicalKey> {
        match buttons {
            Some(raw) => pressed_keys(
                self.profile.mapping.bindings,
                self.profile.mapping.bindings.len() as int,
                raw,
            ),
            None => Seq::empty(),
        }
    }

    /// A session ends with this poll: the game ran, runs no more, and the
    /// session's start is on record.
    pub open spec fn session_ends(self, running: bool) -> bool {
        self.was_game_running && !running && self.session_start is Some
    }

    /// The monitor after the game was found running or not at `now`. When
    /// the game starts, the session's start is noted and every session
    /// counter goes to zero; when it ends, the session is recorded.
    pub open spec fn after_session(self, running: bool, now: Timestamp) -> MonitorModel {
        if running != self.was_game_running {
            if running {
                MonitorModel {
                    session_start: Some(now),
                    profile: self.profile.start_session(),
                    was_game_running: true,
                    force_publish: true,
                    ..self
                }
            } else {
                MonitorModel {
                    session_start: None,
                    profile: match self.session_start {
                        Some(start) => self.profile.end_session(start, now),
                        None => self.profile,
                    },
                    was_game_running: false,
                    force_publish: true,
                    ..self
                }
            }
        } else {
            self
        }
    }

    /// A snapshot is published with this poll: one was asked for, or the
    /// publish interval has passed.
    pub open spec fn publish_due(self, monotonic_ms: u64) -> bool {
        self.force_publish || elapsed(self.last_publish, monotonic_ms, PUBLISH_INTERVAL_MS)
    }

    /// The monitor at the end of a poll: where a publish is due, the
    /// snapshot is superseded; the mark for a publish is cleared.
    pub open spec fn after_publish(
        self,
        is_connected: bool,
        running: bool,
        pressed: Seq<LogicalKey>,
        raw: u32,
        monotonic_ms: u64,
    ) -> MonitorModel {
        if self.publish_due(monotonic_ms) {
            MonitorModel {
                shared: self.shared.superseded_by(self.profile, is_connected, running, pressed, raw),
                last_publish: monotonic_ms,
                force_publish: false,
                ..self
            }
        } else {
            self
        }
    }

    /// The monitor before the snapshot is considered in a poll.
    pub open spec fn polled(
        self,
        buttons: Option<u32>,
        observed_running: Option<bool>,
        clock: Clock,
    ) -> MonitorModel {
        let running = self.game_running(observed_running);
        self.after_connection(buttons is Some).after_process_check(
            observed_running,
            clock.monotonic_ms,
        ).after_input(buttons, clock.unix_ms, running).after_session(running, clock.utc)
    }

    /// The monitor after one poll: connection, process check, keys,
    /// session, snapshot, in this order.
    pub open spec fn poll(
        self,
        buttons: Option<u32>,
        observed_running: Option<bool>,
        clock: Clock,
    ) -> MonitorModel {
        self.polled(buttons, observed_running, clock).after_publish(
            buttons is Some,
            self.game_running(observed_running),
            self.pressed_in(buttons),
            match buttons {
                Some(raw) => raw,
                None => 0,
            },
            clock.monotonic_ms,
        )
    }

    /// The monitor after a save of the given kind ended at `now` as `result`
    /// says. The outcome goes into the snapshot; a forced save also sets the
    /// status message, an automatic one restarts the save interval at
    /// `monotonic_ms`, and the save on exit lets go of the timer.
    pub open spec fn after_save(
        self,
        kind: SaveKind,
        result: Result<(), String>,
        now: Timestamp,
        monotonic_ms: u64,
    ) -> MonitorModel {
        MonitorModel {
            shared: SnapshotModel {
                last_save_result: Some(
                    SaveResultModel {
                        success: result is Ok,
                        message: save_message(kind, result),
                        timestamp: now,
                    },
                ),
                last_status_message: if kind == SaveKind::Forced {
                    Some(save_message(kind, result))
                } else {
                    self.shared.last_status_message
                },
                ..self.shared
            },
            last_save: if kind == SaveKind::Auto {
                monotonic_ms
            } else {
                self.last_save
            },
            timer_active: if kind == SaveKind::Exit {
                false
            } else {
                self.timer_active
            },
            ..self
        }
    }
}

/// What one poll leaves for its caller to do.
#[derive(Debug)]
pub struct PollOutcome {
    /// What is to be done with the high-resolution timer.
    pub timer: TimerAction,
    /// The session that ended with this poll, for the history store.
    pub completed_session: Option<CompletedSession>,
    /// The snapshot was superseded and is to be shown to the readers.
    pub published: bool,
}

/// The monitor's state and its decisions, free of any input or output: the
/// profile, the detector, the latest snapshot, and what is carried from one
/// iteration of the loop to the next.
pub struct MonitorCore {
    profile: UserProfile,
    detector: ChatterDetector,
    shared: MonitorSharedState,
    was_connected: bool,
    was_game_running: bool,
    timer_active: bool,
    session_start: Option<Timestamp>,
    last_process_check_ms: u64,
    last_publish_ms: u64,
    last_save_ms: u64,
    force_publish: bool,
}

impl View for MonitorCore {
    type V = MonitorModel;

    closed spec fn view(&self) -> MonitorModel {
        MonitorModel {
            profile: self.profile@,
            detector: self.detector@,
            shared: self.shared@,
            was_connected: self.was_connected,
            was_game_running: self.was_game_running,
            timer_active: self.timer_active,
            session_start: self.session_start,
            last_process_check: self.last_process_check_ms,
            last_publish: self.last_publish_ms,
            last_save: self.last_save_ms,
            force_publish: self.force_publish,
        }
    }
}

/// The text reported of a save.
fn save_text(kind: SaveKind, result: &Result<(), String>) -> (text: String)
    ensures
        text@ == save_message(kind, *result),
{
    match result {
        Ok(_) => match kind {
            SaveKind::Forced => "Saved successfully".to_owned(),
            SaveKind::Auto => "Auto save succeeded".to_owned(),
            SaveKind::Exit => "Exit save succeeded".to_owned(),
        },
        Err(error) => match kind {
            SaveKind::Forced => "Save failed: ".to_owned().concat(error.as_str()),
            SaveKind::Auto => "Auto save failed: ".to_owned().concat(error.as_str()),
            SaveKind::Exit => "Exit save failed: ".to_owned().concat(error.as_str()),
        },
    }
}

impl MonitorCore {
    /// The profile as it stands.
    pub fn profile(&self) -> (p: &UserProfile)
        ensures
            p@ == self@.profile,
    {
        &self.profile
    }

    /// A monitor that starts on `profile` at `started_ms` of the monotonic
    /// clock.
    pub fn new(profile: UserProfile, started_ms: u64) -> (core: MonitorCore)
        ensures
            core@ == MonitorModel::initial(profile@, started_ms),
    {
        let detector = ChatterDetector::new(profile.config.chatter_threshold_ms);
        MonitorCore {
            profile,
            detector,
            shared: MonitorSharedState::default(),
            was_connected: false,
            was_game_running: false,
            timer_active: false,
            session_start: None,
            last_process_check_ms: started_ms,
            last_publish_ms: started_ms,
            last_save_ms: started_ms,
            force_publish: false,
        }
    }

    /// The latest snapshot.
    pub fn shared_state(&self) -> (s: &MonitorSharedState)
        ensures
            s@ == self@.shared,
    {
        &self.shared
    }

    /// Whether the controller was connected at the last poll.
    pub fn is_connected(&self) -> (b: bool)
        ensures
            b == self@.was_connected,
    {
        self.was_connected
    }

    /// Whether the game was running at the last poll.
    pub fn is_game_running(&self) -> (b: bool)
        ensures
            b == self@.was_game_running,
    {
        self.was_game_running
    }

    /// What a command leaves to be done outside the profile: a changed input
    /// method is to be passed on, a forced save is to be made.
    pub fn command_effect(&self, cmd: &MonitorCommand) -> (effect: CommandEffect)
        ensures
            effect == self@.effect_of(cmd@),
    {
        match cmd {
            MonitorCommand::UpdateConfig(cfg) => CommandEffect {
                switch_input_to: if cfg.input_method != self.profile.config.input_method {
                    Some(cfg.input_method)
                } else {
                    None
                },
                save_now: false,
            },
            MonitorCommand::ForceSave => CommandEffect { switch_input_to: None, save_now: true },
            _ => CommandEffect { switch_input_to: None, save_now: false },
        }
    }

    /// Handles one command at `now` and says what is left to do outside the
    /// profile.
    pub fn handle_command(&mut self, cmd: MonitorCommand, now: Timestamp) -> (effect: CommandEffect)
        ensures
            final(self)@ == old(self)@.handle(cmd@, now),
            effect == old(self)@.effect_of(cmd@),
    {
        let effect = self.command_effect(&cmd);
        match &cmd {
            MonitorCommand::UpdateConfig(cfg) => {
                self.detector = ChatterDetector::new(cfg.chatter_threshold_ms);
            },
            _ => {},
        }
        self.profile.apply_command(cmd, now);
        effect
    }

    /// Takes one command from the queue at `now`. `Shutdown` stops the loop
    /// and changes nothing; any other command is handled and marks the
    /// iteration for a publish.
    pub fn receive(&mut self, cmd: MonitorCommand, now: Timestamp) -> (r: (Flow, CommandEffect))
        ensures
            final(self)@ == old(self)@.receive(cmd@, now),
            r.0 == if cmd@ is Shutdown {
                Flow::Stop
            } else {
                Flow::Continue
            },
            r.1 == old(self)@.effect_of(cmd@),
    {
        match cmd {
            MonitorCommand::Shutdown => (
                Flow::Stop,
                CommandEffect { switch_input_to: None, save_now: false },
            ),
            other => {
                let effect = self.handle_command(other, now);
                self.force_publish = true;
                (Flow::Continue, effect)
            },
        }
    }

    /// Marks the iteration for a publish.
    pub fn mark_for_publish(&mut self)
        ensures
            final(self)@ == (MonitorModel { force_publish: true, ..old(self)@ }),
    {
        self.force_publish = true;
    }

    /// How long to wait for a command before the next poll, in
    /// milliseconds.
    pub fn polling_interval_ms(&self) -> (ms: u64)
        ensures
            ms == self@.polling_interval(),
    {
        if self.was_connected {
            self.profile.config.polling_rate_ms_connected
        } else {
            self.profile.config.polling_rate_ms_disconnected
        }
    }

    /// Tells whether it is time to look for the game's process again.
    pub fn process_check_due(&self, monotonic_ms: u64) -> (due: bool)
        ensures
            due == self@.process_check_due(monotonic_ms),
    {
        monotonic_ms >= self.last_process_check_ms && monotonic_ms - self.last_process_check_ms
            >= PROCESS_CHECK_INTERVAL_MS
    }

    /// Tells whether it is time to save the profile unasked.
    pub fn auto_save_due(&self, monotonic_ms: u64) -> (due: bool)
        ensures
            due == self@.auto_save_due(monotonic_ms),
    {
        monotonic_ms >= self.last_save_ms && monotonic_ms - self.last_save_ms >= SAVE_INTERVAL_MS
    }

    /// Tells whether the keys can be observed at `now_ms`.
    pub fn can_observe(&self, now_ms: u64) -> (ok: bool)
        ensures
            ok == self@.can_observe(now_ms),
    {
        if !self.detector.admits(now_ms) {
            return false;
        }
        let n = self.profile.mapping.bindings.len();
        let m = self.profile.switches.len();
        proof {
            lemma_map_entries(self.profile.switches@, |d: SwitchData| d@);
        }
        let mut i: usize = 0;
        while i < n
            invariant
                i <= n,
                n == self.profile.mapping.bindings@.len(),
                forall|j: int|
                    0 <= j < i ==> switch_or_unknown(
                        self.profile@.switches,
                        (#[trigger] self.profile.mapping.bindings@[j]).0,
                    ).stats.has_headroom(),
                forall|k: LogicalKey|
                    #[trigger] crate::key_map::lookup(self.profile@.switches, k)
                        == match crate::key_map::lookup(self.profile.switches@, k) {
                        Some(d) => Some(d@),
                        None => None,
                    },
            decreases n - i,
        {
            let key = self.profile.mapping.bindings.key_at(i);
            let ok = match self.profile.switches.get(&key) {
                Some(switch) => switch.stats.check_headroom(),
                None => true,
            };
            if !ok {
                assert(!switch_or_unknown(
                    self.profile@.switches,
                    self.profile.mapping.bindings@[i as int].0,
                ).stats.has_headroom());
                return false;
            }
            i += 1;
        }
        true
    }

    /// Takes in that the controller is connected or not and says what is to
    /// be done with the timer.
    fn note_connection(&mut self, is_connected: bool) -> (action: TimerAction)
        ensures
            final(self)@ == old(self)@.after_connection(is_connected),
            action == old(self)@.timer_action(is_connected),
    {
        if is_connected != self.was_connected {
            let action = if is_connected && !self.timer_active {
                TimerAction::Acquire
            } else if !is_connected && self.timer_active {
                TimerAction::Release
            } else {
                TimerAction::Keep
            };
            self.was_connected = is_connected;
            self.timer_active = is_connected;
            self.force_publish = true;
            action
        } else {
            TimerAction::Keep
        }
    }

    /// Takes in whether the game runs, at `now`, and hands back the session
    /// that ended, if one did.
    fn note_session(&mut self, running: bool, now: Timestamp) -> (done: Option<CompletedSession>)
        ensures
            final(self)@ == old(self)@.after_session(running, now),
            match done {
                Some(session) => old(self)@.session_ends(running) && session.record
                    == SessionRecord::spanning(old(self)@.session_start.unwrap(), now)
                    && key_stats_view(session.key_stats@) == session_key_stats(
                    old(self)@.profile.switches,
                ),
                None => !old(self)@.session_ends(running),
            },
    {
        if running != self.was_game_running {
            self.was_game_running = running;
            self.force_publish = true;
            if running {
                self.session_start = Some(now);
                self.profile.start_session();
                None
            } else {
                let started = self.session_start;
                self.session_start = None;
                match started {
                    Some(start) => Some(self.profile.end_session(start, now)),
                    None => None,
                }
            }
        } else {
            None
        }
    }

    /// One poll: takes in the reading of the controller, the outcome of the
    /// check for the game's process where one was made, and the time, and
    /// moves connection, keys, session and snapshot on.
    pub fn poll(
        &mut self,
        input: &Result<u32, InputError>,
        observed_running: Option<bool>,
        clock: Clock,
    ) -> (outcome: PollOutcome)
        requires
            buttons_of(*input) is Some ==> old(self)@.can_observe(clock.unix_ms),
        ensures
            final(self)@ == old(self)@.poll(buttons_of(*input), observed_running, clock),
            outcome.timer == old(self)@.timer_action(buttons_of(*input) is Some),
            outcome.published == old(self)@.polled(
                buttons_of(*input),
                observed_running,
                clock,
            ).publish_due(clock.monotonic_ms),
            match outcome.completed_session {
                Some(session) => {
                    let before = old(self)@.polled(buttons_of(*input), observed_running, clock);
                    &&& old(self)@.session_ends(old(self)@.game_running(observed_running))
                    &&& session.record == SessionRecord::spanning(
                        old(self)@.session_start.unwrap(),
                        clock.utc,
                    )
                    &&& key_stats_view(session.key_stats@) == session_key_stats(
                        before.profile.switches,
                    )
                },
                None => !old(self)@.session_ends(old(self)@.game_running(observed_running)),
            },
    {
        let is_connected = input.is_ok();
        let running = match observed_running {
            Some(r) => r,
            None => self.was_game_running,
        };
        let timer = self.note_connection(is_connected);
        if observed_running.is_some() {
            self.last_process_check_ms = clock.monotonic_ms;
        }
        let mut pressed: Vec<LogicalKey> = Vec::new();
        let mut raw: u32 = 0;
        match input {
            Ok(buttons) => {
                raw = *buttons;
                pressed =
                observe_all(
                    &mut self.detector,
                    &mut self.profile.switches,
                    &self.profile.mapping.bindings,
                    raw,
                    clock.unix_ms,
                    running,
                );
            },
            Err(_) => {},
        }
        let completed_session = self.note_session(running, clock.utc);
        let published = self.force_publish || (clock.monotonic_ms >= self.last_publish_ms
            && clock.monotonic_ms - self.last_publish_ms >= PUBLISH_INTERVAL_MS);
        if published {
            self.shared.supersede(&self.profile, is_connected, running, pressed, raw);
            self.last_publish_ms = clock.monotonic_ms;
            self.force_publish = false;
        }
        PollOutcome { timer, completed_session, published }
    }

    /// Takes in how a save of the given kind ended.
    pub fn record_save(
        &mut self,
        kind: SaveKind,
        result: &Result<(), String>,
        now: Timestamp,
        monotonic_ms: u64,
    )
        ensures
            final(self)@ == old(self)@.after_save(kind, *result, now, monotonic_ms),
    {
        let text = save_text(kind, result);
        if kind == SaveKind::Forced {
            self.shared.last_status_message = Some(text.clone());
        }
        self.shared.last_save_result = Some(
            LastSaveResult { success: result.is_ok(), message: text, timestamp: now },
        );
        if kind == SaveKind::Auto {
            self.last_save_ms = monotonic_ms;
        }
        if kind == SaveKind::Exit {
            self.timer_active = false;
        }
    }
}

} // verus!
