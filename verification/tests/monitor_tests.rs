use switch_life_manager::backends::{
    ConfigRepository, InputError, InputSource, MockInputSource, MockProcessMonitor, ProcessMonitor,
    SessionRepository,
};
use switch_life_manager::commands::MonitorCommand;
use switch_life_manager::config::{AppConfig, InputMethod};
use switch_life_manager::key_map::KeyMap;
use switch_life_manager::keys::LogicalKey;
use switch_life_manager::monitor::{
    Clock, Flow, MonitorCore, SaveKind, TimerAction, PROCESS_CHECK_INTERVAL_MS,
    PUBLISH_INTERVAL_MS, SAVE_INTERVAL_MS,
};
use switch_life_manager::profile::{SessionKeyStats, SessionRecord, UserProfile};
use switch_life_manager::service::MonitorService;
use switch_life_manager::session::RECENT_SESSIONS_CAP;
use switch_life_manager::snapshot::MonitorSharedState;
use switch_life_manager::stats::ButtonStats;
use switch_life_manager::switches::{HistoryEvent, SwitchData};
use switch_life_manager::time::Timestamp;
use crossbeam_channel::{bounded, Sender};
use std::cell::RefCell;
use std::rc::Rc;

struct FixedInput {
    state: Rc<RefCell<Result<u32, ()>>>,
    methods: Rc<RefCell<Vec<InputMethod>>>,
}

impl InputSource for FixedInput {
    fn get_state(&mut self, _controller_index: u32) -> Result<u32, InputError> {
        match *self.state.borrow() {
            Ok(raw) => Ok(raw),
            Err(()) => Err(InputError::Disconnected),
        }
    }

    fn set_input_method(&mut self, method: InputMethod) {
        self.methods.borrow_mut().push(method);
    }
}

struct SharedProcess {
    running: Rc<RefCell<bool>>,
}

impl ProcessMonitor for SharedProcess {
    fn is_process_running(&mut self, _process_name: &str) -> bool {
        *self.running.borrow()
    }
}

struct MockRepository {
    profile: UserProfile,
    fail_with: Option<String>,
    saves: Rc<RefCell<u32>>,
}

impl ConfigRepository for MockRepository {
    fn load(&self) -> Result<UserProfile, String> {
        if self.profile.config.target_process_name == "unloadable" {
            return Err("cannot load".to_string());
        }
        Ok(self.profile.clone())
    }

    fn save(&self, _profile: &UserProfile) -> Result<(), String> {
        *self.saves.borrow_mut() += 1;
        match &self.fail_with {
            Some(why) => Err(why.clone()),
            None => Ok(()),
        }
    }
}

struct RecordingSessions {
    saved: Rc<RefCell<Vec<(SessionRecord, Vec<SessionKeyStats>)>>>,
}

impl SessionRepository for RecordingSessions {
    fn save(&self, session: &SessionRecord, stats: &Vec<SessionKeyStats>) -> Result<i64, String> {
        self.saved.borrow_mut().push((*session, stats.clone()));
        Ok(self.saved.borrow().len() as i64)
    }

    fn get_recent(&self, _limit: i64, _offset: i64) -> Result<Vec<SessionRecord>, String> {
        Ok(self.saved.borrow().iter().map(|s| s.0).collect())
    }

    fn get_details(&self, _session_id: i64) -> Result<Vec<SessionKeyStats>, String> {
        Ok(Vec::new())
    }
}

struct Rig {
    state: Rc<RefCell<Result<u32, ()>>>,
    methods: Rc<RefCell<Vec<InputMethod>>>,
    running: Rc<RefCell<bool>>,
    saves: Rc<RefCell<u32>>,
    sessions: Rc<RefCell<Vec<(SessionRecord, Vec<SessionKeyStats>)>>>,
    tx: Sender<MonitorCommand>,
    service: MonitorService<FixedInput, SharedProcess, MockRepository, RecordingSessions>,
}

fn rig_with(profile: UserProfile, fail_with: Option<String>) -> Rig {
    let state = Rc::new(RefCell::new(Ok(0)));
    let methods = Rc::new(RefCell::new(Vec::new()));
    let running = Rc::new(RefCell::new(false));
    let saves = Rc::new(RefCell::new(0));
    let sessions = Rc::new(RefCell::new(Vec::new()));
    let (tx, rx) = bounded(10);
    let service = MonitorService::new(
        FixedInput { state: state.clone(), methods: methods.clone() },
        SharedProcess { running: running.clone() },
        MockRepository { profile, fail_with, saves: saves.clone() },
        RecordingSessions { saved: sessions.clone() },
        rx,
        0,
    )
    .unwrap();
    Rig { state, methods, running, saves, sessions, tx, service }
}

fn rig(profile: UserProfile) -> Rig {
    rig_with(profile, None)
}

fn at(ms: u64) -> Clock {
    Clock {
        monotonic_ms: ms,
        unix_ms: 1_000_000 + ms,
        utc: Timestamp { secs: 1_000 + (ms / 1000) as i64, nanos: ((ms % 1000) * 1_000_000) as u32 },
    }
}

fn switch(model: &str, stats: ButtonStats) -> SwitchData {
    SwitchData { switch_model_id: model.to_string(), stats, last_replaced_at: None }
}

#[test]
fn test_monitor_initialization() {
    let (_tx, rx) = bounded(10);
    let service = MonitorService::new(
        MockInputSource::new(vec![]),
        MockProcessMonitor::new(false),
        MockRepository { profile: UserProfile::default(), fail_with: None, saves: Rc::new(RefCell::new(0)) },
        RecordingSessions { saved: Rc::new(RefCell::new(Vec::new())) },
        rx,
        0,
    );
    assert!(service.is_ok());
}

#[test]
fn test_handle_command_update_config() {
    let mut rig = rig(UserProfile::default());
    let service = &mut rig.service;

    assert_eq!(service.profile().config.target_controller_index, 0);

    let mut new_config = AppConfig::default();
    new_config.target_controller_index = 2;
    new_config.target_process_name = "test_game.exe".to_string();

    service.handle_command(MonitorCommand::UpdateConfig(new_config.clone()), at(5));

    assert_eq!(service.profile().config.target_controller_index, 2);
    assert_eq!(service.profile().config.target_process_name, "test_game.exe");
    assert_eq!(service.shared_state().config.target_controller_index, 0);
}

#[test]
fn test_shared_state_includes_config() {
    let shared_state = MonitorSharedState::default();
    let snapshot = &shared_state;
    let _config: &AppConfig = &snapshot.config;
    assert_eq!(_config.target_controller_index, 0);
}

#[test]
fn test_handle_command_audit_and_reset() {
    let mut profile = UserProfile::default();
    let key = LogicalKey::Key1;

    let mut stats = ButtonStats::default();
    stats.total_presses = 100;
    stats.total_chatters = 5;

    profile.switches.insert(key.clone(), switch("old_model", stats.clone()));

    let mut rig = rig(profile);
    let service = &mut rig.service;

    service.handle_command(MonitorCommand::ResetStats { key: key.clone() }, at(10));

    let switch_data = service.profile().switches.get(&key).unwrap();
    assert_eq!(switch_data.stats.total_presses, 0);
    assert_eq!(switch_data.stats.total_chatters, 0);
    assert_eq!(switch_data.switch_model_id, "old_model");

    let mut worn = service.profile().clone();
    let mut used = ButtonStats::default();
    used.total_presses = 50;
    worn.switches.insert(key.clone(), switch("old_model", used));
    let mut rig = rig_with(worn, None);
    let service = &mut rig.service;

    service.handle_command(
        MonitorCommand::ReplaceSwitch { key: key.clone(), new_model_id: "new_model".to_string() },
        at(20),
    );

    let switch_data = service.profile().switches.get(&key).unwrap();
    assert_eq!(switch_data.stats.total_presses, 0);
    assert_eq!(switch_data.switch_model_id, "new_model");
}

#[test]
fn test_conflict_resolution() {
    let mut profile = UserProfile::default();
    profile.mapping.bindings.insert(LogicalKey::Key1, 1);

    let mut rig = rig(profile);
    let service = &mut rig.service;

    service.handle_command(MonitorCommand::SetKeyBinding { key: LogicalKey::Key2, button: 1 }, at(1));

    assert!(service.profile().mapping.bindings.contains_key(&LogicalKey::Key1));
    assert_eq!(service.profile().mapping.bindings.get(&LogicalKey::Key1), Some(&0));
    assert_eq!(service.profile().mapping.bindings.get(&LogicalKey::Key2), Some(&1));
}

#[test]
fn new_service_sets_the_input_method_of_the_profile() {
    let mut profile = UserProfile::default();
    profile.config.input_method = InputMethod::XInput;
    let rig = rig(profile);
    assert_eq!(*rig.methods.borrow(), vec![InputMethod::XInput]);
    assert_eq!(rig.service.polling_interval_ms(), 1000);
}

#[test]
fn update_config_switches_the_backend_only_when_the_method_changes() {
    let mut rig = rig(UserProfile::default());
    rig.methods.borrow_mut().clear();
    let mut same = AppConfig::default();
    same.chatter_threshold_ms = 30;
    rig.service.handle_command(MonitorCommand::UpdateConfig(same), at(1));
    assert!(rig.methods.borrow().is_empty());
    let mut other = AppConfig::default();
    other.input_method = InputMethod::XInput;
    rig.service.handle_command(MonitorCommand::UpdateConfig(other), at(2));
    assert_eq!(*rig.methods.borrow(), vec![InputMethod::XInput]);
    assert_eq!(rig.service.profile().config.input_method, InputMethod::XInput);
    assert_eq!(rig.service.profile().config.chatter_threshold_ms, 15);
}

#[test]
fn update_config_brings_a_detector_with_the_new_threshold() {
    let mut profile = UserProfile::default();
    profile.mapping.bindings = KeyMap::new();
    profile.mapping.bindings.insert(LogicalKey::Key1, 1);
    let mut core = MonitorCore::new(profile, 0);
    core.poll(&Ok(1), None, at(100));
    core.poll(&Ok(0), None, at(150));
    let mut wide = AppConfig::default();
    wide.chatter_threshold_ms = 100;
    let effect = core.handle_command(MonitorCommand::UpdateConfig(wide), at(151).utc);
    assert_eq!(effect.switch_input_to, None);
    assert!(!effect.save_now);
    core.poll(&Ok(1), None, at(155));
    let stats = core.profile().switches.get(&LogicalKey::Key1).unwrap().stats;
    assert_eq!(stats.total_presses, 2);
    assert_eq!(stats.total_chatters, 0);
    core.poll(&Ok(0), None, at(200));
    core.poll(&Ok(1), None, at(290));
    let stats = core.profile().switches.get(&LogicalKey::Key1).unwrap().stats;
    assert_eq!(stats.total_presses, 2);
    assert_eq!(stats.total_chatters, 1);
}

#[test]
fn update_mapping_replaces_name_and_bindings() {
    let mut rig = rig(UserProfile::default());
    let mut bindings: KeyMap<u32> = KeyMap::new();
    bindings.insert(LogicalKey::Other(9), 512);
    rig.service.handle_command(MonitorCommand::UpdateMapping("Mine".to_string(), bindings), at(1));
    assert_eq!(rig.service.profile().mapping.profile_name, "Mine");
    assert_eq!(rig.service.profile().mapping.bindings.len(), 1);
    assert_eq!(rig.service.profile().mapping.bindings.get(&LogicalKey::Other(9)), Some(&512));
}

#[test]
fn replace_switch_audits_the_old_switch() {
    let mut profile = UserProfile::default();
    let mut stats = ButtonStats::default();
    stats.total_presses = 100;
    stats.total_chatters = 5;
    stats.last_session_presses = 7;
    profile.switches.insert(LogicalKey::Key1, switch("old_model", stats));
    let mut rig = rig(profile);
    let now = at(3000);
    rig.service.handle_command(
        MonitorCommand::ReplaceSwitch { key: LogicalKey::Key1, new_model_id: "new_model".to_string() },
        now,
    );
    let profile = rig.service.profile();
    assert_eq!(profile.switch_history.len(), 1);
    let entry = &profile.switch_history[0];
    assert_eq!(entry.date, now.utc);
    assert_eq!(entry.key, LogicalKey::Key1);
    assert_eq!(entry.old_model_id, "old_model");
    assert_eq!(entry.new_model_id, "new_model");
    assert_eq!(entry.previous_stats.total_presses, 100);
    assert_eq!(entry.previous_stats.total_chatters, 5);
    assert_eq!(entry.previous_stats.last_session_presses, 7);
    assert_eq!(entry.event_type, HistoryEvent::Replace);
    assert_eq!(entry.event_type.to_string(), "Replace");
    let data = profile.switches.get(&LogicalKey::Key1).unwrap();
    assert_eq!(data.switch_model_id, "new_model");
    assert_eq!(data.stats.total_presses, 0);
    assert_eq!(data.stats.last_session_presses, 0);
    assert_eq!(data.last_replaced_at, Some(now.utc));
}

#[test]
fn replace_switch_on_a_key_without_a_switch_creates_it_unaudited() {
    let mut rig = rig(UserProfile::default());
    let now = at(42);
    rig.service.handle_command(
        MonitorCommand::ReplaceSwitch { key: LogicalKey::E2, new_model_id: "omron".to_string() },
        now,
    );
    let profile = rig.service.profile();
    assert!(profile.switch_history.is_empty());
    let data = profile.switches.get(&LogicalKey::E2).unwrap();
    assert_eq!(data.switch_model_id, "omron");
    assert_eq!(data.stats.total_presses, 0);
    assert_eq!(data.last_replaced_at, Some(now.utc));
}

#[test]
fn reset_stats_audits_and_keeps_the_model() {
    let mut profile = UserProfile::default();
    let mut stats = ButtonStats::default();
    stats.total_releases = 9;
    profile.switches.insert(LogicalKey::Key4, switch("m", stats));
    let mut rig = rig(profile);
    let now = at(77);
    rig.service.handle_command(MonitorCommand::ResetStats { key: LogicalKey::Key4 }, now);
    let profile = rig.service.profile();
    assert_eq!(profile.switch_history.len(), 1);
    assert_eq!(profile.switch_history[0].event_type, HistoryEvent::Reset);
    assert_eq!(profile.switch_history[0].event_type.to_string(), "Reset");
    assert_eq!(profile.switch_history[0].old_model_id, "m");
    assert_eq!(profile.switch_history[0].new_model_id, "m");
    assert_eq!(profile.switch_history[0].previous_stats.total_releases, 9);
    let data = profile.switches.get(&LogicalKey::Key4).unwrap();
    assert_eq!(data.stats.total_releases, 0);
    assert_eq!(data.last_replaced_at, Some(now.utc));
}

#[test]
fn commands_on_unknown_keys_change_nothing() {
    let mut rig = rig(UserProfile::default());
    rig.service.handle_command(MonitorCommand::ResetStats { key: LogicalKey::Key4 }, at(1));
    rig.service.handle_command(
        MonitorCommand::SetLastReplacedDate { key: LogicalKey::Key4, date: Timestamp { secs: 5, nanos: 0 } },
        at(2),
    );
    assert!(rig.service.profile().switch_history.is_empty());
    assert_eq!(rig.service.profile().switches.len(), 0);
}

#[test]
fn set_last_replaced_date_audits_and_keeps_the_wear() {
    let mut profile = UserProfile::default();
    let mut stats = ButtonStats::default();
    stats.total_presses = 12;
    profile.switches.insert(LogicalKey::Key4, switch("m", stats));
    let mut rig = rig(profile);
    let date = Timestamp { secs: 1_600_000_000, nanos: 0 };
    let now = at(9);
    rig.service.handle_command(MonitorCommand::SetLastReplacedDate { key: LogicalKey::Key4, date }, now);
    let profile = rig.service.profile();
    assert_eq!(profile.switch_history.len(), 1);
    assert_eq!(profile.switch_history[0].event_type, HistoryEvent::ManualEdit);
    assert_eq!(profile.switch_history[0].event_type.to_string(), "ManualEdit");
    assert_eq!(profile.switch_history[0].date, now.utc);
    assert_eq!(profile.switch_history[0].previous_stats.total_presses, 12);
    let data = profile.switches.get(&LogicalKey::Key4).unwrap();
    assert_eq!(data.stats.total_presses, 12);
    assert_eq!(data.last_replaced_at, Some(date));
    assert_eq!(data.switch_model_id, "m");
}

#[test]
fn force_save_saves_and_reports() {
    let mut rig = rig(UserProfile::default());
    let now = at(500);
    rig.service.handle_command(MonitorCommand::ForceSave, now);
    assert_eq!(*rig.saves.borrow(), 1);
    let shared = rig.service.shared_state();
    assert_eq!(shared.last_status_message.as_deref(), Some("Saved successfully"));
    let result = shared.last_save_result.as_ref().unwrap();
    assert!(result.success);
    assert_eq!(result.message, "Saved successfully");
    assert_eq!(result.timestamp, now.utc);
}

#[test]
fn failed_force_save_is_reported_and_not_fatal() {
    let mut rig = rig_with(UserProfile::default(), Some("disk full".to_string()));
    assert_eq!(rig.service.receive(MonitorCommand::ForceSave, at(500)), Flow::Continue);
    let shared = rig.service.shared_state();
    assert_eq!(shared.last_status_message.as_deref(), Some("Save failed: disk full"));
    let result = shared.last_save_result.as_ref().unwrap();
    assert!(!result.success);
    assert_eq!(result.message, "Save failed: disk full");
    assert!(rig.service.poll(at(501)).is_some());
}

#[test]
fn shutdown_stops_the_loop_and_changes_nothing() {
    let mut rig = rig(UserProfile::default());
    assert_eq!(rig.service.receive(MonitorCommand::Shutdown, at(1)), Flow::Stop);
    let outcome = rig.service.poll(at(2)).unwrap();
    assert!(outcome.published);
    assert_eq!(outcome.timer, TimerAction::Acquire);
    rig.service.shutdown(at(3));
    assert_eq!(*rig.saves.borrow(), 1);
    let result = rig.service.shared_state().last_save_result.as_ref().unwrap();
    assert!(result.success);
    assert_eq!(result.message, "Exit save succeeded");
    assert_eq!(rig.service.shared_state().last_status_message, None);
}

#[test]
fn failed_exit_save_is_reported() {
    let mut rig = rig_with(UserProfile::default(), Some("gone".to_string()));
    rig.service.shutdown(at(3));
    let result = rig.service.shared_state().last_save_result.as_ref().unwrap();
    assert!(!result.success);
    assert_eq!(result.message, "Exit save failed: gone");
}

#[test]
fn a_handled_command_forces_the_next_publish() {
    let mut rig = rig(UserProfile::default());
    assert!(rig.service.poll(at(1)).unwrap().published);
    assert!(!rig.service.poll(at(2)).unwrap().published);
    assert_eq!(
        rig.service.receive(MonitorCommand::SetKeyBinding { key: LogicalKey::Key1, button: 4096 }, at(3)),
        Flow::Continue
    );
    assert_eq!(rig.service.shared_state().bindings.get(&LogicalKey::Key1), Some(&8));
    assert!(rig.service.poll(at(4)).unwrap().published);
    assert_eq!(rig.service.shared_state().bindings.get(&LogicalKey::Key1), Some(&4096));
    assert!(!rig.service.poll(at(5)).unwrap().published);
}

#[test]
fn publishing_is_throttled_to_the_publish_interval() {
    let mut rig = rig(UserProfile::default());
    assert!(rig.service.poll(at(1)).unwrap().published);
    for ms in 2..(1 + PUBLISH_INTERVAL_MS) {
        assert!(!rig.service.poll(at(ms)).unwrap().published, "at {}", ms);
    }
    assert!(rig.service.poll(at(1 + PUBLISH_INTERVAL_MS)).unwrap().published);
    assert!(!rig.service.poll(at(2 + PUBLISH_INTERVAL_MS)).unwrap().published);
}

#[test]
fn connection_changes_drive_the_timer_and_the_polling_rate() {
    let mut rig = rig(UserProfile::default());
    *rig.state.borrow_mut() = Err(());
    assert_eq!(rig.service.polling_interval_ms(), 1000);
    let outcome = rig.service.poll(at(10)).unwrap();
    assert_eq!(outcome.timer, TimerAction::Keep);
    assert!(!rig.service.shared_state().is_connected || outcome.published);
    *rig.state.borrow_mut() = Ok(0);
    let outcome = rig.service.poll(at(11)).unwrap();
    assert_eq!(outcome.timer, TimerAction::Acquire);
    assert!(outcome.published);
    assert!(rig.service.shared_state().is_connected);
    assert_eq!(rig.service.polling_interval_ms(), 1);
    let outcome = rig.service.poll(at(12)).unwrap();
    assert_eq!(outcome.timer, TimerAction::Keep);
    *rig.state.borrow_mut() = Err(());
    let outcome = rig.service.poll(at(13)).unwrap();
    assert_eq!(outcome.timer, TimerAction::Release);
    assert!(outcome.published);
    assert!(!rig.service.shared_state().is_connected);
    assert_eq!(rig.service.shared_state().raw_button_state, 0);
    assert!(rig.service.shared_state().current_pressed_keys.is_empty());
    assert_eq!(rig.service.polling_interval_ms(), 1000);
}

#[test]
fn backend_errors_count_as_disconnected() {
    let mut core = MonitorCore::new(UserProfile::default(), 0);
    let outcome = core.poll(&Ok(0), None, at(1));
    assert_eq!(outcome.timer, TimerAction::Acquire);
    let outcome = core.poll(&Err(InputError::Other("driver".to_string())), None, at(2));
    assert_eq!(outcome.timer, TimerAction::Release);
    assert!(!core.is_connected());
    assert_eq!(InputError::Other("driver".to_string()).to_string(), "Input source error: driver");
    assert_eq!(InputError::Disconnected.to_string(), "Device disconnected");
}

#[test]
fn polling_counts_presses_of_bound_keys_and_creates_their_switches() {
    let mut rig = rig(UserProfile::default());
    *rig.state.borrow_mut() = Ok(8 | 2);
    rig.service.poll(at(100));
    let profile = rig.service.profile();
    assert_eq!(profile.switches.len(), 11);
    assert_eq!(profile.switches.key_at(0), LogicalKey::Key1);
    let key1 = profile.switches.get(&LogicalKey::Key1).unwrap();
    assert_eq!(key1.switch_model_id, "generic_unknown");
    assert_eq!(key1.stats.total_presses, 1);
    assert_eq!(key1.stats.last_session_presses, 0);
    assert_eq!(key1.last_replaced_at, None);
    assert_eq!(profile.switches.get(&LogicalKey::Key3).unwrap().stats.total_presses, 1);
    assert_eq!(profile.switches.get(&LogicalKey::Key2).unwrap().stats.total_presses, 0);
    let shared = rig.service.shared_state();
    assert_eq!(shared.raw_button_state, 10);
    assert_eq!(shared.current_pressed_keys, vec![LogicalKey::Key1, LogicalKey::Key3]);
    assert_eq!(shared.switches.get(&LogicalKey::Key1).unwrap().stats.total_presses, 1);
    *rig.state.borrow_mut() = Ok(0);
    rig.service.poll(at(140));
    *rig.state.borrow_mut() = Ok(8);
    rig.service.poll(at(145));
    let key1 = rig.service.profile().switches.get(&LogicalKey::Key1).unwrap();
    assert_eq!(key1.stats.total_presses, 1);
    assert_eq!(key1.stats.total_releases, 1);
    assert_eq!(key1.stats.total_chatters, 1);
    assert_eq!(key1.stats.total_chatter_releases, 1);
}

#[test]
fn unbound_keys_are_never_pressed() {
    let mut profile = UserProfile::default();
    profile.mapping.bindings.insert(LogicalKey::Key1, 0);
    let mut core = MonitorCore::new(profile, 0);
    core.poll(&Ok(u32::MAX), None, at(1));
    assert_eq!(core.profile().switches.get(&LogicalKey::Key1).unwrap().stats.total_presses, 0);
    assert_eq!(core.profile().switches.get(&LogicalKey::Key2).unwrap().stats.total_presses, 1);
    assert!(!core.shared_state().current_pressed_keys.contains(&LogicalKey::Key1));
}

#[test]
fn the_process_check_is_made_every_two_seconds() {
    let mut rig = rig(UserProfile::default());
    *rig.running.borrow_mut() = true;
    rig.service.poll(at(PROCESS_CHECK_INTERVAL_MS - 1));
    assert!(!rig.service.shared_state().is_game_running);
    let outcome = rig.service.poll(at(PROCESS_CHECK_INTERVAL_MS)).unwrap();
    assert!(outcome.published);
    assert!(rig.service.shared_state().is_game_running);
    *rig.running.borrow_mut() = false;
    rig.service.poll(at(2 * PROCESS_CHECK_INTERVAL_MS - 1));
    assert!(rig.service.shared_state().is_game_running || !rig.sessions.borrow().is_empty());
    assert!(rig.sessions.borrow().is_empty());
    rig.service.poll(at(2 * PROCESS_CHECK_INTERVAL_MS));
    assert_eq!(rig.sessions.borrow().len(), 1);
}

#[test]
fn game_start_resets_session_counters_and_keeps_lifetime_counters() {
    let mut profile = UserProfile::default();
    let mut stats = ButtonStats::default();
    stats.total_presses = 100;
    stats.total_releases = 99;
    stats.total_chatters = 4;
    stats.total_chatter_releases = 3;
    stats.last_session_presses = 50;
    stats.last_session_chatters = 2;
    stats.last_session_chatter_releases = 1;
    profile.switches.insert(LogicalKey::Key1, switch("test", stats));
    profile.switches.insert(LogicalKey::Other(3), switch("other", stats));
    let mut core = MonitorCore::new(profile, 0);
    core.poll(&Ok(0), Some(false), at(10));
    assert_eq!(core.shared_state().switches.get(&LogicalKey::Key1).unwrap().stats.last_session_presses, 50);
    let outcome = core.poll(&Ok(0), Some(true), at(2100));
    assert!(outcome.published);
    assert!(outcome.completed_session.is_none());
    assert!(core.is_game_running());
    for key in [LogicalKey::Key1, LogicalKey::Other(3)] {
        let after = core.profile().switches.get(&key).unwrap().stats;
        assert_eq!(after.last_session_presses, 0, "Session presses should be reset after game start");
        assert_eq!(after.last_session_chatters, 0);
        assert_eq!(after.last_session_chatter_releases, 0);
        assert_eq!(after.total_presses, 100);
        assert_eq!(after.total_releases, 99);
        assert_eq!(after.total_chatters, 4);
        assert_eq!(after.total_chatter_releases, 3);
    }
    assert_eq!(core.profile().switches.get(&LogicalKey::Key1).unwrap().switch_model_id, "test");
    assert_eq!(core.shared_state().switches.get(&LogicalKey::Key1).unwrap().stats.last_session_presses, 0);
}

#[test]
fn game_end_after_sixty_seconds_records_one_session_of_sixty_seconds() {
    let mut rig = rig(UserProfile::default());
    *rig.running.borrow_mut() = true;
    *rig.state.borrow_mut() = Ok(8);
    rig.service.poll(at(2_000));
    *rig.state.borrow_mut() = Ok(0);
    rig.service.poll(at(2_500));
    *rig.state.borrow_mut() = Ok(8);
    rig.service.poll(at(3_000));
    assert!(rig.sessions.borrow().is_empty());
    assert!(rig.service.profile().recent_sessions.is_empty());
    for ms in [10_000u64, 30_000, 59_000] {
        assert!(rig.service.poll(at(ms)).unwrap().completed_session.is_none());
    }
    *rig.running.borrow_mut() = false;
    let outcome = rig.service.poll(at(62_000)).unwrap();
    let done = outcome.completed_session.unwrap();
    assert_eq!(done.record.duration_secs, 60);
    assert_eq!(done.record.id, None);
    assert_eq!(done.record.start_time, at(2_000).utc);
    assert_eq!(done.record.end_time, at(62_000).utc);
    assert_eq!(rig.service.profile().recent_sessions, vec![done.record]);
    assert_eq!(rig.service.shared_state().recent_sessions, vec![done.record]);
    assert_eq!(rig.sessions.borrow().len(), 1);
    let (record, rows) = rig.sessions.borrow()[0].clone();
    assert_eq!(record, done.record);
    assert_eq!(rows.len(), 11);
    assert_eq!(rows[0].key_name, "Key1");
    assert_eq!(rows[0].session_id, 0);
    assert_eq!(rows[0].presses, 1);
    assert_eq!(rows[0].chatters, 0);
    assert_eq!(rows[1].key_name, "Key2");
    assert_eq!(rows[1].presses, 0);
    assert_eq!(rows[10].key_name, "E4");
    for ms in [64_000u64, 66_000, 100_000] {
        assert!(rig.service.poll(at(ms)).unwrap().completed_session.is_none());
    }
    assert_eq!(rig.sessions.borrow().len(), 1);
    assert_eq!(rig.service.profile().recent_sessions.len(), 1);
}

#[test]
fn only_the_latest_sessions_are_kept() {
    let mut core = MonitorCore::new(UserProfile::default(), 0);
    let mut ms = 0u64;
    let mut records = Vec::new();
    for round in 0..5u64 {
        ms += 1000;
        core.poll(&Ok(0), Some(true), at(ms));
        ms += 1000 * (round + 1);
        let done = core.poll(&Ok(0), Some(false), at(ms)).completed_session.unwrap();
        assert_eq!(done.record.duration_secs, round + 1);
        records.push(done.record);
        let kept = &core.profile().recent_sessions;
        assert!(kept.len() <= RECENT_SESSIONS_CAP);
        assert_eq!(kept.last(), Some(&done.record));
    }
    assert_eq!(RECENT_SESSIONS_CAP, 3);
    assert_eq!(core.profile().recent_sessions, records[2..].to_vec());
}

#[test]
fn presses_in_a_session_count_for_the_session() {
    let mut core = MonitorCore::new(UserProfile::default(), 0);
    core.poll(&Ok(8), Some(false), at(100));
    core.poll(&Ok(0), None, at(200));
    core.poll(&Ok(0), Some(true), at(2000));
    core.poll(&Ok(8), None, at(2100));
    core.poll(&Ok(0), None, at(2200));
    core.poll(&Ok(8), None, at(2205));
    let stats = core.profile().switches.get(&LogicalKey::Key1).unwrap().stats;
    assert_eq!(stats.total_presses, 2);
    assert_eq!(stats.last_session_presses, 1);
    assert_eq!(stats.total_chatters, 1);
    assert_eq!(stats.last_session_chatters, 1);
    assert_eq!(stats.last_session_chatter_releases, 1);
    let done = core.poll(&Ok(8), Some(false), at(5000)).completed_session.unwrap();
    assert_eq!(done.key_stats[0].key_name, "Key1");
    assert_eq!(done.key_stats[0].presses, 1);
    assert_eq!(done.key_stats[0].chatters, 1);
    assert_eq!(done.key_stats[0].chatter_releases, 1);
}

#[test]
fn the_profile_is_saved_every_minute() {
    let mut rig = rig(UserProfile::default());
    rig.service.poll(at(SAVE_INTERVAL_MS - 1));
    assert_eq!(*rig.saves.borrow(), 0);
    assert!(rig.service.shared_state().last_save_result.is_none());
    let outcome = rig.service.poll(at(SAVE_INTERVAL_MS)).unwrap();
    assert!(outcome.published);
    assert_eq!(*rig.saves.borrow(), 1);
    let result = rig.service.shared_state().last_save_result.as_ref().unwrap();
    assert!(result.success);
    assert_eq!(result.message, "Auto save succeeded");
    assert_eq!(result.timestamp, at(SAVE_INTERVAL_MS).utc);
    assert_eq!(rig.service.shared_state().last_status_message, None);
    rig.service.poll(at(2 * SAVE_INTERVAL_MS - 1));
    assert_eq!(*rig.saves.borrow(), 1);
    rig.service.poll(at(2 * SAVE_INTERVAL_MS));
    assert_eq!(*rig.saves.borrow(), 2);
}

#[test]
fn a_failed_auto_save_is_reported_and_tried_again() {
    let mut rig = rig_with(UserProfile::default(), Some("read-only".to_string()));
    rig.service.poll(at(SAVE_INTERVAL_MS));
    let result = rig.service.shared_state().last_save_result.as_ref().unwrap();
    assert!(!result.success);
    assert_eq!(result.message, "Auto save failed: read-only");
    rig.service.poll(at(2 * SAVE_INTERVAL_MS));
    assert_eq!(*rig.saves.borrow(), 2);
}

#[test]
fn a_clock_that_runs_backwards_is_not_taken_in() {
    let mut rig = rig(UserProfile::default());
    assert!(rig.service.poll(at(1000)).is_some());
    let mut back = at(1001);
    back.unix_ms = 5;
    assert!(rig.service.poll(back).is_none());
    assert_eq!(rig.service.profile().switches.get(&LogicalKey::Key1).unwrap().stats.total_presses, 0);
    *rig.state.borrow_mut() = Err(());
    assert!(rig.service.poll(back).is_some());
}

#[test]
fn a_full_counter_stops_observation() {
    let mut profile = UserProfile::default();
    let mut stats = ButtonStats::default();
    stats.total_presses = u64::MAX;
    profile.switches.insert(LogicalKey::Key1, switch("worn", stats));
    let mut core = MonitorCore::new(profile, 0);
    assert!(!core.can_observe(10));
    let mut profile = UserProfile::default();
    profile.switches.insert(LogicalKey::Other(1), switch("worn", stats));
    let core = MonitorCore::new(profile, 0);
    assert!(core.can_observe(10));
    assert!(!core.can_observe(u64::MAX));
    assert!(core.process_check_due(2000));
    assert!(!core.process_check_due(1999));
    assert!(core.auto_save_due(60_000));
    assert!(!core.auto_save_due(59_999));
}

#[test]
fn mock_input_source_replays_its_readings_in_order() {
    let mut source = MockInputSource::new(vec![Ok(3), Err(InputError::Disconnected), Ok(5)]);
    assert_eq!(source.states.len(), 3);
    assert!(matches!(source.get_state(0), Ok(3)));
    assert!(matches!(source.get_state(0), Err(InputError::Disconnected)));
    source.set_input_method(InputMethod::XInput);
    assert!(matches!(source.get_state(1), Ok(5)));
    assert!(matches!(source.get_state(1), Ok(0)));
    assert!(matches!(source.get_state(1), Ok(0)));
}

#[test]
fn mock_process_monitor_answers_as_told() {
    let mut monitor = MockProcessMonitor::new(false);
    assert!(!monitor.is_process_running("bm2dx.exe"));
    monitor.set_running(true);
    assert!(monitor.is_process_running("bm2dx.exe"));
    assert!(monitor.is_running);
}

#[test]
fn record_save_of_each_kind() {
    let mut core = MonitorCore::new(UserProfile::default(), 0);
    core.record_save(SaveKind::Auto, &Ok(()), at(5).utc, 70_000);
    assert!(!core.auto_save_due(70_001));
    assert!(core.auto_save_due(130_000));
    core.record_save(SaveKind::Forced, &Err("x".to_string()), at(6).utc, 0);
    assert_eq!(core.shared_state().last_status_message.as_deref(), Some("Save failed: x"));
    assert!(!core.auto_save_due(70_001));
    core.record_save(SaveKind::Exit, &Ok(()), at(7).utc, 0);
    assert_eq!(core.shared_state().last_save_result.as_ref().unwrap().message, "Exit save succeeded");
    assert_eq!(core.shared_state().last_status_message.as_deref(), Some("Save failed: x"));
}

#[test]
fn default_profile_and_snapshot() {
    let profile = UserProfile::default();
    assert_eq!(profile.schema_version, 1);
    assert_eq!(profile.config.target_controller_index, 0);
    assert_eq!(profile.config.input_method, InputMethod::DirectInput);
    assert_eq!(InputMethod::default(), InputMethod::DirectInput);
    assert_eq!(profile.config.chatter_threshold_ms, 15);
    assert_eq!(profile.config.polling_rate_ms_connected, 1);
    assert_eq!(profile.config.polling_rate_ms_disconnected, 1000);
    assert_eq!(profile.config.target_process_name, "bm2dx.exe");
    assert!(!profile.config.obs_enabled);
    assert_eq!(profile.mapping.profile_name, "Default");
    assert_eq!(profile.switches.len(), 0);
    assert!(profile.switch_history.is_empty());
    assert!(profile.recent_sessions.is_empty());
    let shared = MonitorSharedState::default();
    assert!(!shared.is_connected);
    assert!(!shared.is_game_running);
    assert_eq!(shared.profile_name, "");
    assert_eq!(shared.bindings.len(), 0);
    assert_eq!(shared.raw_button_state, 0);
    assert!(shared.last_status_message.is_none());
    assert!(shared.last_save_result.is_none());
    let copy = shared.clone();
    assert_eq!(copy.config.target_process_name, "bm2dx.exe");
}

#[test]
fn queued_commands_are_drained_in_order() {
    let mut rig = rig(UserProfile::default());
    assert_eq!(rig.service.drain_commands(at(1)), Flow::Continue);
    assert!(rig.service.poll(at(2)).unwrap().published);
    assert!(!rig.service.poll(at(3)).unwrap().published);
    rig.tx.send(MonitorCommand::SetKeyBinding { key: LogicalKey::Key1, button: 1 }).unwrap();
    rig.tx.send(MonitorCommand::SetKeyBinding { key: LogicalKey::Key3, button: 1 }).unwrap();
    rig.tx.send(MonitorCommand::ForceSave).unwrap();
    assert_eq!(rig.service.drain_commands(at(4)), Flow::Continue);
    let bindings = &rig.service.profile().mapping.bindings;
    assert_eq!(bindings.get(&LogicalKey::Key1), Some(&0));
    assert_eq!(bindings.get(&LogicalKey::Key2), Some(&0));
    assert_eq!(bindings.get(&LogicalKey::Key3), Some(&1));
    assert_eq!(*rig.saves.borrow(), 1);
    assert!(rig.service.poll(at(5)).unwrap().published);
    assert_eq!(rig.service.drain_commands(at(6)), Flow::Continue);
    assert!(!rig.service.poll(at(7)).unwrap().published);
}

#[test]
fn shutdown_ends_the_draining_at_once() {
    let mut rig = rig(UserProfile::default());
    rig.tx.send(MonitorCommand::ResetStats { key: LogicalKey::Key1 }).unwrap();
    rig.tx.send(MonitorCommand::Shutdown).unwrap();
    rig.tx.send(MonitorCommand::SetKeyBinding { key: LogicalKey::Key1, button: 4096 }).unwrap();
    assert_eq!(rig.service.drain_commands(at(1)), Flow::Stop);
    assert_eq!(rig.service.profile().mapping.bindings.get(&LogicalKey::Key1), Some(&8));
    assert_eq!(rig.tx.len(), 1);
    assert_eq!(rig.service.drain_commands(at(2)), Flow::Continue);
    assert_eq!(rig.service.profile().mapping.bindings.get(&LogicalKey::Key1), Some(&4096));
    assert_eq!(rig.tx.len(), 0);
}

#[test]
fn draining_goes_on_when_all_senders_are_gone() {
    let mut rig = rig(UserProfile::default());
    rig.tx.send(MonitorCommand::ForceSave).unwrap();
    let Rig { tx, mut service, saves, .. } = rig;
    drop(tx);
    assert_eq!(service.drain_commands(at(1)), Flow::Continue);
    assert_eq!(*saves.borrow(), 1);
    assert_eq!(service.drain_commands(at(2)), Flow::Continue);
    assert_eq!(*saves.borrow(), 1);
}

fn try_start(profile: UserProfile) -> Result<(), String> {
    let (_tx, rx) = bounded(10);
    MonitorService::new(
        MockInputSource::new(vec![]),
        MockProcessMonitor::new(false),
        MockRepository { profile, fail_with: None, saves: Rc::new(RefCell::new(0)) },
        RecordingSessions { saved: Rc::new(RefCell::new(Vec::new())) },
        rx,
        0,
    )
    .map(|_| ())
}

#[test]
fn a_profile_of_another_schema_version_stops_the_start() {
    let mut profile = UserProfile::default();
    profile.schema_version = 999;
    let result = try_start(profile);
    assert!(result.is_err());
    assert!(result.unwrap_err().contains("Schema version mismatch"));
    assert_eq!(try_start(UserProfile::default()), Ok(()));
}

#[test]
fn a_failed_load_stops_the_start() {
    let mut profile = UserProfile::default();
    profile.config.target_process_name = "unloadable".to_string();
    assert_eq!(try_start(profile), Err("cannot load".to_string()));
}

#[test]
fn with_loaded_starts_on_the_given_profile() {
    let (_tx, rx) = bounded(10);
    let mut profile = UserProfile::default();
    profile.config.polling_rate_ms_disconnected = 250;
    let service = MonitorService::with_loaded(
        MockInputSource::new(vec![]),
        MockProcessMonitor::new(false),
        MockRepository {
            profile: UserProfile::default(),
            fail_with: None,
            saves: Rc::new(RefCell::new(0)),
        },
        RecordingSessions { saved: Rc::new(RefCell::new(Vec::new())) },
        rx,
        Ok(profile),
        0,
    )
    .unwrap();
    assert_eq!(service.polling_interval_ms(), 250);
    assert_eq!(service.profile().mapping.profile_name, "Default");
}

#[test]
fn test_schema_version_check() {
    let mut profile = UserProfile::default();
    profile.schema_version = 999;
    let result = profile.check_schema_version();
    assert!(result.is_err());
    assert!(result.unwrap_err().to_string().contains("Schema version mismatch"));
}

#[test]
fn test_session_reset_integration() {
    let mut profile = UserProfile::default();
    let key = LogicalKey::Key1;
    profile.mapping.bindings.insert(key.clone(), 1);

    let mut stats = ButtonStats::default();
    stats.total_presses = 100;
    stats.last_session_presses = 50;
    profile.switches.insert(key.clone(), switch("test", stats));
    profile.config.polling_rate_ms_connected = 1;

    let mut rig = rig(profile);

    let mut found = false;
    for step in 0..20u64 {
        rig.service.poll(at(50 * (step + 1)));
        if let Some(data) = rig.service.shared_state().switches.get(&key) {
            if data.stats.last_session_presses == 50 {
                found = true;
                break;
            }
        }
    }
    assert!(found, "Timed out waiting for initial state with 50 session presses");

    *rig.running.borrow_mut() = true;
    rig.service.poll(at(2100));

    if let Some(data) = rig.service.shared_state().switches.get(&key) {
        assert_eq!(data.stats.last_session_presses, 0, "Session presses should be reset after game start");
    } else {
        panic!("Key missing from stats after game start");
    }

    rig.tx.send(MonitorCommand::Shutdown).unwrap();
    assert_eq!(rig.service.drain_commands(at(2200)), Flow::Stop);
    rig.service.shutdown(at(2201));
}
