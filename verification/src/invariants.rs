use crate::backends::{buttons_of, InputError};
use crate::bindings::unique_bindings;
use crate::commands::CommandModel;
use crate::detector::{law_counting_keeps_session_within_lifetime, DetectorModel};
use crate::key_map::{distinct_keys, has_key, index_of, lemma_upsert_entries, upsert};
use crate::keys::LogicalKey;
use crate::monitor::{Clock, MonitorModel, SaveKind};
use crate::polling::{is_pressed, observe_key, observe_keys, switch_or_unknown};
use crate::presets::official_controller_bindings;
use crate::profile::{ButtonMapModel, ProfileModel, SessionRecord};
use crate::session::push_recent;
use crate::stats::StatsModel;
use crate::switches::SwitchModel;
use crate::time::Timestamp;
use vstd::prelude::*;

verus! {

/// For every key with a switch, no session counter exceeds the lifetime
/// counter it mirrors.
pub open spec fn sessions_within_lifetime(switches: Seq<(LogicalKey, SwitchModel)>) -> bool {
    forall|i: int|
        0 <= i < switches.len() ==> (#[trigger] switches[i]).1.stats.session_within_lifetime()
}

/// The switch that a key's observation starts from keeps its session
/// counters within its lifetime counters where all recorded switches do.
proof fn lemma_switch_or_unknown_within(switches: Seq<(LogicalKey, SwitchModel)>, key: LogicalKey)
    requires
        sessions_within_lifetime(switches),
    ensures
        switch_or_unknown(switches, key).stats.session_within_lifetime(),
{
    if has_key(switches, key) {
        let i = index_of(switches, key);
        assert(switches[i].1.stats.session_within_lifetime());
    }
}

/// Storing a switch whose counters are in order keeps all in order.
proof fn lemma_upsert_within(
    switches: Seq<(LogicalKey, SwitchModel)>,
    key: LogicalKey,
    switch: SwitchModel,
)
    requires
        sessions_within_lifetime(switches),
        switch.stats.session_within_lifetime(),
    ensures
        sessions_within_lifetime(upsert(switches, key, switch)),
{
    lemma_upsert_entries(switches, key, switch);
    let after = upsert(switches, key, switch);
    assert forall|i: int| 0 <= i < after.len() implies (
    #[trigger] after[i]).1.stats.session_within_lifetime() by {
        if after[i] != (key, switch) {
            assert(after[i] == switches[i]);
        }
    }
}

/// Observing a key keeps every session counter within its lifetime counter.
pub proof fn law_observe_key_keeps_sessions_within_lifetime(
    detector: DetectorModel,
    switches: Seq<(LogicalKey, SwitchModel)>,
    key: LogicalKey,
    pressed: bool,
    now_ms: u64,
    session_active: bool,
)
    requires
        sessions_within_lifetime(switches),
    ensures
        sessions_within_lifetime(
            observe_key(detector, switches, key, pressed, now_ms, session_active).1,
        ),
{
    lemma_switch_or_unknown_within(switches, key);
    let switch = switch_or_unknown(switches, key);
    law_counting_keeps_session_within_lifetime(
        switch.stats,
        detector.state_of(key),
        detector.classify(key, pressed, now_ms),
        session_active,
    );
    lemma_upsert_within(
        switches,
        key,
        SwitchModel {
            stats: detector.count(key, switch.stats, pressed, now_ms, session_active),
            ..switch
        },
    );
}

/// Observing the bound keys keeps every session counter within its
/// lifetime counter.
pub proof fn law_observe_keys_keeps_sessions_within_lifetime(
    bindings: Seq<(LogicalKey, u32)>,
    upto: int,
    detector: DetectorModel,
    switches: Seq<(LogicalKey, SwitchModel)>,
    raw: u32,
    now_ms: u64,
    session_active: bool,
)
    requires
        sessions_within_lifetime(switches),
    ensures
        sessions_within_lifetime(
            observe_keys(bindings, upto, detector, switches, raw, now_ms, session_active).1,
        ),
    decreases upto,
{
    if upto > 0 {
        law_observe_keys_keeps_sessions_within_lifetime(
            bindings,
            upto - 1,
            detector,
            switches,
            raw,
            now_ms,
            session_active,
        );
        let (d, s) = observe_keys(bindings, upto - 1, detector, switches, raw, now_ms, session_active);
        law_observe_key_keeps_sessions_within_lifetime(
            d,
            s,
            bindings[upto - 1].0,
            is_pressed(raw, bindings[upto - 1].1),
            now_ms,
            session_active,
        );
    }
}

/// No command leads from a profile whose session counters are within their
/// lifetime counters to one where they are not.
pub proof fn law_commands_keep_sessions_within_lifetime(
    profile: ProfileModel,
    cmd: CommandModel,
    now: Timestamp,
)
    requires
        sessions_within_lifetime(profile.switches),
    ensures
        sessions_within_lifetime(profile.apply(cmd, now).switches),
{
    match cmd {
        CommandModel::ReplaceSwitch { key, new_model_id } => {
            lemma_upsert_within(profile.switches, key, SwitchModel::installed(new_model_id, now));
        },
        CommandModel::ResetStats { key } => {
            if has_key(profile.switches, key) {
                lemma_upsert_within(
                    profile.switches,
                    key,
                    SwitchModel {
                        stats: StatsModel::zero(),
                        last_replaced_at: Some(now),
                        ..profile.switch_of(key)
                    },
                );
            }
        },
        CommandModel::SetLastReplacedDate { key, date } => {
            if has_key(profile.switches, key) {
                let i = index_of(profile.switches, key);
                assert(profile.switches[i].1.stats.session_within_lifetime());
                lemma_upsert_within(
                    profile.switches,
                    key,
                    SwitchModel { last_replaced_at: Some(date), ..profile.switch_of(key) },
                );
            }
        },
        _ => {},
    }
}

/// At all times and for all keys, session counters stay within lifetime
/// counters: where that holds of the monitor's profile, it holds after any
/// command was received.
pub proof fn law_receive_keeps_sessions_within_lifetime(
    monitor: MonitorModel,
    cmd: CommandModel,
    saved: Result<(), String>,
    clock: Clock,
)
    requires
        sessions_within_lifetime(monitor.profile.switches),
    ensures
        sessions_within_lifetime(monitor.receive(cmd, clock.utc).profile.switches),
        sessions_within_lifetime(monitor.command_received(cmd, saved, clock).profile.switches),
{
    law_commands_keep_sessions_within_lifetime(monitor.profile, cmd, clock.utc);
}

/// At all times and for all keys, session counters stay within lifetime
/// counters: where that holds of the monitor's profile, it holds after any
/// poll, whatever the controller, the process check and the clocks gave,
/// and after the save that may follow it.
pub proof fn law_poll_keeps_sessions_within_lifetime(
    monitor: MonitorModel,
    input: Result<u32, InputError>,
    observed: Option<bool>,
    saved: Result<(), String>,
    clock: Clock,
)
    requires
        sessions_within_lifetime(monitor.profile.switches),
    ensures
        sessions_within_lifetime(monitor.poll(buttons_of(input), observed, clock).profile.switches),
        sessions_within_lifetime(monitor.iteration(input, observed, saved, clock).profile.switches),
        sessions_within_lifetime(
            monitor.after_save(
                SaveKind::Exit,
                saved,
                clock.utc,
                clock.monotonic_ms,
            ).profile.switches,
        ),
{
    let buttons = buttons_of(input);
    let running = monitor.game_running(observed);
    let checked = monitor.after_connection(buttons is Some).after_process_check(
        observed,
        clock.monotonic_ms,
    );
    assert(checked.profile == monitor.profile);
    match buttons {
        Some(raw) => {
            law_observe_keys_keeps_sessions_within_lifetime(
                checked.profile.mapping.bindings,
                checked.profile.mapping.bindings.len() as int,
                checked.detector,
                checked.profile.switches,
                raw,
                clock.unix_ms,
                running,
            );
        },
        None => {},
    }
    let observed_keys = checked.after_input(buttons, clock.unix_ms, running);
    assert(sessions_within_lifetime(observed_keys.profile.switches));
    let in_session = observed_keys.after_session(running, clock.utc);
    assert(sessions_within_lifetime(in_session.profile.switches)) by {
        let before = observed_keys.profile.switches;
        let after = in_session.profile.switches;
        assert forall|i: int| 0 <= i < after.len() implies (
        #[trigger] after[i]).1.stats.session_within_lifetime() by {
            if after != before {
                assert(before[i].1.stats.session_within_lifetime());
            }
        }
    }
}

impl MonitorModel {
    /// The timer is held exactly while the controller is connected, and a
    /// session's start is on record exactly while the game runs.
    pub open spec fn in_step(self) -> bool {
        &&& self.timer_active == self.was_connected
        &&& self.session_start is Some <==> self.was_game_running
    }
}

/// A new monitor is in step, and every command and every poll keeps it so:
/// the timer follows the connection, and the record of a session's start
/// follows the game.
pub proof fn law_monitor_stays_in_step(
    monitor: MonitorModel,
    cmd: CommandModel,
    input: Result<u32, InputError>,
    observed: Option<bool>,
    saved: Result<(), String>,
    clock: Clock,
    profile: ProfileModel,
)
    requires
        monitor.in_step(),
    ensures
        MonitorModel::initial(profile, clock.monotonic_ms).in_step(),
        monitor.command_received(cmd, saved, clock).in_step(),
        monitor.poll(buttons_of(input), observed, clock).in_step(),
        monitor.iteration(input, observed, saved, clock).in_step(),
        monitor.poll(buttons_of(input), observed, clock).was_connected == (buttons_of(input)
            is Some),
        monitor.poll(buttons_of(input), observed, clock).was_game_running == monitor.game_running(
            observed,
        ),
        !monitor.after_save(SaveKind::Exit, saved, clock.utc, clock.monotonic_ms).timer_active,
{
}

/// When the game is found running after it was not, the poll ends with the
/// session counters of every key at zero, with the session's start on
/// record, and with no other change to what the keys' observation left.
pub proof fn law_game_start_resets_session_counters(
    monitor: MonitorModel,
    input: Result<u32, InputError>,
    clock: Clock,
)
    requires
        !monitor.was_game_running,
    ensures
        ({
            let observed = monitor.after_connection(buttons_of(input) is Some).after_process_check(
                Some(true),
                clock.monotonic_ms,
            ).after_input(buttons_of(input), clock.unix_ms, true);
            let after = monitor.poll(buttons_of(input), Some(true), clock);
            &&& after.session_start == Some(clock.utc)
            &&& after.was_game_running
            &&& after.profile == observed.profile.start_session()
            &&& after.profile.switches.len() == observed.profile.switches.len()
            &&& forall|i: int|
                0 <= i < after.profile.switches.len() ==> {
                    let now = (#[trigger] after.profile.switches[i]).1;
                    let was = observed.profile.switches[i].1;
                    &&& after.profile.switches[i].0 == observed.profile.switches[i].0
                    &&& now.stats.session_presses == 0
                    &&& now.stats.session_chatters == 0
                    &&& now.stats.session_chatter_releases == 0
                    &&& now.stats.total_presses == was.stats.total_presses
                    &&& now.stats.total_releases == was.stats.total_releases
                    &&& now.stats.total_chatters == was.stats.total_chatters
                    &&& now.stats.total_chatter_releases == was.stats.total_chatter_releases
                    &&& now.switch_model_id == was.switch_model_id
                    &&& now.last_replaced_at == was.last_replaced_at
                }
        }),
{
}

/// When the game is found gone after it ran, the poll adds exactly one
/// record to the recent sessions: that of the session from its recorded
/// start to now. A poll that finds the game as it was adds none.
pub proof fn law_game_end_records_one_session(
    monitor: MonitorModel,
    input: Result<u32, InputError>,
    observed: Option<bool>,
    clock: Clock,
)
    requires
        monitor.in_step(),
    ensures
        ({
            let after = monitor.poll(buttons_of(input), observed, clock);
            let running = monitor.game_running(observed);
            &&& monitor.session_ends(running) <==> monitor.was_game_running && !running
            &&& monitor.session_ends(running) ==> after.profile.recent_sessions == push_recent(
                monitor.profile.recent_sessions,
                SessionRecord::spanning(monitor.session_start.unwrap(), clock.utc),
            ) && after.session_start is None
            &&& !monitor.session_ends(running) ==> after.profile.recent_sessions
                == monitor.profile.recent_sessions
        }),
{
}

/// The switch history is only ever added to: whatever a command does, the
/// entries that were there stay, unchanged and in their places, and at most
/// one entry joins them. A poll leaves the history as it is.
pub proof fn law_history_is_append_only(
    monitor: MonitorModel,
    cmd: CommandModel,
    input: Result<u32, InputError>,
    observed: Option<bool>,
    saved: Result<(), String>,
    clock: Clock,
)
    ensures
        ({
            let before = monitor.profile.switch_history;
            let after = monitor.command_received(cmd, saved, clock).profile.switch_history;
            &&& before.len() <= after.len() <= before.len() + 1
            &&& after.subrange(0, before.len() as int) == before
        }),
        monitor.iteration(input, observed, saved, clock).profile.switch_history
            == monitor.profile.switch_history,
{
    let before = monitor.profile.switch_history;
    let after = monitor.command_received(cmd, saved, clock).profile.switch_history;
    assert(after.subrange(0, before.len() as int) =~= before);
}

/// In the bindings of a new profile and in those of the official
/// controller no two keys share a button, and no key is bound twice.
pub proof fn law_builtin_bindings_are_unique()
    ensures
        unique_bindings(ButtonMapModel::initial().bindings),
        distinct_keys(ButtonMapModel::initial().bindings),
        unique_bindings(official_controller_bindings()),
        distinct_keys(official_controller_bindings()),
{
}

} // verus!
