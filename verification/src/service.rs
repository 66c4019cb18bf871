use crate::backends::{
    buttons_of, ConfigRepository, InputError, InputSource, ProcessMonitor, SessionRepository,
};
use crate::commands::{CommandModel, MonitorCommand};
use crate::monitor::{Clock, Flow, MonitorCore, MonitorModel, PollOutcome, SaveKind};
use crate::profile::{
    schema_mismatch_message, ProfileModel, SessionRecord, UserProfile, CURRENT_SCHEMA_VERSION,
};
use crate::session::{key_stats_view, session_key_stats};
use crate::snapshot::MonitorSharedState;
use crossbeam_channel::Receiver;
use vstd::prelude::*;

verus! {

/// `crossbeam_channel::Receiver`, the receiving side of a channel. Nothing
/// of what a channel holds is visible to the proofs.
#[verifier::external_type_specification]
#[verifier::external_body]
#[verifier::reject_recursive_types(T)]
pub struct ExReceiver<T>(Receiver<T>);

/// `crossbeam_channel::Receiver::len`: the number of messages in the
/// channel at the moment of the call. Senders on other threads add to the
/// channel while this thread runs, so nothing is claimed of the number.
#[verifier::external_body]
fn queued_commands(commands: &Receiver<MonitorCommand>) -> usize {
    commands.len()
}

/// `crossbeam_channel::Receiver::try_recv`: takes the oldest message out of
/// the channel if one is there, and never waits. An empty channel and a
/// channel whose senders are all gone both give `None`; nothing is claimed
/// of which command comes, nor of whether one does.
#[verifier::external_body]
fn next_command(commands: &Receiver<MonitorCommand>) -> Option<MonitorCommand> {
    commands.try_recv().ok()
}

impl MonitorModel {
    /// The monitor after a command was handled at the time of `clock`;
    /// `saved` is how the save ended that `ForceSave` asks for.
    pub open spec fn command_handled(
        self,
        cmd: CommandModel,
        saved: Result<(), String>,
        clock: Clock,
    ) -> MonitorModel {
        if cmd is ForceSave {
            self.handle(cmd, clock.utc).after_save(
                SaveKind::Forced,
                saved,
                clock.utc,
                clock.monotonic_ms,
            )
        } else {
            self.handle(cmd, clock.utc)
        }
    }

    /// The monitor after a command was taken from the queue: `Shutdown`
    /// changes nothing, any other command is handled and marks the
    /// iteration for a publish.
    pub open spec fn command_received(
        self,
        cmd: CommandModel,
        saved: Result<(), String>,
        clock: Clock,
    ) -> MonitorModel {
        if cmd is Shutdown {
            self
        } else {
            MonitorModel { force_publish: true, ..self.command_handled(cmd, saved, clock) }
        }
    }

    /// The monitor after a run of commands was taken from the queue, oldest
    /// first; `saves` holds, for each command, how the save ended that it
    /// may have asked for.
    pub open spec fn commands_received(
        self,
        cmds: Seq<CommandModel>,
        saves: Seq<Result<(), String>>,
        clock: Clock,
    ) -> MonitorModel
        decreases cmds.len(),
    {
        if cmds.len() == 0 {
            self
        } else {
            self.commands_received(cmds.drop_last(), saves.drop_last(), clock).command_received(
                cmds.last(),
                saves.last(),
                clock,
            )
        }
    }

    /// The monitor after one iteration's poll: `input` is what the
    /// controller gave, `observed` what the check for the game's process
    /// gave where one was made, `saved` how the automatic save ended where
    /// one was due.
    pub open spec fn iteration(
        self,
        input: Result<u32, InputError>,
        observed: Option<bool>,
        saved: Result<(), String>,
        clock: Clock,
    ) -> MonitorModel {
        let polled = self.poll(buttons_of(input), observed, clock);
        if polled.auto_save_due(clock.monotonic_ms) {
            polled.after_save(SaveKind::Auto, saved, clock.utc, clock.monotonic_ms)
        } else {
            polled
        }
    }

    /// A snapshot is to be shown to the readers after the iteration: the
    /// poll published one, or an automatic save changed it.
    pub open spec fn iteration_publishes(
        self,
        input: Result<u32, InputError>,
        observed: Option<bool>,
        clock: Clock,
    ) -> bool {
        self.polled(buttons_of(input), observed, clock).publish_due(clock.monotonic_ms)
            || self.poll(buttons_of(input), observed, clock).auto_save_due(clock.monotonic_ms)
    }
}

/// The monitoring engine: owns the profile and the detector, asks its
/// backends for the controller's state and the game's presence, and keeps
/// the snapshot that readers are shown. Its caller runs the loop: it waits
/// for commands, reads the clocks, and calls `receive` and `poll`.
pub struct MonitorService<I, P, R, S> {
    input_source: I,
    process_monitor: P,
    repository: R,
    session_repository: S,
    command_rx: Receiver<MonitorCommand>,
    core: MonitorCore,
}

impl<I: InputSource, P: ProcessMonitor, R: ConfigRepository, S: SessionRepository> View for MonitorService<
    I,
    P,
    R,
    S,
> {
    type V = MonitorModel;

    closed spec fn view(&self) -> MonitorModel {
        self.core@
    }
}

impl<
    I: InputSource,
    P: ProcessMonitor,
    R: ConfigRepository,
    S: SessionRepository,
> MonitorService<I, P, R, S> {
    /// A service on the profile that was loaded, its input source set to
    /// the profile's input method. A load that failed, or a profile of
    /// another schema version, gives no service but the reason: the profile
    /// on record is never replaced by a guess.
    pub fn with_loaded(
        input_source: I,
        process_monitor: P,
        repository: R,
        session_repository: S,
        command_rx: Receiver<MonitorCommand>,
        loaded: Result<UserProfile, String>,
        started_ms: u64,
    ) -> (service: Result<Self, String>)
        ensures
            match loaded {
                Ok(profile) => if profile.schema_version == CURRENT_SCHEMA_VERSION {
                    service matches Ok(s) && s@ == MonitorModel::initial(profile@, started_ms)
                } else {
                    service matches Err(message) && message@ == schema_mismatch_message(
                        profile.schema_version,
                    )
                },
                Err(reason) => service matches Err(message) && message == reason,
            },
    {
        let mut input_source = input_source;
        match loaded {
            Ok(profile) => {
                match profile.check_schema_version() {
                    Ok(_) => {
                        input_source.set_input_method(profile.config.input_method);
                        let core = MonitorCore::new(profile, started_ms);
                        Ok(
                            MonitorService {
                                input_source,
                                process_monitor,
                                repository,
                                session_repository,
                                command_rx,
                                core,
                            },
                        )
                    },
                    Err(message) => Err(message),
                }
            },
            Err(reason) => Err(reason),
        }
    }

    /// A service on the profile that `repository` holds. Where the
    /// repository gives none, or one of another schema version, there is no
    /// service but the reason.
    pub fn new(
        input_source: I,
        process_monitor: P,
        repository: R,
        session_repository: S,
        command_rx: Receiver<MonitorCommand>,
        started_ms: u64,
    ) -> (service: Result<Self, String>)
        ensures
            service matches Ok(s) ==> exists|profile: ProfileModel| #[trigger]
                MonitorModel::initial(profile, started_ms) == s@ && profile.schema_version
                    == CURRENT_SCHEMA_VERSION,
    {
        let loaded = repository.load();
        let ghost spec_loaded = loaded;
        let service = Self::with_loaded(
            input_source,
            process_monitor,
            repository,
            session_repository,
            command_rx,
            loaded,
            started_ms,
        );
        proof {
            if service is Ok {
                let profile = spec_loaded.unwrap()@;
                assert(MonitorModel::initial(profile, started_ms) == service.unwrap()@);
            }
        }
        service
    }

    /// The profile as it stands.
    pub fn profile(&self) -> (p: &UserProfile)
        ensures
            p@ == self@.profile,
    {
        self.core.profile()
    }

    /// The latest snapshot.
    pub fn shared_state(&self) -> (s: &MonitorSharedState)
        ensures
            s@ == self@.shared,
    {
        self.core.shared_state()
    }

    /// How long to wait for a command before the next poll, in
    /// milliseconds.
    pub fn polling_interval_ms(&self) -> (ms: u64)
        ensures
            ms == self@.polling_interval(),
    {
        self.core.polling_interval_ms()
    }

    /// Handles one command at the time of `clock`. A changed input method
    /// is passed on to the input source; `ForceSave` saves the profile and
    /// records how that ended.
    pub fn handle_command(&mut self, cmd: MonitorCommand, clock: Clock)
        ensures
            exists|saved: Result<(), String>| #[trigger]
                old(self)@.command_handled(cmd@, saved, clock) == final(self)@,
            !(cmd@ is ForceSave) ==> final(self)@ == old(self)@.handle(cmd@, clock.utc),
    {
        let ghost model = cmd@;
        let effect = self.core.command_effect(&cmd);
        match effect.switch_input_to {
            Some(method) => {
                self.input_source.set_input_method(method);
            },
            None => {},
        }
        self.core.handle_command(cmd, clock.utc);
        if effect.save_now {
            let saved = self.repository.save(self.core.profile());
            self.core.record_save(SaveKind::Forced, &saved, clock.utc, clock.monotonic_ms);
            assert(old(self)@.command_handled(model, saved, clock) == self@);
        } else {
            assert(old(self)@.command_handled(model, Ok(()), clock) == self@);
        }
    }

    /// Takes one command from the queue at the time of `clock` and says
    /// whether the loop goes on: `Shutdown` stops it and changes nothing.
    pub fn receive(&mut self, cmd: MonitorCommand, clock: Clock) -> (flow: Flow)
        ensures
            flow == if cmd@ is Shutdown {
                Flow::Stop
            } else {
                Flow::Continue
            },
            exists|saved: Result<(), String>| #[trigger]
                old(self)@.command_received(cmd@, saved, clock) == final(self)@,
            !(cmd@ is ForceSave) ==> final(self)@ == old(self)@.receive(cmd@, clock.utc),
    {
        let ghost model = cmd@;
        match cmd {
            MonitorCommand::Shutdown => {
                assert(old(self)@.command_received(model, Ok(()), clock) == self@);
                Flow::Stop
            },
            other => {
                self.handle_command(other, clock);
                let ghost saved = choose|saved: Result<(), String>| #[trigger]
                    old(self)@.command_handled(model, saved, clock) == self@;
                self.core.mark_for_publish();
                assert(old(self)@.command_received(model, saved, clock) == self@);
                Flow::Continue
            },
        }
    }

    /// Takes the commands that are queued now out of the queue, oldest
    /// first, without waiting, and handles each at the time of `clock`. A
    /// `Shutdown` ends the draining at once: the commands behind it stay in
    /// the queue, and the loop is to stop.
    pub fn drain_commands(&mut self, clock: Clock) -> (flow: Flow)
        ensures
            exists|cmds: Seq<CommandModel>, saves: Seq<Result<(), String>>|
                {
                    &&& #[trigger] old(self)@.commands_received(cmds, saves, clock)
                        == final(self)@
                    &&& cmds.len() == saves.len()
                    &&& forall|i: int| 0 <= i < cmds.len() - 1 ==> !(cmds[i] is Shutdown)
                    &&& flow == Flow::Stop <==> cmds.len() > 0 && cmds.last() is Shutdown
                },
    {
        let queued = queued_commands(&self.command_rx);
        let ghost mut cmds: Seq<CommandModel> = Seq::empty();
        let ghost mut saves: Seq<Result<(), String>> = Seq::empty();
        let mut taken: usize = 0;
        while taken < queued
            invariant
                taken <= queued,
                cmds.len() == saves.len(),
                old(self)@.commands_received(cmds, saves, clock) == self@,
                forall|i: int| 0 <= i < cmds.len() ==> !(cmds[i] is Shutdown),
            decreases queued - taken,
        {
            match next_command(&self.command_rx) {
                Some(cmd) => {
                    let ghost before = self@;
                    let ghost model = cmd@;
                    let flow = self.receive(cmd, clock);
                    proof {
                        let saved = choose|saved: Result<(), String>| #[trigger]
                            before.command_received(model, saved, clock) == self@;
                        let earlier = cmds;
                        let earlier_saves = saves;
                        cmds = cmds.push(model);
                        saves = saves.push(saved);
                        assert(cmds.drop_last() =~= earlier);
                        assert(saves.drop_last() =~= earlier_saves);
                    }
                    if flow == Flow::Stop {
                        return Flow::Stop;
                    }
                },
                None => {
                    return Flow::Continue;
                },
            }
            taken += 1;
        }
        Flow::Continue
    }

    /// One iteration's poll at the time of `clock`: reads the controller,
    /// looks for the game's process where that is due, moves keys, session
    /// and snapshot on, hands a session that ended to the history store,
    /// and saves the profile where that is due. Gives `None`, with nothing
    /// changed, where the reading cannot be taken in: the clock ran
    /// backwards, or the switch of a bound key has a counter at its limit.
    pub fn poll(&mut self, clock: Clock) -> (outcome: Option<PollOutcome>)
        ensures
            match outcome {
                Some(done) => exists|
                    input: Result<u32, InputError>,
                    observed: Option<bool>,
                    saved: Result<(), String>,
                |
                    {
                        &&& #[trigger] old(self)@.iteration(input, observed, saved, clock)
                            == final(self)@
                        &&& observed is Some <==> old(self)@.process_check_due(clock.monotonic_ms)
                        &&& buttons_of(input) is Some ==> old(self)@.can_observe(clock.unix_ms)
                        &&& done.timer == old(self)@.timer_action(buttons_of(input) is Some)
                        &&& done.published == old(self)@.iteration_publishes(input, observed, clock)
                        &&& done.completed_session is Some <==> old(self)@.session_ends(
                            old(self)@.game_running(observed),
                        )
                        &&& done.completed_session matches Some(session) ==> session.record
                            == SessionRecord::spanning(
                            old(self)@.session_start.unwrap(),
                            clock.utc,
                        ) && key_stats_view(session.key_stats@) == session_key_stats(
                            old(self)@.polled(buttons_of(input), observed, clock).profile.switches,
                        )
                    },
                None => final(self)@ == old(self)@ && !old(self)@.can_observe(clock.unix_ms),
            },
    {
        let input = self.input_source.get_state(self.core.profile().config.target_controller_index);
        let observed = if self.core.process_check_due(clock.monotonic_ms) {
            Some(
                self.process_monitor.is_process_running(
                    self.core.profile().config.target_process_name.as_str(),
                ),
            )
        } else {
            None
        };
        if input.is_ok() && !self.core.can_observe(clock.unix_ms) {
            return None;
        }
        let mut done = self.core.poll(&input, observed, clock);
        match &done.completed_session {
            Some(session) => {
                let _stored = self.session_repository.save(&session.record, &session.key_stats);
            },
            None => {},
        }
        if self.core.auto_save_due(clock.monotonic_ms) {
            let saved = self.repository.save(self.core.profile());
            self.core.record_save(SaveKind::Auto, &saved, clock.utc, clock.monotonic_ms);
            done.published = true;
            assert(old(self)@.iteration(input, observed, saved, clock) == self@);
        } else {
            assert(old(self)@.iteration(input, observed, Ok(()), clock) == self@);
        }
        Some(done)
    }

    /// Ends the service at the time of `clock`: saves the profile one last
    /// time, records how that ended, and lets go of the timer.
    pub fn shutdown(&mut self, clock: Clock)
        ensures
            exists|saved: Result<(), String>| #[trigger]
                old(self)@.after_save(SaveKind::Exit, saved, clock.utc, clock.monotonic_ms)
                    == final(self)@,
    {
        let saved = self.repository.save(self.core.profile());
        self.core.record_save(SaveKind::Exit, &saved, clock.utc, clock.monotonic_ms);
        assert(old(self)@.after_save(SaveKind::Exit, saved, clock.utc, clock.monotonic_ms)
            == self@);
    }
}

} // verus!
