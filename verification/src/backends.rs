use crate::config::InputMethod;
use crate::profile::{SessionKeyStats, SessionRecord, UserProfile};
use std::collections::VecDeque;
use vstd::prelude::*;
use vstd::string::StringExecFns;

verus! {

/// Why the controller's state could not be read.
#[derive(Debug)]
pub enum InputError {
    /// The device is not connected.
    Disconnected,
    /// The backend failed; the text says how.
    Other(String),
}

impl InputError {
    /// What is shown of the error.
    pub open spec fn message(self) -> Seq<char> {
        match self {
            InputError::Disconnected => "Device disconnected"@,
            InputError::Other(detail) => "Input source error: "@ + detail@,
        }
    }

    /// What is shown of the error.
    pub fn to_string(&self) -> (s: String)
        ensures
            s@ == self.message(),
    {
        match self {
            InputError::Disconnected => "Device disconnected".to_owned(),
            InputError::Other(detail) => {
                "Input source error: ".to_owned().concat(detail.as_str())
            },
        }
    }
}

/// The raw button state in a reading of the controller, if it gave one.
pub open spec fn buttons_of(input: Result<u32, InputError>) -> Option<u32> {
    match input {
        Ok(raw) => Some(raw),
        Err(_) => None,
    }
}

/// Where the raw button state of a controller comes from.
pub trait InputSource {
    /// The mask of the buttons that are pressed on the given controller.
    fn get_state(&mut self, controller_index: u32) -> Result<u32, InputError>;

    /// Changes the input method, where the source can. A source with one
    /// method only has nothing to do.
    fn set_input_method(&mut self, method: InputMethod) {
    }
}

/// A way to tell whether the watched game is running.
pub trait ProcessMonitor {
    /// Whether a process of the given name runs now.
    fn is_process_running(&mut self, process_name: &str) -> bool;
}

/// Where the profile is kept between runs.
pub trait ConfigRepository {
    /// The stored profile; an error says why it cannot be had.
    fn load(&self) -> Result<UserProfile, String>;

    /// Stores the profile; an error says why it could not.
    fn save(&self, profile: &UserProfile) -> Result<(), String>;
}

/// The store of completed sessions.
pub trait SessionRepository {
    /// Stores a session with its per-key rows and gives the session's id.
    fn save(&self, session: &SessionRecord, stats: &Vec<SessionKeyStats>) -> Result<i64, String>;

    /// The latest sessions, newest first, `limit` of them after `offset`.
    fn get_recent(&self, limit: i64, offset: i64) -> Result<Vec<SessionRecord>, String>;

    /// The per-key rows of one session.
    fn get_details(&self, session_id: i64) -> Result<Vec<SessionKeyStats>, String>;
}

/// An input source that replays prepared readings, oldest first, and reads
/// as "nothing pressed" once they are used up.
pub struct MockInputSource {
    pub states: VecDeque<Result<u32, InputError>>,
}

impl MockInputSource {
    /// A source that will give `states` in their order.
    pub fn new(states: Vec<Result<u32, InputError>>) -> (source: MockInputSource)
        ensures
            source.states@ == states@,
    {
        let mut states = states;
        let mut queue: VecDeque<Result<u32, InputError>> = VecDeque::new();
        let ghost all = states@;
        while states.len() > 0
            invariant
                queue@.len() + states@.len() == all.len(),
                forall|i: int| 0 <= i < states@.len() ==> states@[i] == all[i],
                forall|i: int|
                    0 <= i < queue@.len() ==> queue@[i] == all[states@.len() + i],
            decreases states@.len(),
        {
            let last = states.pop().unwrap();
            queue.push_front(last);
        }
        assert(queue@ =~= all);
        MockInputSource { states: queue }
    }
}

impl InputSource for MockInputSource {
    fn get_state(&mut self, controller_index: u32) -> (r: Result<u32, InputError>)
        ensures
            old(self).states@.len() > 0 ==> r == old(self).states@[0] && final(self).states@
                == old(self).states@.subrange(1, old(self).states@.len() as int),
            old(self).states@.len() == 0 ==> r == Ok::<u32, InputError>(0) && final(self).states@
                == old(self).states@,
    {
        match self.states.pop_front() {
            Some(reading) => reading,
            None => Ok(0),
        }
    }

    fn set_input_method(&mut self, method: InputMethod)
        ensures
            final(self).states@ == old(self).states@,
    {
    }
}

/// A process monitor that answers as it was told.
pub struct MockProcessMonitor {
    pub is_running: bool,
}

impl MockProcessMonitor {
    /// A monitor that answers `is_running`.
    pub fn new(is_running: bool) -> (m: MockProcessMonitor)
        ensures
            m.is_running == is_running,
    {
        MockProcessMonitor { is_running }
    }

    /// Makes the monitor answer `running` from now on.
    pub fn set_running(&mut self, running: bool)
        ensures
            final(self).is_running == running,
    {
        self.is_running = running;
    }
}

impl ProcessMonitor for MockProcessMonitor {
    fn is_process_running(&mut self, process_name: &str) -> (running: bool)
        ensures
            running == old(self).is_running,
            final(self).is_running == old(self).is_running,
    {
        self.is_running
    }
}

} // verus!
