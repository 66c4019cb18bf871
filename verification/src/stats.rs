use vstd::prelude::*;

verus! {

/// The counters of one switch as unbounded naturals.
pub struct StatsModel {
    pub total_presses: nat,
    pub total_releases: nat,
    pub total_chatters: nat,
    pub total_chatter_releases: nat,
    pub session_presses: nat,
    pub session_chatters: nat,
    pub session_chatter_releases: nat,
}

impl StatsModel {
    /// All counters at zero.
    pub open spec fn zero() -> StatsModel {
        StatsModel {
            total_presses: 0,
            total_releases: 0,
            total_chatters: 0,
            total_chatter_releases: 0,
            session_presses: 0,
            session_chatters: 0,
            session_chatter_releases: 0,
        }
    }

    /// The same lifetime counters with the session counters back at zero.
    pub open spec fn reset_session(self) -> StatsModel {
        StatsModel {
            session_presses: 0,
            session_chatters: 0,
            session_chatter_releases: 0,
            ..self
        }
    }

    /// Every counter can still be incremented once without leaving `u64`.
    pub open spec fn has_headroom(self) -> bool {
        &&& self.total_presses < u64::MAX
        &&& self.total_releases < u64::MAX
        &&& self.total_chatters < u64::MAX
        &&& self.total_chatter_releases < u64::MAX
        &&& self.session_presses < u64::MAX
        &&& self.session_chatters < u64::MAX
        &&& self.session_chatter_releases < u64::MAX
    }

    /// No session counter exceeds the lifetime counter it mirrors.
    pub open spec fn session_within_lifetime(self) -> bool {
        &&& self.session_presses <= self.total_presses
        &&& self.session_chatters <= self.total_chatters
        &&& self.session_chatter_releases <= self.total_chatter_releases
    }
}

/// Lifetime and per-session usage counters of one switch.
#[derive(Debug, Clone, Copy)]
pub struct ButtonStats {
    pub total_presses: u64,
    pub total_releases: u64,
    pub total_chatters: u64,
    pub total_chatter_releases: u64,
    pub last_session_presses: u64,
    pub last_session_chatters: u64,
    pub last_session_chatter_releases: u64,
}

impl View for ButtonStats {
    type V = StatsModel;

    open spec fn view(&self) -> StatsModel {
        StatsModel {
            total_presses: self.total_presses as nat,
            total_releases: self.total_releases as nat,
            total_chatters: self.total_chatters as nat,
            total_chatter_releases: self.total_chatter_releases as nat,
            session_presses: self.last_session_presses as nat,
            session_chatters: self.last_session_chatters as nat,
            session_chatter_releases: self.last_session_chatter_releases as nat,
        }
    }
}

impl Default for ButtonStats {
    fn default() -> (s: ButtonStats)
        ensures
            s@ == StatsModel::zero(),
    {
        ButtonStats {
            total_presses: 0,
            total_releases: 0,
            total_chatters: 0,
            total_chatter_releases: 0,
            last_session_presses: 0,
            last_session_chatters: 0,
            last_session_chatter_releases: 0,
        }
    }
}

impl ButtonStats {
    /// Every counter can still be incremented once without leaving `u64`.
    pub open spec fn has_headroom(&self) -> bool {
        self@.has_headroom()
    }

    /// Tells whether every counter is below `u64::MAX`.
    pub fn check_headroom(&self) -> (ok: bool)
        ensures
            ok == self.has_headroom(),
    {
        self.total_presses < u64::MAX && self.total_releases < u64::MAX && self.total_chatters
            < u64::MAX && self.total_chatter_releases < u64::MAX && self.last_session_presses
            < u64::MAX && self.last_session_chatters < u64::MAX
            && self.last_session_chatter_releases < u64::MAX
    }

    /// Starts a new session: the session counters return to zero, the
    /// lifetime counters stay.
    pub fn reset_session_stats(&mut self)
        ensures
            final(self)@ == old(self)@.reset_session(),
    {
        self.last_session_presses = 0;
        self.last_session_chatters = 0;
        self.last_session_chatter_releases = 0;
    }
}

} // verus!
