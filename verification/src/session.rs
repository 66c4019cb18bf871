use crate::key_map::{distinct_keys, lemma_map_entries, lookup, map_entries};
use crate::keys::LogicalKey;
use crate::profile::{
    switches_view, ProfileModel, SessionKeyStats, SessionKeyStatsModel, SessionRecord, UserProfile,
};
use crate::switches::{SwitchData, SwitchModel};
use crate::time::Timestamp;
use vstd::prelude::*;

verus! {

/// How many completed sessions the profile keeps for quick display.
pub const RECENT_SESSIONS_CAP: usize = 3;

/// A switch at the start of a session: session counters at zero, all else
/// as it was.
pub open spec fn at_session_start(switch: SwitchModel) -> SwitchModel {
    SwitchModel { stats: switch.stats.reset_session(), ..switch }
}

/// Every switch at the start of a session.
pub open spec fn all_at_session_start(switches: Seq<(LogicalKey, SwitchModel)>) -> Seq<
    (LogicalKey, SwitchModel),
> {
    map_entries(switches, |s: SwitchModel| at_session_start(s))
}

/// The rolling window after a session was added: where that makes it longer
/// than the cap, the oldest record leaves.
pub open spec fn push_recent(recent: Seq<SessionRecord>, record: SessionRecord) -> Seq<
    SessionRecord,
> {
    let all = recent.push(record);
    if all.len() > RECENT_SESSIONS_CAP {
        all.subrange(1, all.len() as int)
    } else {
        all
    }
}

/// What one key did in the session that just ended, for the history store.
pub open spec fn key_stats_of(key: LogicalKey, switch: SwitchModel) -> SessionKeyStatsModel {
    SessionKeyStatsModel {
        session_id: 0,
        key_name: key.display(),
        presses: switch.stats.session_presses,
        chatters: switch.stats.session_chatters,
        chatter_releases: switch.stats.session_chatter_releases,
    }
}

/// What every key with a switch did in the session that just ended, in the
/// order of the switch records.
pub open spec fn session_key_stats(switches: Seq<(LogicalKey, SwitchModel)>) -> Seq<
    SessionKeyStatsModel,
> {
    Seq::new(switches.len(), |i: int| key_stats_of(switches[i].0, switches[i].1))
}

/// The per-key rows as values.
pub open spec fn key_stats_view(rows: Seq<SessionKeyStats>) -> Seq<SessionKeyStatsModel> {
    rows.map_values(|r: SessionKeyStats| r@)
}

impl ProfileModel {
    /// The profile as a session starts.
    pub open spec fn start_session(self) -> ProfileModel {
        ProfileModel { switches: all_at_session_start(self.switches), ..self }
    }

    /// The profile after a session that ran from `start` to `end` was
    /// recorded.
    pub open spec fn end_session(self, start: Timestamp, end: Timestamp) -> ProfileModel {
        ProfileModel {
            recent_sessions: push_recent(self.recent_sessions, SessionRecord::spanning(start, end)),
            ..self
        }
    }
}

/// A session that has ended: its record and one row per key, as they go to
/// the history store.
#[derive(Debug)]
pub struct CompletedSession {
    pub record: SessionRecord,
    pub key_stats: Vec<SessionKeyStats>,
}

impl UserProfile {
    /// Starts a session: the session counters of every switch return to
    /// zero; lifetime counters and everything else stay.
    pub fn start_session(&mut self)
        ensures
            final(self)@ == old(self)@.start_session(),
    {
        let n = self.switches.len();
        let ghost before = self.switches@;
        let mut i: usize = 0;
        while i < n
            invariant
                i <= n,
                n == before.len(),
                self.switches@.len() == n,
                self.config == old(self).config,
                self.mapping == old(self).mapping,
                self.schema_version == old(self).schema_version,
                self.switch_history == old(self).switch_history,
                self.recent_sessions == old(self).recent_sessions,
                forall|j: int|
                    0 <= j < i ==> (#[trigger] self.switches@[j]).0 == before[j].0
                        && self.switches@[j].1@ == at_session_start(before[j].1@),
                forall|j: int| i <= j < n ==> (#[trigger] self.switches@[j]) == before[j],
            decreases n - i,
        {
            let mut data = self.switches.set_value_at(i, SwitchData::placeholder());
            data.stats.reset_session_stats();
            self.switches.set_value_at(i, data);
            i += 1;
        }
        assert(switches_view(self.switches@) =~= all_at_session_start(switches_view(before)));
    }

    /// The rows that the history store gets for the session that just
    /// ended: one per switch record.
    pub fn session_key_stats(&self) -> (rows: Vec<SessionKeyStats>)
        ensures
            key_stats_view(rows@) == session_key_stats(self@.switches),
    {
        let n = self.switches.len();
        let mut rows: Vec<SessionKeyStats> = Vec::new();
        let mut i: usize = 0;
        while i < n
            invariant
                i <= n,
                n == self.switches@.len(),
                rows@.len() == i,
                forall|j: int|
                    0 <= j < i ==> (#[trigger] rows@[j])@ == key_stats_of(
                        self.switches@[j].0,
                        self.switches@[j].1@,
                    ),
            decreases n - i,
        {
            let key = self.switches.key_at(i);
            let switch = self.switches.value_at(i);
            rows.push(
                SessionKeyStats {
                    session_id: 0,
                    key_name: key.to_string(),
                    presses: switch.stats.last_session_presses,
                    chatters: switch.stats.last_session_chatters,
                    chatter_releases: switch.stats.last_session_chatter_releases,
                },
            );
            i += 1;
        }
        assert(key_stats_view(rows@) =~= session_key_stats(self@.switches));
        rows
    }

    /// Ends a session that ran from `start` to `end`: its record joins the
    /// rolling window of recent sessions, and record and per-key rows are
    /// handed back for the history store.
    pub fn end_session(&mut self, start: Timestamp, end: Timestamp) -> (done: CompletedSession)
        ensures
            final(self)@ == old(self)@.end_session(start, end),
            done.record == SessionRecord::spanning(start, end),
            key_stats_view(done.key_stats@) == session_key_stats(old(self)@.switches),
    {
        let record = SessionRecord::new(start, end);
        self.recent_sessions.push(record);
        if self.recent_sessions.len() > RECENT_SESSIONS_CAP {
            self.recent_sessions.remove(0);
        }
        assert(self.recent_sessions@ =~= push_recent(old(self).recent_sessions@, record));
        let key_stats = self.session_key_stats();
        CompletedSession { record, key_stats }
    }
}

/// A session's start sets every key's session counters to zero and changes
/// no lifetime counter, no model and no date; no key comes or goes.
pub proof fn law_session_start_resets_session_counters(
    switches: Seq<(LogicalKey, SwitchModel)>,
    key: LogicalKey,
)
    requires
        distinct_keys(switches),
    ensures
        lookup(all_at_session_start(switches), key) == match lookup(switches, key) {
            Some(switch) => Some(at_session_start(switch)),
            None => None,
        },
        at_session_start(SwitchModel::unknown()).stats.session_presses == 0,
        forall|switch: SwitchModel|
            {
                let after = #[trigger] at_session_start(switch);
                &&& after.stats.session_presses == 0
                &&& after.stats.session_chatters == 0
                &&& after.stats.session_chatter_releases == 0
                &&& after.stats.total_presses == switch.stats.total_presses
                &&& after.stats.total_releases == switch.stats.total_releases
                &&& after.stats.total_chatters == switch.stats.total_chatters
                &&& after.stats.total_chatter_releases == switch.stats.total_chatter_releases
                &&& after.switch_model_id == switch.switch_model_id
                &&& after.last_replaced_at == switch.last_replaced_at
            },
{
    lemma_map_entries(switches, |s: SwitchModel| at_session_start(s));
}

/// Recording a session adds exactly its record at the end of the window
/// and, where the window was full, drops exactly the oldest.
pub proof fn law_session_end_appends_one_record(
    recent: Seq<SessionRecord>,
    record: SessionRecord,
)
    ensures
        push_recent(recent, record).last() == record,
        recent.len() < RECENT_SESSIONS_CAP ==> push_recent(recent, record) == recent.push(record),
        recent.len() >= RECENT_SESSIONS_CAP ==> push_recent(recent, record) == recent.subrange(
            1,
            recent.len() as int,
        ).push(record),
        recent.len() <= RECENT_SESSIONS_CAP ==> push_recent(recent, record).len()
            <= RECENT_SESSIONS_CAP,
{
    if recent.len() >= RECENT_SESSIONS_CAP {
        assert(push_recent(recent, record) =~= recent.subrange(1, recent.len() as int).push(
            record,
        ));
    }
}

} // verus!
