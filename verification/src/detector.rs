use crate::key_map::{lemma_to_map_upsert, lemma_upsert_entries, to_map, KeyMap};
use crate::keys::LogicalKey;
use crate::stats::{ButtonStats, StatsModel};
use vstd::prelude::*;

verus! {

/// What the detector remembers of one key between observations.
#[derive(Debug, Clone, Copy)]
pub struct KeyState {
    pub last_release_at: Option<u64>,
    pub chatter_cooldown_until: u64,
    pub is_pressed: bool,
    pub has_counted_chatter_release: bool,
}

/// What one observation of a key amounts to.
#[derive(Debug, Clone, Copy, PartialEq, Eq, Structural)]
pub enum ButtonEvent {
    /// The key's state did not change.
    Idle,
    /// A rising edge inside the cooldown of a chatter: recorded nowhere.
    SuppressedBounce,
    /// A rising edge too soon after the last release.
    Chatter,
    /// A genuine press.
    Press,
    /// A falling edge.
    Release,
}

impl KeyState {
    /// The state of a key that was never observed.
    pub open spec fn fresh() -> KeyState {
        KeyState {
            last_release_at: None,
            chatter_cooldown_until: 0,
            is_pressed: false,
            has_counted_chatter_release: false,
        }
    }

    /// The state of a key that was never observed.
    pub fn new() -> (s: KeyState)
        ensures
            s == KeyState::fresh(),
    {
        KeyState {
            last_release_at: None,
            chatter_cooldown_until: 0,
            is_pressed: false,
            has_counted_chatter_release: false,
        }
    }

    /// The rising edge at `now` comes less than `threshold` after the last
    /// release.
    pub open spec fn too_soon_after_release(self, threshold: u64, now: u64) -> bool {
        match self.last_release_at {
            Some(released) => now - released < threshold,
            None => false,
        }
    }

    /// How an observation of the key at `now` is classified.
    pub open spec fn classify(self, threshold: u64, pressed_now: bool, now: u64) -> ButtonEvent {
        if pressed_now && !self.is_pressed {
            if now < self.chatter_cooldown_until {
                ButtonEvent::SuppressedBounce
            } else if self.too_soon_after_release(threshold, now) {
                ButtonEvent::Chatter
            } else {
                ButtonEvent::Press
            }
        } else if !pressed_now && self.is_pressed {
            ButtonEvent::Release
        } else {
            ButtonEvent::Idle
        }
    }

    /// The key's state after an event at `now`.
    pub open spec fn after(self, event: ButtonEvent, threshold: u64, now: u64) -> KeyState {
        match event {
            ButtonEvent::Idle => self,
            ButtonEvent::SuppressedBounce => KeyState { is_pressed: true, ..self },
            ButtonEvent::Chatter => KeyState {
                is_pressed: true,
                has_counted_chatter_release: true,
                chatter_cooldown_until: (now + threshold) as u64,
                ..self
            },
            ButtonEvent::Press => KeyState { is_pressed: true, ..self },
            ButtonEvent::Release => KeyState {
                is_pressed: false,
                last_release_at: Some(now),
                has_counted_chatter_release: false,
                ..self
            },
        }
    }

    /// The key's state after it was observed at `now`.
    pub open spec fn observe(self, threshold: u64, pressed_now: bool, now: u64) -> KeyState {
        self.after(self.classify(threshold, pressed_now, now), threshold, now)
    }

    /// No release is recorded later than `now`.
    pub open spec fn released_by(self, now: u64) -> bool {
        match self.last_release_at {
            Some(released) => released <= now,
            None => true,
        }
    }
}

/// One more where `session_active`, the same otherwise.
pub open spec fn mirrored(count: nat, session_active: bool) -> nat {
    if session_active {
        count + 1
    } else {
        count
    }
}

/// The counters after an event on a key whose state before it was `state`.
pub open spec fn count_event(
    stats: StatsModel,
    state: KeyState,
    event: ButtonEvent,
    session_active: bool,
) -> StatsModel {
    match event {
        ButtonEvent::Idle | ButtonEvent::SuppressedBounce => stats,
        ButtonEvent::Press => StatsModel {
            total_presses: stats.total_presses + 1,
            session_presses: mirrored(stats.session_presses, session_active),
            ..stats
        },
        ButtonEvent::Chatter => if state.has_counted_chatter_release {
            StatsModel {
                total_chatters: stats.total_chatters + 1,
                session_chatters: mirrored(stats.session_chatters, session_active),
                ..stats
            }
        } else {
            StatsModel {
                total_chatters: stats.total_chatters + 1,
                session_chatters: mirrored(stats.session_chatters, session_active),
                total_chatter_releases: stats.total_chatter_releases + 1,
                session_chatter_releases: mirrored(
                    stats.session_chatter_releases,
                    session_active,
                ),
                ..stats
            }
        },
        ButtonEvent::Release => StatsModel { total_releases: stats.total_releases + 1, ..stats },
    }
}

/// The detector as a value: its threshold, the state of every key it has
/// observed, and the time of its latest observation.
pub struct DetectorModel {
    pub threshold: u64,
    pub states: Map<LogicalKey, KeyState>,
    pub last_observed: u64,
}

impl DetectorModel {
    /// A detector that has observed nothing.
    pub open spec fn fresh(threshold: u64) -> DetectorModel {
        DetectorModel { threshold, states: Map::empty(), last_observed: 0 }
    }

    /// The state of `key`; that of a key never observed is `KeyState::fresh()`.
    pub open spec fn state_of(self, key: LogicalKey) -> KeyState {
        if self.states.dom().contains(key) {
            self.states[key]
        } else {
            KeyState::fresh()
        }
    }

    /// How an observation of `key` at `now` is classified.
    pub open spec fn classify(self, key: LogicalKey, pressed_now: bool, now: u64) -> ButtonEvent {
        self.state_of(key).classify(self.threshold, pressed_now, now)
    }

    /// The detector after `key` was observed at `now`.
    pub open spec fn observe(self, key: LogicalKey, pressed_now: bool, now: u64) -> DetectorModel {
        DetectorModel {
            threshold: self.threshold,
            states: self.states.insert(
                key,
                self.state_of(key).observe(self.threshold, pressed_now, now),
            ),
            last_observed: now,
        }
    }

    /// The counters of `key` after it was observed at `now`.
    pub open spec fn count(
        self,
        key: LogicalKey,
        stats: StatsModel,
        pressed_now: bool,
        now: u64,
        session_active: bool,
    ) -> StatsModel {
        count_event(
            stats,
            self.state_of(key),
            self.classify(key, pressed_now, now),
            session_active,
        )
    }

    /// An observation at `now` is in order: time has not run backwards, and
    /// a cooldown that starts at `now` ends within `u64`.
    pub open spec fn admits(self, now: u64) -> bool {
        self.last_observed <= now && now + self.threshold <= u64::MAX
    }
}

/// Classifies the transitions of every key it is shown as press, release or
/// chatter, and counts them.
pub struct ChatterDetector {
    states: KeyMap<KeyState>,
    chatter_threshold_ms: u64,
    last_observed_ms: u64,
}

impl View for ChatterDetector {
    type V = DetectorModel;

    closed spec fn view(&self) -> DetectorModel {
        DetectorModel {
            threshold: self.chatter_threshold_ms,
            states: to_map(self.states@),
            last_observed: self.last_observed_ms,
        }
    }
}

impl ChatterDetector {
    /// No key was released after the latest observation.
    #[verifier::type_invariant]
    closed spec fn inv(self) -> bool {
        forall|i: int|
            0 <= i < self.states@.len() ==> (#[trigger] self.states@[i]).1.released_by(
                self.last_observed_ms,
            )
    }

    /// A detector with the given chatter threshold in milliseconds.
    pub fn new(chatter_threshold_ms: u64) -> (d: ChatterDetector)
        ensures
            d@ == DetectorModel::fresh(chatter_threshold_ms),
    {
        let d = ChatterDetector {
            states: KeyMap::new(),
            chatter_threshold_ms,
            last_observed_ms: 0,
        };
        assert(d@.states =~= Map::empty());
        d
    }

    /// The chatter threshold in milliseconds.
    pub fn threshold_ms(&self) -> (t: u64)
        ensures
            t == self@.threshold,
    {
        self.chatter_threshold_ms
    }

    /// The time of the latest observation.
    pub fn last_observed_ms(&self) -> (t: u64)
        ensures
            t == self@.last_observed,
    {
        self.last_observed_ms
    }

    /// Tells whether an observation at `now_ms` is in order.
    pub fn admits(&self, now_ms: u64) -> (ok: bool)
        ensures
            ok == self@.admits(now_ms),
    {
        self.last_observed_ms <= now_ms && now_ms <= u64::MAX - self.chatter_threshold_ms
    }

    /// The remembered state of `key`.
    pub fn key_state(&self, key: &LogicalKey) -> (s: KeyState)
        ensures
            s == self@.state_of(*key),
            s.released_by(self@.last_observed),
    {
        proof {
            use_type_invariant(self);
        }
        match self.states.position(key) {
            Some(i) => *self.states.value_at(i),
            None => KeyState::new(),
        }
    }

    /// How an observation of `key` at `now_ms` would be classified.
    pub fn classify(&self, key: &LogicalKey, is_pressed_now: bool, now_ms: u64) -> (event:
        ButtonEvent)
        requires
            self@.last_observed <= now_ms,
        ensures
            event == self@.classify(*key, is_pressed_now, now_ms),
    {
        let state = self.key_state(key);
        if is_pressed_now && !state.is_pressed {
            if now_ms < state.chatter_cooldown_until {
                ButtonEvent::SuppressedBounce
            } else {
                let too_soon = match state.last_release_at {
                    Some(released) => now_ms - released < self.chatter_threshold_ms,
                    None => false,
                };
                if too_soon {
                    ButtonEvent::Chatter
                } else {
                    ButtonEvent::Press
                }
            }
        } else if !is_pressed_now && state.is_pressed {
            ButtonEvent::Release
        } else {
            ButtonEvent::Idle
        }
    }

    /// Takes in one observation of `key`: whether it is pressed at `now_ms`.
    /// The detector's memory of the key and the counters in `stats` move on
    /// by the event that the observation amounts to.
    pub fn process_button(
        &mut self,
        key: &LogicalKey,
        is_pressed_now: bool,
        now_ms: u64,
        stats: &mut ButtonStats,
        is_session_active: bool,
    )
        requires
            old(self)@.admits(now_ms),
            old(stats).has_headroom(),
        ensures
            final(self)@ == old(self)@.observe(*key, is_pressed_now, now_ms),
            final(stats)@ == old(self)@.count(
                *key,
                old(stats)@,
                is_pressed_now,
                now_ms,
                is_session_active,
            ),
    {
        proof {
            use_type_invariant(&*self);
        }
        let threshold = self.chatter_threshold_ms;
        let state = self.key_state(key);
        let event = self.classify(key, is_pressed_now, now_ms);
        let mut next = state;
        match event {
            ButtonEvent::Idle => {},
            ButtonEvent::SuppressedBounce => {
                next.is_pressed = true;
            },
            ButtonEvent::Chatter => {
                stats.total_chatters += 1;
                if is_session_active {
                    stats.last_session_chatters += 1;
                }
                if !state.has_counted_chatter_release {
                    stats.total_chatter_releases += 1;
                    if is_session_active {
                        stats.last_session_chatter_releases += 1;
                    }
                    next.has_counted_chatter_release = true;
                }
                next.chatter_cooldown_until = now_ms + threshold;
                next.is_pressed = true;
            },
            ButtonEvent::Press => {
                stats.total_presses += 1;
                if is_session_active {
                    stats.last_session_presses += 1;
                }
                next.is_pressed = true;
            },
            ButtonEvent::Release => {
                stats.total_releases += 1;
                next.last_release_at = Some(now_ms);
                next.has_counted_chatter_release = false;
                next.is_pressed = false;
            },
        }
        assert(next == state.observe(threshold, is_pressed_now, now_ms));
        let mut states: KeyMap<KeyState> = KeyMap::new();
        core::mem::swap(&mut self.states, &mut states);
        let ghost before = states@;
        proof {
            use_type_invariant(&states);
        }
        states.insert(*key, next);
        proof {
            lemma_upsert_entries(before, *key, next);
            lemma_to_map_upsert(before, *key, next);
            assert forall|i: int| 0 <= i < states@.len() implies (#[trigger] states@[i]).1.released_by(
                now_ms,
            ) by {
                if states@[i] != (*key, next) {
                    assert(states@[i] == before[i]);
                }
            }
        }
        self.last_observed_ms = now_ms;
        self.states = states;
    }
}

/// One observation of a key: whether it is pressed, when, and whether a
/// session was active at that instant.
pub struct Observation {
    pub pressed: bool,
    pub at: u64,
    pub session_active: bool,
}

/// State and counters of one key after a run of observations, oldest first.
pub open spec fn run_key(
    state: KeyState,
    stats: StatsModel,
    threshold: u64,
    run: Seq<Observation>,
) -> (KeyState, StatsModel)
    decreases run.len(),
{
    if run.len() == 0 {
        (state, stats)
    } else {
        let (s, c) = run_key(state, stats, threshold, run.drop_last());
        let o = run.last();
        (
            s.observe(threshold, o.pressed, o.at),
            count_event(c, s, s.classify(threshold, o.pressed, o.at), o.session_active),
        )
    }
}

/// Each observation comes at least `threshold` after the one before it.
pub open spec fn spaced(run: Seq<Observation>, threshold: u64) -> bool {
    forall|i: int| 0 < i < run.len() ==> run[i - 1].at + threshold <= (#[trigger] run[i]).at
}

/// The number of rising edges in a run that starts with the key pressed or
/// not as `pressed_before` says.
pub open spec fn rising_edges(pressed_before: bool, run: Seq<Observation>) -> nat
    decreases run.len(),
{
    if run.len() == 0 {
        0
    } else {
        let earlier = run.drop_last();
        let held = if earlier.len() == 0 {
            pressed_before
        } else {
            earlier.last().pressed
        };
        if run.last().pressed && !held {
            rising_edges(pressed_before, earlier) + 1
        } else {
            rising_edges(pressed_before, earlier)
        }
    }
}

/// The number of rising edges in a run at which a session was active.
pub open spec fn rising_edges_in_session(pressed_before: bool, run: Seq<Observation>) -> nat
    decreases run.len(),
{
    if run.len() == 0 {
        0
    } else {
        let earlier = run.drop_last();
        let held = if earlier.len() == 0 {
            pressed_before
        } else {
            earlier.last().pressed
        };
        if run.last().pressed && !held && run.last().session_active {
            rising_edges_in_session(pressed_before, earlier) + 1
        } else {
            rising_edges_in_session(pressed_before, earlier)
        }
    }
}

/// A run spaced by the threshold, begun in a state that is past any cooldown
/// and any recent release, holds no chatter: every rising edge is a press.
proof fn lemma_spaced_run(
    state: KeyState,
    stats: StatsModel,
    threshold: u64,
    run: Seq<Observation>,
)
    requires
        spaced(run, threshold),
        run.len() > 0 ==> state.chatter_cooldown_until <= run[0].at
            && !state.too_soon_after_release(threshold, run[0].at),
    ensures
        ({
            let (s, c) = run_key(state, stats, threshold, run);
            &&& c.total_presses == stats.total_presses + rising_edges(state.is_pressed, run)
            &&& c.session_presses == stats.session_presses + rising_edges_in_session(
                state.is_pressed,
                run,
            )
            &&& c.total_chatters == stats.total_chatters
            &&& c.total_chatter_releases == stats.total_chatter_releases
            &&& c.session_chatters == stats.session_chatters
            &&& c.session_chatter_releases == stats.session_chatter_releases
            &&& s.chatter_cooldown_until == state.chatter_cooldown_until
            &&& run.len() > 0 ==> s.is_pressed == run.last().pressed
            &&& run.len() > 0 ==> run[0].at <= run.last().at
            &&& run.len() > 0 ==> (s.last_release_at == state.last_release_at || (exists|j: int|
                0 <= j < run.len() && s.last_release_at == Some((#[trigger] run[j]).at)))
        }),
    decreases run.len(),
{
    if run.len() > 0 {
        let earlier = run.drop_last();
        let o = run.last();
        assert forall|i: int| 0 < i < earlier.len() implies earlier[i - 1].at + threshold <= (
        #[trigger] earlier[i]).at by {
            assert(earlier[i] == run[i]);
            assert(earlier[i - 1] == run[i - 1]);
        }
        if earlier.len() > 0 {
            assert(earlier[0] == run[0]);
        }
        lemma_spaced_run(state, stats, threshold, earlier);
        let (s, c) = run_key(state, stats, threshold, earlier);
        if earlier.len() > 0 {
            let last = run.len() - 1;
            assert(run[last - 1].at + threshold <= run[last].at);
            assert(earlier.last() == run[last - 1]);
            assert forall|j: int| 0 <= j < earlier.len() implies (#[trigger] earlier[j]).at
                + threshold <= o.at by {
                lemma_spaced_prefix_time(run, threshold, j, last);
                assert(earlier[j] == run[j]);
            }
            if s.last_release_at != state.last_release_at {
                let j = choose|j: int|
                    0 <= j < earlier.len() && s.last_release_at == Some((#[trigger] earlier[j]).at);
                assert(earlier[j].at + threshold <= o.at);
            } else {
                assert(!state.too_soon_after_release(threshold, run[0].at));
            }
            assert(!s.too_soon_after_release(threshold, o.at));
        }
        let after = s.observe(threshold, o.pressed, o.at);
        if after.last_release_at != state.last_release_at {
            if after.last_release_at == s.last_release_at {
                let j = choose|j: int|
                    0 <= j < earlier.len() && s.last_release_at == Some((#[trigger] earlier[j]).at);
                assert(run[j] == earlier[j]);
            } else {
                assert(after.last_release_at == Some(run[run.len() - 1].at));
            }
        }
    }
}

/// In a spaced run, an earlier observation lies at least the threshold
/// before a later one.
proof fn lemma_spaced_prefix_time(run: Seq<Observation>, threshold: u64, j: int, k: int)
    requires
        spaced(run, threshold),
        0 <= j < k < run.len(),
    ensures
        run[j].at + threshold <= run[k].at,
    decreases k - j,
{
    assert(run[k - 1].at + threshold <= run[k].at);
    if j < k - 1 {
        lemma_spaced_prefix_time(run, threshold, j, k - 1);
    }
}

/// Observations that lie at least the threshold apart hold no chatter: on a
/// key never seen before, every rising edge raises the press count by one,
/// and the session's press count by one where a session was active at that
/// instant; the chatter counters stay as they were.
pub proof fn law_spaced_presses_count_once(
    stats: StatsModel,
    threshold: u64,
    run: Seq<Observation>,
)
    requires
        spaced(run, threshold),
    ensures
        ({
            let (_s, c) = run_key(KeyState::fresh(), stats, threshold, run);
            &&& c.total_presses == stats.total_presses + rising_edges(false, run)
            &&& c.session_presses == stats.session_presses + rising_edges_in_session(false, run)
            &&& c.total_chatters == stats.total_chatters
            &&& c.total_chatter_releases == stats.total_chatter_releases
            &&& c.session_chatters == stats.session_chatters
            &&& c.session_chatter_releases == stats.session_chatter_releases
        }),
{
    lemma_spaced_run(KeyState::fresh(), stats, threshold, run);
}

/// A press that comes at least the threshold after the last release, and
/// after any cooldown, raises the press count by exactly one, mirrored in
/// the session's count exactly where a session is active, and changes no
/// other counter.
pub proof fn law_press_counts_once(
    state: KeyState,
    stats: StatsModel,
    threshold: u64,
    now: u64,
    session_active: bool,
)
    requires
        !state.is_pressed,
        state.chatter_cooldown_until <= now,
        !state.too_soon_after_release(threshold, now),
    ensures
        state.classify(threshold, true, now) == ButtonEvent::Press,
        count_event(stats, state, ButtonEvent::Press, session_active) == (StatsModel {
            total_presses: stats.total_presses + 1,
            session_presses: if session_active {
                stats.session_presses + 1
            } else {
                stats.session_presses
            },
            ..stats
        }),
{
}

/// A press that follows the last release by less than the threshold, past
/// any cooldown, is a chatter: the press count stays, the chatter count
/// rises by exactly one, and the count of releases that chattered rises by
/// one where this release had none counted yet and not at all otherwise.
pub proof fn law_repress_is_chatter(
    state: KeyState,
    stats: StatsModel,
    threshold: u64,
    released: u64,
    now: u64,
    session_active: bool,
)
    requires
        !state.is_pressed,
        state.last_release_at == Some(released),
        released <= now,
        now - released < threshold,
        state.chatter_cooldown_until <= now,
    ensures
        state.classify(threshold, true, now) == ButtonEvent::Chatter,
        ({
            let c = count_event(stats, state, ButtonEvent::Chatter, session_active);
            &&& c.total_presses == stats.total_presses
            &&& c.session_presses == stats.session_presses
            &&& c.total_releases == stats.total_releases
            &&& c.total_chatters == stats.total_chatters + 1
            &&& c.total_chatter_releases == if state.has_counted_chatter_release {
                stats.total_chatter_releases
            } else {
                stats.total_chatter_releases + 1
            }
        }),
{
}

/// A release opens a cycle with no chatter counted: whatever the key's
/// state, after a falling edge the first chatter counts one chattering
/// release, and the state it leaves has that release marked as counted.
pub proof fn law_one_chatter_release_per_cycle(
    state: KeyState,
    stats: StatsModel,
    threshold: u64,
    released: u64,
    now: u64,
    session_active: bool,
)
    requires
        state.is_pressed,
        released <= now,
        now - released < threshold,
        state.chatter_cooldown_until <= now,
        now + threshold <= u64::MAX,
    ensures
        ({
            let open = state.observe(threshold, false, released);
            let c = count_event(stats, open, open.classify(threshold, true, now), session_active);
            let shut = open.observe(threshold, true, now);
            &&& state.classify(threshold, false, released) == ButtonEvent::Release
            &&& !open.has_counted_chatter_release
            &&& open.classify(threshold, true, now) == ButtonEvent::Chatter
            &&& c.total_chatter_releases == stats.total_chatter_releases + 1
            &&& c.total_chatters == stats.total_chatters + 1
            &&& c.total_presses == stats.total_presses
            &&& shut.has_counted_chatter_release
            &&& shut.chatter_cooldown_until == now + threshold
        }),
{
}

/// Inside a cooldown a rising edge changes no counter, yet the key is
/// remembered as pressed, so that the falling edge that follows, whenever it
/// comes, is counted as a release.
pub proof fn law_cooldown_suppresses_bounce(
    state: KeyState,
    stats: StatsModel,
    threshold: u64,
    now: u64,
    later: u64,
    session_active: bool,
)
    requires
        !state.is_pressed,
        now < state.chatter_cooldown_until,
    ensures
        state.classify(threshold, true, now) == ButtonEvent::SuppressedBounce,
        count_event(stats, state, ButtonEvent::SuppressedBounce, session_active) == stats,
        state.observe(threshold, true, now) == (KeyState { is_pressed: true, ..state }),
        state.observe(threshold, true, now).classify(threshold, false, later)
            == ButtonEvent::Release,
        count_event(
            stats,
            state.observe(threshold, true, now),
            ButtonEvent::Release,
            session_active,
        ).total_releases == stats.total_releases + 1,
{
}

/// Counting an event keeps every session counter within its lifetime
/// counter.
pub proof fn law_counting_keeps_session_within_lifetime(
    stats: StatsModel,
    state: KeyState,
    event: ButtonEvent,
    session_active: bool,
)
    requires
        stats.session_within_lifetime(),
    ensures
        count_event(stats, state, event, session_active).session_within_lifetime(),
{
}

} // verus!
