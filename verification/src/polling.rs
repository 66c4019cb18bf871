use crate::detector::{ChatterDetector, DetectorModel};
use crate::key_map::{
    distinct_keys, lemma_index_of_unique, lemma_map_entries, lemma_map_entries_upsert,
    lemma_upsert, lookup, upsert, KeyMap,
};
use crate::keys::LogicalKey;
use crate::profile::switches_view;
use crate::switches::{SwitchData, SwitchModel};
use vstd::prelude::*;

verus! {

/// The switch recorded for `key`, or the record that its first observation
/// makes.
pub open spec fn switch_or_unknown(
    switches: Seq<(LogicalKey, SwitchModel)>,
    key: LogicalKey,
) -> SwitchModel {
    match lookup(switches, key) {
        Some(switch) => switch,
        None => SwitchModel::unknown(),
    }
}

/// A key bound to `mask` is pressed in the raw button state `raw`.
pub open spec fn is_pressed(raw: u32, mask: u32) -> bool {
    raw & mask != 0
}

/// Detector and switch records after one key was observed.
pub open spec fn observe_key(
    detector: DetectorModel,
    switches: Seq<(LogicalKey, SwitchModel)>,
    key: LogicalKey,
    pressed: bool,
    now_ms: u64,
    session_active: bool,
) -> (DetectorModel, Seq<(LogicalKey, SwitchModel)>) {
    let switch = switch_or_unknown(switches, key);
    (
        detector.observe(key, pressed, now_ms),
        upsert(
            switches,
            key,
            SwitchModel {
                stats: detector.count(key, switch.stats, pressed, now_ms, session_active),
                ..switch
            },
        ),
    )
}

/// Detector and switch records after the first `upto` bound keys were
/// observed in the raw button state `raw`, in the order of the bindings.
pub open spec fn observe_keys(
    bindings: Seq<(LogicalKey, u32)>,
    upto: int,
    detector: DetectorModel,
    switches: Seq<(LogicalKey, SwitchModel)>,
    raw: u32,
    now_ms: u64,
    session_active: bool,
) -> (DetectorModel, Seq<(LogicalKey, SwitchModel)>)
    decreases upto,
{
    if upto <= 0 {
        (detector, switches)
    } else {
        let (d, s) = observe_keys(bindings, upto - 1, detector, switches, raw, now_ms, session_active);
        observe_key(
            d,
            s,
            bindings[upto - 1].0,
            is_pressed(raw, bindings[upto - 1].1),
            now_ms,
            session_active,
        )
    }
}

/// The keys among the first `upto` bound ones that are pressed in `raw`, in
/// the order of the bindings.
pub open spec fn pressed_keys(bindings: Seq<(LogicalKey, u32)>, upto: int, raw: u32) -> Seq<
    LogicalKey,
>
    decreases upto,
{
    if upto <= 0 {
        Seq::empty()
    } else if is_pressed(raw, bindings[upto - 1].1) {
        pressed_keys(bindings, upto - 1, raw).push(bindings[upto - 1].0)
    } else {
        pressed_keys(bindings, upto - 1, raw)
    }
}

/// The switch of every bound key, where there is one, has headroom in all
/// its counters.
pub open spec fn bound_keys_have_headroom(
    bindings: Seq<(LogicalKey, u32)>,
    switches: Seq<(LogicalKey, SwitchModel)>,
) -> bool {
    forall|i: int|
        0 <= i < bindings.len() ==> switch_or_unknown(
            switches,
            (#[trigger] bindings[i]).0,
        ).stats.has_headroom()
}

/// Observes one key: its detector state and the counters of its switch move
/// on; a key without a switch record gets one.
pub fn observe_one(
    detector: &mut ChatterDetector,
    switches: &mut KeyMap<SwitchData>,
    key: LogicalKey,
    pressed: bool,
    now_ms: u64,
    session_active: bool,
)
    requires
        old(detector)@.admits(now_ms),
        switch_or_unknown(switches_view(old(switches)@), key).stats.has_headroom(),
    ensures
        (final(detector)@, switches_view(final(switches)@)) == observe_key(
            old(detector)@,
            switches_view(old(switches)@),
            key,
            pressed,
            now_ms,
            session_active,
        ),
{
    let ghost before = switches@;
    let ghost view = |d: SwitchData| d@;
    let n = switches.len();
    proof {
        lemma_map_entries(before, view);
    }
    match switches.position(&key) {
        Some(i) => {
            let mut data = switches.set_value_at(i, SwitchData::placeholder());
            let ghost held = data;
            proof {
                lemma_index_of_unique(before, i as int);
                assert(lookup(switches_view(before), key) == Some(held@));
            }
            detector.process_button(&key, pressed, now_ms, &mut data.stats, session_active);
            switches.set_value_at(i, data);
            proof {
                assert(switches@ =~= upsert(before, key, data));
                lemma_map_entries_upsert(before, view, key, data);
            }
        },
        None => {
            let mut data = SwitchData::unknown();
            detector.process_button(&key, pressed, now_ms, &mut data.stats, session_active);
            switches.insert(key, data);
            proof {
                lemma_map_entries_upsert(before, view, key, data);
            }
        },
    }
}

/// Observing one key leaves the switch of every other key as it was.
pub proof fn lemma_observe_key_keeps_others(
    detector: DetectorModel,
    switches: Seq<(LogicalKey, SwitchModel)>,
    key: LogicalKey,
    pressed: bool,
    now_ms: u64,
    session_active: bool,
)
    requires
        distinct_keys(switches),
    ensures
        distinct_keys(observe_key(detector, switches, key, pressed, now_ms, session_active).1),
        forall|other: LogicalKey|
            other != key ==> #[trigger] lookup(
                observe_key(detector, switches, key, pressed, now_ms, session_active).1,
                other,
            ) == lookup(switches, other),
{
    let switch = switch_or_unknown(switches, key);
    lemma_upsert(
        switches,
        key,
        SwitchModel {
            stats: detector.count(key, switch.stats, pressed, now_ms, session_active),
            ..switch
        },
    );
}

/// What a poll does to one key, said without the order of the bindings:
/// a key bound among the first `upto` bindings is observed exactly once,
/// from the state and the counters it had before the poll; its model and
/// its date stay. Any other key keeps its state and its switch.
pub proof fn law_observe_keys_by_key(
    bindings: Seq<(LogicalKey, u32)>,
    upto: int,
    detector: DetectorModel,
    switches: Seq<(LogicalKey, SwitchModel)>,
    raw: u32,
    now_ms: u64,
    session_active: bool,
    key: LogicalKey,
)
    requires
        distinct_keys(bindings),
        distinct_keys(switches),
        0 <= upto <= bindings.len(),
    ensures
        ({
            let (d, s) = observe_keys(bindings, upto, detector, switches, raw, now_ms, session_active);
            let before = switch_or_unknown(switches, key);
            &&& distinct_keys(s)
            &&& d.threshold == detector.threshold
            &&& forall|j: int|
                0 <= j < upto && (#[trigger] bindings[j]).0 == key ==> {
                    let pressed = is_pressed(raw, bindings[j].1);
                    &&& d.state_of(key) == detector.state_of(key).observe(
                        detector.threshold,
                        pressed,
                        now_ms,
                    )
                    &&& lookup(s, key) == Some(
                        SwitchModel {
                            stats: detector.count(
                                key,
                                before.stats,
                                pressed,
                                now_ms,
                                session_active,
                            ),
                            ..before
                        },
                    )
                }
            &&& (forall|j: int| 0 <= j < upto ==> (#[trigger] bindings[j]).0 != key) ==> lookup(
                s,
                key,
            ) == lookup(switches, key) && d.state_of(key) == detector.state_of(key)
        }),
    decreases upto,
{
    if upto > 0 {
        law_observe_keys_by_key(
            bindings,
            upto - 1,
            detector,
            switches,
            raw,
            now_ms,
            session_active,
            key,
        );
        let (d0, s0) = observe_keys(
            bindings,
            upto - 1,
            detector,
            switches,
            raw,
            now_ms,
            session_active,
        );
        let turn = bindings[upto - 1].0;
        let pressed = is_pressed(raw, bindings[upto - 1].1);
        lemma_observe_key_keeps_others(d0, s0, turn, pressed, now_ms, session_active);
        let (d, s) = observe_key(d0, s0, turn, pressed, now_ms, session_active);
        if turn == key {
            assert forall|j: int| 0 <= j < upto - 1 implies (#[trigger] bindings[j]).0 != key by {
                assert(bindings[j].0 != bindings[upto - 1].0);
            }
            let held = switch_or_unknown(s0, key);
            lemma_upsert(
                s0,
                key,
                SwitchModel {
                    stats: d0.count(key, held.stats, pressed, now_ms, session_active),
                    ..held
                },
            );
            assert forall|j: int| 0 <= j < upto && (#[trigger] bindings[j]).0 == key implies j
                == upto - 1 by {
                if j != upto - 1 {
                    assert(bindings[j].0 != bindings[upto - 1].0);
                }
            }
        } else {
            assert(d.state_of(key) == d0.state_of(key));
            assert(lookup(s, key) == lookup(s0, key));
        }
    }
}

/// Observes every bound key in the raw button state `raw` and hands back
/// the keys that are pressed, in the order of the bindings.
pub fn observe_all(
    detector: &mut ChatterDetector,
    switches: &mut KeyMap<SwitchData>,
    bindings: &KeyMap<u32>,
    raw: u32,
    now_ms: u64,
    session_active: bool,
) -> (pressed: Vec<LogicalKey>)
    requires
        old(detector)@.admits(now_ms),
        bound_keys_have_headroom(bindings@, switches_view(old(switches)@)),
    ensures
        (final(detector)@, switches_view(final(switches)@)) == observe_keys(
            bindings@,
            bindings@.len() as int,
            old(detector)@,
            switches_view(old(switches)@),
            raw,
            now_ms,
            session_active,
        ),
        pressed@ == pressed_keys(bindings@, bindings@.len() as int, raw),
{
    let mut pressed: Vec<LogicalKey> = Vec::new();
    let n = bindings.len();
    let ghost start_detector = detector@;
    let ghost start = switches_view(switches@);
    let m = switches.len();
    proof {
        lemma_map_entries(switches@, |d: SwitchData| d@);
    }
    let mut i: usize = 0;
    while i < n
        invariant
            i <= n,
            n == bindings@.len(),
            distinct_keys(bindings@),
            distinct_keys(switches_view(switches@)),
            bound_keys_have_headroom(bindings@, start),
            detector@.admits(now_ms),
            (detector@, switches_view(switches@)) == observe_keys(
                bindings@,
                i as int,
                start_detector,
                start,
                raw,
                now_ms,
                session_active,
            ),
            pressed@ == pressed_keys(bindings@, i as int, raw),
            forall|j: int|
                i <= j < n ==> lookup(switches_view(switches@), (#[trigger] bindings@[j]).0)
                    == lookup(start, bindings@[j].0),
        decreases n - i,
    {
        let key = bindings.key_at(i);
        let mask = *bindings.value_at(i);
        let down = raw & mask != 0;
        if down {
            pressed.push(key);
        }
        let ghost d0 = detector@;
        let ghost s0 = switches_view(switches@);
        proof {
            assert(lookup(s0, bindings@[i as int].0) == lookup(start, bindings@[i as int].0));
            assert(switch_or_unknown(start, bindings@[i as int].0).stats.has_headroom());
            lemma_observe_key_keeps_others(d0, s0, key, down, now_ms, session_active);
        }
        observe_one(detector, switches, key, down, now_ms, session_active);
        proof {
            assert forall|j: int| i + 1 <= j < n implies lookup(
                switches_view(switches@),
                (#[trigger] bindings@[j]).0,
            ) == lookup(start, bindings@[j].0) by {
                assert(bindings@[i as int].0 != bindings@[j].0);
            }
        }
        i += 1;
    }
    pressed
}

} // verus!
