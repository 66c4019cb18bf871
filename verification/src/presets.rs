use crate::key_map::KeyMap;
use crate::keys::LogicalKey;
use crate::profile::{ButtonMap, ButtonMapModel};
use vstd::prelude::*;

verus! {

/// The bindings of the official controller: keys 1 to 7 on the first seven
/// buttons, the turntable on the eighth, then E1, E2, Start and Select.
pub open spec fn official_controller_bindings() -> Seq<(LogicalKey, u32)> {
    seq![
        (LogicalKey::Key1, 1u32),
        (LogicalKey::Key2, 2u32),
        (LogicalKey::Key3, 4u32),
        (LogicalKey::Key4, 8u32),
        (LogicalKey::Key5, 16u32),
        (LogicalKey::Key6, 32u32),
        (LogicalKey::Key7, 64u32),
        (LogicalKey::E1, 256u32),
        (LogicalKey::E2, 512u32),
        (LogicalKey::Start, 1024u32),
        (LogicalKey::Select, 2048u32),
        (LogicalKey::Turntable, 128u32),
    ]
}

fn official_bindings() -> (bindings: KeyMap<u32>)
    ensures
        bindings@ == official_controller_bindings(),
{
    let mut bindings: KeyMap<u32> = KeyMap::new();
    bindings.insert_new(LogicalKey::Key1, 1);
    bindings.insert_new(LogicalKey::Key2, 2);
    bindings.insert_new(LogicalKey::Key3, 4);
    bindings.insert_new(LogicalKey::Key4, 8);
    bindings.insert_new(LogicalKey::Key5, 16);
    bindings.insert_new(LogicalKey::Key6, 32);
    bindings.insert_new(LogicalKey::Key7, 64);
    bindings.insert_new(LogicalKey::E1, 256);
    bindings.insert_new(LogicalKey::E2, 512);
    bindings.insert_new(LogicalKey::Start, 1024);
    bindings.insert_new(LogicalKey::Select, 2048);
    bindings.insert_new(LogicalKey::Turntable, 128);
    assert(bindings@ =~= official_controller_bindings());
    bindings
}

/// The button map of the official controller.
pub fn get_official_controller_map() -> (map: ButtonMap)
    ensures
        map@ == (ButtonMapModel {
            profile_name: "Official Controller"@,
            bindings: official_controller_bindings(),
        }),
{
    ButtonMap { profile_name: "Official Controller".to_owned(), bindings: official_bindings() }
}

/// The button map of the PhoenixWAN controller: the official controller's
/// bindings under its own name.
pub fn get_phoenix_wan_map() -> (map: ButtonMap)
    ensures
        map@ == (ButtonMapModel {
            profile_name: "PhoenixWAN"@,
            bindings: official_controller_bindings(),
        }),
{
    let mut map = get_official_controller_map();
    map.profile_name = "PhoenixWAN".to_owned();
    map
}

} // verus!
