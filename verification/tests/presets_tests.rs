use switch_life_manager::keys::LogicalKey;
use switch_life_manager::presets::{get_official_controller_map, get_phoenix_wan_map};
use switch_life_manager::profile::ButtonMap;
use switch_life_manager::switches::get_default_switch_models;

#[test]
fn test_official_controller_map_contents() {
    let map = get_official_controller_map();
    assert_eq!(map.profile_name, "Official Controller");

    assert_eq!(map.bindings.get(&LogicalKey::Key1), Some(&1));
    assert_eq!(map.bindings.get(&LogicalKey::Key7), Some(&64));
    assert_eq!(map.bindings.get(&LogicalKey::Start), Some(&1024));

    assert!(map.bindings.contains_key(&LogicalKey::Key1));
    assert!(map.bindings.contains_key(&LogicalKey::Key2));
    assert!(map.bindings.contains_key(&LogicalKey::Key3));
    assert!(map.bindings.contains_key(&LogicalKey::Key4));
    assert!(map.bindings.contains_key(&LogicalKey::Key5));
    assert!(map.bindings.contains_key(&LogicalKey::Key6));
    assert!(map.bindings.contains_key(&LogicalKey::Key7));
    assert!(map.bindings.contains_key(&LogicalKey::Turntable));
    assert!(map.bindings.contains_key(&LogicalKey::Start));
    assert!(map.bindings.contains_key(&LogicalKey::Select));
}

#[test]
fn test_phoenix_wan_map_contents() {
    let map = get_phoenix_wan_map();
    assert_eq!(map.profile_name, "PhoenixWAN");
    assert_eq!(map.bindings.get(&LogicalKey::Key1), Some(&1));
}

#[test]
fn official_map_binds_twelve_keys_to_twelve_bits() {
    let map = get_official_controller_map();
    assert_eq!(map.bindings.len(), 12);
    let expected: [(LogicalKey, u32); 12] = [
        (LogicalKey::Key1, 1),
        (LogicalKey::Key2, 2),
        (LogicalKey::Key3, 4),
        (LogicalKey::Key4, 8),
        (LogicalKey::Key5, 16),
        (LogicalKey::Key6, 32),
        (LogicalKey::Key7, 64),
        (LogicalKey::E1, 256),
        (LogicalKey::E2, 512),
        (LogicalKey::Start, 1024),
        (LogicalKey::Select, 2048),
        (LogicalKey::Turntable, 128),
    ];
    for (i, (key, mask)) in expected.iter().enumerate() {
        assert_eq!(map.bindings.key_at(i), *key);
        assert_eq!(*map.bindings.value_at(i), *mask);
    }
    assert!(!map.bindings.contains_key(&LogicalKey::E3));
}

#[test]
fn default_map_is_the_phoenix_wan_layout() {
    let map = ButtonMap::default();
    assert_eq!(map.profile_name, "Default");
    assert_eq!(map.bindings.len(), 11);
    assert_eq!(map.bindings.get(&LogicalKey::Key1), Some(&8));
    assert_eq!(map.bindings.get(&LogicalKey::Key2), Some(&1));
    assert_eq!(map.bindings.get(&LogicalKey::Key3), Some(&2));
    assert_eq!(map.bindings.get(&LogicalKey::Key4), Some(&4));
    assert_eq!(map.bindings.get(&LogicalKey::Key5), Some(&64));
    assert_eq!(map.bindings.get(&LogicalKey::Key6), Some(&256));
    assert_eq!(map.bindings.get(&LogicalKey::Key7), Some(&128));
    assert_eq!(map.bindings.get(&LogicalKey::E1), Some(&1024));
    assert_eq!(map.bindings.get(&LogicalKey::E2), Some(&2048));
    assert_eq!(map.bindings.get(&LogicalKey::E3), Some(&8192));
    assert_eq!(map.bindings.get(&LogicalKey::E4), Some(&16384));
    assert_eq!(map.bindings.get(&LogicalKey::Start), None);
}

#[test]
fn switch_catalogue_lists_four_models() {
    let models = get_default_switch_models();
    assert_eq!(models.len(), 4);
    assert_eq!(models[0].id, "omron_d2mv_01_1c3");
    assert_eq!(models[0].name, "D2MV-01-1C3 (50g)");
    assert_eq!(models[0].manufacturer, "Omron");
    assert_eq!(models[0].rated_lifespan_presses, 10_000_000);
    assert_eq!(models[1].id, "omron_d2mv_01_1c2");
    assert_eq!(models[1].name, "D2MV-01-1C2 (25g)");
    assert_eq!(models[1].rated_lifespan_presses, 10_000_000);
    assert_eq!(models[2].id, "omron_v_10_1a4");
    assert_eq!(models[2].name, "V-10-1A4 (100g)");
    assert_eq!(models[2].rated_lifespan_presses, 50_000_000);
    assert_eq!(models[3].id, "generic_unknown");
    assert_eq!(models[3].name, "Generic / Unknown");
    assert_eq!(models[3].manufacturer, "Generic");
    assert_eq!(models[3].rated_lifespan_presses, 1_000_000);
}
