use caudio::error::CAError;
use caudio::unit::desc::{ComponentDescription, Description, Found, Version};
use caudio::unit::flags::ActionFlags;

#[test]
fn version_is_unpacked_byte_by_byte() {
    assert_eq!(
        Version::from_u32(0x0102_0304),
        Version { major: 1, minor: 2, bugfix: 3, stage: 4 }
    );
    assert_eq!(Version::from_u32(0), Version { major: 0, minor: 0, bugfix: 0, stage: 0 });
    assert_eq!(
        Version::from_u32(0xffff_ffff),
        Version { major: 255, minor: 255, bugfix: 255, stage: 255 }
    );
    assert_eq!(
        Version::from_u32(0x0001_0600),
        Version { major: 0, minor: 1, bugfix: 6, stage: 0 }
    );
    assert_eq!(Version::from_u32(0x8000_0000).major, 128);
}

#[test]
fn version_packs_to_the_number_it_came_from() {
    for &n in &[0u32, 1, 0x0102_0304, 0xffff_ffff, 0x8000_0001, 0x00ff_00ff, 65_536] {
        assert_eq!(Version::from_u32(n).to_u32(), n);
    }
    assert_eq!(Version { major: 1, minor: 2, bugfix: 3, stage: 4 }.to_u32(), 0x0102_0304);
}

#[test]
fn search_matches_any_subtype_where_none_is_given() {
    assert_eq!(
        ComponentDescription::search(0x6175_6678, Some(0x6d72_6576)),
        ComponentDescription {
            component_type: 0x6175_6678,
            component_sub_type: 0x6d72_6576,
            component_manufacturer: 0,
            component_flags: 0,
            component_flags_mask: 0,
        }
    );
    assert_eq!(ComponentDescription::search(7, None).component_sub_type, 0);
    assert_eq!(ComponentDescription::search(7, None).component_type, 7);
}

#[test]
fn description_holds_what_the_host_says() {
    let component = ComponentDescription::search(0x6175_6678, Some(0x6465_6c79));
    let d = Description::new(String::from("Apple: AUDelay"), 0x0001_0200, component);
    assert_eq!(d.name(), "Apple: AUDelay");
    assert_eq!(d.version(), Version { major: 0, minor: 1, bugfix: 2, stage: 0 });
    assert_eq!(d.component(), component);
}

#[test]
fn descriptions_are_equal_by_name_and_version() {
    let a = Description::new(String::from("delay"), 1, ComponentDescription::search(1, None));
    let b = Description::new(String::from("delay"), 1, ComponentDescription::search(2, Some(3)));
    let c = Description::new(String::from("delay"), 2, ComponentDescription::search(1, None));
    let d = Description::new(String::from("reverb"), 1, ComponentDescription::search(1, None));
    assert!(a == b);
    assert!(a != c);
    assert!(a != d);
    assert!(a.clone() == a);
}

#[test]
fn action_flags_have_the_bits_of_the_host() {
    assert_eq!(ActionFlags::PRE_RENDER, 4);
    assert_eq!(ActionFlags::POST_RENDER, 8);
    assert_eq!(ActionFlags::OUTPUT_IS_SILENCE, 16);
    assert_eq!(ActionFlags::OFFLINE_PREFLIGHT, 32);
    assert_eq!(ActionFlags::OFFLINE_RENDER, 64);
    assert_eq!(ActionFlags::OFFLINE_COMPLETE, 128);
    assert_eq!(ActionFlags::POST_RENDER_ERROR, 256);
    assert_eq!(ActionFlags::DO_NOT_CHECK_RENDER_ARGS, 512);
    assert_eq!(ActionFlags::ALL, 4 + 8 + 16 + 32 + 64 + 128 + 256 + 512);
}

#[test]
fn action_flags_drop_bits_that_are_no_flag() {
    assert_eq!(ActionFlags::from_bits_truncate(0xffff_ffff).bits(), ActionFlags::ALL);
    assert_eq!(ActionFlags::from_bits_truncate(1 | 2 | 4).bits(), 4);
    assert_eq!(ActionFlags::from_bits(4 | 512).map(|f| f.bits()), Some(516));
    assert_eq!(ActionFlags::from_bits(1), None);
    assert_eq!(ActionFlags::empty().bits(), 0);
    let both = ActionFlags::from_bits_truncate(4).union(ActionFlags::from_bits_truncate(16));
    assert_eq!(both.bits(), 20);
    assert!(both.contains(ActionFlags::from_bits_truncate(16)));
    assert!(!both.contains(ActionFlags::from_bits_truncate(8)));
}

#[test]
fn action_flags_are_shown_by_name() {
    let names = [
        (ActionFlags::PRE_RENDER, "\"PRE_RENDER\""),
        (ActionFlags::POST_RENDER, "\"POST_RENDER\""),
        (ActionFlags::OUTPUT_IS_SILENCE, "\"OUTPUT_IS_SILENCE\""),
        (ActionFlags::OFFLINE_PREFLIGHT, "\"OFFLINE_PREFLIGHT\""),
        (ActionFlags::OFFLINE_RENDER, "\"OFFLINE_RENDER\""),
        (ActionFlags::OFFLINE_COMPLETE, "\"OFFLINE_COMPLETE\""),
        (ActionFlags::POST_RENDER_ERROR, "\"POST_RENDER_ERROR\""),
        (ActionFlags::DO_NOT_CHECK_RENDER_ARGS, "\"DO_NOT_CHECK_RENDER_ARGS\""),
    ];
    for &(bits, name) in &names {
        assert_eq!(ActionFlags::from_bits_truncate(bits).text(), name);
    }
    assert_eq!(ActionFlags::empty().text(), "\"<Unknown ActionFlags>\"");
    assert_eq!(ActionFlags::from_bits_truncate(4 | 8).text(), "\"<Unknown ActionFlags>\"");
}

fn found(name: &str, version: u32, sub_type: u32) -> Found {
    Found {
        name: String::from(name),
        version,
        component: ComponentDescription::search(0x6175_6678, Some(sub_type)),
    }
}

#[test]
fn first_is_the_component_that_was_found() {
    let d = Description::first(Some(found("Apple: AUMatrixReverb", 0x0001_0600, 0x6d72_6576))).unwrap();
    assert_eq!(d.name(), "Apple: AUMatrixReverb");
    assert_eq!(d.version(), Version { major: 0, minor: 1, bugfix: 6, stage: 0 });
    assert_eq!(d.component().component_sub_type, 0x6d72_6576);
}

#[test]
fn search_that_finds_nothing_is_an_error() {
    assert_eq!(
        Description::first(None).err(),
        Some(CAError::Other(String::from("no description found")))
    );
}

#[test]
fn list_keeps_the_order_of_the_search() {
    let all = vec![found("delay", 1, 10), found("reverb", 2, 20), found("filter", 0x0300_0000, 30)];
    let listed = Description::list(&all);
    assert_eq!(listed.len(), 3);
    let names: Vec<&str> = listed.iter().map(|d| d.name()).collect();
    assert_eq!(names, vec!["delay", "reverb", "filter"]);
    assert_eq!(listed[2].version().major, 3);
    assert_eq!(listed[1].component().component_sub_type, 20);
    assert!(Description::list(&Vec::new()).is_empty());
}
