use waymouse::registry::{Binding, RegistrySession};

const REQUIRED: &str = "zwlr_virtual_pointer_manager_v1";

#[test]
fn no_matching_global_yields_absence() {
    let mut session = RegistrySession::new();
    assert_eq!(session.finalize(), None);
    assert!(!session.on_advertisement(1, &String::from("wl_compositor"), 5));
    assert!(!session.on_advertisement(2, &String::from("wl_shm"), 1));
    assert!(!session.on_advertisement(3, &String::from("xdg_wm_base"), 4));
    assert_eq!(session.finalize(), None);
}

#[test]
fn single_match_binds_with_advertised_name_and_version() {
    let mut session = RegistrySession::new();
    assert!(!session.on_advertisement(1, &String::from("wl_compositor"), 5));
    assert!(session.on_advertisement(17, &String::from(REQUIRED), 2));
    assert!(!session.on_advertisement(18, &String::from("wl_seat"), 7));
    assert_eq!(session.finalize(), Some(Binding { name: 17, version: 2 }));
}

#[test]
fn first_match_wins_over_later_matches() {
    let mut session = RegistrySession::new();
    assert!(session.on_advertisement(7, &String::from(REQUIRED), 1));
    // A second advertisement of the same interface is malformed server
    // behavior; it must be ignored, not rebound.
    assert!(!session.on_advertisement(9, &String::from(REQUIRED), 3));
    assert!(!session.on_advertisement(11, &String::from(REQUIRED), 2));
    assert_eq!(session.finalize(), Some(Binding { name: 7, version: 1 }));
}

#[test]
fn unknown_interfaces_are_inert_not_errors() {
    let mut session = RegistrySession::new();
    assert!(!session.on_advertisement(1, &String::from("some_vendor_extension_v9"), 1));
    assert_eq!(session.finalize(), None);
    // Discovery can still succeed afterwards.
    assert!(session.on_advertisement(2, &String::from(REQUIRED), 1));
    assert_eq!(session.finalize(), Some(Binding { name: 2, version: 1 }));
}
