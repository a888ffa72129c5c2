//! Tests of the run lifecycle hooks and identity probes.

use rusty_code::api;

#[test]
fn start_always_acknowledges() {
    assert!(api::rust_start());
    assert!(api::rust_start());
}

#[test]
fn finish_all_zero_words_returns_true() {
    assert!(api::rust_finish(0, 0, 0, 0));
}

#[test]
fn finish_nonzero_first_word_returns_false() {
    assert!(!api::rust_finish(1, 0, 0, 0));
}

#[test]
fn finish_nonzero_anywhere_returns_false() {
    assert!(!api::rust_finish(0, 1, 0, 0));
    assert!(!api::rust_finish(0, 0, 1, 0));
    assert!(!api::rust_finish(0, 0, 0, 5));
    assert!(!api::rust_finish(u64::MAX, u64::MAX, u64::MAX, u64::MAX));
}

#[test]
fn identity_probes_return_their_fixed_sentinels() {
    assert_eq!(api::identity_probe(), 322);
    assert_eq!(api::rusty_cxxbridge_integer(), 42);
}

#[test]
fn identity_probes_are_stable_across_calls() {
    let first_c = api::identity_probe();
    let first_bridge = api::rusty_cxxbridge_integer();
    api::rust_start();
    api::rust_finish(3, 1, 4, 1);
    api::predict_branch(0xdead_beef, true);
    assert_eq!(api::identity_probe(), first_c);
    assert_eq!(api::rusty_cxxbridge_integer(), first_bridge);
    assert_eq!(api::identity_probe(), 322);
    assert_eq!(api::rusty_cxxbridge_integer(), 42);
}

#[test]
fn probes_differ_between_binding_mechanisms() {
    assert_ne!(api::identity_probe(), api::rusty_cxxbridge_integer());
}
