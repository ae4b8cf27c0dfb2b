use os_rebuild::specialisation::{resolve_specialisation, target_profile};

fn some(name: &str) -> Option<String> {
    Some(name.to_string())
}

#[test]
fn target_profile_of_a_named_specialisation() {
    let path = target_profile("/tmp/out/result", &some("foo"));
    assert_eq!(path, "/tmp/out/result/specialisation/foo");
}

#[test]
fn target_profile_without_specialisation_is_the_root() {
    assert_eq!(target_profile("/tmp/out/result", &None), "/tmp/out/result");
    assert_eq!(target_profile("/tmp/out/result", &some("")), "/tmp/out/result");
}

#[test]
fn active_specialisation_wins_over_the_requested_one() {
    assert_eq!(resolve_specialisation(false, &some("asked"), &some("active")), some("active"));
    assert_eq!(resolve_specialisation(false, &None, &some("active")), some("active"));
}

#[test]
fn the_requested_specialisation_is_the_fallback() {
    assert_eq!(resolve_specialisation(false, &some("asked"), &None), some("asked"));
    assert_eq!(resolve_specialisation(false, &some("asked"), &some("")), some("asked"));
    assert_eq!(resolve_specialisation(false, &None, &None), None);
    assert_eq!(resolve_specialisation(false, &some(""), &None), None);
}

#[test]
fn no_specialisation_switches_resolution_off() {
    assert_eq!(resolve_specialisation(true, &some("asked"), &some("active")), None);
    assert_eq!(resolve_specialisation(true, &None, &some("active")), None);
    assert_eq!(resolve_specialisation(true, &some("asked"), &None), None);
}

#[test]
fn resolving_twice_gives_the_same_name() {
    for no_spec in [false, true] {
        for requested in [None, some(""), some("asked")] {
            for current in [None, some(""), some("active")] {
                let once = resolve_specialisation(no_spec, &requested, &current);
                let again = resolve_specialisation(no_spec, &requested, &current);
                assert_eq!(once, again);
                let fed_back = resolve_specialisation(no_spec, &requested, &once);
                assert_eq!(fed_back, once);
            }
        }
    }
}
