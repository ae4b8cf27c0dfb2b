use os_rebuild::error::RebuildError;
use os_rebuild::privilege::{
    decide_sudo, source_is_root_owned, ElevationPolicy, Identity, ProfileMetadata,
};

#[test]
fn root_without_bypass_is_a_policy_violation() {
    assert_eq!(decide_sudo(true, false), Err(RebuildError::PolicyViolation));
    assert_eq!(ElevationPolicy::decide(true, false, false), Err(RebuildError::PolicyViolation));
    assert_eq!(ElevationPolicy::decide(true, false, true), Err(RebuildError::PolicyViolation));
}

#[test]
fn bypass_elevates_only_who_is_not_root() {
    assert_eq!(decide_sudo(true, true), Ok(false));
    assert_eq!(decide_sudo(false, true), Ok(true));
}

#[test]
fn an_ordinary_invoker_uses_elevation() {
    assert_eq!(decide_sudo(false, false), Ok(true));
}

#[test]
fn the_source_is_elevated_only_where_root_owns_it() {
    assert_eq!(
        ElevationPolicy::decide(false, false, true),
        Ok(ElevationPolicy { use_sudo: true, elevate_source: true })
    );
    assert_eq!(
        ElevationPolicy::decide(false, false, false),
        Ok(ElevationPolicy { use_sudo: true, elevate_source: false })
    );
    assert_eq!(
        ElevationPolicy::decide(true, true, true),
        Ok(ElevationPolicy { use_sudo: false, elevate_source: false })
    );
    assert_eq!(
        ElevationPolicy::decide(false, true, true),
        Ok(ElevationPolicy { use_sudo: true, elevate_source: true })
    );
}

#[test]
fn only_uid_zero_is_root() {
    assert!(Identity { uid: 0, gid: 7 }.is_root());
    assert!(!Identity { uid: 1, gid: 0 }.is_root());
    assert!(!Identity { uid: 1000, gid: 100 }.is_root());
    assert!(!Identity { uid: u32::MAX, gid: 0 }.is_root());
}

#[test]
fn a_source_of_unknown_owner_is_not_roots() {
    assert!(!source_is_root_owned(None));
    assert!(source_is_root_owned(Some(0)));
    assert!(!source_is_root_owned(Some(1)));
    assert!(!source_is_root_owned(Some(1000)));
}

#[test]
fn the_effective_identity_is_consistent_with_the_root_test() {
    let me = Identity::effective();
    assert_eq!(me.is_root(), me.uid == 0);
}

#[test]
fn a_profile_is_writable_by_its_owner_or_group_unless_read_only() {
    let me = Identity { uid: 1000, gid: 100 };
    assert!(me.can_write(&ProfileMetadata { readonly: false, uid: 1000, gid: 0 }));
    assert!(me.can_write(&ProfileMetadata { readonly: false, uid: 0, gid: 100 }));
    assert!(!me.can_write(&ProfileMetadata { readonly: false, uid: 0, gid: 0 }));
    assert!(!me.can_write(&ProfileMetadata { readonly: true, uid: 1000, gid: 100 }));
}
