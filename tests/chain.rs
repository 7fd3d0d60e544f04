use landlock::access::{
    ACCESS_FS_EXECUTE, ACCESS_FS_READ_FILE, ACCESS_FS_REFER, ACCESS_FS_TRUNCATE,
};
use landlock::{
    AccessFs, Compat, CompatError, CompatLevel, CompatResult, CompatState, CompatStatus, Error,
    ErrorThreshold, LastCall, PathBeneath, RestrictionStatus, Ruleset, RulesetAttr, TryCompat,
    ABI,
};

const ALL_LEVELS: [CompatLevel; 3] = [
    CompatLevel::BestEffort,
    CompatLevel::SoftRequirement,
    CompatLevel::HardRequirement,
];

fn status<T>(chain: &Compat<T>) -> Option<CompatStatus> {
    chain.build.as_ref().map(|b| b.status)
}

fn created(attr: Compat<RulesetAttr>, fd: i32) -> Compat<Ruleset> {
    let answer = match attr.creation_request() {
        Some(_) => Ok(fd),
        None => Err(Error::Os(-1)),
    };
    attr.create(answer)
}

#[test]
fn fully_supported_chain_is_fully_restricted() {
    let access = AccessFs::from_bits(ACCESS_FS_EXECUTE | ACCESS_FS_READ_FILE);
    for level in ALL_LEVELS {
        for rule_level in ALL_LEVELS {
            let attr = RulesetAttr::new(ABI::V1)
                .set_compatibility(level)
                .handle_fs(access);
            assert_eq!(attr.last, LastCall::FullSuccess);
            assert_eq!(status(&attr), Some(CompatStatus::Full));
            assert_eq!(attr.creation_request(), Some(access));
            let rule = PathBeneath::new(5, ABI::V1)
                .set_compatibility(rule_level)
                .allow_access(access);
            assert_eq!(rule.last, LastCall::FullSuccess);
            let ruleset = created(attr, 3).add_rule(rule, Ok(()));
            assert_eq!(status(&ruleset), Some(CompatStatus::Full));
            assert_eq!(ruleset.ruleset_fd(), Some(3));
            assert_eq!(
                ruleset.restrict_self(Ok(()), Ok(())),
                RestrictionStatus::FullyRestricted
            );
        }
    }
}

#[test]
fn into_result_twice_gives_the_same() {
    let chain = RulesetAttr::new(ABI::V1).handle_fs(AccessFs::from_bits(
        ACCESS_FS_EXECUTE | ACCESS_FS_REFER,
    ));
    assert_eq!(chain.last, LastCall::PartialSuccess);
    let once = chain.into_result(ErrorThreshold::Incompatible).unwrap();
    let twice = once.into_result(ErrorThreshold::Incompatible).unwrap();
    assert_eq!(twice.last, LastCall::PartialSuccess);
    assert_eq!(status(&twice), Some(CompatStatus::Partial));
    assert_eq!(
        twice.into_result(ErrorThreshold::PartiallyCompatible).err(),
        Some(Error::PartiallyCompatible)
    );
}

#[test]
fn unsupported_kernel_best_effort() {
    let chain = RulesetAttr::new(ABI::Unsupported)
        .set_compatibility(CompatLevel::BestEffort)
        .handle_fs(AccessFs::from_bits(ACCESS_FS_EXECUTE));
    let chain = chain.into_result(ErrorThreshold::Incompatible).unwrap();
    assert_eq!(chain.creation_request(), None);
    let ruleset = chain.create(Err(Error::Os(38)));
    assert_eq!(ruleset.last, LastCall::Unsupported);
    assert_eq!(ruleset.ruleset_fd(), None);
    assert_eq!(
        ruleset.restrict_self(Ok(()), Ok(())),
        RestrictionStatus::Unrestricted(None)
    );
    assert_eq!(RestrictionStatus::Unrestricted(None).into_result(), Ok(()));
}

#[test]
fn hard_requirement_on_older_kernel_fails_at_once() {
    let chain = RulesetAttr::new(ABI::V2)
        .set_compatibility(CompatLevel::HardRequirement)
        .handle_fs(AccessFs::from_bits(ACCESS_FS_TRUNCATE));
    let error = Error::Compat(CompatError::Incompatible { access: 0x4000 });
    assert_eq!(chain.last, LastCall::RuntimeError(error));
    assert!(chain.build.is_none());
    assert_eq!(chain.creation_request(), None);
    assert_eq!(
        RulesetAttr::new(ABI::V2)
            .set_compatibility(CompatLevel::HardRequirement)
            .handle_fs(AccessFs::from_bits(ACCESS_FS_TRUNCATE))
            .into_result(ErrorThreshold::Runtime)
            .err(),
        Some(error)
    );
    let ruleset = chain.create(Ok(3));
    assert_eq!(ruleset.last, LastCall::Fake);
    assert_eq!(
        ruleset.restrict_self(Ok(()), Ok(())),
        RestrictionStatus::Unrestricted(Some(error))
    );

    let partial = RulesetAttr::new(ABI::V2)
        .set_compatibility(CompatLevel::HardRequirement)
        .handle_fs(AccessFs::from_bits(ACCESS_FS_EXECUTE | ACCESS_FS_TRUNCATE));
    assert_eq!(
        partial.last,
        LastCall::RuntimeError(Error::Compat(CompatError::PartiallyCompatible {
            access: 0x4001,
            incompatible: 0x4000,
        }))
    );
}

#[test]
fn invalid_rule_handle_is_a_runtime_error() {
    let access = AccessFs::from_bits(ACCESS_FS_EXECUTE);
    for level in ALL_LEVELS {
        let attr = RulesetAttr::new(ABI::V3)
            .set_compatibility(level)
            .handle_fs(access);
        let rule = PathBeneath::new(-1, ABI::V3).allow_access(access);
        let ruleset = created(attr, 3).add_rule(rule, Err(Error::Os(9)));
        assert_eq!(ruleset.last, LastCall::RuntimeError(Error::Os(9)));
        assert_eq!(
            ruleset.restrict_self(Ok(()), Ok(())),
            RestrictionStatus::Unrestricted(Some(Error::Os(9)))
        );
    }
}

#[test]
fn soft_requirement_drops_the_object() {
    let chain = RulesetAttr::new(ABI::V1)
        .set_compatibility(CompatLevel::SoftRequirement)
        .handle_fs(AccessFs::from_bits(ACCESS_FS_EXECUTE | ACCESS_FS_REFER));
    assert!(chain.build.is_none());
    assert_eq!(chain.last, LastCall::Unsupported);
    let chain = chain.into_result(ErrorThreshold::Runtime).unwrap();
    let later = chain
        .set_compatibility(CompatLevel::HardRequirement)
        .handle_fs(AccessFs::from_bits(ACCESS_FS_EXECUTE));
    assert_eq!(later.last, LastCall::Fake);
    assert_eq!(
        later.into_result(ErrorThreshold::Incompatible).err(),
        Some(Error::Incompatible)
    );

    let mut state = CompatState::Init;
    let dropped = AccessFs::from_bits(ACCESS_FS_EXECUTE | ACCESS_FS_REFER).try_compat(
        ABI::V1,
        CompatLevel::SoftRequirement,
        &mut state,
    );
    assert_eq!(dropped, Ok(None));
    assert_eq!(state, CompatState::Dummy);
    let kept = AccessFs::from_bits(ACCESS_FS_EXECUTE).try_compat(
        ABI::V1,
        CompatLevel::HardRequirement,
        &mut state,
    );
    assert_eq!(kept, Ok(Some(AccessFs::from_bits(ACCESS_FS_EXECUTE))));
    assert_eq!(state, CompatState::Dummy);
}

#[test]
fn access_negotiation_outcomes() {
    let a = AccessFs::from_bits(ACCESS_FS_EXECUTE | ACCESS_FS_REFER);
    assert!(matches!(a.try_compat_inner(ABI::V2), Ok(CompatResult::Full(x)) if x == a));
    assert!(matches!(
        a.try_compat_inner(ABI::V1),
        Ok(CompatResult::Partial(x, CompatError::PartiallyCompatible { access: 0x2001, incompatible: 0x2000 }))
            if x.bits == 1
    ));
    assert!(matches!(
        a.try_compat_inner(ABI::Unsupported),
        Ok(CompatResult::No(CompatError::Incompatible { access: 0x2001 }))
    ));
    assert!(matches!(
        AccessFs::empty().try_compat_inner(ABI::V3),
        Err(CompatError::Empty)
    ));
    assert!(matches!(
        AccessFs::from_bits(0x18000).try_compat_inner(ABI::V3),
        Err(CompatError::Unknown { access: 0x18000, unknown: 0x18000 })
    ));

    // Under best effort an unsupported set is dropped with state No.
    let mut state = CompatState::Init;
    assert_eq!(
        AccessFs::from_bits(ACCESS_FS_REFER).try_compat(ABI::V1, CompatLevel::BestEffort, &mut state),
        Ok(None)
    );
    assert_eq!(state, CompatState::No);
    // A malformed request fails whatever the level, and gives up the chain.
    let mut state = CompatState::Full;
    assert_eq!(
        AccessFs::empty().try_compat(ABI::V3, CompatLevel::BestEffort, &mut state),
        Err(CompatError::Empty)
    );
    assert_eq!(state, CompatState::Dummy);
}

#[test]
fn access_set_operations() {
    let all = AccessFs::all();
    assert_eq!(all.bits(), 0x7fff);
    assert!(all.contains(AccessFs::from_bits(ACCESS_FS_TRUNCATE)));
    assert!(!AccessFs::from_all(ABI::V2).contains(AccessFs::from_bits(ACCESS_FS_TRUNCATE)));
    assert_eq!(AccessFs::from_all(ABI::V1).bits(), 0x1fff);
    assert_eq!(AccessFs::from_all(ABI::Unsupported).bits(), 0);
    assert!(AccessFs::empty().is_empty());
    assert_eq!(
        AccessFs::from_bits(1).union(AccessFs::from_bits(4)).bits(),
        5
    );
}

#[test]
fn best_effort_keeps_what_is_supported() {
    let chain = RulesetAttr::new(ABI::V1)
        .handle_fs(AccessFs::from_bits(ACCESS_FS_EXECUTE))
        .handle_fs(AccessFs::from_bits(ACCESS_FS_READ_FILE | ACCESS_FS_TRUNCATE))
        .handle_fs(AccessFs::from_bits(ACCESS_FS_REFER));
    assert_eq!(chain.last, LastCall::PartialSuccess);
    assert_eq!(status(&chain), Some(CompatStatus::Partial));
    assert_eq!(chain.creation_request(), Some(AccessFs::from_bits(ACCESS_FS_READ_FILE)));
    let data = chain.data().unwrap();
    assert_eq!(data.compat.state, CompatState::Partial);

    let rule = PathBeneath::new(4, ABI::V1)
        .allow_access(AccessFs::from_bits(ACCESS_FS_EXECUTE | ACCESS_FS_REFER));
    assert_eq!(rule.last, LastCall::PartialSuccess);
    assert_eq!(rule.data().unwrap().allowed_access.bits(), 1);
    let dropped = PathBeneath::new(4, ABI::V1).allow_access(AccessFs::from_bits(ACCESS_FS_REFER));
    assert_eq!(dropped.last, LastCall::Unsupported);
    assert!(dropped.build.is_none());

    let ruleset = created(chain, 7)
        .add_rule(rule, Ok(()))
        .add_rule(dropped, Err(Error::Os(1)));
    assert_eq!(ruleset.last, LastCall::Unsupported);
    let ruleset = ruleset.set_no_new_privs(false);
    assert_eq!(ruleset.last, LastCall::FullSuccess);
    assert_eq!(ruleset.data().unwrap().no_new_privs, false);
    assert_eq!(
        ruleset.restrict_self(Err(Error::Os(1)), Ok(())),
        RestrictionStatus::PartiallyRestricted(None)
    );
}

#[test]
fn restriction_outcomes() {
    let make = || {
        created(
            RulesetAttr::new(ABI::V3).handle_fs(AccessFs::from_bits(ACCESS_FS_EXECUTE)),
            3,
        )
    };
    assert_eq!(
        make().restrict_self(Err(Error::Os(1)), Ok(())),
        RestrictionStatus::Unrestricted(Some(Error::Os(1)))
    );
    assert_eq!(
        make().restrict_self(Ok(()), Err(Error::Os(22))),
        RestrictionStatus::Unrestricted(Some(Error::Os(22)))
    );
    let failed = RulesetAttr::new(ABI::V3)
        .handle_fs(AccessFs::from_bits(ACCESS_FS_EXECUTE))
        .create(Err(Error::Os(12)));
    assert_eq!(failed.get_last_error(), Some(Error::Os(12)));
    let later = failed.set_no_new_privs(true);
    assert_eq!(later.last, LastCall::Fake);
    assert_eq!(later.get_last_error(), Some(Error::Os(12)));
    assert_eq!(
        later.restrict_self(Ok(()), Ok(())),
        RestrictionStatus::Unrestricted(Some(Error::Os(12)))
    );
    assert_eq!(
        RestrictionStatus::PartiallyRestricted(Some(Error::Os(9))).into_result(),
        Err(Error::Os(9))
    );
    assert_eq!(RestrictionStatus::FullyRestricted.into_result(), Ok(()));
}

#[test]
fn last_call_and_previous_error() {
    let chain = Compat::new(CompatStatus::Full, 1u8);
    assert_eq!(chain.last, LastCall::FullSuccess);
    let chain = chain.set_last_call_status(LastCall::RuntimeError(Error::Os(5)));
    assert_eq!(status(&chain), Some(CompatStatus::Partial));
    let chain = chain.set_last_call_status(LastCall::Unsupported);
    assert_eq!(chain.prev_error, Some(Error::Os(5)));
    assert_eq!(chain.get_last_error(), Some(Error::Os(5)));
    assert_eq!(
        chain.into_result(ErrorThreshold::Incompatible).err(),
        Some(Error::Incompatible)
    );
    let moved: Compat<u16> = Compat::new(CompatStatus::Partial, 1u8).merge(None);
    assert_eq!(moved.last, LastCall::PartialSuccess);
    assert!(moved.build.is_none());
    assert_eq!(LastCall::from(CompatStatus::Partial), LastCall::PartialSuccess);
}

#[test]
fn constructors_start_from_every_known_right() {
    for abi in [ABI::Unsupported, ABI::V1, ABI::V2, ABI::V3] {
        let attr = RulesetAttr::new(abi);
        assert_eq!(attr.last, LastCall::FullSuccess);
        assert_eq!(attr.prev_error, None);
        assert_eq!(attr.data().unwrap().handled_fs, AccessFs::all());
        for threshold in [
            ErrorThreshold::Runtime,
            ErrorThreshold::Incompatible,
            ErrorThreshold::PartiallyCompatible,
        ] {
            assert!(RulesetAttr::new(abi).into_result(threshold).is_ok());
        }
        let rule = PathBeneath::new(6, abi);
        assert_eq!(rule.last, LastCall::FullSuccess);
        let data = rule.data().unwrap();
        assert_eq!(data.allowed_access.bits(), 0x7fff);
        assert_eq!(data.parent_fd, 6);
    }
    assert_eq!(
        RulesetAttr::new(ABI::V3).creation_request(),
        Some(AccessFs::all())
    );
}

#[test]
fn handle_fs_replaces_the_handled_rights() {
    let chain = RulesetAttr::new(ABI::V3)
        .handle_fs(AccessFs::from_bits(ACCESS_FS_EXECUTE | ACCESS_FS_READ_FILE))
        .handle_fs(AccessFs::from_bits(ACCESS_FS_TRUNCATE));
    assert_eq!(chain.last, LastCall::FullSuccess);
    assert_eq!(
        chain.creation_request(),
        Some(AccessFs::from_bits(ACCESS_FS_TRUNCATE))
    );
}
