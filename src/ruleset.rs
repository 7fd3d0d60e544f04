use vstd::prelude::*;

use crate::access::{access_fs_for, AccessFs, CompatError, ACCESS_FS_ALL};
use crate::chain::{last_call_of, Compat, CompatBuild, CompatStatus, Error, LastCall};
use crate::compat::{
    initial_compat, level_or_default, merge, tailored_level, CompatLevel, CompatState, Compatibility, ABI,
};
use crate::negotiation::{
    negotiate_access, settle, CompatResult, Compatible, Negotiated, OptionCompatLevelMut,
    TailoredCompatLevel, TryCompat,
};

verus! {

/// The terminal outcome of an enforcement attempt.
#[derive(Debug, Clone, Copy, PartialEq, Eq, Structural)]
pub enum RestrictionStatus {
    /// All requested restrictions are enforced.
    FullyRestricted,
    /// Some requested restrictions are enforced; holds the last runtime
    /// error of the chain, if any, for information.
    PartiallyRestricted(Option<Error>),
    /// Nothing is enforced: holds the error that prevented it, or `None` if
    /// the chain was incompatible with the running system.
    Unrestricted(Option<Error>),
}

impl RestrictionStatus {
    /// The error that the status carries, if any. Running on a system that
    /// supports none of the restrictions is not an error.
    pub fn into_result(self) -> (r: Result<(), Error>)
        ensures
            r == match self {
                RestrictionStatus::FullyRestricted => Ok(()),
                RestrictionStatus::PartiallyRestricted(None) => Ok(()),
                RestrictionStatus::Unrestricted(None) => Ok(()),
                RestrictionStatus::PartiallyRestricted(Some(e)) => Err(e),
                RestrictionStatus::Unrestricted(Some(e)) => Err(e),
            },
    {
        match self {
            RestrictionStatus::FullyRestricted => Ok(()),
            RestrictionStatus::PartiallyRestricted(err) => match err {
                None => Ok(()),
                Some(e) => Err(e),
            },
            RestrictionStatus::Unrestricted(err) => match err {
                None => Ok(()),
                Some(e) => Err(e),
            },
        }
    }
}

/// A rule that allows access rights beneath a directory (or on a file),
/// given by an open file descriptor.
#[derive(Debug, Clone, Copy, PartialEq, Eq, Structural)]
pub struct PathBeneath {
    pub parent_fd: i32,
    pub allowed_access: AccessFs,
    pub compat: Compatibility,
}

/// The attributes of a ruleset to create: the access rights it handles.
#[derive(Debug, Clone, Copy, PartialEq, Eq, Structural)]
pub struct RulesetAttr {
    pub handled_fs: AccessFs,
    pub compat: Compatibility,
}

/// A ruleset that the kernel created, as its file descriptor.
#[derive(Debug, Clone, Copy, PartialEq, Eq, Structural)]
pub struct Ruleset {
    pub fd: i32,
    pub no_new_privs: bool,
    pub compat: Compatibility,
}

impl OptionCompatLevelMut for PathBeneath {
    open spec fn own_level(&self) -> Option<CompatLevel> {
        self.compat.level
    }

    open spec fn with_level(self, level: Option<CompatLevel>) -> Self {
        PathBeneath { compat: Compatibility { level, ..self.compat }, ..self }
    }

    proof fn lemma_own_level_of_with_level(self, level: Option<CompatLevel>) {
    }

    fn as_option_compat_level_mut(&mut self) -> (r: &mut Option<CompatLevel>) {
        &mut self.compat.level
    }
}

impl Compatible for PathBeneath {

}

impl TailoredCompatLevel for PathBeneath {
    open spec fn level_override(&self) -> Option<CompatLevel> {
        self.compat.level
    }

    fn tailored_compat_level(&mut self, parent_level: CompatLevel) -> (r: CompatLevel) {
        match self.compat.level {
            None => parent_level,
            // The most constrained level wins.
            Some(level) => if level.is_at_least(parent_level) {
                level
            } else {
                parent_level
            },
        }
    }
}

impl TryCompat for PathBeneath {
    open spec fn inner_spec(self, abi: ABI) -> Result<CompatResult<Self>, CompatError> {
        Ok(CompatResult::Full(self))
    }

    open spec fn children_spec(self, abi: ABI, level: CompatLevel, state: CompatState) -> Negotiated<
        Self,
    > {
        let (r, st) = negotiate_access(self.allowed_access, abi, level, state);
        match r {
            Ok(Some(a)) => (Ok(Some(PathBeneath { allowed_access: a, ..self })), st),
            Ok(None) => (Ok(None), st),
            Err(e) => (Err(e), st),
        }
    }

    fn try_compat_inner(self, abi: ABI) -> (r: Result<CompatResult<Self>, CompatError>) {
        // Beneath a path, every supported access right can be allowed.
        Ok(CompatResult::Full(self))
    }

    fn try_compat_children(
        self,
        abi: ABI,
        parent_level: CompatLevel,
        compat_state: &mut CompatState,
    ) -> (r: Result<Option<Self>, CompatError>) {
        match self.allowed_access.try_compat(abi, parent_level, compat_state) {
            Ok(Some(a)) => Ok(Some(PathBeneath { allowed_access: a, ..self })),
            Ok(None) => Ok(None),
            Err(e) => Err(e),
        }
    }
}

impl OptionCompatLevelMut for RulesetAttr {
    open spec fn own_level(&self) -> Option<CompatLevel> {
        self.compat.level
    }

    open spec fn with_level(self, level: Option<CompatLevel>) -> Self {
        RulesetAttr { compat: Compatibility { level, ..self.compat }, ..self }
    }

    proof fn lemma_own_level_of_with_level(self, level: Option<CompatLevel>) {
    }

    fn as_option_compat_level_mut(&mut self) -> (r: &mut Option<CompatLevel>) {
        &mut self.compat.level
    }
}

impl Compatible for RulesetAttr {

}

impl OptionCompatLevelMut for Ruleset {
    open spec fn own_level(&self) -> Option<CompatLevel> {
        self.compat.level
    }

    open spec fn with_level(self, level: Option<CompatLevel>) -> Self {
        Ruleset { compat: Compatibility { level, ..self.compat }, ..self }
    }

    proof fn lemma_own_level_of_with_level(self, level: Option<CompatLevel>) {
    }

    fn as_option_compat_level_mut(&mut self) -> (r: &mut Option<CompatLevel>) {
        &mut self.compat.level
    }
}

impl Compatible for Ruleset {

}

impl<T: Compatible> Compat<T> {
    /// Sets the compatibility level of the object under construction, for
    /// the build calls that follow; does nothing on an exhausted chain.
    pub fn set_compatibility(self, level: CompatLevel) -> (r: Self)
        ensures
            r == match self.build {
                Some(b) => Compat {
                    build: Some(CompatBuild { status: b.status, data: b.data.with_level(Some(level)) }),
                    ..self
                },
                None => self,
            },
    {
        match self.build {
            Some(b) => Compat {
                last: self.last,
                prev_error: self.prev_error,
                build: Some(CompatBuild { status: b.status, data: b.data.set_compatibility(level) }),
            },
            None => self,
        }
    }
}

/// The outcome of negotiating the rule `rule` under `parent` from `state`.
pub open spec fn negotiate_path(
    rule: PathBeneath,
    abi: ABI,
    parent: CompatLevel,
    state: CompatState,
) -> Negotiated<PathBeneath> {
    let level = tailored_level(rule.compat.level, parent);
    let (children, st) = rule.children_spec(abi, level, state);
    match children {
        Ok(Some(n)) => settle(n.inner_spec(abi), level, st),
        _ => (children, st),
    }
}

/// The last-call outcome of a step kept with the state `step`.
pub open spec fn kept_call(step: CompatState) -> LastCall {
    if step == CompatState::Full {
        LastCall::FullSuccess
    } else {
        LastCall::PartialSuccess
    }
}

/// `c` with the state of a step merged in.
pub open spec fn merged_compat(c: Compatibility, step: CompatState) -> Compatibility {
    Compatibility { state: merge(c.state, step), ..c }
}

/// Whether a chain in state `state` has nothing to ask the kernel for.
pub open spec fn nothing_to_enforce(state: CompatState) -> bool {
    state == CompatState::No || state == CompatState::Dummy
}

fn kept_status(step: CompatState) -> (r: LastCall)
    ensures
        r == kept_call(step),
{
    if step == CompatState::Full {
        LastCall::FullSuccess
    } else {
        LastCall::PartialSuccess
    }
}

impl PathBeneath {
    /// A rule chain beneath the open file descriptor `parent_fd`, allowing
    /// every known access right until `allow_access` negotiates the rights
    /// to allow with the kernel of ABI `abi`.
    pub fn new(parent_fd: i32, abi: ABI) -> (r: Compat<PathBeneath>)
        ensures
            r == Compat::started(
                CompatStatus::Full,
                PathBeneath {
                    parent_fd,
                    allowed_access: AccessFs { bits: ACCESS_FS_ALL },
                    compat: initial_compat(abi),
                },
            ),
    {
        Compat::new(
            CompatStatus::Full,
            PathBeneath {
                parent_fd,
                allowed_access: AccessFs::all(),
                compat: Compatibility::from(abi),
            },
        )
    }
}

impl Compat<PathBeneath> {
    /// The chain after `allow_access(allowed)`.
    pub open spec fn allow_access_spec(self, allowed: AccessFs) -> Self {
        match self.build {
            None => self.with_last_call(LastCall::Fake),
            Some(b) => {
                let candidate = PathBeneath { allowed_access: allowed, ..b.data };
                let (r, step) = negotiate_path(
                    candidate,
                    b.data.compat.abi,
                    CompatLevel::BestEffort,
                    CompatState::Init,
                );
                match r {
                    Ok(Some(pb)) => Compat {
                        build: Some(
                            CompatBuild {
                                status: b.status,
                                data: PathBeneath { compat: merged_compat(pb.compat, step), ..pb },
                            },
                        ),
                        ..self
                    }.with_last_call(kept_call(step)),
                    Ok(None) => Compat { build: None, ..self }.with_last_call(LastCall::Unsupported),
                    Err(e) => Compat { build: None, ..self }.with_last_call(
                        LastCall::RuntimeError(Error::Compat(e)),
                    ),
                }
            },
        }
    }

    /// Sets the access rights that the rule allows, negotiated with the
    /// kernel under the rule's compatibility level: unsupported rights are
    /// dropped, or the whole rule, or the chain fails, as the level says.
    pub fn allow_access(self, allowed: AccessFs) -> (r: Self)
        ensures
            r == self.allow_access_spec(allowed),
    {
        let Compat { last, prev_error, build } = self;
        match build {
            None => Compat { last, prev_error, build: None }.set_last_call_status(LastCall::Fake),
            Some(b) => {
                let candidate = PathBeneath { allowed_access: allowed, ..b.data };
                let mut step = CompatState::Init;
                let rest = Compat::<PathBeneath> { last, prev_error, build: None };
                match candidate.try_compat(b.data.compat.abi, CompatLevel::BestEffort, &mut step) {
                    Ok(Some(pb)) => {
                        let mut data = pb;
                        data.compat.update(step);
                        let status = kept_status(step);
                        Compat { last, prev_error, build: Some(CompatBuild { status: b.status, data }) }.set_last_call_status(status)
                    },
                    Ok(None) => rest.set_last_call_status(LastCall::Unsupported),
                    Err(e) => rest.set_last_call_status(LastCall::RuntimeError(Error::Compat(e))),
                }
            },
        }
    }
}

impl RulesetAttr {
    /// A ruleset chain on a kernel with `abi`, handling every known access
    /// right until `handle_fs` sets the rights to handle.
    pub fn new(abi: ABI) -> (r: Compat<RulesetAttr>)
        ensures
            r == Compat::started(
                CompatStatus::Full,
                RulesetAttr {
                    handled_fs: AccessFs { bits: ACCESS_FS_ALL },
                    compat: initial_compat(abi),
                },
            ),
    {
        Compat::new(
            CompatStatus::Full,
            RulesetAttr { handled_fs: AccessFs::all(), compat: Compatibility::from(abi) },
        )
    }
}

impl Compat<RulesetAttr> {
    /// The chain after `handle_fs(access)`.
    pub open spec fn handle_fs_spec(self, access: AccessFs) -> Self {
        match self.build {
            None => self.with_last_call(LastCall::Fake),
            Some(b) => {
                let (r, step) = negotiate_access(
                    access,
                    b.data.compat.abi,
                    level_or_default(b.data.compat.level),
                    CompatState::Init,
                );
                let compat = merged_compat(b.data.compat, step);
                match r {
                    Ok(Some(a)) => Compat {
                        build: Some(
                            CompatBuild {
                                status: b.status,
                                data: RulesetAttr {
                                    handled_fs: a,
                                    compat,
                                },
                            },
                        ),
                        ..self
                    }.with_last_call(kept_call(step)),
                    Ok(None) => if step == CompatState::No {
                        Compat {
                            build: Some(
                                CompatBuild { status: b.status, data: RulesetAttr { compat, ..b.data } },
                            ),
                            ..self
                        }.with_last_call(LastCall::PartialSuccess)
                    } else {
                        Compat { build: None, ..self }.with_last_call(LastCall::Unsupported)
                    },
                    Err(e) => Compat { build: None, ..self }.with_last_call(
                        LastCall::RuntimeError(Error::Compat(e)),
                    ),
                }
            },
        }
    }

    /// Sets the handled access rights to `access`, negotiated with the
    /// kernel under the ruleset's compatibility level. Under `BestEffort`
    /// the unsupported rights are left out, and a request of which the
    /// kernel supports nothing leaves the handled rights as they were; under
    /// `SoftRequirement` missing
    /// support drops the whole ruleset; under `HardRequirement` it fails the
    /// chain with a compatibility error.
    pub fn handle_fs(self, access: AccessFs) -> (r: Self)
        ensures
            r == self.handle_fs_spec(access),
    {
        let Compat { last, prev_error, build } = self;
        match build {
            None => Compat { last, prev_error, build: None }.set_last_call_status(LastCall::Fake),
            Some(b) => {
                let mut step = CompatState::Init;
                let level = CompatLevel::from(b.data.compat.level);
                let mut compat = b.data.compat;
                let rest = Compat::<RulesetAttr> { last, prev_error, build: None };
                match access.try_compat(compat.abi, level, &mut step) {
                    Ok(Some(a)) => {
                        compat.update(step);
                        let data = RulesetAttr { handled_fs: a, compat };
                        let status = kept_status(step);
                        Compat { last, prev_error, build: Some(CompatBuild { status: b.status, data }) }.set_last_call_status(status)
                    },
                    Ok(None) => if step == CompatState::No {
                        compat.update(step);
                        let data = RulesetAttr { compat, ..b.data };
                        Compat { last, prev_error, build: Some(CompatBuild { status: b.status, data }) }.set_last_call_status(LastCall::PartialSuccess)
                    } else {
                        rest.set_last_call_status(LastCall::Unsupported)
                    },
                    Err(e) => rest.set_last_call_status(LastCall::RuntimeError(Error::Compat(e))),
                }
            },
        }
    }
}

impl Compat<RulesetAttr> {
    /// The handled access rights that the kernel must be asked to create a
    /// ruleset with, or `None` where `create` asks nothing of it: the chain
    /// is exhausted, or nothing that it requested is supported.
    pub fn creation_request(&self) -> (r: Option<AccessFs>)
        ensures
            r == match self.build {
                Some(b) => if nothing_to_enforce(b.data.compat.state) {
                    None
                } else {
                    Some(b.data.handled_fs)
                },
                None => None,
            },
    {
        match &self.build {
            Some(b) => if b.data.compat.state == CompatState::No || b.data.compat.state
                == CompatState::Dummy {
                None
            } else {
                Some(b.data.handled_fs)
            },
            None => None,
        }
    }

    /// The chain after `create(created)`.
    pub open spec fn create_spec(self, created: Result<i32, Error>) -> Compat<Ruleset> {
        let rest = Compat::<Ruleset> { last: self.last, prev_error: self.prev_error, build: None };
        match self.build {
            None => rest.with_last_call(LastCall::Fake),
            Some(b) => if nothing_to_enforce(b.data.compat.state) {
                rest.with_last_call(LastCall::Unsupported)
            } else {
                match created {
                    Ok(fd) => Compat::<Ruleset> {
                        build: Some(
                            CompatBuild {
                                status: b.status,
                                data: Ruleset { fd, no_new_privs: true, compat: b.data.compat },
                            },
                        ),
                        ..rest
                    }.with_last_call(LastCall::FullSuccess),
                    Err(e) => rest.with_last_call(LastCall::RuntimeError(e)),
                }
            },
        }
    }

    /// Moves the chain on to the created ruleset. `created` is what the
    /// kernel answered to `creation_request` (a file descriptor, or the
    /// error); it is not looked at where there was no request.
    pub fn create(self, created: Result<i32, Error>) -> (r: Compat<Ruleset>)
        ensures
            r == self.create_spec(created),
    {
        let Compat { last, prev_error, build } = self;
        let rest = Compat::<Ruleset> { last, prev_error, build: None };
        match build {
            None => rest.set_last_call_status(LastCall::Fake),
            Some(b) => if b.data.compat.state == CompatState::No || b.data.compat.state
                == CompatState::Dummy {
                rest.set_last_call_status(LastCall::Unsupported)
            } else {
                match created {
                    Ok(fd) => {
                        let data = Ruleset { fd, no_new_privs: true, compat: b.data.compat };
                        rest.merge(Some(CompatBuild { status: b.status, data })).set_last_call_status(
                            LastCall::FullSuccess,
                        )
                    },
                    Err(e) => rest.set_last_call_status(LastCall::RuntimeError(e)),
                }
            },
        }
    }
}

impl Compat<Ruleset> {
    /// The file descriptor of the created ruleset, if the chain still has one.
    pub fn ruleset_fd(&self) -> (r: Option<i32>)
        ensures
            r == match self.build {
                Some(b) => Some(b.data.fd),
                None => None,
            },
    {
        match &self.build {
            Some(b) => Some(b.data.fd),
            None => None,
        }
    }

    /// The chain after `add_rule(rule, added)`.
    pub open spec fn add_rule_spec(self, rule: Compat<PathBeneath>, added: Result<(), Error>) -> Self {
        match self.build {
            None => self.with_last_call(LastCall::Fake),
            Some(_) => match rule.build {
                None => self.with_last_call(LastCall::Unsupported),
                Some(rb) => match added {
                    Ok(()) => self.with_last_call(last_call_of(rb.status)),
                    Err(e) => Compat { build: None, ..self }.with_last_call(LastCall::RuntimeError(e)),
                },
            },
        }
    }

    /// Records the addition of `rule` to the ruleset. `added` is what the
    /// kernel answered when asked to add it; it is not looked at where the
    /// ruleset or the rule chain is exhausted (then nothing is asked). A
    /// ruleset that the kernel refused a rule is given up.
    pub fn add_rule(self, rule: Compat<PathBeneath>, added: Result<(), Error>) -> (r: Self)
        ensures
            r == self.add_rule_spec(rule, added),
    {
        match self.build {
            None => self.set_last_call_status(LastCall::Fake),
            Some(_) => match rule.build {
                None => self.set_last_call_status(LastCall::Unsupported),
                Some(rb) => match added {
                    Ok(()) => self.set_last_call_status(LastCall::from(rb.status)),
                    Err(e) => self.merge(None).set_last_call_status(LastCall::RuntimeError(e)),
                },
            },
        }
    }

    /// The chain after `set_no_new_privs(no_new_privs)`.
    pub open spec fn set_no_new_privs_spec(self, no_new_privs: bool) -> Self {
        match self.build {
            None => self.with_last_call(LastCall::Fake),
            Some(b) => Compat {
                build: Some(
                    CompatBuild { status: b.status, data: Ruleset { no_new_privs, ..b.data } },
                ),
                ..self
            }.with_last_call(LastCall::FullSuccess),
        }
    }

    /// Sets whether enforcement first forbids the process to gain privileges
    /// (on by default).
    pub fn set_no_new_privs(self, no_new_privs: bool) -> (r: Self)
        ensures
            r == self.set_no_new_privs_spec(no_new_privs),
    {
        let Compat { last, prev_error, build } = self;
        match build {
            None => Compat { last, prev_error, build: None }.set_last_call_status(LastCall::Fake),
            Some(b) => {
                let data = Ruleset { no_new_privs, ..b.data };
                Compat { last, prev_error, build: Some(CompatBuild { status: b.status, data }) }.set_last_call_status(LastCall::FullSuccess)
            },
        }
    }

    /// The outcome of `restrict_self(no_new_privs, enforced)`.
    pub open spec fn restrict_spec(
        self,
        no_new_privs: Result<(), Error>,
        enforced: Result<(), Error>,
    ) -> RestrictionStatus {
        match self.build {
            None => RestrictionStatus::Unrestricted(self.last_error()),
            Some(b) => if b.data.no_new_privs && no_new_privs is Err {
                RestrictionStatus::Unrestricted(Some(no_new_privs->Err_0))
            } else {
                match enforced {
                    Ok(()) => match b.status {
                        CompatStatus::Full => RestrictionStatus::FullyRestricted,
                        CompatStatus::Partial => RestrictionStatus::PartiallyRestricted(
                            self.last_error(),
                        ),
                    },
                    Err(e) => RestrictionStatus::Unrestricted(Some(e)),
                }
            },
        }
    }

    /// The restriction status that the chain ends with. `no_new_privs` is
    /// what setting "no new privileges" gave, where the ruleset asks for it;
    /// `enforced` is what the kernel answered to the enforcement call, which
    /// is made only when the chain has a ruleset and the first step did not
    /// fail. Neither is looked at where it was not asked for.
    pub fn restrict_self(self, no_new_privs: Result<(), Error>, enforced: Result<(), Error>) -> (r:
        RestrictionStatus)
        ensures
            r == self.restrict_spec(no_new_privs, enforced),
    {
        match &self.build {
            None => RestrictionStatus::Unrestricted(self.get_last_error()),
            Some(b) => {
                if b.data.no_new_privs {
                    if let Err(e) = no_new_privs {
                        return RestrictionStatus::Unrestricted(Some(e));
                    }
                }
                match enforced {
                    Ok(()) => match b.status {
                        CompatStatus::Full => RestrictionStatus::FullyRestricted,
                        CompatStatus::Partial => RestrictionStatus::PartiallyRestricted(
                            self.get_last_error(),
                        ),
                    },
                    Err(e) => RestrictionStatus::Unrestricted(Some(e)),
                }
            },
        }
    }
}

/// A chain whose every request the kernel fully supports ends fully
/// restricted when the kernel accepts the ruleset, the rule and the
/// enforcement, whatever the compatibility levels of the ruleset and the
/// rule.
pub proof fn lemma_fully_supported_chain(
    abi: ABI,
    level: CompatLevel,
    rule_level: CompatLevel,
    access: AccessFs,
    parent_fd: i32,
    fd: i32,
)
    requires
        access.bits != 0,
        access.bits & access_fs_for(abi) == access.bits,
    ensures
        ({
            let attr = Compat::started(
                CompatStatus::Full,
                RulesetAttr {
                    handled_fs: AccessFs { bits: ACCESS_FS_ALL },
                    compat: Compatibility { level: Some(level), ..initial_compat(abi) },
                },
            ).handle_fs_spec(access);
            let rule = Compat::started(
                CompatStatus::Full,
                PathBeneath {
                    parent_fd,
                    allowed_access: AccessFs { bits: ACCESS_FS_ALL },
                    compat: Compatibility { level: Some(rule_level), ..initial_compat(abi) },
                },
            ).allow_access_spec(access);
            let ruleset = attr.create_spec(Ok(fd)).add_rule_spec(rule, Ok(()));
            &&& attr.last == LastCall::FullSuccess
            &&& attr.build matches Some(b) && b.status == CompatStatus::Full
            &&& rule.last == LastCall::FullSuccess
            &&& rule.build matches Some(b) && b.status == CompatStatus::Full
            &&& ruleset.build matches Some(b) && b.status == CompatStatus::Full
            &&& ruleset.restrict_spec(Ok(()), Ok(())) == RestrictionStatus::FullyRestricted
        }),
{
    let b = access.bits;
    let f = access_fs_for(abi);
    assert(b & f == b && (f == 0 || f == 0x1fff || f == 0x3fff || f == 0x7fff) ==> b & !0x7fffu64
        == 0) by (bit_vector);
    assert(b != 0 && b & f == b ==> f != 0) by (bit_vector);
}

} // verus!
