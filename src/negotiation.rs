use vstd::prelude::*;

use crate::access::{access_fs_for, AccessFs, CompatError, ACCESS_FS_ALL};
use crate::compat::{merge, tailored_level, CompatLevel, CompatState, ABI};

verus! {

/// How well one object matches the running kernel, taken alone.
pub enum CompatResult<T> {
    /// Fully matches the request.
    Full(T),
    /// Partially matches the request: the object is adjusted to what the
    /// kernel supports, with the reason.
    Partial(T, CompatError),
    /// Does not match the request.
    No(CompatError),
}

/// Access to an object's own compatibility level, if it has one set.
pub trait OptionCompatLevelMut: Sized {
    /// The level set on the object itself, if any.
    spec fn own_level(&self) -> Option<CompatLevel>;

    /// The object with its own level replaced by `level`.
    spec fn with_level(self, level: Option<CompatLevel>) -> Self;

    /// Replacing the level is what the object's own level then reads.
    proof fn lemma_own_level_of_with_level(self, level: Option<CompatLevel>)
        ensures
            self.with_level(level).own_level() == level,
    ;

    fn as_option_compat_level_mut(&mut self) -> (r: &mut Option<CompatLevel>)
        ensures
            *r == old(self).own_level(),
            *final(self) == old(self).with_level(*final(r)),
    ;
}

/// Objects whose build reacts to missing kernel support as their
/// compatibility level says.
pub trait Compatible: Sized + OptionCompatLevelMut {
    /// Sets the level for the build steps that follow.
    fn set_compatibility(self, level: CompatLevel) -> (r: Self)
        ensures
            r == self.with_level(Some(level)),
            r.own_level() == Some(level),
    {
        proof {
            self.lemma_own_level_of_with_level(Some(level));
        }
        let mut s = self;
        let l = s.as_option_compat_level_mut();
        *l = Some(level);
        s
    }

    /// `set_best_effort(true)` is `set_compatibility(BestEffort)`, and
    /// `set_best_effort(false)` is `set_compatibility(HardRequirement)`.
    /// Prefer `set_compatibility`.
    fn set_best_effort(self, best_effort: bool) -> (r: Self)
        ensures
            r == self.with_level(
                Some(
                    if best_effort {
                        CompatLevel::BestEffort
                    } else {
                        CompatLevel::HardRequirement
                    },
                ),
            ),
    {
        self.set_compatibility(
            match best_effort {
                true => CompatLevel::BestEffort,
                false => CompatLevel::HardRequirement,
            },
        )
    }
}

/// The level in effect for an object under its parent's level.
pub trait TailoredCompatLevel: Sized {
    /// The level set on the object itself, if any; `None` for objects that
    /// always inherit their parent's.
    spec fn level_override(&self) -> Option<CompatLevel>;

    fn tailored_compat_level(&mut self, parent_level: CompatLevel) -> (r: CompatLevel)
        ensures
            r == tailored_level(old(self).level_override(), parent_level),
            *final(self) == *old(self),
    ;
}

/// The outcome of a negotiation: the object to keep, if any, or the error to
/// return, and the state of the chain after it.
pub type Negotiated<T> = (Result<Option<T>, CompatError>, CompatState);

/// What a chain in `state` does with an object whose own evaluation gave
/// `inner`, under `level`.
pub open spec fn settle<T>(
    inner: Result<CompatResult<T>, CompatError>,
    level: CompatLevel,
    state: CompatState,
) -> Negotiated<T> {
    match inner {
        Ok(CompatResult::Full(v)) => (Ok(Some(v)), merge(state, CompatState::Full)),
        Ok(CompatResult::Partial(v, e)) => match level {
            CompatLevel::BestEffort => (Ok(Some(v)), merge(state, CompatState::Partial)),
            CompatLevel::SoftRequirement => (Ok(None), merge(state, CompatState::Dummy)),
            CompatLevel::HardRequirement => (Err(e), merge(state, CompatState::Dummy)),
        },
        Ok(CompatResult::No(e)) => match level {
            CompatLevel::BestEffort => (Ok(None), merge(state, CompatState::No)),
            CompatLevel::SoftRequirement => (Ok(None), merge(state, CompatState::Dummy)),
            CompatLevel::HardRequirement => (Err(e), merge(state, CompatState::Dummy)),
        },
        Err(e) => (Err(e), merge(state, CompatState::Dummy)),
    }
}

/// Negotiation of an object with the running kernel: its children first,
/// then the object itself.
pub trait TryCompat: Sized + TailoredCompatLevel {
    /// What the object's own evaluation against `abi` gives.
    spec fn inner_spec(self, abi: ABI) -> Result<CompatResult<Self>, CompatError>;

    /// What negotiating the object's children under `level` gives.
    spec fn children_spec(self, abi: ABI, level: CompatLevel, state: CompatState) -> Negotiated<
        Self,
    >;

    /// Evaluates the object alone against `abi`.
    fn try_compat_inner(self, abi: ABI) -> (r: Result<CompatResult<Self>, CompatError>)
        ensures
            r == self.inner_spec(abi),
    ;

    /// Negotiates the object's children, each under `parent_level`.
    fn try_compat_children(
        self,
        abi: ABI,
        parent_level: CompatLevel,
        compat_state: &mut CompatState,
    ) -> (r: Result<Option<Self>, CompatError>)
        ensures
            (r, *final(compat_state)) == self.children_spec(abi, parent_level, *old(compat_state)),
            *old(compat_state) == CompatState::Dummy ==> *final(compat_state) == CompatState::Dummy,
    ;

    /// Negotiates the object under its parent's level: the object to keep,
    /// nothing if it is dropped, or the error that its level asks for.
    fn try_compat(self, abi: ABI, parent_level: CompatLevel, compat_state: &mut CompatState) -> (r:
        Result<Option<Self>, CompatError>)
        ensures
            ({
                let level = tailored_level(self.level_override(), parent_level);
                let (children, st) = self.children_spec(abi, level, *old(compat_state));
                (r, *final(compat_state)) == match children {
                    Ok(Some(n)) => settle(n.inner_spec(abi), level, st),
                    _ => (children, st),
                }
            }),
            // A chain that was given up stays given up, whatever comes next.
            *old(compat_state) == CompatState::Dummy ==> *final(compat_state) == CompatState::Dummy,
    {
        let mut obj = self;
        let compat_level = obj.tailored_compat_level(parent_level);
        let new_self = match obj.try_compat_children(abi, compat_level, compat_state) {
            Err(e) => {
                return Err(e);
            },
            Ok(None) => {
                return Ok(None);
            },
            Ok(Some(n)) => n,
        };
        match new_self.try_compat_inner(abi) {
            Ok(CompatResult::Full(new_self)) => {
                compat_state.update(CompatState::Full);
                Ok(Some(new_self))
            },
            Ok(CompatResult::Partial(new_self, error)) => match compat_level {
                CompatLevel::BestEffort => {
                    compat_state.update(CompatState::Partial);
                    Ok(Some(new_self))
                },
                CompatLevel::SoftRequirement => {
                    compat_state.update(CompatState::Dummy);
                    Ok(None)
                },
                CompatLevel::HardRequirement => {
                    compat_state.update(CompatState::Dummy);
                    Err(error)
                },
            },
            Ok(CompatResult::No(error)) => match compat_level {
                CompatLevel::BestEffort => {
                    compat_state.update(CompatState::No);
                    Ok(None)
                },
                CompatLevel::SoftRequirement => {
                    compat_state.update(CompatState::Dummy);
                    Ok(None)
                },
                CompatLevel::HardRequirement => {
                    compat_state.update(CompatState::Dummy);
                    Err(error)
                },
            },
            Err(e) => {
                // Anything but missing support gives up the chain.
                compat_state.update(CompatState::Dummy);
                Err(e)
            },
        }
    }
}

/// The outcome of negotiating the access set `access` under `level` from
/// `state`: a set has no children and no level of its own.
pub open spec fn negotiate_access(
    access: AccessFs,
    abi: ABI,
    level: CompatLevel,
    state: CompatState,
) -> Negotiated<AccessFs> {
    settle(access_inner(access, abi), level, state)
}

/// How a set of access rights matches the ABI `abi`.
pub open spec fn access_inner(access: AccessFs, abi: ABI) -> Result<
    CompatResult<AccessFs>,
    CompatError,
> {
    let bits = access.bits;
    let supported = bits & access_fs_for(abi);
    if bits == 0 {
        Err(CompatError::Empty)
    } else if bits & !ACCESS_FS_ALL != 0 {
        Err(CompatError::Unknown { access: bits, unknown: bits & !ACCESS_FS_ALL })
    } else if supported == bits {
        Ok(CompatResult::Full(access))
    } else if supported == 0 {
        Ok(CompatResult::No(CompatError::Incompatible { access: bits }))
    } else {
        Ok(
            CompatResult::Partial(
                AccessFs { bits: supported },
                CompatError::PartiallyCompatible { access: bits, incompatible: bits & !supported },
            ),
        )
    }
}

impl TailoredCompatLevel for AccessFs {
    open spec fn level_override(&self) -> Option<CompatLevel> {
        None
    }

    fn tailored_compat_level(&mut self, parent_level: CompatLevel) -> (r: CompatLevel) {
        parent_level
    }
}

impl TryCompat for AccessFs {
    open spec fn inner_spec(self, abi: ABI) -> Result<CompatResult<Self>, CompatError> {
        access_inner(self, abi)
    }

    open spec fn children_spec(self, abi: ABI, level: CompatLevel, state: CompatState) -> Negotiated<
        Self,
    > {
        (Ok(Some(self)), state)
    }

    fn try_compat_inner(self, abi: ABI) -> (r: Result<CompatResult<Self>, CompatError>) {
        let bits = self.bits;
        let supported = bits & AccessFs::from_all(abi).bits;
        if bits == 0 {
            Err(CompatError::Empty)
        } else if bits & !ACCESS_FS_ALL != 0 {
            Err(CompatError::Unknown { access: bits, unknown: bits & !ACCESS_FS_ALL })
        } else if supported == bits {
            Ok(CompatResult::Full(self))
        } else if supported == 0 {
            Ok(CompatResult::No(CompatError::Incompatible { access: bits }))
        } else {
            Ok(
                CompatResult::Partial(
                    AccessFs { bits: supported },
                    CompatError::PartiallyCompatible {
                        access: bits,
                        incompatible: bits & !supported,
                    },
                ),
            )
        }
    }

    fn try_compat_children(
        self,
        abi: ABI,
        parent_level: CompatLevel,
        compat_state: &mut CompatState,
    ) -> (r: Result<Option<Self>, CompatError>) {
        Ok(Some(self))
    }
}

} // verus!
