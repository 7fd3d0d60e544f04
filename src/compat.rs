use vstd::prelude::*;
use vstd::multiset::Multiset;

verus! {

/// Version of the kernel sandboxing ABI.
///
/// Each version adds features to the previous one. A version number that is
/// not known yet maps to the greatest known version, so that a check of the
/// form "at least version n" keeps working on newer kernels.
#[derive(Debug, Clone, Copy, PartialEq, Eq, Structural)]
#[non_exhaustive]
pub enum ABI {
    /// The kernel does not support the sandbox, or it is disabled at boot.
    Unsupported,
    /// First ABI version.
    V1,
    /// Second ABI version.
    V2,
    /// Third ABI version.
    V3,
}

/// Number of ABI values, `Unsupported` included.
pub const ABI_COUNT: i32 = 4;

impl ABI {
    /// Rank of the version: `Unsupported` is 0, `Vn` is n.
    pub open spec fn rank(self) -> int {
        match self {
            ABI::Unsupported => 0,
            ABI::V1 => 1,
            ABI::V2 => 2,
            ABI::V3 => 3,
        }
    }

    /// The ABI that a raw version number stands for.
    pub open spec fn of_version(value: int) -> ABI {
        if value <= 0 {
            ABI::Unsupported
        } else if value == 1 {
            ABI::V1
        } else if value == 2 {
            ABI::V2
        } else {
            ABI::V3
        }
    }

    /// Maps a version number, as reported by the kernel, to an ABI.
    ///
    /// Zero and negative values (error codes included) mean `Unsupported`;
    /// values beyond the greatest known version are clamped to it.
    pub fn from(value: i32) -> (r: ABI)
        ensures
            r == ABI::of_version(value as int),
            value <= 0 ==> r == ABI::Unsupported,
            value > 0 ==> r.rank() == if value < ABI_COUNT { value as int } else { ABI_COUNT - 1 },
    {
        if value <= 0 {
            ABI::Unsupported
        } else if value == 1 {
            ABI::V1
        } else if value == 2 {
            ABI::V2
        } else {
            ABI::V3
        }
    }

    /// Whether `value` is the number of a known, supported ABI version.
    pub fn is_known(value: i32) -> (r: bool)
        ensures
            r == (0 < value < ABI_COUNT),
            r ==> ABI::of_version(value as int).rank() == value,
    {
        value > 0 && value < ABI_COUNT
    }

    /// Rank of the version, as an integer.
    pub fn version(self) -> (r: i32)
        ensures
            r == self.rank(),
    {
        match self {
            ABI::Unsupported => 0,
            ABI::V1 => 1,
            ABI::V2 => 2,
            ABI::V3 => 3,
        }
    }
}

/// Version numbers up to zero give `Unsupported`, and the number after the
/// greatest known version gives the same ABI as that version (as does every
/// number beyond).
pub proof fn lemma_abi_clamp(value: int)
    ensures
        value <= 0 ==> ABI::of_version(value) == ABI::Unsupported,
        ABI::of_version(ABI_COUNT as int) == ABI::of_version(ABI_COUNT - 1),
        value >= ABI_COUNT - 1 ==> ABI::of_version(value) == ABI::of_version(ABI_COUNT - 1),
        value > 0 ==> ABI::of_version(value) != ABI::Unsupported,
{
}

/// Whether a test running against the kernel ABI `test_abi` can emulate the
/// mocked ABI `mock`, for a feature partially supported from
/// `partial_support` on and fully supported from `full_support` on (or from
/// `partial_support` on, if there is no such version).
pub fn can_emulate(mock: ABI, partial_support: ABI, full_support: Option<ABI>, test_abi: ABI) -> (r:
    bool)
    ensures
        r == (mock.rank() < partial_support.rank() || mock.rank() <= test_abi.rank() || match
            full_support {
            Some(full) => full.rank() <= test_abi.rank(),
            None => partial_support.rank() <= test_abi.rank(),
        }),
{
    mock.version() < partial_support.version() || mock.version() <= test_abi.version() || match
        full_support {
        Some(full) => full.version() <= test_abi.version(),
        None => partial_support.version() <= test_abi.version(),
    }
}

/// OS error code of a kernel built without the sandbox.
pub const ENOSYS: i32 = 38;

/// OS error code of a kernel whose sandbox is disabled at boot.
pub const EOPNOTSUPP: i32 = 95;

/// Why the kernel reports no ABI version: the OS error code of the version
/// query, if it failed (`ret` is what it returned, `errno` the OS error code
/// read right after). Only `ENOSYS` and `EOPNOTSUPP` can explain a failure;
/// any other code comes from a broken setup, which callers rule out.
pub fn errno_from_status(ret: i32, errno: i32) -> (r: Option<i32>)
    requires
        ret < 0 ==> (errno == ENOSYS || errno == EOPNOTSUPP),
    ensures
        r == if ret < 0 {
            Some(errno)
        } else {
            None
        },
{
    if ret < 0 {
        Some(errno)
    } else {
        None
    }
}

/// Summary of how well a chain of build steps matched the running kernel.
#[derive(Debug, Clone, Copy, PartialEq, Eq, Structural)]
pub enum CompatState {
    /// Initial state: nothing was negotiated yet.
    Init,
    /// All requested restrictions are enforced.
    Full,
    /// Some requested restrictions are enforced, following a best-effort approach.
    Partial,
    /// The running system supports none of the requested restrictions.
    No,
    /// Final state of a chain that was given up.
    Dummy,
}

/// The state after merging `other` into `current`.
pub open spec fn merge(current: CompatState, other: CompatState) -> CompatState {
    match (current, other) {
        (CompatState::Init, o) => o,
        (CompatState::Dummy, _) => CompatState::Dummy,
        (_, CompatState::Dummy) => CompatState::Dummy,
        (CompatState::No, CompatState::No) => CompatState::No,
        (CompatState::Full, CompatState::Full) => CompatState::Full,
        (_, _) => CompatState::Partial,
    }
}

/// The state reached from `start` by merging `steps` in order.
pub open spec fn merge_all(start: CompatState, steps: Seq<CompatState>) -> CompatState
    decreases steps.len(),
{
    if steps.len() == 0 {
        start
    } else {
        merge(merge_all(start, steps.drop_last()), steps.last())
    }
}

/// The state that a chain reaches from `Init` with the step outcomes `m`,
/// whatever their order.
pub open spec fn merged_outcome(m: Multiset<CompatState>) -> CompatState {
    if m.len() == 0 {
        CompatState::Init
    } else if m.contains(CompatState::Dummy) {
        CompatState::Dummy
    } else if forall|x: CompatState| m.contains(x) ==> x == CompatState::Full {
        CompatState::Full
    } else if forall|x: CompatState| m.contains(x) ==> x == CompatState::No {
        CompatState::No
    } else {
        CompatState::Partial
    }
}

/// Whether `s` is the outcome of a negotiated step (anything but `Init`).
pub open spec fn is_outcome(s: CompatState) -> bool {
    s != CompatState::Init
}

/// On step outcomes, merging is commutative and associative, and `Dummy`
/// absorbs everything on either side (for every pair of states).
pub proof fn lemma_merge_pairs(a: CompatState, b: CompatState, c: CompatState)
    ensures
        merge(a, CompatState::Dummy) == CompatState::Dummy,
        merge(CompatState::Dummy, a) == CompatState::Dummy,
        is_outcome(a) && is_outcome(b) ==> merge(a, b) == merge(b, a),
        is_outcome(a) && is_outcome(b) && is_outcome(c) ==> merge(merge(a, b), c) == merge(
            a,
            merge(b, c),
        ),
{
}

/// Merging step outcomes from `Init` reaches the state that their multiset
/// determines.
proof fn lemma_merge_all_closed(steps: Seq<CompatState>)
    requires
        forall|i: int| 0 <= i < steps.len() ==> is_outcome(#[trigger] steps[i]),
    ensures
        merge_all(CompatState::Init, steps) == merged_outcome(steps.to_multiset()),
    decreases steps.len(),
{
    broadcast use vstd::seq_lib::group_to_multiset_ensures;
    if steps.len() > 0 {
        let init = steps.drop_last();
        let x = steps.last();
        assert(steps =~= init.push(x));
        assert forall|i: int| 0 <= i < init.len() implies is_outcome(#[trigger] init[i]) by {
            assert(init[i] == steps[i]);
        }
        lemma_merge_all_closed(init);
        let m0 = init.to_multiset();
        let m = steps.to_multiset();
        assert(m =~= m0.insert(x));
        assert(is_outcome(steps[steps.len() - 1]));
        assert(merge_all(CompatState::Init, steps) == merge(merged_outcome(m0), x));
        assert(m.len() > 0);
        assert forall|y: CompatState| #[trigger] m.contains(y) <==> (m0.contains(y) || y == x) by {
            if m.contains(y) && y != x {
                assert(m.count(y) == m0.count(y));
            }
        }
        if m0.len() == 0 {
            assert forall|y: CompatState| m.contains(y) implies y == x by {}
            assert(m.contains(x));
            assert(merge(merged_outcome(m0), x) == merged_outcome(m));
        } else if m0.contains(CompatState::Dummy) {
            assert(m.contains(CompatState::Dummy));
            assert(merge(merged_outcome(m0), x) == merged_outcome(m));
        } else if forall|y: CompatState| m0.contains(y) ==> y == CompatState::Full {
            let w = m0.choose();
            assert(m0.contains(w));
            assert(m.contains(w));
            assert(m.contains(x));
            assert(merge(merged_outcome(m0), x) == merged_outcome(m));
        } else if forall|y: CompatState| m0.contains(y) ==> y == CompatState::No {
            let w = m0.choose();
            assert(m0.contains(w));
            assert(m.contains(w));
            assert(m.contains(x));
            assert(merge(merged_outcome(m0), x) == merged_outcome(m));
        } else {
            let wf = choose|y: CompatState| m0.contains(y) && y != CompatState::Full;
            let wn = choose|y: CompatState| m0.contains(y) && y != CompatState::No;
            assert(m.contains(wf));
            assert(m.contains(wn));
            assert(merge(merged_outcome(m0), x) == merged_outcome(m));
        }
    } else {
        assert(steps.to_multiset().len() == 0);
    }
}

/// Merging the same multiset of step outcomes from `Init`, in any order,
/// reaches the same state; and a `Dummy` among the steps forces `Dummy`
/// from any start.
pub proof fn lemma_merge_order_independent(s1: Seq<CompatState>, s2: Seq<CompatState>)
    requires
        forall|i: int| 0 <= i < s1.len() ==> is_outcome(#[trigger] s1[i]),
        forall|i: int| 0 <= i < s2.len() ==> is_outcome(#[trigger] s2[i]),
        s1.to_multiset() =~= s2.to_multiset(),
    ensures
        merge_all(CompatState::Init, s1) == merge_all(CompatState::Init, s2),
        forall|start: CompatState|
            s1.contains(CompatState::Dummy) ==> #[trigger] merge_all(start, s1)
                == CompatState::Dummy,
{
    lemma_merge_all_closed(s1);
    lemma_merge_all_closed(s2);
    assert forall|start: CompatState| s1.contains(CompatState::Dummy) implies #[trigger] merge_all(
        start,
        s1,
    ) == CompatState::Dummy by {
        lemma_dummy_absorbs(start, s1);
    }
}

/// A `Dummy` step makes the merged state `Dummy`, from any start.
pub proof fn lemma_dummy_absorbs(start: CompatState, steps: Seq<CompatState>)
    requires
        steps.contains(CompatState::Dummy),
    ensures
        merge_all(start, steps) == CompatState::Dummy,
    decreases steps.len(),
{
    let init = steps.drop_last();
    if steps.last() != CompatState::Dummy {
        let i = choose|i: int| 0 <= i < steps.len() && steps[i] == CompatState::Dummy;
        assert(init[i] == CompatState::Dummy);
        lemma_dummy_absorbs(start, init);
    }
}

impl CompatState {
    /// Merges the outcome of one more step into the state.
    pub fn update(&mut self, other: Self)
        ensures
            *final(self) == merge(*old(self), other),
    {
        *self = match (*self, other) {
            (CompatState::Init, o) => o,
            (CompatState::Dummy, _) => CompatState::Dummy,
            (_, CompatState::Dummy) => CompatState::Dummy,
            (CompatState::No, CompatState::No) => CompatState::No,
            (CompatState::Full, CompatState::Full) => CompatState::Full,
            (_, _) => CompatState::Partial,
        };
    }
}

/// How a build step reacts when the running kernel does not support all that
/// it asks for.
#[derive(Debug, Clone, Copy, PartialEq, Eq, Structural, PartialOrd, Ord)]
pub enum CompatLevel {
    /// Takes what the running system supports and silently ignores the rest.
    /// Never returns a compatibility error.
    BestEffort,
    /// Takes the request if the running system supports all of it, or
    /// silently ignores the whole build object otherwise.
    /// Never returns a compatibility error.
    SoftRequirement,
    /// Takes the request if the running system supports all of it, or
    /// returns a compatibility error otherwise.
    HardRequirement,
}

impl CompatLevel {
    /// Rank of the level: the stricter, the higher.
    pub open spec fn rank(self) -> int {
        match self {
            CompatLevel::BestEffort => 0,
            CompatLevel::SoftRequirement => 1,
            CompatLevel::HardRequirement => 2,
        }
    }

    /// The stricter of two levels.
    pub open spec fn max(a: CompatLevel, b: CompatLevel) -> CompatLevel {
        if a.rank() >= b.rank() {
            a
        } else {
            b
        }
    }

    /// Whether this level is at least as strict as `other`.
    pub fn is_at_least(self, other: CompatLevel) -> (r: bool)
        ensures
            r == (self.rank() >= other.rank()),
    {
        match (self, other) {
            (_, CompatLevel::BestEffort) => true,
            (CompatLevel::BestEffort, _) => false,
            (_, CompatLevel::SoftRequirement) => true,
            (CompatLevel::SoftRequirement, _) => false,
            (CompatLevel::HardRequirement, CompatLevel::HardRequirement) => true,
        }
    }
}

/// The level that an optional setting stands for: unset means `BestEffort`.
pub open spec fn level_or_default(opt: Option<CompatLevel>) -> CompatLevel {
    match opt {
        None => CompatLevel::BestEffort,
        Some(level) => level,
    }
}

/// The level in effect for an object with its own optional setting `own`,
/// under a parent whose level is `parent`: a child can only tighten it.
pub open spec fn tailored_level(own: Option<CompatLevel>, parent: CompatLevel) -> CompatLevel {
    match own {
        None => parent,
        Some(level) => CompatLevel::max(parent, level),
    }
}

impl Default for CompatLevel {
    fn default() -> (r: Self)
        ensures
            r == CompatLevel::BestEffort,
    {
        CompatLevel::BestEffort
    }
}

impl From<Option<CompatLevel>> for CompatLevel {
    fn from(opt: Option<CompatLevel>) -> (r: Self) {
        match opt {
            None => CompatLevel::BestEffort,
            Some(level) => level,
        }
    }
}

impl vstd::std_specs::convert::FromSpecImpl<Option<CompatLevel>> for CompatLevel {
    open spec fn obeys_from_spec() -> bool {
        true
    }

    open spec fn from_spec(v: Option<CompatLevel>) -> CompatLevel {
        level_or_default(v)
    }
}

/// The effective level is the stricter of the parent's and the child's own:
/// for every parent level and every child setting, and `HardRequirement` on
/// either side gives `HardRequirement`.
pub proof fn lemma_tailored_level_is_max(own: Option<CompatLevel>, parent: CompatLevel)
    ensures
        tailored_level(own, parent) == CompatLevel::max(parent, level_or_default(own)),
        tailored_level(own, parent).rank() >= parent.rank(),
        tailored_level(own, parent).rank() >= level_or_default(own).rank(),
        (parent == CompatLevel::HardRequirement || own == Some(CompatLevel::HardRequirement))
            ==> tailored_level(own, parent) == CompatLevel::HardRequirement,
{
}

/// The ABI of the running kernel, the level set on an object, and the state
/// that its build chain reached.
#[derive(Debug, Clone, Copy, PartialEq, Eq, Structural)]
pub struct Compatibility {
    pub abi: ABI,
    pub level: Option<CompatLevel>,
    pub state: CompatState,
}

/// The compatibility record that a chain starts with on a kernel with `abi`.
pub open spec fn initial_compat(abi: ABI) -> Compatibility {
    Compatibility {
        abi,
        level: None,
        state: if abi == ABI::Unsupported {
            CompatState::No
        } else {
            CompatState::Init
        },
    }
}

impl From<ABI> for Compatibility {
    fn from(abi: ABI) -> (r: Self) {
        Compatibility {
            abi,
            level: None,
            // An unsupported kernel does not make the chain a dummy: setting
            // "no new privileges" may still be legitimate.
            state: match abi {
                ABI::Unsupported => CompatState::No,
                _ => CompatState::Init,
            },
        }
    }
}

impl vstd::std_specs::convert::FromSpecImpl<ABI> for Compatibility {
    open spec fn obeys_from_spec() -> bool {
        true
    }

    open spec fn from_spec(v: ABI) -> Compatibility {
        initial_compat(v)
    }
}

impl Compatibility {
    /// The compatibility record for a kernel that reported `version` (a raw
    /// version number or a negative error code).
    pub fn new(version: i32) -> (r: Self)
        ensures
            r == initial_compat(ABI::of_version(version as int)),
    {
        Compatibility::from(ABI::from(version))
    }

    /// Merges the outcome of a step into the state.
    pub fn update(&mut self, state: CompatState)
        ensures
            *final(self) == (Compatibility { state: merge(old(self).state, state), ..*old(self) }),
    {
        self.state.update(state);
    }

    /// The ABI of the running kernel.
    pub fn abi(&self) -> (r: ABI)
        ensures
            r == self.abi,
    {
        self.abi
    }
}

} // verus!
