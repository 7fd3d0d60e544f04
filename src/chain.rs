use vstd::prelude::*;

use crate::access::CompatError;

verus! {

/// An error that a build chain reports.
#[derive(Debug, Clone, Copy, PartialEq, Eq, Structural)]
pub enum Error {
    /// A system call failed with this OS error code.
    Os(i32),
    /// The last step was only partially supported.
    PartiallyCompatible,
    /// The last step was not supported at all.
    Incompatible,
    /// A step under `HardRequirement`, or a malformed request, failed.
    Compat(CompatError),
}

/// Outcome of the last attempted build call, which may not be the last one
/// of the chain.
#[derive(Debug, Clone, Copy, PartialEq, Eq, Structural)]
pub enum LastCall {
    /// The call was handled with all of its arguments.
    FullSuccess,
    /// The call was handled, but not with all of its arguments (they were
    /// made compatible, e.g. some access rights were removed).
    PartialSuccess,
    /// The call was not handled, or none of its arguments.
    Unsupported,
    /// The chain had nothing left to build on.
    Fake,
    /// The call was handled, but failed at run time (e.g. an invalid file
    /// descriptor or missing permissions), or failed a hard requirement.
    RuntimeError(Error),
}

/// How well the whole chain so far matched the running kernel.
#[derive(Debug, Clone, Copy, PartialEq, Eq, Structural)]
pub enum CompatStatus {
    Full,
    Partial,
}

/// The last-call outcome that a build status stands for.
pub open spec fn last_call_of(status: CompatStatus) -> LastCall {
    match status {
        CompatStatus::Full => LastCall::FullSuccess,
        CompatStatus::Partial => LastCall::PartialSuccess,
    }
}

impl From<CompatStatus> for LastCall {
    fn from(status: CompatStatus) -> (r: Self) {
        match status {
            CompatStatus::Full => LastCall::FullSuccess,
            CompatStatus::Partial => LastCall::PartialSuccess,
        }
    }
}

impl vstd::std_specs::convert::FromSpecImpl<CompatStatus> for LastCall {
    open spec fn obeys_from_spec() -> bool {
        true
    }

    open spec fn from_spec(v: CompatStatus) -> LastCall {
        last_call_of(v)
    }
}

/// The object under construction, with the chain's status.
#[derive(Debug)]
pub struct CompatBuild<T> {
    pub status: CompatStatus,
    pub data: T,
}

/// A build chain: the object under construction, if the chain could go on
/// with it, the outcome of the last call, and the last runtime error seen.
///
/// Build methods never fail: they record how each step went, and
/// `into_result` turns that record into an error when the caller asks.
#[derive(Debug)]
pub struct Compat<T> {
    /// Outcome of the last call, for `into_result`.
    pub last: LastCall,
    /// The runtime error of an earlier call, for the restriction status.
    pub prev_error: Option<Error>,
    /// `None` once the chain is incompatible with the running system.
    pub build: Option<CompatBuild<T>>,
}

/// Which outcomes of the last call `into_result` treats as errors.
#[derive(Debug, Clone, Copy, PartialEq, Eq, Structural)]
pub enum ErrorThreshold {
    /// Only a runtime error.
    Runtime,
    /// A runtime error or a full incompatibility.
    Incompatible,
    /// A runtime error, a full incompatibility or a partial compatibility.
    PartiallyCompatible,
}

/// The error that `into_result` returns for a last call `last` under
/// `threshold`, if any.
pub open spec fn threshold_error(last: LastCall, threshold: ErrorThreshold) -> Option<Error> {
    match last {
        LastCall::FullSuccess => None,
        LastCall::PartialSuccess => match threshold {
            ErrorThreshold::PartiallyCompatible => Some(Error::PartiallyCompatible),
            _ => None,
        },
        LastCall::Unsupported | LastCall::Fake => match threshold {
            ErrorThreshold::Runtime => None,
            _ => Some(Error::Incompatible),
        },
        LastCall::RuntimeError(e) => Some(e),
    }
}

impl<T> Compat<T> {
    /// The chain after recording `status` as the outcome of the last call:
    /// anything but a full success downgrades the build status, and a
    /// runtime error of the call before is kept.
    pub open spec fn with_last_call(self, status: LastCall) -> Compat<T> {
        Compat {
            last: status,
            prev_error: match self.last {
                LastCall::RuntimeError(e) => Some(e),
                _ => self.prev_error,
            },
            build: match self.build {
                Some(b) => if status == LastCall::FullSuccess {
                    Some(b)
                } else {
                    Some(CompatBuild { status: CompatStatus::Partial, data: b.data })
                },
                None => None,
            },
        }
    }

    /// The most recent runtime error of the chain.
    pub open spec fn last_error(self) -> Option<Error> {
        match self.last {
            LastCall::RuntimeError(e) => Some(e),
            _ => self.prev_error,
        }
    }

    /// The chain that `into_result` gives back, or its error.
    pub open spec fn result_under(self, threshold: ErrorThreshold) -> Result<Compat<T>, Error> {
        match threshold_error(self.last, threshold) {
            None => Ok(self),
            Some(e) => Err(e),
        }
    }

    /// A chain whose first step, on `data`, gave `status`.
    pub open spec fn started(status: CompatStatus, data: T) -> Compat<T> {
        Compat { last: last_call_of(status), prev_error: None, build: Some(CompatBuild { status, data }) }
    }

    /// A chain whose first step, on `data`, gave `status`.
    pub fn new(status: CompatStatus, data: T) -> (r: Self)
        ensures
            r == Compat::started(status, data),
    {
        Compat { last: LastCall::from(status), prev_error: None, build: Some(CompatBuild { status, data }) }
    }

    /// Records the outcome of the last call.
    pub fn set_last_call_status(self, status: LastCall) -> (r: Self)
        ensures
            r == self.with_last_call(status),
    {
        let mut s = self;
        match status {
            LastCall::FullSuccess => {},
            _ => {
                // Only ever downgrades the build status.
                if let Some(ref mut build) = s.build {
                    build.status = CompatStatus::Partial;
                }
            },
        }
        let previous = s.last;
        s.last = status;
        if let LastCall::RuntimeError(e) = previous {
            s.prev_error = Some(e);
        }
        s
    }

    /// The most recent runtime error: that of the last call, or else the
    /// one kept from before.
    pub fn get_last_error(&self) -> (r: Option<Error>)
        ensures
            r == self.last_error(),
    {
        match self.last {
            LastCall::RuntimeError(e) => Some(e),
            _ => self.prev_error,
        }
    }

    /// The chain's record with another object under construction.
    pub fn merge<U>(self, build: Option<CompatBuild<U>>) -> (r: Compat<U>)
        ensures
            r == (Compat { last: self.last, prev_error: self.prev_error, build }),
    {
        Compat { last: self.last, prev_error: self.prev_error, build }
    }

    /// Turns the outcome of the last call into an error when `threshold`
    /// counts it as one; gives the chain back unchanged otherwise. It is
    /// still possible to go on with the chain after an incompatibility.
    pub fn into_result(self, threshold: ErrorThreshold) -> (r: Result<Self, Error>)
        ensures
            r == self.result_under(threshold),
    {
        match self.last {
            LastCall::FullSuccess => Ok(self),
            LastCall::PartialSuccess => match threshold {
                ErrorThreshold::PartiallyCompatible => Err(Error::PartiallyCompatible),
                _ => Ok(self),
            },
            LastCall::Unsupported | LastCall::Fake => match threshold {
                ErrorThreshold::PartiallyCompatible | ErrorThreshold::Incompatible => Err(
                    Error::Incompatible,
                ),
                _ => Ok(self),
            },
            LastCall::RuntimeError(e) => Err(e),
        }
    }

    /// The object under construction, if the chain still has one.
    pub fn data(&self) -> (r: Option<&T>)
        ensures
            r == match self.build {
                Some(b) => Some(&b.data),
                None => None,
            },
    {
        match &self.build {
            Some(b) => Some(&b.data),
            None => None,
        }
    }
}

/// Converting a chain to a result a second time, on what the first time gave
/// back, gives the same result, and the chain's record is left as it was.
pub proof fn lemma_into_result_idempotent<T>(chain: Compat<T>, threshold: ErrorThreshold)
    ensures
        chain.result_under(threshold) matches Ok(c) ==> c == chain && c.result_under(threshold)
            == chain.result_under(threshold),
{
}

} // verus!
