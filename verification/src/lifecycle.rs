//! How the handles of a node are treated when the node is waited on.

use vstd::prelude::*;
use crate::action::Subsystem;

verus! {

/// What happens to the handle of a subsystem when the node is waited on.
#[derive(Clone, Copy, Debug, PartialEq, Eq, Structural)]
pub enum JoinPolicy {
    /// The handle is joined, and a failure of the subsystem reaches whoever
    /// waits on the node.
    Joined,
    /// The handle is kept and never joined: a failure of the subsystem stays
    /// in the subsystem's own result.
    Detached,
}

/// Why waiting on the node ended in failure.
#[derive(Debug, PartialEq, Eq)]
pub enum WaitError<E, J> {
    /// The joined subsystem ended with a failure of its own.
    Service(E),
    /// The joined subsystem could not be joined.
    Join(J),
}

/// The policy for the handle of a subsystem: only the peer-facing listener
/// is joined.
pub open spec fn spec_join_policy(subsystem: Subsystem) -> JoinPolicy {
    if subsystem == Subsystem::PeerListener {
        JoinPolicy::Joined
    } else {
        JoinPolicy::Detached
    }
}

/// The policy for the handle of a subsystem.
#[verifier::when_used_as_spec(spec_join_policy)]
pub fn join_policy(subsystem: Subsystem) -> (policy: JoinPolicy)
    ensures
        policy == spec_join_policy(subsystem),
{
    match subsystem {
        Subsystem::PeerListener => JoinPolicy::Joined,
        _ => JoinPolicy::Detached,
    }
}

/// What waiting on the node returns for the result of joining the
/// peer-facing listener: success where the listener ended without failure,
/// else the listener's own failure, or the failure to join it.
pub open spec fn spec_wait_result<E, J>(joined: Result<Result<(), E>, J>) -> Result<
    (),
    WaitError<E, J>,
> {
    match joined {
        Ok(Ok(())) => Ok(()),
        Ok(Err(failure)) => Err(WaitError::Service(failure)),
        Err(failure) => Err(WaitError::Join(failure)),
    }
}

/// What waiting on the node returns for the result of joining the
/// peer-facing listener.
pub fn wait_result<E, J>(joined: Result<Result<(), E>, J>) -> (result: Result<
    (),
    WaitError<E, J>,
>)
    ensures
        result == spec_wait_result(joined),
{
    match joined {
        Ok(Ok(())) => Ok(()),
        Ok(Err(failure)) => Err(WaitError::Service(failure)),
        Err(failure) => Err(WaitError::Join(failure)),
    }
}

} // verus!
