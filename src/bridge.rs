use vstd::prelude::*;

verus! {

/// Why a bridged call gave no result.
#[derive(Debug, PartialEq, Eq)]
pub enum BridgeError<E> {
    /// The worker thread could not be started.
    WorkerSpawnFailure,
    /// The worker thread panicked, or could not be joined.
    WorkerPanicked,
    /// The operation ran and failed with this error.
    OperationFailed(E),
    /// The worker ended without handing a result over.
    ChannelClosedBeforeSend,
}

/// What the caller of a bridged call saw of its worker.
#[derive(Debug)]
pub enum WorkerReport<T, E> {
    /// The worker thread never started.
    NotSpawned,
    /// The worker ran; whether it was joined cleanly, and what it handed over, if anything.
    Finished { joined: bool, received: Option<Result<T, E>> },
}

/// The result of a bridged call, from what its worker did. The operation's
/// own result comes back exactly when the worker started, handed it over
/// and was joined; each other way of ending is a failure of the call, and a
/// failed operation is never turned into a success.
pub fn settle<T, E>(report: WorkerReport<T, E>) -> (r: Result<T, BridgeError<E>>)
    ensures
        match report {
            WorkerReport::NotSpawned => r == Err::<T, BridgeError<E>>(BridgeError::WorkerSpawnFailure),
            WorkerReport::Finished { joined, received } => if !joined {
                r == Err::<T, BridgeError<E>>(BridgeError::WorkerPanicked)
            } else {
                match received {
                    None => r == Err::<T, BridgeError<E>>(BridgeError::ChannelClosedBeforeSend),
                    Some(Ok(v)) => r == Ok::<T, BridgeError<E>>(v),
                    Some(Err(e)) => r == Err::<T, BridgeError<E>>(BridgeError::OperationFailed(e)),
                }
            },
        },
{
    match report {
        WorkerReport::NotSpawned => Err(BridgeError::WorkerSpawnFailure),
        WorkerReport::Finished { joined, received } => {
            if !joined {
                Err(BridgeError::WorkerPanicked)
            } else {
                match received {
                    None => Err(BridgeError::ChannelClosedBeforeSend),
                    Some(Ok(v)) => Ok(v),
                    Some(Err(e)) => Err(BridgeError::OperationFailed(e)),
                }
            }
        },
    }
}

} // verus!
