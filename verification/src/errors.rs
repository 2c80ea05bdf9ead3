use vstd::prelude::*;

verus! {

/// Failure kinds surfaced by the staging/execution state machine.
/// Every operation either commits completely or aborts with one of these.
#[derive(Clone, Copy, Debug, PartialEq, Eq, Structural)]
pub enum SuperTxnError {
    /// The caller is not the owner of the buffer or transaction.
    Unauthorized,
    /// A declared or actual buffer size is over the hard ceiling.
    FinalBufferSizeExceeded,
    /// The buffer content length does not agree with the declared final size.
    FinalBufferSizeMismatch,
    /// The buffer content hash does not agree with the declared commitment.
    FinalBufferHashMismatch,
    /// A transaction message is structurally malformed or indexes out of bounds.
    InvalidTransactionMessage,
    /// The promotion call supplied a raw message other than the empty sentinel.
    InvalidInstructionArgs,
    /// The caller-supplied account context does not match the message's shape.
    AccountResolutionError,
}

} // verus!
