//! Dispatch rule for the shared forwarding facade.
//!
//! Every operation other than the block-range scan is forwarded
//! verbatim to the single shared upstream connection, serialized behind
//! its lock — with one exception: the balance-over-client-stream
//! operation is not implemented upstream and must be rejected at once,
//! before any forwarding is attempted.

use vstd::prelude::*;
use crate::error::Error;

verus! {

/// The non-relay operations of the exposed interface.
#[derive(Clone, Copy, Debug, PartialEq, Eq, Structural)]
pub enum NonRelayOp {
    GetLatestBlock,
    GetBlock,
    GetTransaction,
    SendTransaction,
    GetTaddressTxids,
    GetTaddressBalance,
    GetTaddressBalanceStream,
    GetMempoolTx,
    GetMempoolStream,
    GetTreeState,
    GetAddressUtxos,
    GetAddressUtxosStream,
    GetLightdInfo,
    Ping,
}

/// Decide how the facade treats a non-relay operation: `Ok(())` means
/// forward the request verbatim through the shared connection and hand
/// the response or error back unchanged; `Err` rejects it immediately.
///
/// Exactly one operation is rejected: the balance-over-client-stream,
/// with `Unimplemented`.
pub fn forward_policy(op: NonRelayOp) -> (r: Result<(), Error>)
    ensures
        r == if op is GetTaddressBalanceStream {
            Result::<(), Error>::Err(Error::Unimplemented)
        } else {
            Result::<(), Error>::Ok(())
        },
{
    match op {
        NonRelayOp::GetTaddressBalanceStream => Err(Error::Unimplemented),
        _ => Ok(()),
    }
}

} // verus!
