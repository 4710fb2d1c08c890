//! Names and numbers that both ends of the bridge agree on.

use vstd::prelude::*;

verus! {

/// Method tag of a transfer.
pub const X_CROSS_TRANSFER: &'static str = "xCrossTransfer";

/// Method tag of the message that undoes a transfer.
pub const X_CROSS_TRANSFER_REVERT: &'static str = "xCrossTransferRevert";

/// Protocol under which every address of the bridge is written.
pub const PROTOCOL: &'static str = "btp";

/// Identifier under which every dispatch registers its completion callback.
pub const REPLY_MSG_SUCCESS: u64 = 1;

/// The two method tags differ in length, and the protocol holds no slash.
pub proof fn lemma_tags()
    ensures
        X_CROSS_TRANSFER@.len() == 14,
        X_CROSS_TRANSFER_REVERT@.len() == 20,
        X_CROSS_TRANSFER@ != X_CROSS_TRANSFER_REVERT@,
        PROTOCOL@ == seq!['b', 't', 'p'],
{
    reveal_strlit("xCrossTransfer");
    reveal_strlit("xCrossTransferRevert");
    reveal_strlit("btp");
    assert(PROTOCOL@ =~= seq!['b', 't', 'p']);
}

} // verus!
