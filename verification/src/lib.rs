//! Editing of ledger transaction envelopes: apply optional field updates
//! (sequence number, fee, time bounds, memo) to a decoded envelope of the
//! legacy format, rejecting the other envelope variants.

use vstd::prelude::*;

pub mod v0;
pub mod xdr;

verus! {

/// The `set` subcommand family: each variant names one envelope format whose
/// fields a sub-handler can edit.
#[derive(Clone, Debug, PartialEq, Eq)]
pub enum Cmd {
    /// Set options for a legacy-format transaction.
    V0(crate::v0::Cmd),
}

/// Errors of the subcommand family, one variant per sub-handler.
#[derive(Clone, Copy, Debug, PartialEq, Eq)]
pub enum Error {
    V0(crate::v0::Error),
}

impl Cmd {
    /// Dispatches to the sub-handler of the chosen envelope format.
    pub fn run(&self, tx: &mut crate::xdr::TransactionEnvelope) -> (r: Result<(), Error>)
        ensures
            match *self {
                Cmd::V0(cmd) => {
                    &&& old(tx)@ is TxV0 ==> r is Ok && final(tx)@ == cmd.spec_apply(old(tx)@)
                    &&& !(old(tx)@ is TxV0) ==> r == Result::<(), Error>::Err(
                        Error::V0(crate::v0::Error::Unsupported),
                    ) && *final(tx) == *old(tx)
                },
            },
    {
        match self {
            Cmd::V0(cmd) => match cmd.run(tx) {
                Ok(()) => Ok(()),
                Err(e) => Err(Error::V0(e)),
            },
        }
    }
}

} // verus!
