//! The sub-handler for legacy-format envelopes: resolves the optional raw
//! inputs into derived values and overwrites the matching fields of the
//! envelope's inner transaction record, rejecting every other variant.

use vstd::prelude::*;

use crate::xdr::{
    Memo, MemoSpec, TimeBounds, TransactionEnvelope, TransactionEnvelopeSpec,
    TransactionV0EnvelopeSpec, TransactionV0Spec, MEMO_TEXT_MAX_LEN,
};

verus! {

/// Failure of the legacy-format sub-handler.
#[derive(Clone, Copy, Debug, PartialEq, Eq, Structural)]
pub enum Error {
    /// The envelope is not of the legacy format, the only one this
    /// sub-handler may edit.
    Unsupported,
}

/// The optional field updates of one `set` invocation: each field that is
/// present overwrites the matching field of the inner transaction record.
/// At most one of the four memo alternatives is expected to be present; if
/// several are, the later one in declaration order wins, because the
/// updates are applied in that order and each overwrites the memo whole.
#[derive(Clone, Debug, PartialEq, Eq)]
pub struct Cmd {
    /// Set the transaction's sequence number.
    pub sequence_number: Option<i64>,
    /// Set the transaction's fee.
    pub fee: Option<u32>,
    /// Set the transaction's max time bound.
    pub max_time_bound: Option<u64>,
    /// Set the transaction's min time bound.
    pub min_time_bound: Option<u64>,
    /// Set the transaction's memo text (at most 28 bytes).
    pub memo_text: Option<Vec<u8>>,
    /// Set the transaction's memo id.
    pub memo_id: Option<u64>,
    /// Set the transaction's memo hash.
    pub memo_hash: Option<crate::xdr::Hash>,
    /// Set the transaction's memo return.
    pub memo_return: Option<crate::xdr::Hash>,
}

/// The combined time-bound value derived from two independently optional
/// inputs: absent on both sides means no value at all; an absent minimum
/// defaults to 0 and an absent maximum to `u64::MAX` ("unbounded").
pub open spec fn spec_time_bounds(min: Option<u64>, max: Option<u64>) -> Option<TimeBounds> {
    match (min, max) {
        (Some(min_time), Some(max_time)) => Some(TimeBounds { min_time, max_time }),
        (None, Some(max_time)) => Some(TimeBounds { min_time: 0, max_time }),
        (Some(min_time), None) => Some(TimeBounds { min_time, max_time: u64::MAX }),
        (None, None) => None,
    }
}

/// How many of the four memo alternatives an update request carries.
pub open spec fn memo_present_count(cmd: Cmd) -> int {
    (if cmd.memo_text is Some {
        1int
    } else {
        0int
    }) + (if cmd.memo_id is Some {
        1int
    } else {
        0int
    }) + (if cmd.memo_hash is Some {
        1int
    } else {
        0int
    }) + (if cmd.memo_return is Some {
        1int
    } else {
        0int
    })
}

impl Cmd {
    /// True when the memo alternatives respect their mutual exclusion.
    pub open spec fn at_most_one_memo(self) -> bool {
        memo_present_count(self) <= 1
    }

    /// The raw inputs respect the bounds the envelope format puts on them.
    pub open spec fn wf(self) -> bool {
        self.memo_text matches Some(t) ==> t@.len() <= MEMO_TEXT_MAX_LEN
    }

    /// The memo the inner transaction record holds after the update: the
    /// present alternative replaces the old memo whole, and with several
    /// present the later one in declaration order wins.
    pub open spec fn spec_memo(self, memo: MemoSpec) -> MemoSpec {
        match self.memo_return {
            Some(h) => MemoSpec::Return(h.0@),
            None => match self.memo_hash {
                Some(h) => MemoSpec::Hash(h.0@),
                None => match self.memo_id {
                    Some(id) => MemoSpec::Id(id),
                    None => match self.memo_text {
                        Some(t) => MemoSpec::Text(t@),
                        None => memo,
                    },
                },
            },
        }
    }

    /// The inner transaction record after the update: each present field
    /// overwrites, each absent field leaves the old value in place, and the
    /// derived time-bound value replaces (never merges with) the old one.
    pub open spec fn spec_update(self, tx: TransactionV0Spec) -> TransactionV0Spec {
        TransactionV0Spec {
            seq_num: match self.sequence_number {
                Some(n) => n,
                None => tx.seq_num,
            },
            fee: match self.fee {
                Some(f) => f,
                None => tx.fee,
            },
            time_bounds: match spec_time_bounds(self.min_time_bound, self.max_time_bound) {
                Some(tb) => Some(tb),
                None => tx.time_bounds,
            },
            memo: self.spec_memo(tx.memo),
        }
    }

    /// The envelope after the update: the legacy variant carries the updated
    /// record; any other variant is left as it is.
    pub open spec fn spec_apply(self, env: TransactionEnvelopeSpec) -> TransactionEnvelopeSpec {
        match env {
            TransactionEnvelopeSpec::TxV0(e) => TransactionEnvelopeSpec::TxV0(
                TransactionV0EnvelopeSpec { tx: self.spec_update(e.tx) },
            ),
            _ => env,
        }
    }

    /// Resolves the two optional raw time inputs into the combined
    /// time-bound value.
    pub fn time_bounds(&self) -> (r: Option<TimeBounds>)
        ensures
            r == spec_time_bounds(self.min_time_bound, self.max_time_bound),
    {
        match (self.min_time_bound, self.max_time_bound) {
            (Some(min_time), Some(max_time)) => Some(TimeBounds { min_time, max_time }),
            (None, Some(max_time)) => Some(TimeBounds { min_time: 0, max_time }),
            (Some(min_time), None) => Some(TimeBounds { min_time, max_time: u64::MAX }),
            (None, None) => None,
        }
    }

    /// Applies the requested updates to a legacy-format envelope in place;
    /// any other variant is rejected untouched.
    pub fn run(&self, tx: &mut TransactionEnvelope) -> (r: Result<(), Error>)
        ensures
            old(tx)@ is TxV0 ==> r is Ok && final(tx)@ == self.spec_apply(old(tx)@),
            !(old(tx)@ is TxV0) ==> r == Result::<(), Error>::Err(Error::Unsupported) && *final(tx)
                == *old(tx),
    {
        match tx {
            TransactionEnvelope::TxV0(tx_env) => {
                if let Some(seq_num) = self.sequence_number {
                    tx_env.tx.seq_num = seq_num;
                }
                if let Some(fee) = self.fee {
                    tx_env.tx.fee = fee;
                }
                if let Some(time_bounds) = self.time_bounds() {
                    tx_env.tx.time_bounds = Some(time_bounds);
                }
                if let Some(memo) = self.memo_text.as_ref() {
                    tx_env.tx.memo = Memo::Text(memo.clone());
                }
                if let Some(memo) = self.memo_id {
                    tx_env.tx.memo = Memo::Id(memo);
                }
                if let Some(memo) = self.memo_hash {
                    tx_env.tx.memo = Memo::Hash(memo);
                }
                if let Some(memo) = self.memo_return {
                    tx_env.tx.memo = Memo::Return(memo);
                }
                Ok(())
            },
            TransactionEnvelope::Tx | TransactionEnvelope::TxFeeBump => Err(Error::Unsupported),
        }
    }
}

/// Law: after an update of a legacy-format record by a request whose memo
/// alternatives respect their mutual exclusion, each present field of the
/// request is reflected verbatim on the record (time bounds via their
/// derived form), and each absent field keeps its pre-update value.
pub proof fn lemma_update_reflects_fields(req: Cmd, tx: TransactionV0Spec)
    requires
        req.at_most_one_memo(),
    ensures
        req.sequence_number matches Some(n) ==> req.spec_update(tx).seq_num == n,
        req.sequence_number is None ==> req.spec_update(tx).seq_num == tx.seq_num,
        req.fee matches Some(f) ==> req.spec_update(tx).fee == f,
        req.fee is None ==> req.spec_update(tx).fee == tx.fee,
        spec_time_bounds(req.min_time_bound, req.max_time_bound) matches Some(tb) ==> req
            .spec_update(tx).time_bounds == Some(tb),
        req.min_time_bound is None && req.max_time_bound is None ==> req.spec_update(
            tx,
        ).time_bounds == tx.time_bounds,
        req.memo_text matches Some(t) ==> req.spec_update(tx).memo == MemoSpec::Text(t@),
        req.memo_id matches Some(id) ==> req.spec_update(tx).memo == MemoSpec::Id(id),
        req.memo_hash matches Some(h) ==> req.spec_update(tx).memo == MemoSpec::Hash(h.0@),
        req.memo_return matches Some(h) ==> req.spec_update(tx).memo == MemoSpec::Return(h.0@),
        memo_present_count(req) == 0 ==> req.spec_update(tx).memo == tx.memo,
{
}

/// Law: updating a legacy-format record twice with the same request gives
/// the same record as updating it once — every update is an overwrite, not
/// an accumulation.
pub proof fn lemma_update_idempotent(req: Cmd, tx: TransactionV0Spec)
    ensures
        req.spec_update(req.spec_update(tx)) == req.spec_update(tx),
{
}

/// Law: applying the same request twice to an envelope leaves it in the
/// same state as applying it once, whichever variant the envelope is of.
pub proof fn lemma_apply_idempotent(req: Cmd, env: TransactionEnvelopeSpec)
    ensures
        req.spec_apply(req.spec_apply(env)) == req.spec_apply(env),
{
    match env {
        TransactionEnvelopeSpec::TxV0(e) => lemma_update_idempotent(req, e.tx),
        _ => (),
    }
}

/// Law: an update by a well-formed request keeps the inner transaction
/// record well formed — in particular the memo payload bounds hold after
/// the update whenever they held before.
pub proof fn lemma_update_preserves_wf(req: Cmd, tx: TransactionV0Spec)
    requires
        req.wf(),
        tx.wf(),
    ensures
        req.spec_update(tx).wf(),
{
}

} // verus!
