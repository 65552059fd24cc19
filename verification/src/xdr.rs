//! In-memory model of the transaction-envelope fields that the `set`
//! commands edit. The external serialization library owns the wire format;
//! this model holds, as plain values, exactly what the editing logic reads
//! and writes: sequence number, fee, time bounds and memo of the inner
//! transaction record, together with the envelope's variant tag.

use vstd::prelude::*;

verus! {

/// Longest memo text the envelope format admits, in bytes.
pub const MEMO_TEXT_MAX_LEN: usize = 28;

/// A validity window for a transaction: both sides are required once the
/// value exists; "no bound" on a side is expressed by 0 or `u64::MAX`.
#[derive(Clone, Copy, Debug, PartialEq, Eq, Structural)]
pub struct TimeBounds {
    pub min_time: u64,
    pub max_time: u64,
}

/// A fixed-size hash value, as carried by the hash and return-hash memos.
#[derive(Clone, Copy, Debug, PartialEq, Eq)]
pub struct Hash(pub [u8; 32]);

/// An optional annotation attached to a transaction, one of five kinds.
#[derive(Clone, Debug, PartialEq, Eq)]
pub enum Memo {
    MemoNone,
    Text(Vec<u8>),
    Id(u64),
    Hash(Hash),
    Return(Hash),
}

/// Mathematical image of a [`Memo`]: byte payloads become sequences.
pub enum MemoSpec {
    MemoNone,
    Text(Seq<u8>),
    Id(u64),
    Hash(Seq<u8>),
    Return(Seq<u8>),
}

impl View for Memo {
    type V = MemoSpec;

    open spec fn view(&self) -> MemoSpec {
        match self {
            Memo::MemoNone => MemoSpec::MemoNone,
            Memo::Text(t) => MemoSpec::Text(t@),
            Memo::Id(id) => MemoSpec::Id(*id),
            Memo::Hash(h) => MemoSpec::Hash(h.0@),
            Memo::Return(h) => MemoSpec::Return(h.0@),
        }
    }
}

impl MemoSpec {
    /// The length bounds the envelope format puts on a memo's payload.
    pub open spec fn wf(self) -> bool {
        match self {
            MemoSpec::MemoNone => true,
            MemoSpec::Text(t) => t.len() <= MEMO_TEXT_MAX_LEN,
            MemoSpec::Id(_) => true,
            MemoSpec::Hash(h) => h.len() == 32,
            MemoSpec::Return(h) => h.len() == 32,
        }
    }
}

/// The fields of a legacy-format transaction that the `set` commands read
/// or overwrite.
#[derive(Clone, Debug, PartialEq, Eq)]
pub struct TransactionV0 {
    pub seq_num: i64,
    pub fee: u32,
    pub time_bounds: Option<TimeBounds>,
    pub memo: Memo,
}

/// Mathematical image of a [`TransactionV0`].
pub struct TransactionV0Spec {
    pub seq_num: i64,
    pub fee: u32,
    pub time_bounds: Option<TimeBounds>,
    pub memo: MemoSpec,
}

impl View for TransactionV0 {
    type V = TransactionV0Spec;

    open spec fn view(&self) -> TransactionV0Spec {
        TransactionV0Spec {
            seq_num: self.seq_num,
            fee: self.fee,
            time_bounds: self.time_bounds,
            memo: self.memo@,
        }
    }
}

impl TransactionV0Spec {
    pub open spec fn wf(self) -> bool {
        self.memo.wf()
    }
}

/// A legacy-format envelope: the inner transaction record.
#[derive(Clone, Debug, PartialEq, Eq)]
pub struct TransactionV0Envelope {
    pub tx: TransactionV0,
}

/// Mathematical image of a [`TransactionV0Envelope`].
pub struct TransactionV0EnvelopeSpec {
    pub tx: TransactionV0Spec,
}

impl View for TransactionV0Envelope {
    type V = TransactionV0EnvelopeSpec;

    open spec fn view(&self) -> TransactionV0EnvelopeSpec {
        TransactionV0EnvelopeSpec { tx: self.tx@ }
    }
}

/// The top-level transaction container, tagged by format version. Only the
/// legacy format is editable here, so only its fields are modelled; the
/// current format and the fee-bump wrapper are opaque to the editing logic.
#[derive(Clone, Debug, PartialEq, Eq)]
pub enum TransactionEnvelope {
    TxV0(TransactionV0Envelope),
    Tx,
    TxFeeBump,
}

/// Mathematical image of a [`TransactionEnvelope`].
pub enum TransactionEnvelopeSpec {
    TxV0(TransactionV0EnvelopeSpec),
    Tx,
    TxFeeBump,
}

impl View for TransactionEnvelope {
    type V = TransactionEnvelopeSpec;

    open spec fn view(&self) -> TransactionEnvelopeSpec {
        match self {
            TransactionEnvelope::TxV0(e) => TransactionEnvelopeSpec::TxV0(e@),
            TransactionEnvelope::Tx => TransactionEnvelopeSpec::Tx,
            TransactionEnvelope::TxFeeBump => TransactionEnvelopeSpec::TxFeeBump,
        }
    }
}

} // verus!
