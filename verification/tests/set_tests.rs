use tx_set::v0::Cmd;
use tx_set::v0::Error;
use tx_set::xdr::Memo;
use tx_set::xdr::TimeBounds;
use tx_set::xdr::TransactionEnvelope;
use tx_set::xdr::TransactionV0;
use tx_set::xdr::TransactionV0Envelope;

fn empty_cmd() -> Cmd {
    Cmd {
        sequence_number: None,
        fee: None,
        max_time_bound: None,
        min_time_bound: None,
        memo_text: None,
        memo_id: None,
        memo_hash: None,
        memo_return: None,
    }
}

fn sample_v0_envelope() -> TransactionEnvelope {
    TransactionEnvelope::TxV0(TransactionV0Envelope {
        tx: TransactionV0 {
            seq_num: 7,
            fee: 1,
            time_bounds: Some(TimeBounds {
                min_time: 3,
                max_time: 4,
            }),
            memo: Memo::MemoNone,
        },
    })
}

fn inner(env: &TransactionEnvelope) -> &TransactionV0 {
    match env {
        TransactionEnvelope::TxV0(e) => &e.tx,
        _ => panic!("expected the legacy variant"),
    }
}

#[test]
fn time_bounds_none_none() {
    let mut cmd = empty_cmd();
    cmd.min_time_bound = None;
    cmd.max_time_bound = None;
    assert_eq!(cmd.time_bounds(), None);
}

#[test]
fn time_bounds_min_only() {
    let mut cmd = empty_cmd();
    cmd.min_time_bound = Some(5);
    assert_eq!(
        cmd.time_bounds(),
        Some(TimeBounds {
            min_time: 5,
            max_time: u64::MAX,
        })
    );
}

#[test]
fn time_bounds_max_only() {
    let mut cmd = empty_cmd();
    cmd.max_time_bound = Some(100);
    assert_eq!(
        cmd.time_bounds(),
        Some(TimeBounds {
            min_time: 0,
            max_time: 100,
        })
    );
}

#[test]
fn time_bounds_both() {
    let mut cmd = empty_cmd();
    cmd.min_time_bound = Some(5);
    cmd.max_time_bound = Some(100);
    assert_eq!(
        cmd.time_bounds(),
        Some(TimeBounds {
            min_time: 5,
            max_time: 100,
        })
    );
}

#[test]
fn fee_and_memo_id_only() {
    let mut cmd = empty_cmd();
    cmd.fee = Some(100);
    cmd.memo_id = Some(42);
    let mut env = sample_v0_envelope();
    assert_eq!(cmd.run(&mut env), Ok(()));
    let tx = inner(&env);
    assert_eq!(tx.fee, 100);
    assert_eq!(tx.memo, Memo::Id(42));
    assert_eq!(tx.seq_num, 7);
    assert_eq!(
        tx.time_bounds,
        Some(TimeBounds {
            min_time: 3,
            max_time: 4,
        })
    );
}

#[test]
fn all_fields_present_are_reflected() {
    let cmd = Cmd {
        sequence_number: Some(-9),
        fee: Some(250),
        max_time_bound: Some(900),
        min_time_bound: Some(800),
        memo_text: Some(b"hello".to_vec()),
        memo_id: None,
        memo_hash: None,
        memo_return: None,
    };
    let mut env = sample_v0_envelope();
    assert_eq!(cmd.run(&mut env), Ok(()));
    let tx = inner(&env);
    assert_eq!(tx.seq_num, -9);
    assert_eq!(tx.fee, 250);
    assert_eq!(
        tx.time_bounds,
        Some(TimeBounds {
            min_time: 800,
            max_time: 900,
        })
    );
    assert_eq!(tx.memo, Memo::Text(b"hello".to_vec()));
}

#[test]
fn empty_request_changes_nothing() {
    let cmd = empty_cmd();
    let mut env = sample_v0_envelope();
    let before = env.clone();
    assert_eq!(cmd.run(&mut env), Ok(()));
    assert_eq!(env, before);
}

#[test]
fn memo_hash_is_set() {
    let mut cmd = empty_cmd();
    cmd.memo_hash = Some(tx_set::xdr::Hash([7u8; 32]));
    let mut env = sample_v0_envelope();
    assert_eq!(cmd.run(&mut env), Ok(()));
    assert_eq!(inner(&env).memo, Memo::Hash(tx_set::xdr::Hash([7u8; 32])));
}

#[test]
fn memo_return_is_set() {
    let mut cmd = empty_cmd();
    cmd.memo_return = Some(tx_set::xdr::Hash([9u8; 32]));
    let mut env = sample_v0_envelope();
    assert_eq!(cmd.run(&mut env), Ok(()));
    assert_eq!(inner(&env).memo, Memo::Return(tx_set::xdr::Hash([9u8; 32])));
}

#[test]
fn later_memo_alternative_wins_when_exclusion_is_bypassed() {
    let mut cmd = empty_cmd();
    cmd.memo_text = Some(b"note".to_vec());
    cmd.memo_id = Some(5);
    let mut env = sample_v0_envelope();
    assert_eq!(cmd.run(&mut env), Ok(()));
    assert_eq!(inner(&env).memo, Memo::Id(5));
}

#[test]
fn applying_twice_equals_applying_once() {
    let cmd = Cmd {
        sequence_number: Some(11),
        fee: Some(20),
        max_time_bound: None,
        min_time_bound: Some(6),
        memo_text: Some(b"memo".to_vec()),
        memo_id: None,
        memo_hash: None,
        memo_return: None,
    };
    let mut once = sample_v0_envelope();
    assert_eq!(cmd.run(&mut once), Ok(()));
    let mut twice = once.clone();
    assert_eq!(cmd.run(&mut twice), Ok(()));
    assert_eq!(twice, once);
}

#[test]
fn current_format_is_rejected_unchanged() {
    let mut cmd = empty_cmd();
    cmd.fee = Some(77);
    cmd.memo_id = Some(1);
    let mut env = TransactionEnvelope::Tx;
    assert_eq!(cmd.run(&mut env), Err(Error::Unsupported));
    assert_eq!(env, TransactionEnvelope::Tx);
}

#[test]
fn fee_bump_is_rejected_unchanged() {
    let cmd = empty_cmd();
    let mut env = TransactionEnvelope::TxFeeBump;
    assert_eq!(cmd.run(&mut env), Err(Error::Unsupported));
    assert_eq!(env, TransactionEnvelope::TxFeeBump);
}

#[test]
fn subcommand_dispatches_to_v0() {
    let mut cmd = empty_cmd();
    cmd.sequence_number = Some(33);
    let set_cmd = tx_set::Cmd::V0(cmd);
    let mut env = sample_v0_envelope();
    assert_eq!(set_cmd.run(&mut env), Ok(()));
    assert_eq!(inner(&env).seq_num, 33);
}

#[test]
fn subcommand_wraps_the_sub_handler_error() {
    let set_cmd = tx_set::Cmd::V0(empty_cmd());
    let mut env = TransactionEnvelope::Tx;
    assert_eq!(
        set_cmd.run(&mut env),
        Err(tx_set::Error::V0(Error::Unsupported))
    );
    assert_eq!(env, TransactionEnvelope::Tx);
}
