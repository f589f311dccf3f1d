use bitcoin::absolute::LockTime;
use bitcoin::consensus::encode::{deserialize, serialize};
use bitcoin::transaction::Version;
use bitcoin::{
    Amount, BlockHash, CompactTarget, OutPoint, ScriptBuf, Sequence, Transaction, TxIn, TxMerkleNode,
    TxOut, Witness,
};
use channel_factory::extranonce::ExtendedExtranonce;
use channel_factory::factory::ExtendedChannelKind;
use channel_factory::ids::GroupId;
use channel_factory::messages::{
    Mining, NewExtendedMiningJob, NewTemplate, OnNewShare, SetCustomMiningJob,
    SetNewPrevHashFromTp, Share, ShareErrorCode, SubmitSharesExtended, SubmitSharesStandard,
};
use channel_factory::pool::PoolChannelFactory;
use channel_factory::Error;

/// A real coinbase transaction whose input script is exactly `ext`, split
/// at the script bytes: (prefix, suffix, whole serialization).
fn coinbase_parts(ext: &[u8]) -> (Vec<u8>, Vec<u8>, Vec<u8>) {
    let tx = Transaction {
        version: Version::TWO,
        lock_time: LockTime::ZERO,
        input: vec![TxIn {
            previous_output: OutPoint::null(),
            script_sig: ScriptBuf::from_bytes(ext.to_vec()),
            sequence: Sequence::MAX,
            witness: Witness::default(),
        }],
        output: vec![TxOut { value: Amount::from_sat(0), script_pubkey: ScriptBuf::new() }],
    };
    let ser = serialize(&tx);
    let pos = ser.windows(ext.len()).position(|w| w == ext).unwrap();
    (ser[..pos].to_vec(), ser[pos + ext.len()..].to_vec(), ser)
}

/// The double-SHA256 block-header hash bitcoin itself computes for the
/// given fields, with the coinbase txid as merkle root.
fn expected_header_hash(
    version: u32,
    prev: [u8; 32],
    coinbase_ser: &[u8],
    ntime: u32,
    nbits: u32,
    nonce: u32,
) -> [u8; 32] {
    let tx: Transaction = deserialize(coinbase_ser).unwrap();
    let mut txid = [0u8; 32];
    txid.copy_from_slice(tx.compute_txid().as_ref());
    let header = bitcoin::block::Header {
        version: bitcoin::block::Version::from_consensus(version as i32),
        prev_blockhash: <BlockHash as bitcoin::hashes::Hash>::from_byte_array(prev),
        merkle_root: <TxMerkleNode as bitcoin::hashes::Hash>::from_byte_array(txid),
        time: ntime,
        bits: CompactTarget::from_consensus(nbits),
        nonce,
    };
    let mut out = [0u8; 32];
    out.copy_from_slice(header.block_hash().as_ref());
    out
}

fn minus_one_le(mut b: [u8; 32]) -> [u8; 32] {
    for i in 0..32 {
        if b[i] > 0 {
            b[i] -= 1;
            return b;
        }
        b[i] = 0xff;
    }
    b
}

fn new_pool() -> PoolChannelFactory {
    PoolChannelFactory::new(
        GroupId::new(),
        ExtendedExtranonce::new(Vec::new(), 4, 4),
        ExtendedChannelKind::Pool,
        Vec::new(),
    )
}

fn job(job_id: u32, min_ntime: Option<u32>, cbp: Vec<u8>, cbs: Vec<u8>) -> NewExtendedMiningJob {
    NewExtendedMiningJob {
        channel_id: 0,
        job_id,
        min_ntime,
        version: 0x20000000,
        version_rolling_allowed: false,
        merkle_path: Vec::new(),
        coinbase_tx_prefix: cbp,
        coinbase_tx_suffix: cbs,
    }
}

fn template(template_id: u64, future: bool) -> NewTemplate {
    NewTemplate {
        template_id,
        future_template: future,
        version: 0x20000000,
        coinbase_tx_version: 2,
        coinbase_prefix: Vec::new(),
        coinbase_tx_input_sequence: 0xffffffff,
        coinbase_tx_value_remaining: 5_000_000_000,
        coinbase_tx_outputs_count: 0,
        coinbase_tx_outputs: Vec::new(),
        coinbase_tx_locktime: 0,
        merkle_path: Vec::new(),
    }
}

fn prev_hash_event(template_id: u64, target: [u8; 32]) -> SetNewPrevHashFromTp {
    SetNewPrevHashFromTp {
        template_id,
        prev_hash: vec![5; 32],
        header_timestamp: 1_600_000_000,
        n_bits: 0x1d00ffff,
        target: target.to_vec(),
    }
}

fn share(channel_id: u32, job_id: u32) -> SubmitSharesExtended {
    SubmitSharesExtended {
        channel_id,
        sequence_number: 20,
        job_id,
        nonce: 0x1234,
        ntime: 1_600_000_100,
        version: 0x20000000,
        extranonce: vec![9, 9, 9, 9],
    }
}

#[test]
fn non_future_job_before_prev_hash_is_refused() {
    let mut pool = new_pool();
    let (cbp, cbs, _) = coinbase_parts(&[0, 0, 0, 1, 9, 9, 9, 9]);
    let r = pool.on_new_template(&template(99, false), job(7, Some(10), cbp, cbs));
    assert_eq!(r.unwrap_err(), Error::JobIsNotFutureButPrevHashNotPresent);
}

#[test]
fn too_small_extranonce_request_is_answered_with_one_error() {
    let mut pool = new_pool();
    let batch = pool.new_extended_channel(42, vec![0xff; 32], 5).unwrap();
    assert_eq!(batch.len(), 1);
    match &batch[0] {
        Mining::OpenMiningChannelError(e) => assert_eq!(e.request_id, 42),
        _ => panic!("expected an open-channel error"),
    }
    assert!(pool.get_extended_channels_ids().is_empty());
}

#[test]
fn future_job_then_prev_hash_then_share_meets_downstream() {
    let mut pool = new_pool();
    let (cbp, cbs, _) = coinbase_parts(&[0, 0, 0, 1, 9, 9, 9, 9]);
    pool.on_new_template(&template(99, true), job(7, None, cbp, cbs)).unwrap();

    // A channel opened now sees the success and the buffered future job,
    // and no prev hash yet.
    let batch = pool.new_extended_channel(1, vec![0xff; 32], 4).unwrap();
    assert_eq!(batch.len(), 2);
    match &batch[0] {
        Mining::OpenExtendedMiningChannelSuccess(s) => {
            assert_eq!(s.channel_id, 1);
            assert_eq!(s.extranonce_prefix, vec![0, 0, 0, 1]);
            assert_eq!(s.extranonce_size, 4);
        },
        _ => panic!("batch must begin with the success message"),
    }
    match &batch[1] {
        Mining::NewExtendedMiningJob(j) => {
            assert_eq!(j.job_id, 7);
            assert!(j.min_ntime.is_none());
        },
        _ => panic!("expected the buffered future job"),
    }

    // The prev hash names template 99, so job 7 is promoted.
    let jid = pool.on_new_prev_hash_from_tp(&prev_hash_event(99, [0; 32]), 1234).unwrap();
    assert_eq!(jid, 7);
    assert_eq!(pool.inner.future_jobs.len(), 0);
    assert_eq!(pool.inner.last_valid_job.as_ref().unwrap().job_id, 7);
    assert_eq!(pool.inner.last_valid_job.as_ref().unwrap().min_ntime, Some(1234));

    // A channel opened now sees success, the replayed job and exactly one
    // prev hash carrying the replayed job id.
    let batch = pool.new_extended_channel(2, vec![0xff; 32], 4).unwrap();
    assert_eq!(batch.len(), 3);
    assert!(matches!(&batch[0], Mining::OpenExtendedMiningChannelSuccess(_)));
    match &batch[1] {
        Mining::NewExtendedMiningJob(j) => {
            assert_eq!(j.job_id, 7);
            assert!(j.min_ntime.is_none());
        },
        _ => panic!("expected the replayed job"),
    }
    match &batch[2] {
        Mining::SetNewPrevHash(p) => {
            assert_eq!(p.job_id, 7);
            assert_eq!(p.channel_id, 2);
            assert_eq!(p.prev_hash, vec![5; 32]);
        },
        _ => panic!("expected the prev hash after the replayed job"),
    }

    // The share hashes above the (null) bitcoin target and the pool has no
    // upstream, but the channel's target takes everything.
    let r = pool.on_submit_shares_extended(share(1, 7)).unwrap();
    assert!(matches!(r, OnNewShare::ShareMeetDownstreamTarget));
}

#[test]
fn share_meeting_the_bitcoin_target_carries_the_coinbase() {
    let mut pool = new_pool();
    let full_ext = [0u8, 0, 0, 1, 9, 9, 9, 9];
    let (cbp, cbs, ser) = coinbase_parts(&full_ext);
    pool.on_new_template(&template(99, true), job(7, None, cbp, cbs)).unwrap();
    pool.new_extended_channel(1, vec![0xff; 32], 4).unwrap();

    let m = share(1, 7);
    let hash = expected_header_hash(m.version, [5; 32], &ser, m.ntime, 0x1d00ffff, m.nonce);
    pool.on_new_prev_hash_from_tp(&prev_hash_event(99, hash), 1234).unwrap();

    let r = pool.on_submit_shares_extended(m).unwrap();
    match r {
        OnNewShare::ShareMeetBitcoinTarget((Share::Extended(e), Some(tid), coinbase, ext)) => {
            assert_eq!(tid, 99);
            assert_eq!(coinbase, ser);
            assert_eq!(ext, full_ext.to_vec());
            // range0 is empty here, so the rewritten extranonce is the full one
            assert_eq!(e.extranonce, full_ext.to_vec());
            assert_eq!(e.channel_id, 1);
        },
        _ => panic!("expected the bitcoin-target outcome"),
    }
}

#[test]
fn classification_moves_with_the_target() {
    // The same share against a target exactly at its hash, one below it,
    // and a null downstream target: bitcoin, downstream, then the error.
    let full_ext = [0u8, 0, 0, 1, 9, 9, 9, 9];
    let (cbp, cbs, ser) = coinbase_parts(&full_ext);
    let m = share(1, 7);
    let hash = expected_header_hash(m.version, [5; 32], &ser, m.ntime, 0x1d00ffff, m.nonce);

    let mut pool = new_pool();
    pool.on_new_template(&template(99, true), job(7, None, cbp.clone(), cbs.clone())).unwrap();
    pool.new_extended_channel(1, vec![0xff; 32], 4).unwrap();
    pool.on_new_prev_hash_from_tp(&prev_hash_event(99, minus_one_le(hash)), 1234).unwrap();
    let r = pool.on_submit_shares_extended(share(1, 7)).unwrap();
    assert!(matches!(r, OnNewShare::ShareMeetDownstreamTarget));

    let mut pool = new_pool();
    pool.on_new_template(&template(99, true), job(7, None, cbp, cbs)).unwrap();
    pool.new_extended_channel(1, vec![0; 32], 4).unwrap();
    pool.on_new_prev_hash_from_tp(&prev_hash_event(99, [0; 32]), 1234).unwrap();
    let r = pool.on_submit_shares_extended(share(1, 7)).unwrap();
    match r {
        OnNewShare::SendErrorDownstream(e) => {
            assert_eq!(e.channel_id, 1);
            assert_eq!(e.sequence_number, 20);
            assert_eq!(e.error_code, ShareErrorCode::DifficultyTooLow);
        },
        _ => panic!("expected the difficulty-too-low error"),
    }
}

#[test]
fn negotiated_custom_job_overrides_the_factory_state() {
    let mut pool = new_pool();
    pool.new_extended_channel(1, vec![0xff; 32], 4).unwrap();
    // No job and no prev hash are known to the factory itself.
    let full_ext = [0u8, 0, 0, 1, 9, 9, 9, 9];
    let (cbp, cbs, _) = coinbase_parts(&full_ext);
    let custom = SetCustomMiningJob {
        channel_id: 1,
        request_id: 88,
        token: vec![1],
        version: 0x20000000,
        prev_hash: vec![3; 32],
        min_ntime: 1_600_000_000,
        nbits: 0x1d00ffff,
        coinbase_tx_version: 2,
        coinbase_prefix: Vec::new(),
        coinbase_tx_input_n_sequence: 0xffffffff,
        coinbase_tx_value_remaining: 0,
        coinbase_tx_outputs: Vec::new(),
        coinbase_tx_locktime: 0,
        merkle_path: Vec::new(),
    };
    let success = pool.on_new_set_custom_mining_job(custom, cbp, cbs);
    assert_eq!(success.channel_id, 1);
    assert_eq!(success.request_id, 88);
    assert_eq!(success.job_id, 1);

    // Validation succeeds although the factory holds no valid job: the
    // negotiated job supplies prev hash, bits and coinbase.
    let r = pool.on_submit_shares_extended(share(1, 1)).unwrap();
    assert!(matches!(r, OnNewShare::ShareMeetDownstreamTarget));

    // On a channel without a negotiated job the same share finds no job.
    let r = pool.on_submit_shares_extended(share(2, 1));
    assert_eq!(r.unwrap_err(), Error::ShareDoNotMatchAnyJob);
}

#[test]
fn unparsable_coinbase_is_refused() {
    let mut pool = new_pool();
    pool.on_new_template(&template(99, true), job(7, None, vec![1, 2, 3], Vec::new())).unwrap();
    pool.new_extended_channel(1, vec![0xff; 32], 4).unwrap();
    pool.on_new_prev_hash_from_tp(&prev_hash_event(99, [0; 32]), 1234).unwrap();
    let r = pool.on_submit_shares_extended(share(1, 7));
    assert_eq!(r.unwrap_err(), Error::InvalidCoinbase);
}

#[test]
fn share_for_unknown_channel_is_refused() {
    let mut pool = new_pool();
    let (cbp, cbs, _) = coinbase_parts(&[0, 0, 0, 1, 9, 9, 9, 9]);
    pool.on_new_template(&template(99, true), job(7, None, cbp, cbs)).unwrap();
    pool.on_new_prev_hash_from_tp(&prev_hash_event(99, [0; 32]), 1234).unwrap();
    let r = pool.on_submit_shares_extended(share(6, 7));
    assert_eq!(r.unwrap_err(), Error::ShareDoNotMatchAnyChannel);
}

#[test]
fn standard_share_on_unknown_channel_reports_invalid_channel() {
    let mut pool = new_pool();
    let m = SubmitSharesStandard {
        channel_id: 9,
        sequence_number: 2,
        job_id: 7,
        nonce: 1,
        ntime: 2,
        version: 3,
    };
    match pool.on_submit_shares_standard(m).unwrap() {
        OnNewShare::SendErrorDownstream(e) => {
            assert_eq!(e.channel_id, 9);
            assert_eq!(e.error_code, ShareErrorCode::InvalidChannelId);
        },
        _ => panic!("expected the invalid-channel error"),
    }
}

#[test]
fn prev_hash_drops_unmatched_future_jobs() {
    let mut pool = new_pool();
    let (cbp, cbs, _) = coinbase_parts(&[0, 0, 0, 1, 9, 9, 9, 9]);
    pool.on_new_template(&template(98, true), job(7, None, cbp.clone(), cbs.clone())).unwrap();
    pool.on_new_template(&template(99, true), job(8, None, cbp, cbs)).unwrap();
    assert_eq!(pool.inner.future_jobs.len(), 2);

    let jid = pool.on_new_prev_hash_from_tp(&prev_hash_event(99, [0; 32]), 777).unwrap();
    assert_eq!(jid, 8);
    assert_eq!(pool.inner.future_jobs.len(), 0);
    let promoted = pool.inner.last_valid_job.as_ref().unwrap();
    assert_eq!(promoted.job_id, 8);
    assert_eq!(promoted.min_ntime, Some(777));

    // A prev hash for an unknown template resolves to job 0 and clears the
    // valid job when the queue held only other jobs.
    let mut pool = new_pool();
    let (cbp, cbs, _) = coinbase_parts(&[0, 0, 0, 1, 9, 9, 9, 9]);
    pool.on_new_template(&template(98, true), job(7, None, cbp, cbs)).unwrap();
    let jid = pool.on_new_prev_hash_from_tp(&prev_hash_event(42, [0; 32]), 777).unwrap();
    assert_eq!(jid, 0);
    assert!(pool.inner.last_valid_job.is_none());
    assert_eq!(pool.inner.future_jobs.len(), 0);
}

#[test]
fn update_target_touches_exactly_one_channel() {
    let mut pool = new_pool();
    pool.new_extended_channel(1, vec![0xff; 32], 4).unwrap();
    pool.new_extended_channel(2, vec![0xff; 32], 4).unwrap();
    assert_eq!(pool.update_target_for_channel(2, vec![0xab; 32]), Some(true));
    assert_eq!(pool.update_target_for_channel(9, vec![0xab; 32]), None);
    assert_eq!(pool.inner.extended_channels[0].target, vec![0xff; 32]);
    assert_eq!(pool.inner.extended_channels[1].target, vec![0xab; 32]);
    assert_eq!(pool.get_extended_channels_ids(), vec![1, 2]);
}

#[test]
fn replicated_channel_is_recorded_under_its_id() {
    let mut pool = new_pool();
    let r = pool.replicate_upstream_extended_channel_only_jd(vec![0xff; 32], vec![1, 2, 3, 4], 55, 4);
    assert_eq!(r, Some(()));
    assert_eq!(pool.get_extended_channels_ids(), vec![55]);
    assert_eq!(pool.inner.extended_channels[0].extranonce_prefix, vec![1, 2, 3, 4]);
    assert_eq!(pool.new_group_id(), 1);
    assert_eq!(pool.new_standard_id_for_hom(), 1);
    assert_eq!(
        pool.extranonce_from_downstream_extranonce(&vec![8, 8, 8, 8]).unwrap(),
        vec![0, 0, 0, 0, 8, 8, 8, 8]
    );
}
