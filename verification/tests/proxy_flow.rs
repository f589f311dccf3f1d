use bitcoin::absolute::LockTime;
use bitcoin::transaction::Version;
use bitcoin::{Amount, OutPoint, ScriptBuf, Sequence, Transaction, TxIn, TxOut, Witness};
use channel_factory::extranonce::ExtendedExtranonce;
use channel_factory::factory::ExtendedChannelKind;
use channel_factory::ids::GroupId;
use channel_factory::messages::{
    NewExtendedMiningJob, NewTemplate, OnNewShare, SetNewPrevHash, SetNewPrevHashFromTp, Share,
    ShareErrorCode, SubmitSharesExtended, SubmitSharesStandard,
};
use channel_factory::proxy::ProxyExtendedChannelFactory;
use channel_factory::Error;

/// A real coinbase transaction whose input script is exactly `ext`, split
/// at the script bytes: (prefix, suffix, whole serialization).
fn coinbase_parts(ext: &[u8]) -> (Vec<u8>, Vec<u8>, Vec<u8>) {
    let tx = Transaction {
        version: Version::TWO,
        lock_time: LockTime::ZERO,
        input: vec![TxIn {
            previous_output: OutPoint::null(),
            script_sig: ScriptBuf::from_bytes(ext.to_vec()),
            sequence: Sequence::MAX,
            witness: Witness::default(),
        }],
        output: vec![TxOut { value: Amount::from_sat(0), script_pubkey: ScriptBuf::new() }],
    };
    let ser = bitcoin::consensus::encode::serialize(&tx);
    let pos = ser.windows(ext.len()).position(|w| w == ext).unwrap();
    (ser[..pos].to_vec(), ser[pos + ext.len()..].to_vec(), ser)
}

fn new_proxy(kind: ExtendedChannelKind, up_id: u32) -> ProxyExtendedChannelFactory {
    ProxyExtendedChannelFactory::new(
        GroupId::new(),
        ExtendedExtranonce::new(vec![7, 7], 2, 4),
        kind,
        Some(Vec::new()),
        up_id,
    )
}

fn job(job_id: u32, min_ntime: Option<u32>, cbp: Vec<u8>, cbs: Vec<u8>) -> NewExtendedMiningJob {
    NewExtendedMiningJob {
        channel_id: 0,
        job_id,
        min_ntime,
        version: 0x20000000,
        version_rolling_allowed: false,
        merkle_path: Vec::new(),
        coinbase_tx_prefix: cbp,
        coinbase_tx_suffix: cbs,
    }
}

fn share(channel_id: u32, job_id: u32) -> SubmitSharesExtended {
    SubmitSharesExtended {
        channel_id,
        sequence_number: 20,
        job_id,
        nonce: 0x1234,
        ntime: 1_600_000_100,
        version: 0x20000000,
        extranonce: vec![9, 9, 9, 9],
    }
}

fn prev(job_id: u32) -> SetNewPrevHash {
    SetNewPrevHash {
        channel_id: 0,
        job_id,
        prev_hash: vec![5; 32],
        min_ntime: 1_600_000_000,
        nbits: 0x1d00ffff,
    }
}

#[test]
fn upstream_relay_strips_the_upstream_prefix() {
    // A transparent proxy whose upstream takes everything: any share that
    // is no block goes upstream, with range0 stripped from its extranonce.
    let mut proxy = new_proxy(
        ExtendedChannelKind::Proxy { upstream_target: vec![0xff; 32] },
        77,
    );
    let full_ext = [7u8, 7, 0, 1, 9, 9, 9, 9];
    let (cbp, cbs, _) = coinbase_parts(&full_ext);
    proxy.new_extended_channel(1, vec![0xff; 32], 4).unwrap();
    proxy.on_new_extended_mining_job(job(7, None, cbp, cbs)).unwrap();
    proxy.on_new_prev_hash(prev(7), 1234).unwrap();

    let r = proxy.on_submit_shares_extended(share(1, 7)).unwrap();
    match r {
        OnNewShare::SendSubmitShareUpstream((Share::Extended(e), None)) => {
            // The extranonce is the downstream one with range0 stripped;
            // an already-extended share keeps its own channel id.
            assert_eq!(e.extranonce, vec![0, 1, 9, 9, 9, 9]);
            assert_eq!(e.channel_id, 1);
            assert_eq!(e.sequence_number, 20);
        },
        _ => panic!("expected the upstream relay"),
    }
}

#[test]
fn mismatching_job_id_is_answered_downstream() {
    let mut proxy = new_proxy(
        ExtendedChannelKind::Proxy { upstream_target: vec![0xff; 32] },
        77,
    );
    let (cbp, cbs, _) = coinbase_parts(&[7, 7, 0, 1, 9, 9, 9, 9]);
    proxy.new_extended_channel(1, vec![0xff; 32], 4).unwrap();
    proxy.on_new_extended_mining_job(job(7, None, cbp, cbs)).unwrap();
    proxy.on_new_prev_hash(prev(7), 1234).unwrap();

    match proxy.on_submit_shares_extended(share(1, 8)).unwrap() {
        OnNewShare::SendErrorDownstream(e) => {
            assert_eq!(e.channel_id, 1);
            assert_eq!(e.sequence_number, 20);
            assert_eq!(e.error_code, ShareErrorCode::InvalidJobId);
        },
        _ => panic!("expected the invalid-job-id error"),
    }

    let r = proxy.on_submit_shares_extended(share(1, 7)).unwrap();
    assert!(matches!(r, OnNewShare::SendSubmitShareUpstream(_)));
}

#[test]
fn share_without_any_job_is_refused() {
    let mut proxy = new_proxy(
        ExtendedChannelKind::Proxy { upstream_target: vec![0xff; 32] },
        77,
    );
    let r = proxy.on_submit_shares_extended(share(1, 7));
    assert_eq!(r.unwrap_err(), Error::ShareDoNotMatchAnyJob);
    let m = SubmitSharesStandard {
        channel_id: 1,
        sequence_number: 2,
        job_id: 7,
        nonce: 1,
        ntime: 2,
        version: 3,
    };
    let r = proxy.on_submit_shares_standard(m);
    assert_eq!(r.unwrap_err(), Error::ShareDoNotMatchAnyJob);
}

#[test]
fn declaring_proxy_without_registered_template_finds_none() {
    // The job reached the factory directly, not through a template, so the
    // job-declaring share path finds no template id for it.
    let mut proxy = new_proxy(
        ExtendedChannelKind::ProxyJd { upstream_target: vec![0xff; 32] },
        77,
    );
    let (cbp, cbs, _) = coinbase_parts(&[7, 7, 0, 1, 9, 9, 9, 9]);
    proxy.new_extended_channel(1, vec![0xff; 32], 4).unwrap();
    proxy.on_new_extended_mining_job(job(7, None, cbp, cbs)).unwrap();
    proxy.on_new_prev_hash(prev(7), 1234).unwrap();
    let r = proxy.on_submit_shares_extended(share(1, 7));
    assert_eq!(r.unwrap_err(), Error::NoTemplateForId);
}

#[test]
fn declaring_proxy_turns_future_template_into_custom_job() {
    let mut proxy = new_proxy(
        ExtendedChannelKind::ProxyJd { upstream_target: vec![0xff; 32] },
        77,
    );
    let (cbp, cbs, _) = coinbase_parts(&[7, 7, 0, 1, 9, 9, 9, 9]);
    let tpl = NewTemplate {
        template_id: 500,
        future_template: true,
        version: 0x20000000,
        coinbase_tx_version: 2,
        coinbase_prefix: vec![0x51],
        coinbase_tx_input_sequence: 0xffffffff,
        coinbase_tx_value_remaining: 5_000_000_000,
        coinbase_tx_outputs_count: 0,
        coinbase_tx_outputs: vec![0xaa],
        coinbase_tx_locktime: 3,
        merkle_path: Vec::new(),
    };
    let (fan, pj, id) = proxy.on_new_template(&tpl, job(7, None, cbp, cbs)).unwrap();
    assert!(fan.is_empty());
    assert!(pj.is_none());
    assert_eq!(id, 7);

    let event = SetNewPrevHashFromTp {
        template_id: 500,
        prev_hash: vec![5; 32],
        header_timestamp: 1_600_000_000,
        n_bits: 0x1d00ffff,
        target: vec![0; 32],
    };
    let custom = proxy.on_new_prev_hash_from_tp(&event, 1234).unwrap();
    let (p, jid) = custom.expect("the waiting template must become a custom job");
    assert_eq!(jid, 7);
    assert_eq!(p.prev_hash, vec![5; 32]);
    assert_eq!(p.min_ntime, 1_600_000_000);
    assert_eq!(p.nbits, 0x1d00ffff);
    assert_eq!(p.coinbase_prefix, vec![0x51]);
    assert_eq!(p.coinbase_tx_outputs, vec![0xaa]);
    assert_eq!(p.coinbase_tx_locktime, 3);
    assert!(p.future_job);
    // The promoted job and the cleared template table.
    assert_eq!(proxy.inner.last_valid_job.as_ref().unwrap().job_id, 7);
    assert!(proxy.inner.future_templates.is_empty());
    assert!(proxy.inner.future_jobs.is_empty());
}

#[test]
fn proxy_getters_reflect_the_last_prev_hash() {
    let mut proxy = new_proxy(
        ExtendedChannelKind::Proxy { upstream_target: vec![0xff; 32] },
        77,
    );
    assert!(proxy.last_prev_hash().is_none());
    assert!(proxy.last_min_ntime().is_none());
    assert!(proxy.last_nbits().is_none());
    assert!(proxy.last_valid_job_version().is_none());
    assert_eq!(proxy.get_this_channel_id(), 77);
    assert_eq!(proxy.extranonce_size(), 8);
    assert_eq!(proxy.channel_extranonce2_size(), 6);
    assert_eq!(proxy.get_upstream_extranonce1_len(), 2);

    let (cbp, cbs, _) = coinbase_parts(&[7, 7, 0, 1, 9, 9, 9, 9]);
    proxy.on_new_extended_mining_job(job(7, None, cbp, cbs)).unwrap();
    proxy.on_new_prev_hash(prev(7), 1234).unwrap();
    assert_eq!(proxy.last_prev_hash().unwrap(), vec![5; 32]);
    assert_eq!(proxy.last_min_ntime().unwrap(), 1_600_000_000);
    assert_eq!(proxy.last_nbits().unwrap(), 0x1d00ffff);
    assert_eq!(proxy.last_valid_job_version().unwrap(), 0x20000000);
    assert_eq!(
        proxy.extranonce_from_downstream_extranonce(&vec![9, 9, 9, 9]).unwrap(),
        vec![7, 7, 0, 0, 9, 9, 9, 9]
    );
}

#[test]
fn set_target_swaps_the_upstream_target() {
    let mut proxy = new_proxy(
        ExtendedChannelKind::Proxy { upstream_target: vec![0x11; 32] },
        77,
    );
    let mut t = vec![0x22; 32];
    proxy.set_target(&mut t);
    assert_eq!(t, vec![0x11; 32]);
    match &proxy.inner.kind {
        ExtendedChannelKind::Proxy { upstream_target } => {
            assert_eq!(upstream_target, &vec![0x22; 32]);
        },
        _ => panic!("the proxy kind must be kept"),
    }
}
