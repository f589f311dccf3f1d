use channel_factory::bytes::{concat3, suffix_bytes};
use channel_factory::extranonce::ExtendedExtranonce;
use channel_factory::ids::{GroupId, Id};
use channel_factory::messages::{
    OnNewShare, Share, StagedPhash, SubmitSharesExtended, SubmitSharesStandard,
};
use channel_factory::u256::u256_le;

fn extended_share(channel_id: u32, ext: Vec<u8>) -> SubmitSharesExtended {
    SubmitSharesExtended {
        channel_id,
        sequence_number: 11,
        job_id: 7,
        nonce: 0xdead,
        ntime: 0x5f5e100,
        version: 0x20000000,
        extranonce: ext,
    }
}

#[test]
fn u256_compares_little_endian_values() {
    let mut small = vec![0u8; 32];
    let mut big = vec![0u8; 32];
    small[0] = 0xff; // value 255
    big[31] = 1; // value 2^248
    assert!(u256_le(&small, &big));
    assert!(!u256_le(&big, &small));
    assert!(u256_le(&small, &small));
}

#[test]
fn byte_helpers_concat_and_slice() {
    let a = vec![1u8, 2];
    let b = vec![3u8];
    let c = vec![4u8, 5];
    let all = concat3(&a, &b, &c);
    assert_eq!(all, vec![1, 2, 3, 4, 5]);
    assert_eq!(suffix_bytes(&all, 2), vec![3, 4, 5]);
}

#[test]
fn id_counters_start_at_one_and_stay_apart() {
    let mut id = Id::new();
    assert_eq!(id.next(), 1);
    assert_eq!(id.next(), 2);
    let mut g = GroupId::new();
    assert_eq!(g.new_group_id(), 1);
    assert_eq!(g.new_channel_id(0), 1);
    assert_eq!(g.new_channel_id(5), 2);
    assert_eq!(g.new_group_id(), 2);
}

#[test]
fn extranonce_prefixes_count_upward() {
    let mut e = ExtendedExtranonce::new(vec![0xaa], 2, 2);
    assert_eq!(e.get_range0_len(), 1);
    assert_eq!(e.get_range2_len(), 2);
    assert_eq!(e.get_len(), 5);
    assert_eq!(e.next_prefix_extended(2).unwrap(), vec![0xaa, 0, 1]);
    assert_eq!(e.next_prefix_extended(2).unwrap(), vec![0xaa, 0, 2]);
    assert_eq!(e.extranonce_from_downstream_extranonce(&vec![9, 8]).unwrap(), vec![
        0xaa, 0, 2, 9, 8,
    ]);
    assert!(e.extranonce_from_downstream_extranonce(&vec![9]).is_none());
}

#[test]
fn extranonce_space_runs_out() {
    let mut e = ExtendedExtranonce::new(Vec::new(), 1, 1);
    for i in 1..=255u32 {
        let p = e.next_prefix_extended(1).unwrap();
        assert_eq!(p, vec![i as u8]);
    }
    assert_eq!(e.next_prefix_extended(1), Err(channel_factory::Error::ExtranonceSpaceEnded));
}

#[test]
fn staged_phash_addresses_channel_and_job() {
    let s = StagedPhash { job_id: 4, prev_hash: vec![9; 32], min_ntime: 100, nbits: 0x1d00ffff };
    let p = s.into_set_p_hash(33, None);
    assert_eq!(p.channel_id, 33);
    assert_eq!(p.job_id, 4);
    assert_eq!(p.prev_hash, vec![9; 32]);
    let p2 = s.into_set_p_hash(33, Some(12));
    assert_eq!(p2.job_id, 12);
}

#[test]
fn share_getters_read_both_variants() {
    let e = Share::Extended(extended_share(3, vec![1, 2]));
    assert_eq!(e.get_channel_id(), 3);
    assert_eq!(e.get_sequence_number(), 11);
    assert_eq!(e.get_job_id(), 7);
    assert_eq!(e.get_nonce(), 0xdead);
    assert_eq!(e.get_n_time(), 0x5f5e100);
    assert_eq!(e.get_version(), 0x20000000);
    let s = SubmitSharesStandard {
        channel_id: 5,
        sequence_number: 1,
        job_id: 2,
        nonce: 3,
        ntime: 4,
        version: 6,
    };
    let st = Share::Standard((s, 9));
    assert_eq!(st.get_channel_id(), 5);
    assert_eq!(st.get_version(), 6);
}

#[test]
fn into_extended_leaves_extended_share_alone() {
    let share = extended_share(3, vec![1, 2]);
    let mut r = OnNewShare::SendSubmitShareUpstream((Share::Extended(share), Some(5)));
    r.into_extended(vec![7, 7], 42);
    match r {
        OnNewShare::SendSubmitShareUpstream((Share::Extended(e), Some(5))) => {
            assert_eq!(e.channel_id, 3);
            assert_eq!(e.extranonce, vec![1, 2]);
        },
        _ => panic!("share was rewritten although it was already extended"),
    }
}

#[test]
fn into_extended_rewrites_standard_share() {
    let s = SubmitSharesStandard {
        channel_id: 5,
        sequence_number: 21,
        job_id: 2,
        nonce: 3,
        ntime: 4,
        version: 6,
    };
    let mut r = OnNewShare::SendSubmitShareUpstream((Share::Standard((s, 9)), None));
    r.into_extended(vec![4, 5, 6], 77);
    match r {
        OnNewShare::SendSubmitShareUpstream((Share::Extended(e), None)) => {
            assert_eq!(e.channel_id, 77);
            assert_eq!(e.sequence_number, 21);
            assert_eq!(e.job_id, 2);
            assert_eq!(e.nonce, 3);
            assert_eq!(e.ntime, 4);
            assert_eq!(e.version, 6);
            assert_eq!(e.extranonce, vec![4, 5, 6]);
        },
        _ => panic!("standard share was not rewritten"),
    }
}
