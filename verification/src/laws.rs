//! Laws of the factory, stated and proved once for every input: how share
//! classification orders itself, what an open-channel batch contains, and
//! what a previous-block-hash event leaves behind.

use vstd::prelude::*;

use crate::factory::{
    check_target_post, has_job_match, last_match_idx, prev_hash_transition, ChannelFactory,
};
use crate::hashing::{coinbase_txid_of, header_bytes, merkle_fold, sha256d_of};
use crate::messages::{Mining, NewExtendedMiningJob, OnNewShare, Share, StagedPhash};
use crate::u256::le_val;
use crate::Error;

verus! {

/// The four outcomes of checking a share, ordered by strictness.
pub enum ShareClassification {
    MeetsBitcoin,
    MeetsUpstream,
    MeetsDownstream,
    MissesAll,
}

/// How a hash value classifies against the three concentric targets,
/// tried from the strictest down.
pub open spec fn share_class(h: nat, bitcoin_t: nat, upstream_t: nat, downstream_t: nat) -> ShareClassification {
    if h <= bitcoin_t {
        ShareClassification::MeetsBitcoin
    } else if h <= upstream_t {
        ShareClassification::MeetsUpstream
    } else if h <= downstream_t {
        ShareClassification::MeetsDownstream
    } else {
        ShareClassification::MissesAll
    }
}

/// Position of an outcome in the order bitcoin → upstream → downstream →
/// error.
pub open spec fn class_rank(c: ShareClassification) -> int {
    match c {
        ShareClassification::MeetsBitcoin => 0,
        ShareClassification::MeetsUpstream => 1,
        ShareClassification::MeetsDownstream => 2,
        ShareClassification::MissesAll => 3,
    }
}

/// Share classification is monotone in the hash: increasing the hash (a
/// worse share) can only move the outcome later in the order bitcoin →
/// upstream → downstream → error, whatever the three targets are.
pub proof fn lemma_share_class_monotone(h1: nat, h2: nat, bitcoin_t: nat, upstream_t: nat, downstream_t: nat)
    requires
        h1 <= h2,
    ensures
        class_rank(share_class(h1, bitcoin_t, upstream_t, downstream_t)) <= class_rank(
            share_class(h2, bitcoin_t, upstream_t, downstream_t),
        ),
{
}

/// Number of `SetNewPrevHash` messages in a batch.
pub open spec fn count_prev_hash(batch: Seq<Mining>) -> int
    decreases batch.len(),
{
    if batch.len() == 0 {
        0
    } else {
        (if batch[0] is SetNewPrevHash {
            1int
        } else {
            0int
        }) + count_prev_hash(batch.skip(1))
    }
}

/// Unfolds the count at index `i`.
proof fn lemma_count_step(batch: Seq<Mining>, i: int)
    requires
        0 <= i < batch.len(),
    ensures
        count_prev_hash(batch.skip(i)) == (if batch[i] is SetNewPrevHash {
            1int
        } else {
            0int
        }) + count_prev_hash(batch.skip(i + 1)),
{
    assert(batch.skip(i).skip(1) =~= batch.skip(i + 1));
    assert(batch.skip(i)[0] == batch[i]);
}

/// A run without `SetNewPrevHash` counts zero.
proof fn lemma_count_zero_from(batch: Seq<Mining>, i: int)
    requires
        0 <= i <= batch.len(),
        forall|k: int| i <= k < batch.len() ==> !((#[trigger] batch[k]) is SetNewPrevHash),
    ensures
        count_prev_hash(batch.skip(i)) == 0,
    decreases batch.len() - i,
{
    if i < batch.len() {
        lemma_count_step(batch, i);
        lemma_count_zero_from(batch, i + 1);
    } else {
        assert(batch.skip(i) =~= Seq::<Mining>::empty());
    }
}

/// An open-channel reply batch begins with the success message, and holds
/// exactly one `SetNewPrevHash` when a previous-block hash is known at
/// that moment and none otherwise.
pub proof fn lemma_open_batch_shape(
    o: ChannelFactory,
    request_id: u32,
    target: Seq<u8>,
    new_id: u32,
    prefix: Seq<u8>,
    batch: Seq<Mining>,
)
    requires
        o.open_batch_ok(request_id, target, new_id, prefix, batch),
    ensures
        batch.len() > 0,
        batch[0] is OpenExtendedMiningChannelSuccess,
        count_prev_hash(batch) == if o.last_prev_hash is Some {
            1int
        } else {
            0int
        },
{
    let head = o.batch_head_len();
    assert forall|k: int| head <= k < batch.len() implies !((#[trigger] batch[k])
        is SetNewPrevHash) by {
        assert(batch[head + (k - head)] matches Mining::NewExtendedMiningJob(j));
    }
    lemma_count_zero_from(batch, head);
    assert(batch.skip(0) =~= batch);
    lemma_count_step(batch, 0);
    if o.last_valid_job is Some {
        lemma_count_step(batch, 1);
        if o.last_prev_hash is Some {
            lemma_count_step(batch, 2);
        }
    } else {
        if o.last_prev_hash is Some {
            lemma_count_step(batch, 1);
        }
    }
}

/// The greatest matching index exists whenever some index matches.
proof fn lemma_last_match_exists(s: Seq<NewExtendedMiningJob>, job_id: u32)
    requires
        has_job_match(s, job_id),
    ensures
        ({
            let i = last_match_idx(s, job_id);
            &&& 0 <= i < s.len()
            &&& s[i].job_id == job_id
            &&& forall|j: int| i < j < s.len() ==> s[j].job_id != job_id
        }),
    decreases s.len(),
{
    if s.len() > 0 {
        if s[s.len() - 1].job_id == job_id {
            let w = s.len() - 1;
            assert(0 <= w < s.len() && (#[trigger] s[w]).job_id == job_id && forall|j: int|
                w < j < s.len() ==> s[j].job_id != job_id);
        } else {
            let t = s.drop_last();
            let x = choose|i: int| 0 <= i < s.len() && (#[trigger] s[i]).job_id == job_id;
            assert(t[x] == s[x]);
            assert(has_job_match(t, job_id));
            lemma_last_match_exists(t, job_id);
            let w = last_match_idx(t, job_id);
            assert(t[w] == s[w]);
            assert(0 <= w < s.len() && (#[trigger] s[w]).job_id == job_id && forall|j: int|
                w < j < s.len() ==> s[j].job_id != job_id) by {
                assert forall|j: int| w < j < s.len() implies s[j].job_id != job_id by {
                    if j < s.len() - 1 {
                        assert(t[j] == s[j]);
                    }
                }
            }
        }
    }
}

/// What `check_target` answered for a share on a known channel whose
/// coinbase parses is exactly the outcome `share_class` names for the
/// header hash against the bitcoin, upstream and downstream targets; with
/// `lemma_share_class_monotone` this orders the outcomes in the hash.
pub proof fn lemma_check_target_follows_class(
    f: ChannelFactory,
    m: Share,
    bitcoin_target: Seq<u8>,
    template_id: Option<u64>,
    merkle_path: Seq<Seq<u8>>,
    coinbase_tx_prefix: Seq<u8>,
    coinbase_tx_suffix: Seq<u8>,
    prev_blockhash: Seq<u8>,
    bits: u32,
    r: Result<OnNewShare, Error>,
)
    requires
        check_target_post(
            f,
            m,
            bitcoin_target,
            template_id,
            merkle_path,
            coinbase_tx_prefix,
            coinbase_tx_suffix,
            prev_blockhash,
            bits,
            r,
        ),
        m is Extended,
        f.has_channel(m.spec_channel_id()),
        coinbase_txid_of(
            coinbase_tx_prefix + (f.channel_rec(m.spec_channel_id()).extranonce_prefix@
                + m->Extended_0.extranonce@) + coinbase_tx_suffix,
        ) is Some,
    ensures
        r is Ok,
        ({
            let es = m->Extended_0;
            let chan = f.channel_rec(m.spec_channel_id());
            let ext_full = chan.extranonce_prefix@ + es.extranonce@;
            let coinbase = coinbase_tx_prefix + ext_full + coinbase_tx_suffix;
            let root = merkle_fold(coinbase_txid_of(coinbase)->Some_0, merkle_path);
            let h = le_val(
                sha256d_of(header_bytes(es.version, prev_blockhash, root, es.ntime, bits, es.nonce)),
            );
            let c = share_class(
                h,
                le_val(bitcoin_target),
                f.upstream_target_val(),
                le_val(chan.target@),
            );
            match r->Ok_0 {
                OnNewShare::ShareMeetBitcoinTarget(_) => c is MeetsBitcoin,
                OnNewShare::SendSubmitShareUpstream(_) => c is MeetsUpstream,
                OnNewShare::ShareMeetDownstreamTarget => c is MeetsDownstream,
                OnNewShare::SendErrorDownstream(_) => c is MissesAll,
                OnNewShare::RelaySubmitShareUpstream => false,
            }
        }),
{
}

/// After a previous-block-hash event that found a nonempty future-job
/// queue, the queue is empty and the valid-job slot either holds a job
/// carrying the event's job id or is empty.
pub proof fn lemma_prev_hash_pairs_matching_job(
    o: ChannelFactory,
    n: ChannelFactory,
    m: StagedPhash,
    now: u32,
)
    requires
        prev_hash_transition(o, n, m, now),
        o.future_jobs@.len() > 0,
    ensures
        n.future_jobs@.len() == 0,
        n.last_valid_job matches Some(j) ==> j.job_id == m.job_id,
{
    if has_job_match(o.future_jobs@, m.job_id) {
        lemma_last_match_exists(o.future_jobs@, m.job_id);
    }
}

} // verus!
