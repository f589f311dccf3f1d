//! The shared channel-factory state machine: channel records, the pairing
//! of future jobs with previous-block-hash events, and share validation.

use vstd::prelude::*;

use crate::bytes::{append_bytes, concat3, copy_bytes, suffix_bytes};
use crate::hashing::{
    coinbase_txid_of, hash_header, header_bytes, merkle_fold, merkle_root_from_path, path_view,
    sha256d_of,
};
use crate::extranonce::ExtendedExtranonce;
use crate::ids::{next_id, GroupId, Id};
use crate::messages::{
    job_eq, job_eq_except_channel, job_eq_with_min_ntime, Mining, NewExtendedMiningJob,
    NewTemplate, OnNewShare, OpenChannelErrorCode, OpenExtendedMiningChannelSuccess,
    OpenMiningChannelError, Share, ShareErrorCode, StagedPhash, SubmitSharesError,
    SubmitSharesExtended,
};
use crate::u256::{le_val, u256_le};
use crate::Error;

verus! {

/// The role a factory plays: a pool (no upstream), a transparent proxy, or
/// a job-declaring proxy; proxies track the upstream target.
pub enum ExtendedChannelKind {
    Proxy { upstream_target: Vec<u8> },
    ProxyJd { upstream_target: Vec<u8> },
    Pool,
}

/// A proxy's upstream target is 32 bytes; a pool holds none.
pub open spec fn kind_wf(k: ExtendedChannelKind) -> bool {
    match k {
        ExtendedChannelKind::Pool => true,
        ExtendedChannelKind::Proxy { upstream_target } => upstream_target@.len() == 32,
        ExtendedChannelKind::ProxyJd { upstream_target } => upstream_target@.len() == 32,
    }
}

/// The numeric upstream target: zero for a pool, so that no share ever
/// reaches it there.
pub open spec fn kind_upstream_val(k: ExtendedChannelKind) -> nat {
    match k {
        ExtendedChannelKind::Pool => 0,
        ExtendedChannelKind::Proxy { upstream_target } => le_val(upstream_target@),
        ExtendedChannelKind::ProxyJd { upstream_target } => le_val(upstream_target@),
    }
}

impl ExtendedChannelKind {
    /// Swaps the upstream target with `new_target`; a pool has no upstream
    /// target and is left as it stands.
    pub fn set_target(&mut self, new_target: &mut Vec<u8>)
        ensures
            match *old(self) {
                ExtendedChannelKind::Pool => *final(self) == *old(self) && final(new_target)@
                    == old(new_target)@,
                ExtendedChannelKind::Proxy { upstream_target } => *final(self)
                    matches ExtendedChannelKind::Proxy { upstream_target: t2 } && t2@
                    == old(new_target)@ && final(new_target)@ == upstream_target@,
                ExtendedChannelKind::ProxyJd { upstream_target } => *final(self)
                    matches ExtendedChannelKind::ProxyJd { upstream_target: t2 } && t2@
                    == old(new_target)@ && final(new_target)@ == upstream_target@,
            },
    {
        match self {
            ExtendedChannelKind::Proxy { upstream_target } => {
                core::mem::swap(upstream_target, new_target);
            },
            ExtendedChannelKind::ProxyJd { upstream_target } => {
                core::mem::swap(upstream_target, new_target);
            },
            ExtendedChannelKind::Pool => {},
        }
    }
}

/// The channel record announcing channel `cid` to request `rid` with the
/// given target, extranonce size and prefix.
pub open spec fn rec_fields(
    a: OpenExtendedMiningChannelSuccess,
    rid: u32,
    cid: u32,
    target: Seq<u8>,
    size: u16,
    prefix: Seq<u8>,
) -> bool {
    &&& a.request_id == rid
    &&& a.channel_id == cid
    &&& a.target@ == target
    &&& a.extranonce_size == size
    &&& a.extranonce_prefix@ == prefix
}

/// `a` is `b` with its target replaced by `t`.
pub open spec fn rec_retarget(
    a: OpenExtendedMiningChannelSuccess,
    b: OpenExtendedMiningChannelSuccess,
    t: Seq<u8>,
) -> bool {
    &&& a.request_id == b.request_id
    &&& a.channel_id == b.channel_id
    &&& a.target@ == t
    &&& a.extranonce_size == b.extranonce_size
    &&& a.extranonce_prefix@ == b.extranonce_prefix@
}

/// The value under the first pair keyed `k`, scanning from the front.
pub open spec fn first_match<V>(s: Seq<(u32, V)>, k: u32) -> Option<V>
    decreases s.len(),
{
    if s.len() == 0 {
        None
    } else if s[0].0 == k {
        Some(s[0].1)
    } else {
        first_match(s.skip(1), k)
    }
}

/// Prepending a pair shadows the old value under its key and leaves every
/// other key's value as it was.
pub proof fn lemma_first_match_prepend<V>(s: Seq<(u32, V)>, k: u32, v: V, k2: u32)
    ensures
        first_match(s.insert(0, (k, v)), k2) == if k2 == k {
            Some(v)
        } else {
            first_match(s, k2)
        },
{
    assert(s.insert(0, (k, v)).skip(1) =~= s);
}

/// Index of the first pair keyed `k`, when there is one.
pub(crate) fn first_match_idx<V>(pairs: &Vec<(u32, V)>, k: u32) -> (r: Option<usize>)
    ensures
        match r {
            Some(i) => i < pairs@.len() && pairs@[i as int].0 == k && first_match(pairs@, k)
                == Some(pairs@[i as int].1),
            None => first_match(pairs@, k) is None,
        },
{
    let mut i: usize = 0;
    proof {
        assert(pairs@.skip(0) =~= pairs@);
    }
    while i < pairs.len()
        invariant
            i <= pairs@.len(),
            first_match(pairs@, k) == first_match(pairs@.skip(i as int), k),
        decreases pairs@.len() - i,
    {
        proof {
            assert(pairs@.skip(i as int).skip(1) =~= pairs@.skip(i + 1));
            assert(pairs@.skip(i as int)[0] == pairs@[i as int]);
        }
        let p = &pairs[i];
        if p.0 == k {
            return Some(i);
        }
        i = i + 1;
    }
    None
}

/// How a previous-block-hash event `m` carries a factory from state `o`
/// to state `n`: the future-job queue is drained, at most the job carrying
/// the matching id is promoted to the valid-job slot (activated at `now`),
/// and the staged hash is recorded.
pub open spec fn prev_hash_transition(
    o: ChannelFactory,
    n: ChannelFactory,
    m: StagedPhash,
    now: u32,
) -> bool {
    &&& n.future_jobs@.len() == 0
    &&& n.last_prev_hash == Some(m)
    &&& has_job_match(o.future_jobs@, m.job_id) ==> (n.last_valid_job matches Some(j)
        && job_eq_with_min_ntime(
        j,
        o.future_jobs@[last_match_idx(o.future_jobs@, m.job_id)],
        Some(now),
    ))
    &&& !has_job_match(o.future_jobs@, m.job_id) && o.future_jobs@.len() > 0
        ==> n.last_valid_job is None
    &&& o.future_jobs@.len() == 0 ==> n.last_valid_job == o.last_valid_job
}

/// There is a future job carrying `job_id`.
pub open spec fn has_job_match(s: Seq<NewExtendedMiningJob>, job_id: u32) -> bool {
    exists|i: int| 0 <= i < s.len() && (#[trigger] s[i]).job_id == job_id
}

/// The greatest index of a future job carrying `job_id`; the one the
/// factory promotes.
pub open spec fn last_match_idx(s: Seq<NewExtendedMiningJob>, job_id: u32) -> int {
    choose|i: int|
        0 <= i < s.len() && (#[trigger] s[i]).job_id == job_id && forall|j: int|
            i < j < s.len() ==> s[j].job_id != job_id
}

/// Basic logic shared between all the channel factories.
pub struct ChannelFactory {
    /// Issues group and channel identifiers.
    pub ids: GroupId,
    /// One record per live extended channel, keyed by its channel id.
    pub extended_channels: Vec<OpenExtendedMiningChannelSuccess>,
    /// The extranonce space and its per-channel prefix allocator.
    pub extranonces: ExtendedExtranonce,
    /// Jobs delivered ahead of their previous-block hash.
    pub future_jobs: Vec<NewExtendedMiningJob>,
    /// The previous-block hash seen last, when one was seen.
    pub last_prev_hash: Option<StagedPhash>,
    /// The job paired with the last previous-block hash.
    pub last_valid_job: Option<NewExtendedMiningJob>,
    /// The role this factory plays.
    pub kind: ExtendedChannelKind,
    /// Issues job identifiers for negotiated custom jobs.
    pub job_ids: Id,
    /// Group id under which each channel was opened.
    pub channel_to_group_id: Vec<(u32, u32)>,
    /// Templates whose previous-block hash is still to come, by job id.
    pub future_templates: Vec<(u32, NewTemplate)>,
}

impl ChannelFactory {
    /// Some live channel carries `id`.
    pub open spec fn has_channel(self, id: u32) -> bool {
        exists|i: int|
            0 <= i < self.extended_channels@.len() && (#[trigger] self.extended_channels@[i]).channel_id
                == id
    }

    /// Index of the channel carrying `id`; unique under `wf`.
    pub open spec fn channel_idx(self, id: u32) -> int {
        choose|i: int|
            0 <= i < self.extended_channels@.len()
                && (#[trigger] self.extended_channels@[i]).channel_id == id
    }

    /// The record of the channel carrying `id`.
    pub open spec fn channel_rec(self, id: u32) -> OpenExtendedMiningChannelSuccess {
        self.extended_channels@[self.channel_idx(id)]
    }

    /// Every channel record carries a full `range0` ‖ `range1` prefix and a
    /// 32-byte target.
    pub open spec fn channels_wf(self) -> bool {
        forall|i: int|
            0 <= i < self.extended_channels@.len() ==> (
            #[trigger] self.extended_channels@[i]).extranonce_prefix@.len()
                == self.extranonces.prefix_len() && self.extended_channels@[i].target@.len() == 32
    }

    /// No two channel records share a channel id.
    pub open spec fn channels_unique(self) -> bool {
        forall|i: int, j: int|
            #![trigger self.extended_channels@[i], self.extended_channels@[j]]
            0 <= i < j < self.extended_channels@.len()
                ==> self.extended_channels@[i].channel_id
                != self.extended_channels@[j].channel_id
    }

    pub open spec fn wf(self) -> bool {
        &&& self.extranonces.wf()
        &&& self.channels_wf()
        &&& self.channels_unique()
        &&& kind_wf(self.kind)
        &&& self.last_prev_hash matches Some(p) ==> p.prev_hash@.len() == 32
    }

    /// The numeric upstream target of this factory.
    pub open spec fn upstream_target_val(self) -> nat {
        kind_upstream_val(self.kind)
    }

    /// The group a channel was registered under.
    pub open spec fn group_of(self, channel_id: u32) -> Option<u32> {
        first_match(self.channel_to_group_id@, channel_id)
    }

    /// An index whose record carries `id` is the index `channel_idx` names.
    pub proof fn lemma_channel_idx_is(self, i: int)
        requires
            self.channels_unique(),
            0 <= i < self.extended_channels@.len(),
        ensures
            self.channel_idx(self.extended_channels@[i].channel_id) == i,
            self.has_channel(self.extended_channels@[i].channel_id),
    {
        let id = self.extended_channels@[i].channel_id;
        assert(self.has_channel(id));
        let j = self.channel_idx(id);
        assert(0 <= j < self.extended_channels@.len() && self.extended_channels@[j].channel_id
            == id);
        if i < j {
            assert(self.extended_channels@[i].channel_id != self.extended_channels@[j].channel_id);
        } else if j < i {
            assert(self.extended_channels@[j].channel_id != self.extended_channels@[i].channel_id);
        }
    }

    /// Index of the channel carrying `channel_id`, when it is live.
    fn find_channel(&self, channel_id: u32) -> (r: Option<usize>)
        requires
            self.wf(),
        ensures
            match r {
                Some(i) => i < self.extended_channels@.len() && self.extended_channels@[
                    i as int].channel_id == channel_id && self.channel_idx(channel_id) == i
                    && self.has_channel(channel_id),
                None => !self.has_channel(channel_id),
            },
    {
        let mut i: usize = 0;
        while i < self.extended_channels.len()
            invariant
                i <= self.extended_channels@.len(),
                forall|j: int|
                    0 <= j < i ==> (#[trigger] self.extended_channels@[j]).channel_id
                        != channel_id,
                self.wf(),
            decreases self.extended_channels@.len() - i,
        {
            if self.extended_channels[i].channel_id == channel_id {
                proof {
                    self.lemma_channel_idx_is(i as int);
                }
                return Some(i);
            }
            i = i + 1;
        }
        None
    }

    /// Stores `rec` under its channel id: replaces the live record under
    /// that id, or appends a new one.
    fn insert_channel(&mut self, rec: OpenExtendedMiningChannelSuccess)
        requires
            old(self).wf(),
            rec.extranonce_prefix@.len() == old(self).extranonces.prefix_len(),
            rec.target@.len() == 32,
        ensures
            final(self).wf(),
            old(self).has_channel(rec.channel_id) ==> final(self).extended_channels@ == old(self).extended_channels@.update(old(self).channel_idx(rec.channel_id), rec),
            !old(self).has_channel(rec.channel_id) ==> final(self).extended_channels@ == old(self).extended_channels@.push(rec),
            final(self).ids == old(self).ids,
            final(self).extranonces == old(self).extranonces,
            final(self).future_jobs == old(self).future_jobs,
            final(self).last_prev_hash == old(self).last_prev_hash,
            final(self).last_valid_job == old(self).last_valid_job,
            final(self).kind == old(self).kind,
            final(self).job_ids == old(self).job_ids,
            final(self).channel_to_group_id == old(self).channel_to_group_id,
            final(self).future_templates == old(self).future_templates,
    {
        match self.find_channel(rec.channel_id) {
            Some(i) => {
                self.extended_channels.remove(i);
                self.extended_channels.insert(i, rec);
                proof {
                    assert(self.extended_channels@ =~= old(self).extended_channels@.update(
                        i as int,
                        rec,
                    ));
                }
            },
            None => {
                self.extended_channels.push(rec);
            },
        }
    }

    /// Registers `channel_id` under `group`.
    fn insert_group(&mut self, channel_id: u32, group: u32)
        ensures
            final(self).channel_to_group_id@ == old(self).channel_to_group_id@.insert(
                0,
                (channel_id, group),
            ),
            final(self).group_of(channel_id) == Some(group),
            forall|c: u32|
                c != channel_id ==> #[trigger] final(self).group_of(c) == old(self).group_of(c),
            final(self).extended_channels == old(self).extended_channels,
            final(self).ids == old(self).ids,
            final(self).extranonces == old(self).extranonces,
            final(self).future_jobs == old(self).future_jobs,
            final(self).last_prev_hash == old(self).last_prev_hash,
            final(self).last_valid_job == old(self).last_valid_job,
            final(self).kind == old(self).kind,
            final(self).job_ids == old(self).job_ids,
            final(self).future_templates == old(self).future_templates,
    {
        self.channel_to_group_id.insert(0, (channel_id, group));
        proof {
            assert forall|c: u32| true implies #[trigger] self.group_of(c) == (if c == channel_id {
                Some(group)
            } else {
                old(self).group_of(c)
            }) by {
                lemma_first_match_prepend(old(self).channel_to_group_id@, channel_id, group, c);
                assert(self.channel_to_group_id@ == old(self).channel_to_group_id@.insert(
                    0,
                    (channel_id, group),
                ));
            }
        }
    }

    /// Called when a new prev hash is received. If the respective job is in
    /// the future-job queue, it moves into the valid-job slot, activated at
    /// `now`; the queue is emptied either way and the prev hash recorded.
    pub fn on_new_prev_hash(&mut self, m: StagedPhash, now: u32) -> (r: Result<(), Error>)
        requires
            old(self).wf(),
            m.prev_hash@.len() == 32,
        ensures
            final(self).wf(),
            r is Ok,
            prev_hash_transition(*old(self), *final(self), m, now),
            final(self).future_jobs@.len() == 0,
            final(self).last_prev_hash == Some(m),
            has_job_match(old(self).future_jobs@, m.job_id) ==> (final(self).last_valid_job
                matches Some(j) && job_eq_with_min_ntime(
                j,
                old(self).future_jobs@[last_match_idx(old(self).future_jobs@, m.job_id)],
                Some(now),
            )),
            !has_job_match(old(self).future_jobs@, m.job_id) && old(self).future_jobs@.len() > 0
                ==> final(self).last_valid_job is None,
            old(self).future_jobs@.len() == 0 ==> final(self).last_valid_job == old(self).last_valid_job,
            final(self).extended_channels == old(self).extended_channels,
            final(self).extranonces == old(self).extranonces,
            final(self).ids == old(self).ids,
            final(self).kind == old(self).kind,
            final(self).job_ids == old(self).job_ids,
            final(self).channel_to_group_id == old(self).channel_to_group_id,
            final(self).future_templates == old(self).future_templates,
    {
        let mut found: Option<usize> = None;
        let mut i: usize = 0;
        while i < self.future_jobs.len()
            invariant
                i <= self.future_jobs@.len(),
                match found {
                    Some(f) => f < i && self.future_jobs@[f as int].job_id == m.job_id
                        && forall|j: int|
                            f < j < i ==> (#[trigger] self.future_jobs@[j]).job_id != m.job_id,
                    None => forall|j: int|
                        0 <= j < i ==> (#[trigger] self.future_jobs@[j]).job_id != m.job_id,
                },
            decreases self.future_jobs@.len() - i,
        {
            if self.future_jobs[i].job_id == m.job_id {
                found = Some(i);
            }
            i = i + 1;
        }
        match found {
            Some(idx) => {
                let mut job = self.future_jobs[idx].duplicate();
                job.set_no_future(now);
                proof {
                    let s = self.future_jobs@;
                    assert(0 <= idx < s.len() && s[idx as int].job_id == m.job_id && forall|j: int|
                        idx < j < s.len() ==> s[j].job_id != m.job_id);
                    let c = last_match_idx(s, m.job_id);
                    assert(0 <= c < s.len() && s[c].job_id == m.job_id && forall|j: int|
                        c < j < s.len() ==> s[j].job_id != m.job_id);
                    if c < idx as int {
                        assert(s[idx as int].job_id != m.job_id);
                    } else if (idx as int) < c {
                        assert(s[c].job_id != m.job_id);
                    }
                    assert(c == idx as int);
                }
                self.last_valid_job = Some(job);
            },
            None => {
                if self.future_jobs.len() > 0 {
                    self.last_valid_job = None;
                }
            },
        }
        self.future_jobs.clear();
        self.last_prev_hash = Some(m);
        Ok(())
    }

    /// One readdressed copy of the job per live channel, keyed by the
    /// channel's id and in the channels' stored order.
    pub open spec fn fan_out_ok(self, m: NewExtendedMiningJob, r: Seq<(u32, Mining)>) -> bool {
        &&& r.len() == self.extended_channels@.len()
        &&& forall|i: int|
            0 <= i < r.len() ==> (#[trigger] r[i]).0 == self.extended_channels@[i].channel_id && (
            r[i].1 matches Mining::NewExtendedMiningJob(j) && job_eq_except_channel(
                j,
                m,
                self.extended_channels@[i].channel_id,
            ))
    }

    /// Prepares the copies of a new extended job to be sent downstream, one
    /// per live channel, each readdressed to its channel.
    pub fn prepare_jobs_for_downstream_on_new_extended(&self, m: &NewExtendedMiningJob) -> (r: Vec<
        (u32, Mining),
    >)
        ensures
            self.fan_out_ok(*m, r@),
    {
        let mut r: Vec<(u32, Mining)> = Vec::new();
        let mut i: usize = 0;
        while i < self.extended_channels.len()
            invariant
                i <= self.extended_channels@.len(),
                r@.len() == i,
                forall|j: int|
                    0 <= j < i ==> (#[trigger] r@[j]).0 == self.extended_channels@[j].channel_id
                        && (r@[j].1 matches Mining::NewExtendedMiningJob(jb)
                        && job_eq_except_channel(
                        jb,
                        *m,
                        self.extended_channels@[j].channel_id,
                    )),
            decreases self.extended_channels@.len() - i,
        {
            let cid = self.extended_channels[i].channel_id;
            let mut job = m.duplicate();
            job.channel_id = cid;
            r.push((cid, Mining::NewExtendedMiningJob(job)));
            i = i + 1;
        }
        r
    }

    /// Called when a `NewExtendedMiningJob` arrives. A future job joins the
    /// queue; a non-future job becomes the valid job, but only under a
    /// previously seen prev hash. Returns the per-channel fan-out.
    pub fn on_new_extended_mining_job(&mut self, m: NewExtendedMiningJob) -> (r: Result<
        Vec<(u32, Mining)>,
        Error,
    >)
        requires
            old(self).wf(),
        ensures
            final(self).wf(),
            m.min_ntime is None ==> (r matches Ok(fan) && old(self).fan_out_ok(m, fan@) && final(self).future_jobs@ == old(self).future_jobs@.push(m) && final(self).last_valid_job == old(self).last_valid_job),
            m.min_ntime is Some && old(self).last_prev_hash is Some ==> (r matches Ok(fan) && old(self).fan_out_ok(m, fan@) && final(self).last_valid_job == Some(m) && final(self).future_jobs == old(self).future_jobs),
            m.min_ntime is Some && old(self).last_prev_hash is None ==> r == Result::<
                Vec<(u32, Mining)>,
                Error,
            >::Err(Error::JobIsNotFutureButPrevHashNotPresent) && *final(self) == *old(self),
            final(self).extended_channels == old(self).extended_channels,
            final(self).extranonces == old(self).extranonces,
            final(self).ids == old(self).ids,
            final(self).last_prev_hash == old(self).last_prev_hash,
            final(self).kind == old(self).kind,
            final(self).job_ids == old(self).job_ids,
            final(self).channel_to_group_id == old(self).channel_to_group_id,
            final(self).future_templates == old(self).future_templates,
    {
        if m.is_future() {
            let fan = self.prepare_jobs_for_downstream_on_new_extended(&m);
            self.future_jobs.push(m);
            Ok(fan)
        } else if self.last_prev_hash.is_some() {
            let fan = self.prepare_jobs_for_downstream_on_new_extended(&m);
            self.last_valid_job = Some(m);
            Ok(fan)
        } else {
            Err(Error::JobIsNotFutureButPrevHashNotPresent)
        }
    }

    /// Updates the downstream target for the given channel; `None` when the
    /// channel is unknown, and then nothing changes.
    pub fn update_target_for_channel(&mut self, channel_id: u32, new_target: Vec<u8>) -> (r:
        Option<bool>)
        requires
            old(self).wf(),
            new_target@.len() == 32,
        ensures
            final(self).wf(),
            (r is Some) <==> old(self).has_channel(channel_id),
            r is Some ==> r == Some(true),
            r is None ==> *final(self) == *old(self),
            final(self).extended_channels@.len() == old(self).extended_channels@.len(),
            forall|i: int|
                0 <= i < old(self).extended_channels@.len() ==> if (
                #[trigger] old(self).extended_channels@[i]).channel_id == channel_id {
                    rec_retarget(
                        final(self).extended_channels@[i],
                        old(self).extended_channels@[i],
                        new_target@,
                    )
                } else {
                    final(self).extended_channels@[i] == old(self).extended_channels@[i]
                },
            final(self).ids == old(self).ids,
            final(self).extranonces == old(self).extranonces,
            final(self).future_jobs == old(self).future_jobs,
            final(self).last_prev_hash == old(self).last_prev_hash,
            final(self).last_valid_job == old(self).last_valid_job,
            final(self).kind == old(self).kind,
            final(self).job_ids == old(self).job_ids,
            final(self).channel_to_group_id == old(self).channel_to_group_id,
            final(self).future_templates == old(self).future_templates,
    {
        match self.find_channel(channel_id) {
            None => None,
            Some(i) => {
                let mut rec = self.extended_channels.remove(i);
                rec.target = new_target;
                self.extended_channels.insert(i, rec);
                proof {
                    assert(self.extended_channels@ =~= old(self).extended_channels@.update(
                        i as int,
                        self.extended_channels@[i as int],
                    ));
                }
                Some(true)
            },
        }
    }

    /// Records a channel opened upstream by another actor under the given
    /// id, bypassing id allocation; only a job-declaring client mocking its
    /// own pool may use it.
    pub fn replicate_upstream_extended_channel_only_jd(
        &mut self,
        target: Vec<u8>,
        extranonce: Vec<u8>,
        channel_id: u32,
        extranonce_size: u16,
    ) -> (r: Option<()>)
        requires
            old(self).wf(),
            target@.len() == 32,
            extranonce@.len() == old(self).extranonces.prefix_len(),
        ensures
            final(self).wf(),
            r == Some(()),
            final(self).group_of(channel_id) == Some(0u32),
            final(self).has_channel(channel_id),
            rec_fields(
                final(self).channel_rec(channel_id),
                0,
                channel_id,
                target@,
                extranonce_size,
                extranonce@,
            ),
            final(self).extranonces == old(self).extranonces,
            final(self).future_jobs == old(self).future_jobs,
            final(self).last_prev_hash == old(self).last_prev_hash,
            final(self).last_valid_job == old(self).last_valid_job,
            final(self).kind == old(self).kind,
            final(self).ids == old(self).ids,
            final(self).job_ids == old(self).job_ids,
            final(self).future_templates == old(self).future_templates,
    {
        self.insert_group(channel_id, 0);
        let rec = OpenExtendedMiningChannelSuccess {
            request_id: 0,
            channel_id,
            target,
            extranonce_size,
            extranonce_prefix: extranonce,
        };
        self.insert_channel(rec);
        proof {
            if old(self).has_channel(channel_id) {
                let i = old(self).channel_idx(channel_id);
                assert(self.extended_channels@[i].channel_id == channel_id);
                self.lemma_channel_idx_is(i);
            } else {
                let i = old(self).extended_channels@.len() as int;
                assert(self.extended_channels@[i].channel_id == channel_id);
                self.lemma_channel_idx_is(i);
            }
        }
        Some(())
    }

    /// Number of messages ahead of the buffered future jobs in an
    /// open-channel batch: the success, then the replayed valid job and its
    /// prev hash when they exist.
    pub open spec fn batch_head_len(self) -> int {
        1 + (if self.last_valid_job is Some {
            1int
        } else {
            0int
        }) + (if self.last_prev_hash is Some {
            1int
        } else {
            0int
        })
    }

    /// The fixed head of an open-channel batch: the success first; then,
    /// when a valid job exists, that job replayed as future; then, when a
    /// prev hash exists, that prev hash addressed to the new channel and,
    /// if a job was replayed, carrying the replayed job's id.
    pub open spec fn open_batch_head_ok(
        self,
        request_id: u32,
        target: Seq<u8>,
        new_id: u32,
        prefix: Seq<u8>,
        batch: Seq<Mining>,
    ) -> bool {
        &&& batch.len() >= self.batch_head_len()
        &&& (batch[0] matches Mining::OpenExtendedMiningChannelSuccess(s) && rec_fields(
            s,
            request_id,
            new_id,
            target,
            self.extranonces.range2_len as u16,
            prefix,
        ))
        &&& self.last_valid_job matches Some(job) ==> (batch[1]
            matches Mining::NewExtendedMiningJob(j) && job_eq_with_min_ntime(j, job, None))
        &&& (self.last_valid_job is Some && self.last_prev_hash is Some) ==> (batch[2]
            matches Mining::SetNewPrevHash(p) && p.channel_id == new_id && p.job_id == self
            .last_valid_job->Some_0.job_id && p.prev_hash@ == self.last_prev_hash->Some_0.prev_hash@
            && p.min_ntime == self.last_prev_hash->Some_0.min_ntime && p.nbits == self
            .last_prev_hash->Some_0.nbits)
        &&& (self.last_valid_job is None && self.last_prev_hash is Some) ==> (batch[1]
            matches Mining::SetNewPrevHash(p) && p.channel_id == new_id && p.job_id == self
            .last_prev_hash->Some_0.job_id && p.prev_hash@ == self.last_prev_hash->Some_0.prev_hash@
            && p.min_ntime == self.last_prev_hash->Some_0.min_ntime && p.nbits == self
            .last_prev_hash->Some_0.nbits)
    }

    /// A whole open-channel batch: the head above, followed by every
    /// buffered future job, in queue order.
    pub open spec fn open_batch_ok(
        self,
        request_id: u32,
        target: Seq<u8>,
        new_id: u32,
        prefix: Seq<u8>,
        batch: Seq<Mining>,
    ) -> bool {
        &&& self.open_batch_head_ok(request_id, target, new_id, prefix, batch)
        &&& batch.len() == self.batch_head_len() + self.future_jobs@.len()
        &&& forall|k: int|
            0 <= k < self.future_jobs@.len() ==> (#[trigger] batch[self.batch_head_len() + k]
                matches Mining::NewExtendedMiningJob(j) && job_eq(j, self.future_jobs@[k]))
    }

    /// Called when an `OpenExtendedMiningChannel` request arrives. On
    /// success the channel is recorded under a fresh id and the reply batch
    /// is the success message, the current job and prev hash when they
    /// exist, and every buffered future job, in that order. A request whose
    /// minimum extranonce size exceeds the miner-rolled range is answered
    /// with a single error message and nothing changes.
    pub fn new_extended_channel(
        &mut self,
        request_id: u32,
        target: Vec<u8>,
        min_extranonce_size: u16,
    ) -> (r: Result<Vec<Mining>, Error>)
        requires
            old(self).wf(),
            target@.len() == 32,
        ensures
            final(self).wf(),
            min_extranonce_size > old(self).extranonces.range2_len as u16 ==> (r matches Ok(v)
                && v@.len() == 1 && (v@[0] matches Mining::OpenMiningChannelError(e) && e.request_id
                == request_id && e.error_code == OpenChannelErrorCode::UnsupportedExtranonceSize)
                && *final(self) == *old(self)),
            (min_extranonce_size <= old(self).extranonces.range2_len as u16 && (old(self).extranonces.counter as nat) == crate::extranonce::counter_cap(
                old(self).extranonces.range1_len as nat,
            )) ==> (r == Result::<Vec<Mining>, Error>::Err(Error::ExtranonceSpaceEnded) && *final(self) == *old(self)),
            (min_extranonce_size <= old(self).extranonces.range2_len as u16 && (old(self).extranonces.counter as nat) < crate::extranonce::counter_cap(
                old(self).extranonces.range1_len as nat,
            )) ==> {
                let new_id = next_id(old(self).ids.channel_ids.state);
                let prefix = old(self).extranonces.range0@ + crate::extranonce::be_bytes(
                    (old(self).extranonces.counter + 1) as nat,
                    old(self).extranonces.range1_len as nat,
                );
                let co = old(self).extended_channels@;
                let cs = final(self).extended_channels@;
                &&& r matches Ok(batch) && old(self).open_batch_ok(
                    request_id,
                    target@,
                    new_id,
                    prefix,
                    batch@,
                )
                &&& !old(self).has_channel(new_id) ==> cs.len() == co.len() + 1 && (forall|i: int|
                    0 <= i < co.len() ==> cs[i] == co[i]) && rec_fields(
                    cs[co.len() as int],
                    request_id,
                    new_id,
                    target@,
                    old(self).extranonces.range2_len as u16,
                    prefix,
                )
                &&& old(self).has_channel(new_id) ==> cs.len() == co.len() && (forall|i: int|
                    0 <= i < co.len() && i != old(self).channel_idx(new_id) ==> cs[i] == co[i])
                    && rec_fields(
                    cs[old(self).channel_idx(new_id)],
                    request_id,
                    new_id,
                    target@,
                    old(self).extranonces.range2_len as u16,
                    prefix,
                )
                &&& final(self).group_of(new_id) == Some(0u32)
                &&& forall|c: u32|
                    c != new_id ==> #[trigger] final(self).group_of(c) == old(self).group_of(c)
                &&& final(self).ids.channel_ids.state == new_id
                &&& final(self).ids.group_ids == old(self).ids.group_ids
                &&& final(self).extranonces.counter == old(self).extranonces.counter + 1
                &&& final(self).extranonces.range0@ == old(self).extranonces.range0@
                &&& final(self).extranonces.range1_len == old(self).extranonces.range1_len
                &&& final(self).extranonces.range2_len == old(self).extranonces.range2_len
                &&& final(self).future_jobs == old(self).future_jobs
                &&& final(self).last_valid_job == old(self).last_valid_job
                &&& final(self).last_prev_hash == old(self).last_prev_hash
                &&& final(self).kind == old(self).kind
                &&& final(self).job_ids == old(self).job_ids
                &&& final(self).future_templates == old(self).future_templates
            },
    {
        let max_extranonce_size = self.extranonces.get_range2_len() as u16;
        if min_extranonce_size <= max_extranonce_size {
            let prefix = match self.extranonces.next_prefix_extended(
                max_extranonce_size as usize,
            ) {
                Ok(p) => p,
                Err(e) => {
                    return Err(e);
                },
            };
            let channel_id = self.ids.new_channel_id(0);
            self.insert_group(channel_id, 0);
            let stored = OpenExtendedMiningChannelSuccess {
                request_id,
                channel_id,
                target: copy_bytes(&target),
                extranonce_size: max_extranonce_size,
                extranonce_prefix: copy_bytes(&prefix),
            };
            self.insert_channel(stored);
            proof {
                assert(self.channel_to_group_id@ == old(self).channel_to_group_id@.insert(
                    0,
                    (channel_id, 0u32),
                ));
                assert forall|c: u32| c != channel_id implies #[trigger] self.group_of(c) == old(
                    self,
                ).group_of(c) by {
                    lemma_first_match_prepend(
                        old(self).channel_to_group_id@,
                        channel_id,
                        0u32,
                        c,
                    );
                }
                assert(self.group_of(channel_id) == Some(0u32)) by {
                    lemma_first_match_prepend(
                        old(self).channel_to_group_id@,
                        channel_id,
                        0u32,
                        channel_id,
                    );
                }
            }
            let success = OpenExtendedMiningChannelSuccess {
                request_id,
                channel_id,
                target,
                extranonce_size: max_extranonce_size,
                extranonce_prefix: prefix,
            };
            let mut result: Vec<Mining> = Vec::new();
            result.push(Mining::OpenExtendedMiningChannelSuccess(success));
            match &self.last_valid_job {
                Some(job) => {
                    let mut j = job.duplicate();
                    j.set_future();
                    let j_id = j.job_id;
                    result.push(Mining::NewExtendedMiningJob(j));
                    match &self.last_prev_hash {
                        Some(ph) => {
                            let p = ph.into_set_p_hash(channel_id, Some(j_id));
                            result.push(Mining::SetNewPrevHash(p));
                        },
                        None => {},
                    }
                },
                None => {
                    match &self.last_prev_hash {
                        Some(ph) => {
                            let p = ph.into_set_p_hash(channel_id, None);
                            result.push(Mining::SetNewPrevHash(p));
                        },
                        None => {},
                    }
                },
            }
            let ghost head = result@.len() as int;
            let mut tail: Vec<Mining> = Vec::new();
            let mut i: usize = 0;
            while i < self.future_jobs.len()
                invariant
                    i <= self.future_jobs@.len(),
                    tail@.len() == i,
                    forall|k: int|
                        0 <= k < i ==> (#[trigger] tail@[k] matches Mining::NewExtendedMiningJob(
                            j,
                        ) && job_eq(j, self.future_jobs@[k])),
                decreases self.future_jobs@.len() - i,
            {
                let d = self.future_jobs[i].duplicate();
                tail.push(Mining::NewExtendedMiningJob(d));
                i = i + 1;
            }
            let ghost pre = result@;
            let ghost tail_seq = tail@;
            result.append(&mut tail);
            proof {
                assert(result@ == pre + tail_seq);
                assert forall|k: int| 0 <= k < head implies result@[k] == pre[k] by {}
                assert forall|k: int| 0 <= k < tail_seq.len() implies #[trigger] result@[head + k]
                    == tail_seq[k] by {}
            }
            Ok(result)
        } else {
            let mut result: Vec<Mining> = Vec::new();
            result.push(
                Mining::OpenMiningChannelError(
                    OpenMiningChannelError {
                        request_id,
                        error_code: OpenChannelErrorCode::UnsupportedExtranonceSize,
                    },
                ),
            );
            Ok(result)
        }
    }

    /// Returns the downstream target and the full extranonce (channel
    /// prefix followed by the share's rolled bytes) for the share's
    /// channel; `None` when the channel is unknown. Only extended shares
    /// carry an extranonce, so only they are resolved here.
    pub fn get_channel_specific_mining_info(&self, m: &Share) -> (r: Option<(Vec<u8>, Vec<u8>)>)
        requires
            self.wf(),
            (*m) is Extended,
        ensures
            (r is Some) <==> self.has_channel(m.spec_channel_id()),
            r matches Some(p) ==> p.0@ == self.channel_rec(m.spec_channel_id()).target@ && p.1@
                == self.channel_rec(m.spec_channel_id()).extranonce_prefix@ + (
            *m)->Extended_0.extranonce@ && p.0@.len() == 32 && p.1@.len()
                == self.extranonces.prefix_len() + (*m)->Extended_0.extranonce@.len(),
    {
        match m {
            Share::Extended(share) => {
                match self.find_channel(share.channel_id) {
                    None => None,
                    Some(i) => {
                        let chan = &self.extended_channels[i];
                        let t = copy_bytes(&chan.target);
                        let mut e = copy_bytes(&chan.extranonce_prefix);
                        append_bytes(&mut e, &share.extranonce);
                        Some((t, e))
                    },
                }
            },
            Share::Standard(_) => {
                proof {
                    assert(false);
                }
                None
            },
        }
    }

    /// The validation pipeline: resolves the share's channel, rebuilds the
    /// coinbase and merkle root, hashes the block header, and classifies
    /// the share against the bitcoin, upstream and downstream targets in
    /// that order of strictness. On a proxy the winning share is rewritten
    /// for the upstream (a no-op for an extended share). The factory state
    /// is left untouched.
    pub fn check_target(
        &self,
        m: Share,
        bitcoin_target: &Vec<u8>,
        template_id: Option<u64>,
        up_id: u32,
        merkle_path: &Vec<Vec<u8>>,
        coinbase_tx_prefix: &Vec<u8>,
        coinbase_tx_suffix: &Vec<u8>,
        prev_blockhash: &Vec<u8>,
        bits: u32,
    ) -> (r: Result<OnNewShare, Error>)
        requires
            self.wf(),
            m is Extended,
            bitcoin_target@.len() == 32,
            prev_blockhash@.len() == 32,
        ensures
            check_target_post(
                *self,
                m,
                bitcoin_target@,
                template_id,
                path_view(merkle_path@),
                coinbase_tx_prefix@,
                coinbase_tx_suffix@,
                prev_blockhash@,
                bits,
                r,
            ),
    {
        let info = self.get_channel_specific_mining_info(&m);
        let (downstream_target, extranonce) = match info {
            None => {
                return Err(Error::ShareDoNotMatchAnyChannel);
            },
            Some(p) => p,
        };
        let extranonce_1_len = self.extranonces.get_range0_len();
        let extranonce_2 = suffix_bytes(&extranonce, extranonce_1_len);
        let m = match m {
            Share::Extended(es) => {
                let e2 = SubmitSharesExtended {
                    channel_id: es.channel_id,
                    sequence_number: es.sequence_number,
                    job_id: es.job_id,
                    nonce: es.nonce,
                    ntime: es.ntime,
                    version: es.version,
                    extranonce: extranonce_2,
                };
                Share::Extended(e2)
            },
            Share::Standard(x) => Share::Standard(x),
        };
        let root = match merkle_root_from_path(
            coinbase_tx_prefix,
            coinbase_tx_suffix,
            &extranonce,
            merkle_path,
        ) {
            None => {
                return Err(Error::InvalidCoinbase);
            },
            Some(v) => v,
        };
        let hash = hash_header(
            m.get_version(),
            prev_blockhash,
            &root,
            m.get_n_time(),
            bits,
            m.get_nonce(),
        );
        if u256_le(&hash, bitcoin_target) {
            let coinbase = concat3(coinbase_tx_prefix, &extranonce, coinbase_tx_suffix);
            match &self.kind {
                ExtendedChannelKind::Pool => Ok(
                    OnNewShare::ShareMeetBitcoinTarget((m, template_id, coinbase, extranonce)),
                ),
                _ => {
                    let upstream_extranonce = suffix_bytes(&extranonce, extranonce_1_len);
                    let mut res = OnNewShare::ShareMeetBitcoinTarget(
                        (m, template_id, coinbase, extranonce),
                    );
                    res.into_extended(upstream_extranonce, up_id);
                    Ok(res)
                },
            }
        } else {
            let meets_upstream = match &self.kind {
                ExtendedChannelKind::Pool => false,
                ExtendedChannelKind::Proxy { upstream_target } => u256_le(&hash, upstream_target),
                ExtendedChannelKind::ProxyJd { upstream_target } => u256_le(&hash, upstream_target),
            };
            if meets_upstream {
                match &self.kind {
                    ExtendedChannelKind::Pool => Ok(
                        OnNewShare::SendSubmitShareUpstream((m, template_id)),
                    ),
                    _ => {
                        let upstream_extranonce = suffix_bytes(&extranonce, extranonce_1_len);
                        let mut res = OnNewShare::SendSubmitShareUpstream((m, template_id));
                        res.into_extended(upstream_extranonce, up_id);
                        Ok(res)
                    },
                }
            } else if u256_le(&hash, &downstream_target) {
                Ok(OnNewShare::ShareMeetDownstreamTarget)
            } else {
                let error = SubmitSharesError {
                    channel_id: m.get_channel_id(),
                    sequence_number: m.get_sequence_number(),
                    error_code: ShareErrorCode::DifficultyTooLow,
                };
                Ok(OnNewShare::SendErrorDownstream(error))
            }
        }
    }
}

/// Exactly what `check_target` returns on factory `f` for the extended
/// share `m` under the given targets, coinbase parts, merkle path and
/// header fields: an error for an unknown channel or an unparsable
/// coinbase, else the share classified against the bitcoin, upstream and
/// downstream targets in that order of strictness.
pub open spec fn check_target_post(
    f: ChannelFactory,
    m: Share,
    bitcoin_target: Seq<u8>,
    template_id: Option<u64>,
    merkle_path: Seq<Seq<u8>>,
    coinbase_tx_prefix: Seq<u8>,
    coinbase_tx_suffix: Seq<u8>,
    prev_blockhash: Seq<u8>,
    bits: u32,
    r: Result<OnNewShare, Error>,
) -> bool {
    let cid = m.spec_channel_id();
    let es = m->Extended_0;
    &&& !f.has_channel(cid) ==> r == Result::<OnNewShare, Error>::Err(
        Error::ShareDoNotMatchAnyChannel,
    )
    &&& f.has_channel(cid) ==> {
        let chan = f.channel_rec(cid);
        let ext_full = chan.extranonce_prefix@ + es.extranonce@;
        let coinbase = coinbase_tx_prefix + ext_full + coinbase_tx_suffix;
        match coinbase_txid_of(coinbase) {
            None => r == Result::<OnNewShare, Error>::Err(Error::InvalidCoinbase),
            Some(txid) => {
                let root = merkle_fold(txid, merkle_path);
                let h = le_val(
                    sha256d_of(
                        header_bytes(es.version, prev_blockhash, root, es.ntime, bits, es.nonce),
                    ),
                );
                let stripped = ext_full.skip(f.extranonces.spec_range0_len() as int);
                if h <= le_val(bitcoin_target) {
                    r matches Ok(
                        OnNewShare::ShareMeetBitcoinTarget((Share::Extended(e2), tid, cb, ext)),
                    ) && rewritten_extended(e2, es, stripped) && tid == template_id && cb@
                        == coinbase && ext@ == ext_full
                } else if h <= f.upstream_target_val() {
                    r matches Ok(OnNewShare::SendSubmitShareUpstream((Share::Extended(e2), tid)))
                        && rewritten_extended(e2, es, stripped) && tid == template_id
                } else if h <= le_val(chan.target@) {
                    r == Result::<OnNewShare, Error>::Ok(OnNewShare::ShareMeetDownstreamTarget)
                } else {
                    r matches Ok(OnNewShare::SendErrorDownstream(err)) && err.channel_id == cid
                        && err.sequence_number == es.sequence_number && err.error_code
                        == ShareErrorCode::DifficultyTooLow
                }
            },
        }
    }
}

/// `e2` is the extended share `e` with its extranonce replaced by the
/// upstream-stripped bytes.
pub open spec fn rewritten_extended(
    e2: SubmitSharesExtended,
    e: SubmitSharesExtended,
    stripped: Seq<u8>,
) -> bool {
    &&& e2.channel_id == e.channel_id
    &&& e2.sequence_number == e.sequence_number
    &&& e2.job_id == e.job_id
    &&& e2.nonce == e.nonce
    &&& e2.ntime == e.ntime
    &&& e2.version == e.version
    &&& e2.extranonce@ == stripped
}

} // verus!
