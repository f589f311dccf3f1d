//! The pool-side channel factory: the shared state machine together with
//! the registry the coinbase-template synthesizer feeds (job to template
//! ids and the bitcoin target in force) and the custom jobs negotiated by
//! downstreams.

use vstd::prelude::*;

use crate::bytes::copy_bytes;
use crate::extranonce::ExtendedExtranonce;
use crate::factory::{
    check_target_post, first_match, first_match_idx, kind_wf, ChannelFactory,
    ExtendedChannelKind,
};
use crate::ids::{next_id, GroupId, Id};
use crate::messages::{
    path_eq, Mining, NewExtendedMiningJob, NewTemplate, OnNewShare, SetCustomMiningJob,
    SetCustomMiningJobSuccess, SetNewPrevHashFromTp, Share, ShareErrorCode, StagedPhash,
    SubmitSharesError, SubmitSharesExtended, SubmitSharesStandard,
};
use crate::Error;

verus! {

/// Relies on bitcoin::TxOut as a type only: values are carried through as
/// the pool's coinbase outputs and never inspected here.
#[verifier::external_type_specification]
#[verifier::external_body]
pub struct ExTxOut(bitcoin::TxOut);

/// A custom job a downstream negotiated, together with the coinbase split
/// the synthesizer derived from it for share validation.
pub struct NegotiatedJob {
    pub job: SetCustomMiningJob,
    pub coinbase_tx_prefix: Vec<u8>,
    pub coinbase_tx_suffix: Vec<u8>,
}

/// The custom job of `n` carries the validation-relevant content of `m`.
pub open spec fn negotiated_eq(n: NegotiatedJob, m: SetCustomMiningJob, cbp: Seq<u8>, cbs: Seq<u8>) -> bool {
    &&& n.job.channel_id == m.channel_id
    &&& n.job.request_id == m.request_id
    &&& n.job.prev_hash@ == m.prev_hash@
    &&& n.job.nbits == m.nbits
    &&& path_eq(n.job.merkle_path, m.merkle_path)
    &&& n.coinbase_tx_prefix@ == cbp
    &&& n.coinbase_tx_suffix@ == cbs
}

/// The first job registered for template `tid`, scanning newest first.
pub open spec fn job_for_template(s: Seq<(u32, u64)>, tid: u64) -> Option<u32>
    decreases s.len(),
{
    if s.len() == 0 {
        None
    } else if s[0].1 == tid {
        Some(s[0].0)
    } else {
        job_for_template(s.skip(1), tid)
    }
}

/// The job id a prev-hash event for template `tid` resolves to: the
/// registered job, or 0 when none is.
pub open spec fn resolved_job_id(s: Seq<(u32, u64)>, tid: u64) -> u32 {
    match job_for_template(s, tid) {
        Some(j) => j,
        None => 0,
    }
}

/// Index of the first pair whose template id is `tid`.
pub(crate) fn job_for_template_idx(pairs: &Vec<(u32, u64)>, tid: u64) -> (r: Option<usize>)
    ensures
        match r {
            Some(i) => i < pairs@.len() && pairs@[i as int].1 == tid && job_for_template(
                pairs@,
                tid,
            ) == Some(pairs@[i as int].0),
            None => job_for_template(pairs@, tid) is None,
        },
{
    let mut i: usize = 0;
    proof {
        assert(pairs@.skip(0) =~= pairs@);
    }
    while i < pairs.len()
        invariant
            i <= pairs@.len(),
            job_for_template(pairs@, tid) == job_for_template(pairs@.skip(i as int), tid),
        decreases pairs@.len() - i,
    {
        proof {
            assert(pairs@.skip(i as int).skip(1) =~= pairs@.skip(i + 1));
            assert(pairs@.skip(i as int)[0] == pairs@[i as int]);
        }
        let p = &pairs[i];
        if p.1 == tid {
            return Some(i);
        }
        i = i + 1;
    }
    None
}

/// A vector of 32 zero bytes: the null 256-bit target.
pub fn zeros32() -> (r: Vec<u8>)
    ensures
        r@.len() == 32,
        forall|i: int| 0 <= i < 32 ==> r@[i] == 0u8,
{
    let mut r: Vec<u8> = Vec::new();
    let mut i: usize = 0;
    while i < 32
        invariant
            i <= 32,
            r@.len() == i,
            forall|j: int| 0 <= j < i ==> r@[j] == 0u8,
        decreases 32 - i,
    {
        r.push(0u8);
        i = i + 1;
    }
    r
}

/// Used by a pool in order to manage all downstream channels. It adds the
/// template registry and custom-job negotiation to `ChannelFactory`.
pub struct PoolChannelFactory {
    /// The shared state machine.
    pub inner: ChannelFactory,
    /// Job id to template id, newest first; fed by the synthesizer.
    pub job_to_template: Vec<(u32, u64)>,
    /// The bitcoin target in force, from the last prev-hash event.
    pub last_target: Vec<u8>,
    /// Outputs the pool appends to every coinbase it synthesizes.
    pub pool_coinbase_outputs: Vec<bitcoin::TxOut>,
    /// Channel id to the custom job negotiated on it, newest first.
    pub negotiated_jobs: Vec<(u32, NegotiatedJob)>,
}

impl PoolChannelFactory {
    pub open spec fn wf(self) -> bool {
        &&& self.inner.wf()
        &&& self.last_target@.len() == 32
        &&& forall|i: int|
            0 <= i < self.negotiated_jobs@.len() ==> (
            #[trigger] self.negotiated_jobs@[i]).1.job.prev_hash@.len() == 32
    }

    /// Constructor. The factory starts with no channels, no jobs, no
    /// prev hash and a null bitcoin target.
    pub fn new(
        ids: GroupId,
        extranonces: ExtendedExtranonce,
        kind: ExtendedChannelKind,
        pool_coinbase_outputs: Vec<bitcoin::TxOut>,
    ) -> (r: Self)
        requires
            extranonces.wf(),
            kind_wf(kind),
        ensures
            r.wf(),
            r.inner.ids == ids,
            r.inner.extended_channels@.len() == 0,
            r.inner.extranonces == extranonces,
            r.inner.future_jobs@.len() == 0,
            r.inner.last_prev_hash is None,
            r.inner.last_valid_job is None,
            r.inner.kind == kind,
            r.inner.job_ids.state == 0,
            r.inner.channel_to_group_id@.len() == 0,
            r.inner.future_templates@.len() == 0,
            r.job_to_template@.len() == 0,
            r.negotiated_jobs@.len() == 0,
            forall|i: int| 0 <= i < 32 ==> r.last_target@[i] == 0u8,
    {
        let inner = ChannelFactory {
            ids,
            extended_channels: Vec::new(),
            extranonces,
            future_jobs: Vec::new(),
            last_prev_hash: None,
            last_valid_job: None,
            kind,
            job_ids: Id::new(),
            channel_to_group_id: Vec::new(),
            future_templates: Vec::new(),
        };
        PoolChannelFactory {
            inner,
            job_to_template: Vec::new(),
            last_target: zeros32(),
            pool_coinbase_outputs,
            negotiated_jobs: Vec::new(),
        }
    }

    /// Calls [`ChannelFactory::new_extended_channel`].
    pub fn new_extended_channel(
        &mut self,
        request_id: u32,
        target: Vec<u8>,
        min_extranonce_size: u16,
    ) -> (r: Result<Vec<Mining>, Error>)
        requires
            old(self).wf(),
            target@.len() == 32,
        ensures
            final(self).wf(),
            final(self).job_to_template == old(self).job_to_template,
            final(self).last_target == old(self).last_target,
            final(self).negotiated_jobs == old(self).negotiated_jobs,
            min_extranonce_size > old(self).inner.extranonces.range2_len as u16 ==> (r matches Ok(
                v,
            ) && v@.len() == 1 && (v@[0] matches Mining::OpenMiningChannelError(e) && e.request_id
                == request_id) && final(self).inner == old(self).inner),
            (min_extranonce_size <= old(self).inner.extranonces.range2_len as u16 && (old(self).inner.extranonces.counter as nat) == crate::extranonce::counter_cap(
                old(self).inner.extranonces.range1_len as nat,
            )) ==> (r == Result::<Vec<Mining>, Error>::Err(Error::ExtranonceSpaceEnded) && final(self).inner == old(self).inner),
            (min_extranonce_size <= old(self).inner.extranonces.range2_len as u16 && (old(self).inner.extranonces.counter as nat) < crate::extranonce::counter_cap(
                old(self).inner.extranonces.range1_len as nat,
            )) ==> (r matches Ok(batch) && old(self).inner.open_batch_ok(
                request_id,
                target@,
                next_id(old(self).inner.ids.channel_ids.state),
                old(self).inner.extranonces.range0@ + crate::extranonce::be_bytes(
                    (old(self).inner.extranonces.counter + 1) as nat,
                    old(self).inner.extranonces.range1_len as nat,
                ),
                batch@,
            ) && final(self).inner.has_channel(next_id(old(self).inner.ids.channel_ids.state))),
    {
        self.inner.new_extended_channel(request_id, target, min_extranonce_size)
    }

    /// Called when we want to replicate a channel already opened by another
    /// actor; used only by a job-declaring client mocking a pool.
    pub fn replicate_upstream_extended_channel_only_jd(
        &mut self,
        target: Vec<u8>,
        extranonce: Vec<u8>,
        channel_id: u32,
        extranonce_size: u16,
    ) -> (r: Option<()>)
        requires
            old(self).wf(),
            target@.len() == 32,
            extranonce@.len() == old(self).inner.extranonces.prefix_len(),
        ensures
            final(self).wf(),
            r == Some(()),
            final(self).inner.has_channel(channel_id),
            crate::factory::rec_fields(
                final(self).inner.channel_rec(channel_id),
                0,
                channel_id,
                target@,
                extranonce_size,
                extranonce@,
            ),
            final(self).job_to_template == old(self).job_to_template,
            final(self).last_target == old(self).last_target,
            final(self).negotiated_jobs == old(self).negotiated_jobs,
    {
        self.inner.replicate_upstream_extended_channel_only_jd(
            target,
            extranonce,
            channel_id,
            extranonce_size,
        )
    }

    /// Called when the template provider announces a new previous-block
    /// hash. The event is matched with the job registered for its template
    /// (0 when none is), the bitcoin target is updated, and the shared
    /// state machine advances; the resolved job id is returned.
    pub fn on_new_prev_hash_from_tp(&mut self, m: &SetNewPrevHashFromTp, now: u32) -> (r: Result<
        u32,
        Error,
    >)
        requires
            old(self).wf(),
            m.prev_hash@.len() == 32,
            m.target@.len() == 32,
        ensures
            final(self).wf(),
            r == Result::<u32, Error>::Ok(
                resolved_job_id(old(self).job_to_template@, m.template_id),
            ),
            final(self).last_target@ == m.target@,
            final(self).inner.future_jobs@.len() == 0,
            final(self).inner.last_prev_hash matches Some(p) && p.job_id == resolved_job_id(
                old(self).job_to_template@,
                m.template_id,
            ) && p.prev_hash@ == m.prev_hash@ && p.min_ntime == m.header_timestamp && p.nbits
                == m.n_bits,
            crate::factory::has_job_match(
                old(self).inner.future_jobs@,
                resolved_job_id(old(self).job_to_template@, m.template_id),
            ) ==> (final(self).inner.last_valid_job matches Some(j)
                && crate::messages::job_eq_with_min_ntime(
                j,
                old(self).inner.future_jobs@[crate::factory::last_match_idx(
                    old(self).inner.future_jobs@,
                    resolved_job_id(old(self).job_to_template@, m.template_id),
                )],
                Some(now),
            )),
            !crate::factory::has_job_match(
                old(self).inner.future_jobs@,
                resolved_job_id(old(self).job_to_template@, m.template_id),
            ) && old(self).inner.future_jobs@.len() > 0 ==> final(self).inner.last_valid_job
                is None,
            old(self).inner.future_jobs@.len() == 0 ==> final(self).inner.last_valid_job == old(self).inner.last_valid_job,
            final(self).inner.extended_channels == old(self).inner.extended_channels,
            final(self).inner.extranonces == old(self).inner.extranonces,
            final(self).job_to_template == old(self).job_to_template,
            final(self).negotiated_jobs == old(self).negotiated_jobs,
    {
        let job_id = match job_for_template_idx(&self.job_to_template, m.template_id) {
            Some(i) => self.job_to_template[i].0,
            None => 0,
        };
        self.last_target = copy_bytes(&m.target);
        let new_prev_hash = StagedPhash {
            job_id,
            prev_hash: copy_bytes(&m.prev_hash),
            min_ntime: m.header_timestamp,
            nbits: m.n_bits,
        };
        match self.inner.on_new_prev_hash(new_prev_hash, now) {
            Ok(()) => Ok(job_id),
            Err(e) => Err(e),
        }
    }

    /// Called when the template provider announces a new template and the
    /// synthesizer has turned it into `new_job`. The job is registered for
    /// the template and fanned out through the shared state machine.
    pub fn on_new_template(&mut self, m: &NewTemplate, new_job: NewExtendedMiningJob) -> (r:
        Result<Vec<(u32, Mining)>, Error>)
        requires
            old(self).wf(),
        ensures
            final(self).wf(),
            final(self).job_to_template@ == old(self).job_to_template@.insert(
                0,
                (new_job.job_id, m.template_id),
            ),
            new_job.min_ntime is None ==> (r matches Ok(fan) && old(self).inner.fan_out_ok(
                new_job,
                fan@,
            ) && final(self).inner.future_jobs@ == old(self).inner.future_jobs@.push(new_job)
                && final(self).inner.last_valid_job == old(self).inner.last_valid_job),
            new_job.min_ntime is Some && old(self).inner.last_prev_hash is Some ==> (r matches Ok(
                fan,
            ) && old(self).inner.fan_out_ok(new_job, fan@) && final(self).inner.last_valid_job
                == Some(new_job) && final(self).inner.future_jobs == old(self).inner.future_jobs),
            new_job.min_ntime is Some && old(self).inner.last_prev_hash is None ==> r == Result::<
                Vec<(u32, Mining)>,
                Error,
            >::Err(Error::JobIsNotFutureButPrevHashNotPresent),
            final(self).inner.extended_channels == old(self).inner.extended_channels,
            final(self).inner.last_prev_hash == old(self).inner.last_prev_hash,
            final(self).last_target == old(self).last_target,
            final(self).negotiated_jobs == old(self).negotiated_jobs,
    {
        self.job_to_template.insert(0, (new_job.job_id, m.template_id));
        self.inner.on_new_extended_mining_job(new_job)
    }

    /// Whether the gates ahead of standard-share validation all pass; the
    /// validation itself handles no standard share, so such an input is
    /// not accepted.
    pub open spec fn standard_core_reached(self, m: SubmitSharesStandard) -> bool {
        &&& self.inner.group_of(m.channel_id) is Some
        &&& self.inner.last_valid_job is Some
        &&& first_match(self.job_to_template@, self.inner.last_valid_job->Some_0.job_id) is Some
        &&& self.inner.last_prev_hash is Some
    }

    /// Called when a `SubmitSharesStandard` message is received from the
    /// downstream. Standard shares carry no extranonce and their
    /// validation is not implemented: every reachable path answers with an
    /// error, and inputs that would reach validation are not accepted.
    pub fn on_submit_shares_standard(&mut self, m: SubmitSharesStandard) -> (r: Result<
        OnNewShare,
        Error,
    >)
        requires
            old(self).wf(),
            !old(self).standard_core_reached(m),
        ensures
            *final(self) == *old(self),
            old(self).inner.group_of(m.channel_id) is None ==> (r matches Ok(
                OnNewShare::SendErrorDownstream(e),
            ) && e.channel_id == m.channel_id && e.sequence_number == m.sequence_number
                && e.error_code == ShareErrorCode::InvalidChannelId),
            old(self).inner.group_of(m.channel_id) is Some && old(self).inner.last_valid_job
                is None ==> r == Result::<OnNewShare, Error>::Err(Error::ShareDoNotMatchAnyJob),
            old(self).inner.group_of(m.channel_id) is Some ==> (old(self).inner.last_valid_job
                matches Some(job) ==> (first_match(old(self).job_to_template@, job.job_id) is None
                ==> r == Result::<OnNewShare, Error>::Err(Error::NoTemplateForId))),
            old(self).inner.group_of(m.channel_id) is Some ==> (old(self).inner.last_valid_job
                matches Some(job) ==> ((first_match(old(self).job_to_template@, job.job_id)
                is Some && old(self).inner.last_prev_hash is None) ==> r == Result::<
                OnNewShare,
                Error,
            >::Err(Error::ShareDoNotMatchAnyJob))),
    {
        match first_match_idx(&self.inner.channel_to_group_id, m.channel_id) {
            None => {
                let err = SubmitSharesError {
                    channel_id: m.channel_id,
                    sequence_number: m.sequence_number,
                    error_code: ShareErrorCode::InvalidChannelId,
                };
                Ok(OnNewShare::SendErrorDownstream(err))
            },
            Some(_g) => {
                let job_id = match &self.inner.last_valid_job {
                    None => {
                        return Err(Error::ShareDoNotMatchAnyJob);
                    },
                    Some(job) => job.job_id,
                };
                match first_match_idx(&self.job_to_template, job_id) {
                    None => {
                        return Err(Error::NoTemplateForId);
                    },
                    Some(_t) => {},
                };
                match &self.inner.last_prev_hash {
                    None => {
                        return Err(Error::ShareDoNotMatchAnyJob);
                    },
                    Some(_p) => {},
                };
                proof {
                    assert(false);
                }
                Err(Error::ShareDoNotMatchAnyJob)
            },
        }
    }

    /// Called when a `SubmitSharesExtended` message is received from the
    /// downstream. A channel with a negotiated custom job is validated
    /// against that job's prev hash, bits, merkle path and coinbase split;
    /// any other channel against the current valid job and prev hash, with
    /// the template id registered for the job. The bitcoin target is the
    /// one the template provider announced last.
    pub fn on_submit_shares_extended(&mut self, m: SubmitSharesExtended) -> (r: Result<
        OnNewShare,
        Error,
    >)
        requires
            old(self).wf(),
        ensures
            *final(self) == *old(self),
            first_match(old(self).negotiated_jobs@, m.channel_id) matches Some(nj)
                ==> check_target_post(
                old(self).inner,
                Share::Extended(m),
                old(self).last_target@,
                None,
                crate::hashing::path_view(nj.job.merkle_path@),
                nj.coinbase_tx_prefix@,
                nj.coinbase_tx_suffix@,
                nj.job.prev_hash@,
                nj.job.nbits,
                r,
            ),
            first_match(old(self).negotiated_jobs@, m.channel_id) is None ==> {
                &&& old(self).inner.last_valid_job is None ==> r == Result::<
                    OnNewShare,
                    Error,
                >::Err(Error::ShareDoNotMatchAnyJob)
                &&& old(self).inner.last_valid_job matches Some(job) ==> (first_match(
                    old(self).job_to_template@,
                    job.job_id,
                ) is None ==> r == Result::<OnNewShare, Error>::Err(Error::NoTemplateForId))
                &&& old(self).inner.last_valid_job matches Some(job) ==> ((first_match(
                    old(self).job_to_template@,
                    job.job_id,
                ) is Some && old(self).inner.last_prev_hash is None) ==> r == Result::<
                    OnNewShare,
                    Error,
                >::Err(Error::ShareDoNotMatchAnyJob))
                &&& old(self).inner.last_valid_job matches Some(job) ==> (first_match(
                    old(self).job_to_template@,
                    job.job_id,
                ) matches Some(tid) ==> (old(self).inner.last_prev_hash matches Some(ph)
                    ==> check_target_post(
                    old(self).inner,
                    Share::Extended(m),
                    old(self).last_target@,
                    Some(tid),
                    crate::hashing::path_view(job.merkle_path@),
                    job.coinbase_tx_prefix@,
                    job.coinbase_tx_suffix@,
                    ph.prev_hash@,
                    ph.nbits,
                    r,
                )))
            },
    {
        match first_match_idx(&self.negotiated_jobs, m.channel_id) {
            Some(i) => {
                let nj = &self.negotiated_jobs[i].1;
                let merkle_path = crate::messages::copy_path(&nj.job.merkle_path);
                let prev_blockhash = copy_bytes(&nj.job.prev_hash);
                let bits = nj.job.nbits;
                self.inner.check_target(
                    Share::Extended(m),
                    &self.last_target,
                    None,
                    0,
                    &merkle_path,
                    &nj.coinbase_tx_prefix,
                    &nj.coinbase_tx_suffix,
                    &prev_blockhash,
                    bits,
                )
            },
            None => {
                let job_id = match &self.inner.last_valid_job {
                    None => {
                        return Err(Error::ShareDoNotMatchAnyJob);
                    },
                    Some(job) => job.job_id,
                };
                let template_id = match first_match_idx(&self.job_to_template, job_id) {
                    None => {
                        return Err(Error::NoTemplateForId);
                    },
                    Some(t) => self.job_to_template[t].1,
                };
                let (prev_blockhash, bits) = match &self.inner.last_prev_hash {
                    None => {
                        return Err(Error::ShareDoNotMatchAnyJob);
                    },
                    Some(ph) => (copy_bytes(&ph.prev_hash), ph.nbits),
                };
                let (merkle_path, cbp, cbs) = match &self.inner.last_valid_job {
                    None => {
                        return Err(Error::ShareDoNotMatchAnyJob);
                    },
                    Some(job) => (
                        crate::messages::copy_path(&job.merkle_path),
                        copy_bytes(&job.coinbase_tx_prefix),
                        copy_bytes(&job.coinbase_tx_suffix),
                    ),
                };
                self.inner.check_target(
                    Share::Extended(m),
                    &self.last_target,
                    Some(template_id),
                    0,
                    &merkle_path,
                    &cbp,
                    &cbs,
                    &prev_blockhash,
                    bits,
                )
            },
        }
    }

    /// Utility function to return a new group id.
    pub fn new_group_id(&mut self) -> (r: u32)
        ensures
            final(self).inner.ids.group_ids.state == next_id(old(self).inner.ids.group_ids.state),
            r == final(self).inner.ids.group_ids.state,
            final(self).inner.ids.channel_ids == old(self).inner.ids.channel_ids,
    {
        self.inner.ids.new_group_id()
    }

    /// Utility function to return a new standard channel id.
    pub fn new_standard_id_for_hom(&mut self) -> (r: u32)
        ensures
            final(self).inner.ids.channel_ids.state == next_id(
                old(self).inner.ids.channel_ids.state,
            ),
            r == final(self).inner.ids.channel_ids.state,
            final(self).inner.ids.group_ids == old(self).inner.ids.group_ids,
    {
        let hom_group_id: u32 = 0;
        self.inner.ids.new_channel_id(hom_group_id)
    }

    /// Returns the full extranonce: the channel-static prefix followed by
    /// the downstream's rolled bytes.
    pub fn extranonce_from_downstream_extranonce(&self, ext: &Vec<u8>) -> (r: Option<Vec<u8>>)
        ensures
            (r is Some) <==> ext@.len() == self.inner.extranonces.range2_len,
            r matches Some(v) ==> v@ == self.inner.extranonces.spec_current_prefix() + ext@,
    {
        self.inner.extranonces.extranonce_from_downstream_extranonce(ext)
    }

    /// Called when a downstream negotiates a custom mining job: the job is
    /// stored for its channel together with the coinbase split the
    /// synthesizer derived from it, and a fresh job id is acknowledged.
    pub fn on_new_set_custom_mining_job(
        &mut self,
        set_custom_mining_job: SetCustomMiningJob,
        coinbase_tx_prefix: Vec<u8>,
        coinbase_tx_suffix: Vec<u8>,
    ) -> (r: SetCustomMiningJobSuccess)
        requires
            old(self).wf(),
            set_custom_mining_job.prev_hash@.len() == 32,
        ensures
            final(self).wf(),
            r.channel_id == set_custom_mining_job.channel_id,
            r.request_id == set_custom_mining_job.request_id,
            r.job_id == next_id(old(self).inner.job_ids.state),
            final(self).inner.job_ids.state == r.job_id,
            first_match(final(self).negotiated_jobs@, set_custom_mining_job.channel_id)
                matches Some(nj) && negotiated_eq(
                nj,
                set_custom_mining_job,
                coinbase_tx_prefix@,
                coinbase_tx_suffix@,
            ),
            forall|c: u32|
                c != set_custom_mining_job.channel_id ==> #[trigger] first_match(
                    final(self).negotiated_jobs@,
                    c,
                ) == first_match(old(self).negotiated_jobs@, c),
            final(self).inner.extended_channels == old(self).inner.extended_channels,
            final(self).inner.last_valid_job == old(self).inner.last_valid_job,
            final(self).inner.last_prev_hash == old(self).inner.last_prev_hash,
            final(self).inner.future_jobs == old(self).inner.future_jobs,
            final(self).job_to_template == old(self).job_to_template,
            final(self).last_target == old(self).last_target,
    {
        let accepted = self.check_set_custom_mining_job(&set_custom_mining_job);
        proof {
            assert(accepted);
        }
        let channel_id = set_custom_mining_job.channel_id;
        let request_id = set_custom_mining_job.request_id;
        let nj = NegotiatedJob {
            job: set_custom_mining_job,
            coinbase_tx_prefix,
            coinbase_tx_suffix,
        };
        let ghost pre = self.negotiated_jobs@;
        self.negotiated_jobs.insert(0, (channel_id, nj));
        let job_id = self.inner.job_ids.next();
        proof {
            assert forall|c: u32| true implies #[trigger] first_match(self.negotiated_jobs@, c)
                == (if c == channel_id {
                first_match(self.negotiated_jobs@, c)
            } else {
                first_match(pre, c)
            }) by {
                crate::factory::lemma_first_match_prepend(
                    pre,
                    channel_id,
                    self.negotiated_jobs@[0].1,
                    c,
                );
                assert(self.negotiated_jobs@ == pre.insert(
                    0,
                    (channel_id, self.negotiated_jobs@[0].1),
                ));
            }
            assert(self.negotiated_jobs@[0].0 == channel_id);
            crate::factory::lemma_first_match_prepend(
                pre,
                channel_id,
                self.negotiated_jobs@[0].1,
                channel_id,
            );
        }
        SetCustomMiningJobSuccess { channel_id, request_id, job_id }
    }

    /// Whether a negotiated custom job is acceptable; every job is today,
    /// the hook is the place for a concrete check.
    fn check_set_custom_mining_job(&self, _set_custom_mining_job: &SetCustomMiningJob) -> (r: bool)
        ensures
            r,
    {
        true
    }

    /// Get extended channel ids.
    pub fn get_extended_channels_ids(&self) -> (r: Vec<u32>)
        ensures
            r@.len() == self.inner.extended_channels@.len(),
            forall|i: int|
                0 <= i < r@.len() ==> r@[i] == (
                #[trigger] self.inner.extended_channels@[i]).channel_id,
    {
        let mut r: Vec<u32> = Vec::new();
        let mut i: usize = 0;
        while i < self.inner.extended_channels.len()
            invariant
                i <= self.inner.extended_channels@.len(),
                r@.len() == i,
                forall|j: int|
                    0 <= j < i ==> r@[j] == (
                    #[trigger] self.inner.extended_channels@[j]).channel_id,
            decreases self.inner.extended_channels@.len() - i,
        {
            r.push(self.inner.extended_channels[i].channel_id);
            i = i + 1;
        }
        r
    }

    /// Update the coinbase outputs appended to synthesized jobs.
    pub fn update_pool_outputs(&mut self, outs: Vec<bitcoin::TxOut>)
        ensures
            final(self).inner == old(self).inner,
            final(self).job_to_template == old(self).job_to_template,
            final(self).last_target == old(self).last_target,
            final(self).negotiated_jobs == old(self).negotiated_jobs,
    {
        self.pool_coinbase_outputs = outs;
    }

    /// Calls [`ChannelFactory::update_target_for_channel`]: sets one
    /// downstream channel's target.
    pub fn update_target_for_channel(&mut self, channel_id: u32, new_target: Vec<u8>) -> (r:
        Option<bool>)
        requires
            old(self).wf(),
            new_target@.len() == 32,
        ensures
            final(self).wf(),
            (r is Some) <==> old(self).inner.has_channel(channel_id),
            r is Some ==> r == Some(true),
            r is None ==> *final(self) == *old(self),
            final(self).inner.extended_channels@.len() == old(self).inner.extended_channels@.len(),
            forall|i: int|
                0 <= i < old(self).inner.extended_channels@.len() ==> if (
                #[trigger] old(self).inner.extended_channels@[i]).channel_id == channel_id {
                    crate::factory::rec_retarget(
                        final(self).inner.extended_channels@[i],
                        old(self).inner.extended_channels@[i],
                        new_target@,
                    )
                } else {
                    final(self).inner.extended_channels@[i] == old(self).inner.extended_channels@[i]
                },
            final(self).inner.last_valid_job == old(self).inner.last_valid_job,
            final(self).inner.last_prev_hash == old(self).inner.last_prev_hash,
            final(self).inner.future_jobs == old(self).inner.future_jobs,
            final(self).job_to_template == old(self).job_to_template,
            final(self).last_target == old(self).last_target,
            final(self).negotiated_jobs == old(self).negotiated_jobs,
    {
        self.inner.update_target_for_channel(channel_id, new_target)
    }

    /// Set the upstream target held by this factory's kind.
    pub fn set_target(&mut self, new_target: &mut Vec<u8>)
        requires
            old(self).wf(),
            old(new_target)@.len() == 32,
        ensures
            final(self).wf(),
            match old(self).inner.kind {
                ExtendedChannelKind::Pool => final(self).inner.kind == old(self).inner.kind
                    && final(new_target)@ == old(new_target)@,
                ExtendedChannelKind::Proxy { upstream_target } => *final(self)
                    matches PoolChannelFactory { inner: ChannelFactory { kind: ExtendedChannelKind::Proxy { upstream_target: t2 }, .. }, .. }
                    && t2@ == old(new_target)@ && final(new_target)@ == upstream_target@,
                ExtendedChannelKind::ProxyJd { upstream_target } => *final(self)
                    matches PoolChannelFactory { inner: ChannelFactory { kind: ExtendedChannelKind::ProxyJd { upstream_target: t2 }, .. }, .. }
                    && t2@ == old(new_target)@ && final(new_target)@ == upstream_target@,
            },
            final(self).inner.extended_channels == old(self).inner.extended_channels,
            final(self).inner.last_valid_job == old(self).inner.last_valid_job,
            final(self).inner.last_prev_hash == old(self).inner.last_prev_hash,
            final(self).inner.future_jobs == old(self).inner.future_jobs,
            final(self).job_to_template == old(self).job_to_template,
            final(self).last_target == old(self).last_target,
            final(self).negotiated_jobs == old(self).negotiated_jobs,
    {
        self.inner.kind.set_target(new_target);
    }
}

} // verus!
