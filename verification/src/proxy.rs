//! The proxy-side channel factory: the shared state machine together with
//! the upstream-assigned channel id, and, in job-declaring mode, the
//! template registry and the future templates to be turned into custom
//! jobs when their previous-block hash arrives.

use vstd::prelude::*;

use crate::bytes::copy_bytes;
use crate::extranonce::ExtendedExtranonce;
use crate::factory::{
    check_target_post, first_match, first_match_idx, kind_wf, ChannelFactory,
    ExtendedChannelKind,
};
use crate::ids::{GroupId, Id};
use crate::messages::{
    template_eq, Mining, NewExtendedMiningJob, NewTemplate, OnNewShare,
    PartialSetCustomMiningJob, SetNewPrevHash, SetNewPrevHashFromTp, Share, ShareErrorCode,
    StagedPhash, SubmitSharesError, SubmitSharesExtended, SubmitSharesStandard,
};
use crate::pool::{resolved_job_id, zeros32};
use crate::Error;

verus! {

/// `p` is the custom job derived from template `t` and the staged
/// prev-hash fields.
pub open spec fn partial_from_template(
    p: PartialSetCustomMiningJob,
    t: NewTemplate,
    prev_hash: Seq<u8>,
    min_ntime: u32,
    nbits: u32,
) -> bool {
    &&& p.version == t.version
    &&& p.prev_hash@ == prev_hash
    &&& p.min_ntime == min_ntime
    &&& p.nbits == nbits
    &&& p.coinbase_tx_version == t.coinbase_tx_version
    &&& p.coinbase_prefix@ == t.coinbase_prefix@
    &&& p.coinbase_tx_input_n_sequence == t.coinbase_tx_input_sequence
    &&& p.coinbase_tx_value_remaining == t.coinbase_tx_value_remaining
    &&& p.coinbase_tx_outputs@ == t.coinbase_tx_outputs@
    &&& p.coinbase_tx_locktime == t.coinbase_tx_locktime
    &&& crate::hashing::path_view(p.merkle_path@) == crate::hashing::path_view(t.merkle_path@)
    &&& p.future_job == t.future_template
}

/// Used by proxies that open extended channels with an upstream. With job
/// declaration it also tracks templates and synthesizes custom jobs.
pub struct ProxyExtendedChannelFactory {
    /// The shared state machine.
    pub inner: ChannelFactory,
    /// Job id to template id, newest first; job-declaring mode only.
    pub job_to_template: Vec<(u32, u64)>,
    /// The bitcoin target in force, from the last prev-hash event.
    pub last_target: Vec<u8>,
    /// Outputs appended to synthesized coinbases; job-declaring mode only.
    pub pool_coinbase_outputs: Option<Vec<bitcoin::TxOut>>,
    /// Id the upstream assigned to this proxy's own extended channel.
    pub extended_channel_id: u32,
}

impl ProxyExtendedChannelFactory {
    pub open spec fn wf(self) -> bool {
        &&& self.inner.wf()
        &&& self.last_target@.len() == 32
        &&& !(self.inner.kind is Pool)
    }

    /// This factory declares its own jobs.
    pub open spec fn is_jd(self) -> bool {
        self.inner.kind is ProxyJd
    }

    /// Constructor. A proxy factory is never of pool kind.
    pub fn new(
        ids: GroupId,
        extranonces: ExtendedExtranonce,
        kind: ExtendedChannelKind,
        pool_coinbase_outputs: Option<Vec<bitcoin::TxOut>>,
        extended_channel_id: u32,
    ) -> (r: Self)
        requires
            extranonces.wf(),
            kind_wf(kind),
            !(kind is Pool),
        ensures
            r.wf(),
            r.inner.ids == ids,
            r.inner.extended_channels@.len() == 0,
            r.inner.extranonces == extranonces,
            r.inner.future_jobs@.len() == 0,
            r.inner.last_prev_hash is None,
            r.inner.last_valid_job is None,
            r.inner.kind == kind,
            r.inner.channel_to_group_id@.len() == 0,
            r.inner.future_templates@.len() == 0,
            r.job_to_template@.len() == 0,
            r.extended_channel_id == extended_channel_id,
            forall|i: int| 0 <= i < 32 ==> r.last_target@[i] == 0u8,
    {
        let inner = ChannelFactory {
            ids,
            extended_channels: Vec::new(),
            extranonces,
            future_jobs: Vec::new(),
            last_prev_hash: None,
            last_valid_job: None,
            kind,
            job_ids: Id::new(),
            channel_to_group_id: Vec::new(),
            future_templates: Vec::new(),
        };
        ProxyExtendedChannelFactory {
            inner,
            job_to_template: Vec::new(),
            last_target: zeros32(),
            pool_coinbase_outputs,
            extended_channel_id,
        }
    }

    /// Calls [`ChannelFactory::new_extended_channel`].
    pub fn new_extended_channel(
        &mut self,
        request_id: u32,
        target: Vec<u8>,
        min_extranonce_size: u16,
    ) -> (r: Result<Vec<Mining>, Error>)
        requires
            old(self).wf(),
            target@.len() == 32,
        ensures
            final(self).wf(),
            final(self).job_to_template == old(self).job_to_template,
            final(self).last_target == old(self).last_target,
            final(self).extended_channel_id == old(self).extended_channel_id,
            min_extranonce_size > old(self).inner.extranonces.range2_len as u16 ==> (r matches Ok(
                v,
            ) && v@.len() == 1 && (v@[0] matches Mining::OpenMiningChannelError(e) && e.request_id
                == request_id) && final(self).inner == old(self).inner),
            (min_extranonce_size <= old(self).inner.extranonces.range2_len as u16 && (old(self).inner.extranonces.counter as nat) == crate::extranonce::counter_cap(
                old(self).inner.extranonces.range1_len as nat,
            )) ==> (r == Result::<Vec<Mining>, Error>::Err(Error::ExtranonceSpaceEnded) && final(self).inner == old(self).inner),
            (min_extranonce_size <= old(self).inner.extranonces.range2_len as u16 && (old(self).inner.extranonces.counter as nat) < crate::extranonce::counter_cap(
                old(self).inner.extranonces.range1_len as nat,
            )) ==> (r matches Ok(batch) && old(self).inner.open_batch_ok(
                request_id,
                target@,
                crate::ids::next_id(old(self).inner.ids.channel_ids.state),
                old(self).inner.extranonces.range0@ + crate::extranonce::be_bytes(
                    (old(self).inner.extranonces.counter + 1) as nat,
                    old(self).inner.extranonces.range1_len as nat,
                ),
                batch@,
            )),
    {
        self.inner.new_extended_channel(request_id, target, min_extranonce_size)
    }

    /// Called when the template provider announces a new previous-block
    /// hash and this proxy declares jobs. The event resolves to the job
    /// registered for its template; when a future template waits under
    /// that job, it is turned into a custom job carrying the new prev-hash
    /// fields. All future templates are then dropped and the shared state
    /// machine advances.
    pub fn on_new_prev_hash_from_tp(&mut self, m: &SetNewPrevHashFromTp, now: u32) -> (r: Result<
        Option<(PartialSetCustomMiningJob, u32)>,
        Error,
    >)
        requires
            old(self).wf(),
            old(self).is_jd(),
            m.prev_hash@.len() == 32,
            m.target@.len() == 32,
        ensures
            final(self).wf(),
            final(self).last_target@ == m.target@,
            final(self).inner.future_templates@.len() == 0,
            final(self).inner.future_jobs@.len() == 0,
            r matches Ok(opt) && ({
                let jid = resolved_job_id(old(self).job_to_template@, m.template_id);
                match first_match(old(self).inner.future_templates@, jid) {
                    Some(t) => opt matches Some((p, j2)) && j2 == jid && partial_from_template(
                        p,
                        t,
                        m.prev_hash@,
                        m.header_timestamp,
                        m.n_bits,
                    ),
                    None => opt is None,
                }
            }),
            final(self).inner.last_prev_hash matches Some(p) && p.job_id == resolved_job_id(
                old(self).job_to_template@,
                m.template_id,
            ) && p.prev_hash@ == m.prev_hash@ && p.min_ntime == m.header_timestamp && p.nbits
                == m.n_bits,
            crate::factory::has_job_match(
                old(self).inner.future_jobs@,
                resolved_job_id(old(self).job_to_template@, m.template_id),
            ) ==> (final(self).inner.last_valid_job matches Some(j)
                && crate::messages::job_eq_with_min_ntime(
                j,
                old(self).inner.future_jobs@[crate::factory::last_match_idx(
                    old(self).inner.future_jobs@,
                    resolved_job_id(old(self).job_to_template@, m.template_id),
                )],
                Some(now),
            )),
            !crate::factory::has_job_match(
                old(self).inner.future_jobs@,
                resolved_job_id(old(self).job_to_template@, m.template_id),
            ) && old(self).inner.future_jobs@.len() > 0 ==> final(self).inner.last_valid_job
                is None,
            old(self).inner.future_jobs@.len() == 0 ==> final(self).inner.last_valid_job == old(self).inner.last_valid_job,
            final(self).inner.extended_channels == old(self).inner.extended_channels,
            final(self).inner.extranonces == old(self).inner.extranonces,
            final(self).job_to_template == old(self).job_to_template,
            final(self).extended_channel_id == old(self).extended_channel_id,
    {
        let job_id = match crate::pool::job_for_template_idx(&self.job_to_template, m.template_id) {
            Some(i) => self.job_to_template[i].0,
            None => 0,
        };
        let custom_job: Option<(PartialSetCustomMiningJob, u32)> = match first_match_idx(
            &self.inner.future_templates,
            job_id,
        ) {
            Some(i) => {
                let t = &self.inner.future_templates[i].1;
                let p = PartialSetCustomMiningJob {
                    version: t.version,
                    prev_hash: copy_bytes(&m.prev_hash),
                    min_ntime: m.header_timestamp,
                    nbits: m.n_bits,
                    coinbase_tx_version: t.coinbase_tx_version,
                    coinbase_prefix: copy_bytes(&t.coinbase_prefix),
                    coinbase_tx_input_n_sequence: t.coinbase_tx_input_sequence,
                    coinbase_tx_value_remaining: t.coinbase_tx_value_remaining,
                    coinbase_tx_outputs: copy_bytes(&t.coinbase_tx_outputs),
                    coinbase_tx_locktime: t.coinbase_tx_locktime,
                    merkle_path: crate::messages::copy_path(&t.merkle_path),
                    future_job: t.future_template,
                };
                Some((p, job_id))
            },
            None => None,
        };
        self.inner.future_templates.clear();
        self.last_target = copy_bytes(&m.target);
        let new_prev_hash = StagedPhash {
            job_id,
            prev_hash: copy_bytes(&m.prev_hash),
            min_ntime: m.header_timestamp,
            nbits: m.n_bits,
        };
        match self.inner.on_new_prev_hash(new_prev_hash, now) {
            Ok(()) => Ok(custom_job),
            Err(e) => Err(e),
        }
    }

    /// Called when the template provider announces a new template, turned
    /// by the synthesizer into `new_job`. The job is registered for the
    /// template and fanned out; a non-future job under a known prev hash
    /// also yields the custom job to declare upstream, while a future
    /// template is retained until its prev hash arrives.
    pub fn on_new_template(&mut self, m: &NewTemplate, new_job: NewExtendedMiningJob) -> (r:
        Result<(Vec<(u32, Mining)>, Option<PartialSetCustomMiningJob>, u32), Error>)
        requires
            old(self).wf(),
            old(self).is_jd(),
            old(self).pool_coinbase_outputs is Some,
        ensures
            final(self).wf(),
            final(self).job_to_template@ == old(self).job_to_template@.insert(
                0,
                (new_job.job_id, m.template_id),
            ),
            new_job.min_ntime is Some ==> (old(self).inner.last_prev_hash matches Some(ph) ==> (r
                matches Ok((fan, pj, id)) && old(self).inner.fan_out_ok(new_job, fan@) && id
                == new_job.job_id && (pj matches Some(p) && partial_from_template(
                p,
                *m,
                ph.prev_hash@,
                ph.min_ntime,
                ph.nbits,
            )) && final(self).inner.last_valid_job == Some(new_job) && final(self).inner.future_templates == old(self).inner.future_templates)),
            new_job.min_ntime is None ==> (r matches Ok((fan, pj, id)) && old(self).inner.fan_out_ok(new_job, fan@) && id == new_job.job_id && pj is None && final(self).inner.future_jobs@ == old(self).inner.future_jobs@.push(new_job)),
            new_job.min_ntime is None ==> (first_match(
                final(self).inner.future_templates@,
                new_job.job_id,
            ) matches Some(t) && template_eq(t, *m)),
            (new_job.min_ntime is Some && old(self).inner.last_prev_hash is None) ==> r
                == Result::<
                (Vec<(u32, Mining)>, Option<PartialSetCustomMiningJob>, u32),
                Error,
            >::Err(Error::JobIsNotFutureButPrevHashNotPresent),
            final(self).inner.extended_channels == old(self).inner.extended_channels,
            final(self).inner.last_prev_hash == old(self).inner.last_prev_hash,
            final(self).last_target == old(self).last_target,
            final(self).extended_channel_id == old(self).extended_channel_id,
    {
        self.job_to_template.insert(0, (new_job.job_id, m.template_id));
        let id = new_job.job_id;
        let is_future = new_job.is_future();
        if !is_future && self.inner.last_prev_hash.is_some() {
            let (prev_hash, min_ntime, nbits) = match &self.inner.last_prev_hash {
                Some(ph) => (copy_bytes(&ph.prev_hash), ph.min_ntime, ph.nbits),
                None => {
                    proof {
                        assert(false);
                    }
                    (Vec::new(), 0, 0)
                },
            };
            let custom_mining_job = PartialSetCustomMiningJob {
                version: m.version,
                prev_hash,
                min_ntime,
                nbits,
                coinbase_tx_version: m.coinbase_tx_version,
                coinbase_prefix: copy_bytes(&m.coinbase_prefix),
                coinbase_tx_input_n_sequence: m.coinbase_tx_input_sequence,
                coinbase_tx_value_remaining: m.coinbase_tx_value_remaining,
                coinbase_tx_outputs: copy_bytes(&m.coinbase_tx_outputs),
                coinbase_tx_locktime: m.coinbase_tx_locktime,
                merkle_path: crate::messages::copy_path(&m.merkle_path),
                future_job: m.future_template,
            };
            match self.inner.on_new_extended_mining_job(new_job) {
                Ok(fan) => Ok((fan, Some(custom_mining_job), id)),
                Err(e) => Err(e),
            }
        } else {
            if is_future {
                let ghost pre = self.inner.future_templates@;
                self.inner.future_templates.insert(0, (id, m.duplicate()));
                proof {
                    crate::factory::lemma_first_match_prepend(
                        pre,
                        id,
                        self.inner.future_templates@[0].1,
                        id,
                    );
                    assert(self.inner.future_templates@ == pre.insert(
                        0,
                        (id, self.inner.future_templates@[0].1),
                    ));
                }
            }
            match self.inner.on_new_extended_mining_job(new_job) {
                Ok(fan) => Ok((fan, None, id)),
                Err(e) => Err(e),
            }
        }
    }

    /// Called when a `SubmitSharesExtended` message is received from the
    /// downstream. The share must reference the current valid job; it is
    /// validated against that job under the last prev hash, with the
    /// registered template and the announced bitcoin target in
    /// job-declaring mode, and with no template and a null bitcoin target
    /// otherwise. Winning shares are relayed under the upstream channel.
    pub fn on_submit_shares_extended(&mut self, m: SubmitSharesExtended) -> (r: Result<
        OnNewShare,
        Error,
    >)
        requires
            old(self).wf(),
        ensures
            *final(self) == *old(self),
            old(self).inner.last_valid_job is None ==> r == Result::<OnNewShare, Error>::Err(
                Error::ShareDoNotMatchAnyJob,
            ),
            old(self).inner.last_valid_job matches Some(job) ==> {
                &&& job.job_id != m.job_id ==> (r matches Ok(OnNewShare::SendErrorDownstream(e))
                    && e.channel_id == m.channel_id && e.sequence_number == m.sequence_number
                    && e.error_code == ShareErrorCode::InvalidJobId)
                &&& (job.job_id == m.job_id && old(self).is_jd() && first_match(
                    old(self).job_to_template@,
                    job.job_id,
                ) is None) ==> r == Result::<OnNewShare, Error>::Err(Error::NoTemplateForId)
                &&& (job.job_id == m.job_id && old(self).inner.last_prev_hash is None && (old(self).is_jd() ==> first_match(old(self).job_to_template@, job.job_id) is Some)) ==> r
                    == Result::<OnNewShare, Error>::Err(Error::ShareDoNotMatchAnyJob)
                &&& job.job_id == m.job_id ==> (old(self).inner.last_prev_hash matches Some(ph)
                    ==> (old(self).is_jd() ==> (first_match(
                    old(self).job_to_template@,
                    job.job_id,
                ) matches Some(tid) ==> check_target_post(
                    old(self).inner,
                    Share::Extended(m),
                    old(self).last_target@,
                    Some(tid),
                    crate::hashing::path_view(job.merkle_path@),
                    job.coinbase_tx_prefix@,
                    job.coinbase_tx_suffix@,
                    ph.prev_hash@,
                    ph.nbits,
                    r,
                ))))
                &&& job.job_id == m.job_id ==> (old(self).inner.last_prev_hash matches Some(ph)
                    ==> (!old(self).is_jd() ==> check_target_post(
                    old(self).inner,
                    Share::Extended(m),
                    crate::u256::zero_target(),
                    None,
                    crate::hashing::path_view(job.merkle_path@),
                    job.coinbase_tx_prefix@,
                    job.coinbase_tx_suffix@,
                    ph.prev_hash@,
                    ph.nbits,
                    r,
                )))
            },
    {
        let (job_id, merkle_path, cbp, cbs) = match &self.inner.last_valid_job {
            None => {
                return Err(Error::ShareDoNotMatchAnyJob);
            },
            Some(job) => (
                job.job_id,
                crate::messages::copy_path(&job.merkle_path),
                copy_bytes(&job.coinbase_tx_prefix),
                copy_bytes(&job.coinbase_tx_suffix),
            ),
        };
        if job_id != m.job_id {
            let error = SubmitSharesError {
                channel_id: m.channel_id,
                sequence_number: m.sequence_number,
                error_code: ShareErrorCode::InvalidJobId,
            };
            return Ok(OnNewShare::SendErrorDownstream(error));
        }
        let is_jd = match &self.inner.kind {
            ExtendedChannelKind::ProxyJd { .. } => true,
            _ => false,
        };
        if is_jd {
            let template_id = match first_match_idx(&self.job_to_template, job_id) {
                None => {
                    return Err(Error::NoTemplateForId);
                },
                Some(t) => self.job_to_template[t].1,
            };
            let (prev_blockhash, bits) = match &self.inner.last_prev_hash {
                None => {
                    return Err(Error::ShareDoNotMatchAnyJob);
                },
                Some(ph) => (copy_bytes(&ph.prev_hash), ph.nbits),
            };
            self.inner.check_target(
                Share::Extended(m),
                &self.last_target,
                Some(template_id),
                self.extended_channel_id,
                &merkle_path,
                &cbp,
                &cbs,
                &prev_blockhash,
                bits,
            )
        } else {
            let (prev_blockhash, bits) = match &self.inner.last_prev_hash {
                None => {
                    return Err(Error::ShareDoNotMatchAnyJob);
                },
                Some(ph) => (copy_bytes(&ph.prev_hash), ph.nbits),
            };
            let bitcoin_target = zeros32();
            proof {
                crate::u256::lemma_zero_target(bitcoin_target@);
            }
            self.inner.check_target(
                Share::Extended(m),
                &bitcoin_target,
                None,
                self.extended_channel_id,
                &merkle_path,
                &cbp,
                &cbs,
                &prev_blockhash,
                bits,
            )
        }
    }

    /// Whether the gates ahead of standard-share validation all pass; the
    /// validation itself handles no standard share, so such an input is
    /// not accepted.
    pub open spec fn standard_core_reached(self, m: SubmitSharesStandard) -> bool {
        &&& self.inner.last_valid_job is Some
        &&& self.inner.group_of(m.channel_id) is Some
        &&& self.is_jd() ==> first_match(
            self.job_to_template@,
            self.inner.last_valid_job->Some_0.job_id,
        ) is Some
        &&& self.inner.last_prev_hash is Some
    }

    /// Called when a `SubmitSharesStandard` message is received from the
    /// downstream. Standard shares carry no extranonce and their
    /// validation is not implemented: every reachable path answers with an
    /// error, and inputs that would reach validation are not accepted.
    pub fn on_submit_shares_standard(&mut self, m: SubmitSharesStandard) -> (r: Result<
        OnNewShare,
        Error,
    >)
        requires
            old(self).wf(),
            !old(self).standard_core_reached(m),
        ensures
            *final(self) == *old(self),
            old(self).inner.last_valid_job is None ==> r == Result::<OnNewShare, Error>::Err(
                Error::ShareDoNotMatchAnyJob,
            ),
            (old(self).inner.last_valid_job is Some && old(self).inner.group_of(m.channel_id)
                is None) ==> (r matches Ok(OnNewShare::SendErrorDownstream(e)) && e.channel_id
                == m.channel_id && e.sequence_number == m.sequence_number && e.error_code
                == ShareErrorCode::InvalidChannelId),
            old(self).inner.last_valid_job matches Some(job) ==> ((old(self).inner.group_of(
                m.channel_id,
            ) is Some && old(self).is_jd() && first_match(old(self).job_to_template@, job.job_id)
                is None) ==> r == Result::<OnNewShare, Error>::Err(Error::NoTemplateForId)),
            old(self).inner.last_valid_job matches Some(job) ==> ((old(self).inner.group_of(
                m.channel_id,
            ) is Some && (old(self).is_jd() ==> first_match(old(self).job_to_template@, job.job_id)
                is Some) && old(self).inner.last_prev_hash is None) ==> r == Result::<
                OnNewShare,
                Error,
            >::Err(Error::ShareDoNotMatchAnyJob)),
    {
        let job_id = match &self.inner.last_valid_job {
            None => {
                return Err(Error::ShareDoNotMatchAnyJob);
            },
            Some(job) => job.job_id,
        };
        match first_match_idx(&self.inner.channel_to_group_id, m.channel_id) {
            None => {
                let err = SubmitSharesError {
                    channel_id: m.channel_id,
                    sequence_number: m.sequence_number,
                    error_code: ShareErrorCode::InvalidChannelId,
                };
                return Ok(OnNewShare::SendErrorDownstream(err));
            },
            Some(_g) => {},
        };
        let is_jd = match &self.inner.kind {
            ExtendedChannelKind::ProxyJd { .. } => true,
            _ => false,
        };
        if is_jd {
            match first_match_idx(&self.job_to_template, job_id) {
                None => {
                    return Err(Error::NoTemplateForId);
                },
                Some(_t) => {},
            };
        }
        match &self.inner.last_prev_hash {
            None => {
                return Err(Error::ShareDoNotMatchAnyJob);
            },
            Some(_p) => {},
        };
        proof {
            assert(false);
        }
        Err(Error::ShareDoNotMatchAnyJob)
    }

    /// Calls [`ChannelFactory::on_new_prev_hash`] with the fields of the
    /// upstream `SetNewPrevHash` message.
    pub fn on_new_prev_hash(&mut self, m: SetNewPrevHash, now: u32) -> (r: Result<(), Error>)
        requires
            old(self).wf(),
            m.prev_hash@.len() == 32,
        ensures
            final(self).wf(),
            r is Ok,
            final(self).inner.future_jobs@.len() == 0,
            final(self).inner.last_prev_hash matches Some(p) && p.job_id == m.job_id
                && p.prev_hash@ == m.prev_hash@ && p.min_ntime == m.min_ntime && p.nbits == m.nbits,
            crate::factory::has_job_match(old(self).inner.future_jobs@, m.job_id) ==> (final(self).inner.last_valid_job matches Some(j) && crate::messages::job_eq_with_min_ntime(
                j,
                old(self).inner.future_jobs@[crate::factory::last_match_idx(
                    old(self).inner.future_jobs@,
                    m.job_id,
                )],
                Some(now),
            )),
            !crate::factory::has_job_match(old(self).inner.future_jobs@, m.job_id) && old(self).inner.future_jobs@.len() > 0 ==> final(self).inner.last_valid_job is None,
            old(self).inner.future_jobs@.len() == 0 ==> final(self).inner.last_valid_job == old(self).inner.last_valid_job,
            final(self).inner.extended_channels == old(self).inner.extended_channels,
            final(self).job_to_template == old(self).job_to_template,
            final(self).last_target == old(self).last_target,
            final(self).extended_channel_id == old(self).extended_channel_id,
    {
        let staged = StagedPhash {
            job_id: m.job_id,
            prev_hash: m.prev_hash,
            min_ntime: m.min_ntime,
            nbits: m.nbits,
        };
        self.inner.on_new_prev_hash(staged, now)
    }

    /// Calls [`ChannelFactory::on_new_extended_mining_job`].
    pub fn on_new_extended_mining_job(&mut self, m: NewExtendedMiningJob) -> (r: Result<
        Vec<(u32, Mining)>,
        Error,
    >)
        requires
            old(self).wf(),
        ensures
            final(self).wf(),
            m.min_ntime is None ==> (r matches Ok(fan) && old(self).inner.fan_out_ok(m, fan@)
                && final(self).inner.future_jobs@ == old(self).inner.future_jobs@.push(m) && final(self).inner.last_valid_job == old(self).inner.last_valid_job),
            m.min_ntime is Some && old(self).inner.last_prev_hash is Some ==> (r matches Ok(fan)
                && old(self).inner.fan_out_ok(m, fan@) && final(self).inner.last_valid_job == Some(
                m,
            ) && final(self).inner.future_jobs == old(self).inner.future_jobs),
            m.min_ntime is Some && old(self).inner.last_prev_hash is None ==> r == Result::<
                Vec<(u32, Mining)>,
                Error,
            >::Err(Error::JobIsNotFutureButPrevHashNotPresent),
            final(self).inner.extended_channels == old(self).inner.extended_channels,
            final(self).inner.last_prev_hash == old(self).inner.last_prev_hash,
            final(self).job_to_template == old(self).job_to_template,
            final(self).last_target == old(self).last_target,
            final(self).extended_channel_id == old(self).extended_channel_id,
    {
        self.inner.on_new_extended_mining_job(m)
    }

    /// Set new target: swaps the upstream target with `new_target`.
    pub fn set_target(&mut self, new_target: &mut Vec<u8>)
        requires
            old(self).wf(),
            old(new_target)@.len() == 32,
        ensures
            final(self).wf(),
            crate::factory::kind_upstream_val(final(self).inner.kind) == crate::u256::le_val(
                old(new_target)@,
            ),
            final(self).inner.extended_channels == old(self).inner.extended_channels,
            final(self).inner.last_valid_job == old(self).inner.last_valid_job,
            final(self).inner.last_prev_hash == old(self).inner.last_prev_hash,
            final(self).job_to_template == old(self).job_to_template,
            final(self).last_target == old(self).last_target,
            final(self).extended_channel_id == old(self).extended_channel_id,
    {
        self.inner.kind.set_target(new_target);
    }

    /// Get last valid job version.
    pub fn last_valid_job_version(&self) -> (r: Option<u32>)
        ensures
            r matches Some(v) ==> self.inner.last_valid_job matches Some(j) && j.version == v,
            (r is Some) <==> (self.inner.last_valid_job is Some),
    {
        match &self.inner.last_valid_job {
            Some(j) => Some(j.version),
            None => None,
        }
    }

    /// Returns the full extranonce: the channel-static prefix followed by
    /// the downstream's rolled bytes.
    pub fn extranonce_from_downstream_extranonce(&self, ext: &Vec<u8>) -> (r: Option<Vec<u8>>)
        ensures
            (r is Some) <==> ext@.len() == self.inner.extranonces.range2_len,
            r matches Some(v) ==> v@ == self.inner.extranonces.spec_current_prefix() + ext@,
    {
        self.inner.extranonces.extranonce_from_downstream_extranonce(ext)
    }

    /// Returns the most recent prev hash.
    pub fn last_prev_hash(&self) -> (r: Option<Vec<u8>>)
        ensures
            (r is Some) <==> (self.inner.last_prev_hash is Some),
            r matches Some(v) ==> self.inner.last_prev_hash matches Some(p) && v@ == p.prev_hash@,
    {
        match &self.inner.last_prev_hash {
            Some(p) => Some(copy_bytes(&p.prev_hash)),
            None => None,
        }
    }

    /// Get last min ntime.
    pub fn last_min_ntime(&self) -> (r: Option<u32>)
        ensures
            (r is Some) <==> (self.inner.last_prev_hash is Some),
            r matches Some(v) ==> self.inner.last_prev_hash matches Some(p) && v == p.min_ntime,
    {
        match &self.inner.last_prev_hash {
            Some(p) => Some(p.min_ntime),
            None => None,
        }
    }

    /// Get last nbits.
    pub fn last_nbits(&self) -> (r: Option<u32>)
        ensures
            (r is Some) <==> (self.inner.last_prev_hash is Some),
            r matches Some(v) ==> self.inner.last_prev_hash matches Some(p) && v == p.nbits,
    {
        match &self.inner.last_prev_hash {
            Some(p) => Some(p.nbits),
            None => None,
        }
    }

    /// Get the total extranonce size.
    pub fn extranonce_size(&self) -> (r: usize)
        requires
            self.wf(),
        ensures
            r == self.inner.extranonces.spec_len(),
    {
        self.inner.extranonces.get_len()
    }

    /// Get the extranonce size left to the channel: everything after the
    /// upstream-owned prefix.
    pub fn channel_extranonce2_size(&self) -> (r: usize)
        requires
            self.wf(),
        ensures
            r == self.inner.extranonces.spec_len() - self.inner.extranonces.spec_range0_len(),
    {
        self.inner.extranonces.get_len() - self.inner.extranonces.get_range0_len()
    }

    /// Updates pool outputs; only used when the proxy declares jobs.
    pub fn update_pool_outputs(&mut self, outs: Vec<bitcoin::TxOut>)
        ensures
            final(self).inner == old(self).inner,
            final(self).job_to_template == old(self).job_to_template,
            final(self).last_target == old(self).last_target,
            final(self).extended_channel_id == old(self).extended_channel_id,
            final(self).pool_coinbase_outputs is Some,
    {
        self.pool_coinbase_outputs = Some(outs);
    }

    /// Get this channel's upstream-assigned id.
    pub fn get_this_channel_id(&self) -> (r: u32)
        ensures
            r == self.extended_channel_id,
    {
        self.extended_channel_id
    }

    /// Returns the upstream's extranonce1 length: the prefix the upstream
    /// owns inside every extranonce this factory handles.
    pub fn get_upstream_extranonce1_len(&self) -> (r: usize)
        ensures
            r == self.inner.extranonces.spec_range0_len(),
    {
        self.inner.extranonces.get_range0_len()
    }

    /// Calls [`ChannelFactory::update_target_for_channel`].
    pub fn update_target_for_channel(&mut self, channel_id: u32, new_target: Vec<u8>) -> (r:
        Option<bool>)
        requires
            old(self).wf(),
            new_target@.len() == 32,
        ensures
            final(self).wf(),
            (r is Some) <==> old(self).inner.has_channel(channel_id),
            r is Some ==> r == Some(true),
            r is None ==> *final(self) == *old(self),
            final(self).inner.extended_channels@.len() == old(self).inner.extended_channels@.len(),
            forall|i: int|
                0 <= i < old(self).inner.extended_channels@.len() ==> if (
                #[trigger] old(self).inner.extended_channels@[i]).channel_id == channel_id {
                    crate::factory::rec_retarget(
                        final(self).inner.extended_channels@[i],
                        old(self).inner.extended_channels@[i],
                        new_target@,
                    )
                } else {
                    final(self).inner.extended_channels@[i] == old(self).inner.extended_channels@[i]
                },
            final(self).inner.last_valid_job == old(self).inner.last_valid_job,
            final(self).inner.last_prev_hash == old(self).inner.last_prev_hash,
            final(self).inner.future_jobs == old(self).inner.future_jobs,
            final(self).job_to_template == old(self).job_to_template,
            final(self).last_target == old(self).last_target,
            final(self).extended_channel_id == old(self).extended_channel_id,
    {
        self.inner.update_target_for_channel(channel_id, new_target)
    }
}

} // verus!
