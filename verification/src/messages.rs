//! The protocol messages the factory consumes and emits, carried as plain
//! values: byte strings stand for the wire's fixed-size blobs, and a 256-bit
//! quantity is 32 bytes in little-endian order.

use vstd::prelude::*;

use crate::bytes::copy_bytes;

verus! {

/// Reply to a successful extended-channel open; also the factory's record
/// of the channel itself.
#[derive(Clone, Debug)]
pub struct OpenExtendedMiningChannelSuccess {
    pub request_id: u32,
    pub channel_id: u32,
    /// Downstream target, 32 bytes little-endian.
    pub target: Vec<u8>,
    pub extranonce_size: u16,
    /// `range0` ‖ `range1`: the static prefix of the channel's extranonce.
    pub extranonce_prefix: Vec<u8>,
}

/// Why an open-channel request was refused.
#[derive(Clone, Copy, Debug, PartialEq, Eq, Structural)]
pub enum OpenChannelErrorCode {
    UnsupportedExtranonceSize,
}

/// Negative reply to an open-channel request.
#[derive(Clone, Copy, Debug, PartialEq, Eq, Structural)]
pub struct OpenMiningChannelError {
    pub request_id: u32,
    pub error_code: OpenChannelErrorCode,
}

/// An extended mining job. `min_ntime` empty marks a future job: one
/// delivered ahead of the previous-block hash that will activate it.
#[derive(Clone, Debug)]
pub struct NewExtendedMiningJob {
    pub channel_id: u32,
    pub job_id: u32,
    pub min_ntime: Option<u32>,
    pub version: u32,
    pub version_rolling_allowed: bool,
    pub merkle_path: Vec<Vec<u8>>,
    pub coinbase_tx_prefix: Vec<u8>,
    pub coinbase_tx_suffix: Vec<u8>,
}

/// Activation of a job: the new chain tip with its timestamp and bits.
#[derive(Clone, Debug)]
pub struct SetNewPrevHash {
    pub channel_id: u32,
    pub job_id: u32,
    pub prev_hash: Vec<u8>,
    pub min_ntime: u32,
    pub nbits: u32,
}

/// A share submitted on an extended channel.
#[derive(Clone, Debug)]
pub struct SubmitSharesExtended {
    pub channel_id: u32,
    pub sequence_number: u32,
    pub job_id: u32,
    pub nonce: u32,
    pub ntime: u32,
    pub version: u32,
    pub extranonce: Vec<u8>,
}

/// A share submitted on a standard channel.
#[derive(Clone, Copy, Debug, PartialEq, Eq, Structural)]
pub struct SubmitSharesStandard {
    pub channel_id: u32,
    pub sequence_number: u32,
    pub job_id: u32,
    pub nonce: u32,
    pub ntime: u32,
    pub version: u32,
}

/// Why a submitted share was refused.
#[derive(Clone, Copy, Debug, PartialEq, Eq, Structural)]
pub enum ShareErrorCode {
    DifficultyTooLow,
    InvalidChannelId,
    InvalidJobId,
}

/// Negative reply to a submitted share.
#[derive(Clone, Copy, Debug, PartialEq, Eq, Structural)]
pub struct SubmitSharesError {
    pub channel_id: u32,
    pub sequence_number: u32,
    pub error_code: ShareErrorCode,
}

/// A custom job a downstream negotiated for its channel.
#[derive(Clone, Debug)]
pub struct SetCustomMiningJob {
    pub channel_id: u32,
    pub request_id: u32,
    pub token: Vec<u8>,
    pub version: u32,
    pub prev_hash: Vec<u8>,
    pub min_ntime: u32,
    pub nbits: u32,
    pub coinbase_tx_version: u32,
    pub coinbase_prefix: Vec<u8>,
    pub coinbase_tx_input_n_sequence: u32,
    pub coinbase_tx_value_remaining: u64,
    pub coinbase_tx_outputs: Vec<u8>,
    pub coinbase_tx_locktime: u32,
    pub merkle_path: Vec<Vec<u8>>,
}

/// Positive reply to a negotiated custom job.
#[derive(Clone, Copy, Debug, PartialEq, Eq, Structural)]
pub struct SetCustomMiningJobSuccess {
    pub channel_id: u32,
    pub request_id: u32,
    pub job_id: u32,
}

/// A custom mining job before it is addressed to a channel: the
/// `SetCustomMiningJob` fields minus channel id, request id and token.
#[derive(Clone, Debug)]
pub struct PartialSetCustomMiningJob {
    pub version: u32,
    pub prev_hash: Vec<u8>,
    pub min_ntime: u32,
    pub nbits: u32,
    pub coinbase_tx_version: u32,
    pub coinbase_prefix: Vec<u8>,
    pub coinbase_tx_input_n_sequence: u32,
    pub coinbase_tx_value_remaining: u64,
    pub coinbase_tx_outputs: Vec<u8>,
    pub coinbase_tx_locktime: u32,
    pub merkle_path: Vec<Vec<u8>>,
    pub future_job: bool,
}

/// A block template from the template provider.
#[derive(Clone, Debug)]
pub struct NewTemplate {
    pub template_id: u64,
    pub future_template: bool,
    pub version: u32,
    pub coinbase_tx_version: u32,
    pub coinbase_prefix: Vec<u8>,
    pub coinbase_tx_input_sequence: u32,
    pub coinbase_tx_value_remaining: u64,
    pub coinbase_tx_outputs_count: u32,
    pub coinbase_tx_outputs: Vec<u8>,
    pub coinbase_tx_locktime: u32,
    pub merkle_path: Vec<Vec<u8>>,
}

/// A previous-block-hash event from the template provider.
#[derive(Clone, Debug)]
pub struct SetNewPrevHashFromTp {
    pub template_id: u64,
    pub prev_hash: Vec<u8>,
    pub header_timestamp: u32,
    pub n_bits: u32,
    /// The bitcoin target in force from this block on, 32 bytes little-endian.
    pub target: Vec<u8>,
}

/// The downstream-bound mining messages a factory emits.
#[derive(Clone, Debug)]
pub enum Mining {
    OpenExtendedMiningChannelSuccess(OpenExtendedMiningChannelSuccess),
    OpenMiningChannelError(OpenMiningChannelError),
    NewExtendedMiningJob(NewExtendedMiningJob),
    SetNewPrevHash(SetNewPrevHash),
}

/// A share is either extended, or standard together with its group id.
#[derive(Debug)]
pub enum Share {
    Extended(SubmitSharesExtended),
    Standard((SubmitSharesStandard, u32)),
}

/// What is to be done with a share that was checked against the targets.
#[derive(Debug)]
pub enum OnNewShare {
    /// The share is for no known channel or misses every target: report the
    /// error downstream.
    SendErrorDownstream(SubmitSharesError),
    /// The share meets the upstream target: relay it upstream, with the
    /// template id when one is known.
    SendSubmitShareUpstream((Share, Option<u64>)),
    /// Relay the very share upstream unchanged.
    RelaySubmitShareUpstream,
    /// The share meets the bitcoin target: share, template id, the rebuilt
    /// coinbase, and the full extranonce.
    ShareMeetBitcoinTarget((Share, Option<u64>, Vec<u8>, Vec<u8>)),
    /// The share meets the downstream target only: acknowledge it.
    ShareMeetDownstreamTarget,
}

/// A previous-block hash staged before it is addressed to a channel.
#[derive(Clone, Debug)]
pub struct StagedPhash {
    pub job_id: u32,
    pub prev_hash: Vec<u8>,
    pub min_ntime: u32,
    pub nbits: u32,
}

/// The byte strings held by a merkle path.
pub open spec fn path_eq(a: Vec<Vec<u8>>, b: Vec<Vec<u8>>) -> bool {
    crate::hashing::path_view(a@) == crate::hashing::path_view(b@)
}

/// The two jobs carry the same content.
pub open spec fn job_eq(a: NewExtendedMiningJob, b: NewExtendedMiningJob) -> bool {
    &&& a.channel_id == b.channel_id
    &&& a.job_id == b.job_id
    &&& a.min_ntime == b.min_ntime
    &&& a.version == b.version
    &&& a.version_rolling_allowed == b.version_rolling_allowed
    &&& path_eq(a.merkle_path, b.merkle_path)
    &&& a.coinbase_tx_prefix@ == b.coinbase_tx_prefix@
    &&& a.coinbase_tx_suffix@ == b.coinbase_tx_suffix@
}

/// `a` is `b` readdressed to channel `cid`, content unchanged.
pub open spec fn job_eq_except_channel(
    a: NewExtendedMiningJob,
    b: NewExtendedMiningJob,
    cid: u32,
) -> bool {
    &&& a.channel_id == cid
    &&& a.job_id == b.job_id
    &&& a.min_ntime == b.min_ntime
    &&& a.version == b.version
    &&& a.version_rolling_allowed == b.version_rolling_allowed
    &&& path_eq(a.merkle_path, b.merkle_path)
    &&& a.coinbase_tx_prefix@ == b.coinbase_tx_prefix@
    &&& a.coinbase_tx_suffix@ == b.coinbase_tx_suffix@
}

/// `a` is `b` with its activation time replaced by `mt`.
pub open spec fn job_eq_with_min_ntime(
    a: NewExtendedMiningJob,
    b: NewExtendedMiningJob,
    mt: Option<u32>,
) -> bool {
    &&& a.channel_id == b.channel_id
    &&& a.job_id == b.job_id
    &&& a.min_ntime == mt
    &&& a.version == b.version
    &&& a.version_rolling_allowed == b.version_rolling_allowed
    &&& path_eq(a.merkle_path, b.merkle_path)
    &&& a.coinbase_tx_prefix@ == b.coinbase_tx_prefix@
    &&& a.coinbase_tx_suffix@ == b.coinbase_tx_suffix@
}

/// The two templates carry the same content.
pub open spec fn template_eq(a: NewTemplate, b: NewTemplate) -> bool {
    &&& a.template_id == b.template_id
    &&& a.future_template == b.future_template
    &&& a.version == b.version
    &&& a.coinbase_tx_version == b.coinbase_tx_version
    &&& a.coinbase_prefix@ == b.coinbase_prefix@
    &&& a.coinbase_tx_input_sequence == b.coinbase_tx_input_sequence
    &&& a.coinbase_tx_value_remaining == b.coinbase_tx_value_remaining
    &&& a.coinbase_tx_outputs_count == b.coinbase_tx_outputs_count
    &&& a.coinbase_tx_outputs@ == b.coinbase_tx_outputs@
    &&& a.coinbase_tx_locktime == b.coinbase_tx_locktime
    &&& path_eq(a.merkle_path, b.merkle_path)
}

/// Copies every byte string of a merkle path.
pub fn copy_path(p: &Vec<Vec<u8>>) -> (r: Vec<Vec<u8>>)
    ensures
        crate::hashing::path_view(r@) == crate::hashing::path_view(p@),
        r@.len() == p@.len(),
{
    let mut r: Vec<Vec<u8>> = Vec::new();
    let mut i: usize = 0;
    while i < p.len()
        invariant
            i <= p@.len(),
            r@.len() == i,
            forall|j: int| 0 <= j < i ==> (#[trigger] r@[j])@ == p@[j]@,
        decreases p@.len() - i,
    {
        r.push(copy_bytes(&p[i]));
        i = i + 1;
    }
    proof {
        assert(crate::hashing::path_view(r@) =~= crate::hashing::path_view(p@));
    }
    r
}

impl NewExtendedMiningJob {
    /// A future job is one whose activation time is still unknown.
    pub fn is_future(&self) -> (r: bool)
        ensures
            r == (self.min_ntime is None),
    {
        self.min_ntime.is_none()
    }

    /// Marks the job future again.
    pub fn set_future(&mut self)
        ensures
            job_eq_with_min_ntime(*final(self), *old(self), None),
    {
        self.min_ntime = None;
    }

    /// Activates the job at time `ntime`.
    pub fn set_no_future(&mut self, ntime: u32)
        ensures
            job_eq_with_min_ntime(*final(self), *old(self), Some(ntime)),
    {
        self.min_ntime = Some(ntime);
    }

    /// A fresh job with the same content.
    pub fn duplicate(&self) -> (r: Self)
        ensures
            job_eq(r, *self),
    {
        NewExtendedMiningJob {
            channel_id: self.channel_id,
            job_id: self.job_id,
            min_ntime: self.min_ntime,
            version: self.version,
            version_rolling_allowed: self.version_rolling_allowed,
            merkle_path: copy_path(&self.merkle_path),
            coinbase_tx_prefix: copy_bytes(&self.coinbase_tx_prefix),
            coinbase_tx_suffix: copy_bytes(&self.coinbase_tx_suffix),
        }
    }
}

impl NewTemplate {
    /// A fresh template with the same content.
    pub fn duplicate(&self) -> (r: Self)
        ensures
            template_eq(r, *self),
    {
        NewTemplate {
            template_id: self.template_id,
            future_template: self.future_template,
            version: self.version,
            coinbase_tx_version: self.coinbase_tx_version,
            coinbase_prefix: copy_bytes(&self.coinbase_prefix),
            coinbase_tx_input_sequence: self.coinbase_tx_input_sequence,
            coinbase_tx_value_remaining: self.coinbase_tx_value_remaining,
            coinbase_tx_outputs_count: self.coinbase_tx_outputs_count,
            coinbase_tx_outputs: copy_bytes(&self.coinbase_tx_outputs),
            coinbase_tx_locktime: self.coinbase_tx_locktime,
            merkle_path: copy_path(&self.merkle_path),
        }
    }
}

impl StagedPhash {
    /// The staged previous-block hash as a `SetNewPrevHash` addressed to
    /// `channel_id`, under `new_job_id` when one is given and the staged
    /// job id otherwise.
    pub fn into_set_p_hash(&self, channel_id: u32, new_job_id: Option<u32>) -> (r: SetNewPrevHash)
        ensures
            r.channel_id == channel_id,
            r.job_id == match new_job_id {
                Some(j) => j,
                None => self.job_id,
            },
            r.prev_hash@ == self.prev_hash@,
            r.min_ntime == self.min_ntime,
            r.nbits == self.nbits,
    {
        let job_id = match new_job_id {
            Some(j) => j,
            None => self.job_id,
        };
        SetNewPrevHash {
            channel_id,
            job_id,
            prev_hash: copy_bytes(&self.prev_hash),
            min_ntime: self.min_ntime,
            nbits: self.nbits,
        }
    }
}

impl Share {
    pub open spec fn spec_sequence_number(self) -> u32 {
        match self {
            Share::Extended(s) => s.sequence_number,
            Share::Standard((s, _)) => s.sequence_number,
        }
    }

    pub open spec fn spec_channel_id(self) -> u32 {
        match self {
            Share::Extended(s) => s.channel_id,
            Share::Standard((s, _)) => s.channel_id,
        }
    }

    pub open spec fn spec_n_time(self) -> u32 {
        match self {
            Share::Extended(s) => s.ntime,
            Share::Standard((s, _)) => s.ntime,
        }
    }

    pub open spec fn spec_nonce(self) -> u32 {
        match self {
            Share::Extended(s) => s.nonce,
            Share::Standard((s, _)) => s.nonce,
        }
    }

    pub open spec fn spec_job_id(self) -> u32 {
        match self {
            Share::Extended(s) => s.job_id,
            Share::Standard((s, _)) => s.job_id,
        }
    }

    pub open spec fn spec_version(self) -> u32 {
        match self {
            Share::Extended(s) => s.version,
            Share::Standard((s, _)) => s.version,
        }
    }

    /// Get share sequence number.
    pub fn get_sequence_number(&self) -> (r: u32)
        ensures
            r == self.spec_sequence_number(),
    {
        match self {
            Share::Extended(s) => s.sequence_number,
            Share::Standard(s) => s.0.sequence_number,
        }
    }

    /// Get share channel id.
    pub fn get_channel_id(&self) -> (r: u32)
        ensures
            r == self.spec_channel_id(),
    {
        match self {
            Share::Extended(s) => s.channel_id,
            Share::Standard(s) => s.0.channel_id,
        }
    }

    /// Get share timestamp.
    pub fn get_n_time(&self) -> (r: u32)
        ensures
            r == self.spec_n_time(),
    {
        match self {
            Share::Extended(s) => s.ntime,
            Share::Standard(s) => s.0.ntime,
        }
    }

    /// Get share nonce.
    pub fn get_nonce(&self) -> (r: u32)
        ensures
            r == self.spec_nonce(),
    {
        match self {
            Share::Extended(s) => s.nonce,
            Share::Standard(s) => s.0.nonce,
        }
    }

    /// Get share job id.
    pub fn get_job_id(&self) -> (r: u32)
        ensures
            r == self.spec_job_id(),
    {
        match self {
            Share::Extended(s) => s.job_id,
            Share::Standard(s) => s.0.job_id,
        }
    }

    /// Get share version.
    pub fn get_version(&self) -> (r: u32)
        ensures
            r == self.spec_version(),
    {
        match self {
            Share::Extended(s) => s.version,
            Share::Standard(s) => s.0.version,
        }
    }
}

/// `e` is the standard share `s` rewritten to an extended share on the
/// upstream channel `up_id`, carrying `ext` as its extranonce.
pub open spec fn extended_from_standard(
    e: SubmitSharesExtended,
    s: SubmitSharesStandard,
    ext: Seq<u8>,
    up_id: u32,
) -> bool {
    &&& e.channel_id == up_id
    &&& e.sequence_number == s.sequence_number
    &&& e.job_id == s.job_id
    &&& e.nonce == s.nonce
    &&& e.ntime == s.ntime
    &&& e.version == s.version
    &&& e.extranonce@ == ext
}

impl OnNewShare {
    /// Converts a standard share carried by the result into an extended
    /// share on the upstream channel `up_id` with extranonce `extranonce`;
    /// a result that already carries an extended share, an error, or a
    /// plain relay is left as it stands.
    pub fn into_extended(&mut self, extranonce: Vec<u8>, up_id: u32)
        requires
            !(*old(self) is ShareMeetDownstreamTarget),
        ensures
            match *old(self) {
                OnNewShare::SendErrorDownstream(_) => *final(self) == *old(self),
                OnNewShare::RelaySubmitShareUpstream => *final(self) == *old(self),
                OnNewShare::ShareMeetDownstreamTarget => true,
                OnNewShare::SendSubmitShareUpstream((share, tid)) => match share {
                    Share::Extended(_) => *final(self) == *old(self),
                    Share::Standard((s, _)) => *final(self)
                        matches OnNewShare::SendSubmitShareUpstream((Share::Extended(e), tid2))
                        && tid2 == tid && extended_from_standard(e, s, extranonce@, up_id),
                },
                OnNewShare::ShareMeetBitcoinTarget((share, tid, cb, ext)) => match share {
                    Share::Extended(_) => *final(self) == *old(self),
                    Share::Standard((s, _)) => *final(self)
                        matches OnNewShare::ShareMeetBitcoinTarget(
                        (Share::Extended(e), tid2, cb2, ext2),
                    ) && tid2 == tid && cb2@ == cb@ && ext2@ == ext@
                        && extended_from_standard(e, s, extranonce@, up_id),
                },
            },
    {
        let replacement: Option<OnNewShare> = match &*self {
            OnNewShare::SendErrorDownstream(_) => None,
            OnNewShare::RelaySubmitShareUpstream => None,
            OnNewShare::ShareMeetDownstreamTarget => None,
            OnNewShare::SendSubmitShareUpstream((share, tid)) => match share {
                Share::Extended(_) => None,
                Share::Standard((s, _g)) => {
                    let e = SubmitSharesExtended {
                        channel_id: up_id,
                        sequence_number: s.sequence_number,
                        job_id: s.job_id,
                        nonce: s.nonce,
                        ntime: s.ntime,
                        version: s.version,
                        extranonce,
                    };
                    Some(OnNewShare::SendSubmitShareUpstream((Share::Extended(e), *tid)))
                },
            },
            OnNewShare::ShareMeetBitcoinTarget((share, tid, cb, ext)) => match share {
                Share::Extended(_) => None,
                Share::Standard((s, _g)) => {
                    let e = SubmitSharesExtended {
                        channel_id: up_id,
                        sequence_number: s.sequence_number,
                        job_id: s.job_id,
                        nonce: s.nonce,
                        ntime: s.ntime,
                        version: s.version,
                        extranonce,
                    };
                    Some(OnNewShare::ShareMeetBitcoinTarget((
                        Share::Extended(e),
                        *tid,
                        copy_bytes(cb),
                        copy_bytes(ext),
                    )))
                },
            },
        };
        match replacement {
            Some(v) => {
                *self = v;
            },
            None => {},
        }
    }
}

} // verus!
