//! Extranonce space management.
//!
//! The full extranonce of a share is split into three ranges: `range0`, a
//! prefix owned by the upstream; `range1`, a per-channel prefix issued by
//! this factory; and `range2`, the space the miner rolls. The allocator
//! hands out `range1` values by counting upward, so each opened channel
//! receives a distinct prefix.

use vstd::prelude::*;

use crate::bytes::{append_bytes, copy_bytes};
use crate::Error;

verus! {

/// 256 to the power `n`.
pub open spec fn pow256(n: nat) -> nat
    decreases n,
{
    if n == 0 {
        1
    } else {
        256 * pow256((n - 1) as nat)
    }
}

/// The big-endian bytes of `v`, `len` bytes long (high bytes beyond `len`
/// are cut off).
pub open spec fn be_bytes(v: nat, len: nat) -> Seq<u8>
    decreases len,
{
    if len == 0 {
        Seq::empty()
    } else {
        be_bytes(v / 256, (len - 1) as nat).push((v % 256) as u8)
    }
}

/// The largest counter value the `range1` section of `len` bytes can carry
/// (the counter itself is held in 64 bits).
pub open spec fn counter_cap(len: nat) -> nat {
    if len >= 8 {
        u64::MAX as nat
    } else {
        (pow256(len) - 1) as nat
    }
}

/// The big-endian bytes of `v`, `len` bytes long.
fn be_bytes_exec(v: u64, len: usize) -> (r: Vec<u8>)
    ensures
        r@ == be_bytes(v as nat, len as nat),
        r@.len() == len,
    decreases len,
{
    if len == 0 {
        Vec::new()
    } else {
        let mut r = be_bytes_exec(v / 256, len - 1);
        r.push((v % 256) as u8);
        r
    }
}

/// The largest counter value a `range1` section of `len` bytes can carry.
fn prefix_cap(len: usize) -> (r: u64)
    ensures
        r as nat == counter_cap(len as nat),
{
    proof {
        assert(pow256(1) == 256 * pow256(0));
        assert(pow256(2) == 256 * pow256(1));
        assert(pow256(3) == 256 * pow256(2));
        assert(pow256(4) == 256 * pow256(3));
        assert(pow256(5) == 256 * pow256(4));
        assert(pow256(6) == 256 * pow256(5));
        assert(pow256(7) == 256 * pow256(6));
    }
    if len == 0 {
        0
    } else if len == 1 {
        255
    } else if len == 2 {
        65535
    } else if len == 3 {
        16777215
    } else if len == 4 {
        4294967295
    } else if len == 5 {
        1099511627775
    } else if len == 6 {
        281474976710655
    } else if len == 7 {
        72057594037927935
    } else {
        u64::MAX
    }
}

/// Splits the extranonce space and issues per-channel `range1` prefixes.
pub struct ExtendedExtranonce {
    /// The upstream-owned prefix bytes.
    pub range0: Vec<u8>,
    /// Length of the per-channel prefix issued by this factory.
    pub range1_len: usize,
    /// Length of the space the miner rolls.
    pub range2_len: usize,
    /// Value of the `range1` prefix issued last; 0 before any was issued.
    pub counter: u64,
}

impl ExtendedExtranonce {
    /// The split is sound: everything fits a 32-byte extranonce and the
    /// counter has not outrun its section.
    pub open spec fn wf(self) -> bool {
        &&& self.range0@.len() + self.range1_len + self.range2_len <= 32
        &&& self.counter as nat <= counter_cap(self.range1_len as nat)
    }

    pub open spec fn spec_range0_len(self) -> nat {
        self.range0@.len()
    }

    /// Length of `range0` ‖ `range1`, the static prefix of every channel.
    pub open spec fn prefix_len(self) -> nat {
        (self.range0@.len() + self.range1_len) as nat
    }

    /// Total extranonce length.
    pub open spec fn spec_len(self) -> nat {
        (self.range0@.len() + self.range1_len + self.range2_len) as nat
    }

    /// The `range0` ‖ `range1` bytes as they currently stand.
    pub open spec fn spec_current_prefix(self) -> Seq<u8> {
        self.range0@ + be_bytes(self.counter as nat, self.range1_len as nat)
    }

    pub fn new(range0: Vec<u8>, range1_len: usize, range2_len: usize) -> (r: Self)
        requires
            range0@.len() + range1_len + range2_len <= 32,
        ensures
            r.wf(),
            r.range0@ == range0@,
            r.range1_len == range1_len,
            r.range2_len == range2_len,
            r.counter == 0,
    {
        ExtendedExtranonce { range0, range1_len, range2_len, counter: 0 }
    }

    pub fn get_range0_len(&self) -> (r: usize)
        ensures
            r == self.spec_range0_len(),
    {
        self.range0.len()
    }

    pub fn get_range2_len(&self) -> (r: usize)
        ensures
            r == self.range2_len,
    {
        self.range2_len
    }

    pub fn get_len(&self) -> (r: usize)
        requires
            self.wf(),
        ensures
            r == self.spec_len(),
    {
        self.range0.len() + self.range1_len + self.range2_len
    }

    /// Issues the next per-channel prefix: `range0` followed by the
    /// incremented `range1` counter in big-endian bytes. Fails when the
    /// counter space is used up.
    pub fn next_prefix_extended(&mut self, required_len: usize) -> (r: Result<Vec<u8>, Error>)
        requires
            old(self).wf(),
            required_len <= old(self).range2_len,
        ensures
            final(self).wf(),
            final(self).range0@ == old(self).range0@,
            final(self).range1_len == old(self).range1_len,
            final(self).range2_len == old(self).range2_len,
            ((old(self).counter as nat) < counter_cap(old(self).range1_len as nat)) ==> {
                &&& final(self).counter == old(self).counter + 1
                &&& r matches Ok(p) && p@ == final(self).spec_current_prefix()
                    && p@.len() == old(self).prefix_len()
            },
            ((old(self).counter as nat) == counter_cap(old(self).range1_len as nat)) ==> {
                &&& r is Err
                &&& r == Result::<Vec<u8>, Error>::Err(Error::ExtranonceSpaceEnded)
                &&& *final(self) == *old(self)
            },
    {
        let cap = prefix_cap(self.range1_len);
        if self.counter >= cap {
            return Err(Error::ExtranonceSpaceEnded);
        }
        self.counter = self.counter + 1;
        let mut p = copy_bytes(&self.range0);
        let tail = be_bytes_exec(self.counter, self.range1_len);
        append_bytes(&mut p, &tail);
        Ok(p)
    }

    /// The full extranonce for a downstream-supplied `range2` part: the
    /// current `range0` ‖ `range1` prefix followed by the given bytes.
    /// Fails when the given part does not fill `range2` exactly.
    pub fn extranonce_from_downstream_extranonce(&self, ext: &Vec<u8>) -> (r: Option<Vec<u8>>)
        ensures
            (r is Some) <==> ext@.len() == self.range2_len,
            r matches Some(v) ==> v@ == self.spec_current_prefix() + ext@,
    {
        if ext.len() != self.range2_len {
            return None;
        }
        let mut p = copy_bytes(&self.range0);
        let tail = be_bytes_exec(self.counter, self.range1_len);
        append_bytes(&mut p, &tail);
        append_bytes(&mut p, ext);
        Some(p)
    }
}

} // verus!
