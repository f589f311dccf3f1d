//! Block-header hashing and merkle-root reconstruction.
//!
//! The double-SHA256 digest and the coinbase transaction parse are taken
//! from the bitcoin crate behind trusted wrappers; everything assembled
//! around them (header serialization, merkle fold) is verified.

use vstd::prelude::*;

use crate::bytes::{append_bytes, concat3, copy_bytes, le4, push_le4};
use crate::u256::le_val;
use bitcoin::hashes::Hash as _;

verus! {

/// What SHA-256d (double SHA-256) returns for the given bytes.
pub uninterp spec fn sha256d_of(data: Seq<u8>) -> Seq<u8>;

/// Relies on bitcoin::hashes::sha256d::Hash::hash: the 32-byte double-SHA256
/// digest of the input, a function of the input bytes alone.
#[verifier::external_body]
pub(crate) fn sha256d(data: &Vec<u8>) -> (r: Vec<u8>)
    ensures
        r@ == sha256d_of(data@),
        r@.len() == 32,
{
    bitcoin::hashes::sha256d::Hash::hash(data.as_slice()).to_byte_array().to_vec()
}

/// What parsing the bytes as a serialized bitcoin transaction and taking its
/// txid returns: `None` when the bytes are not one whole valid transaction.
pub uninterp spec fn coinbase_txid_of(data: Seq<u8>) -> Option<Seq<u8>>;

/// Relies on bitcoin::consensus::deserialize::<Transaction>, which accepts
/// exactly the byte strings that are one whole serialized transaction, and
/// on Transaction::compute_txid: both depend on the bytes alone.
#[verifier::external_body]
pub(crate) fn coinbase_txid(data: &Vec<u8>) -> (r: Option<Vec<u8>>)
    ensures
        (r is Some) <==> (coinbase_txid_of(data@) is Some),
        r matches Some(t) ==> coinbase_txid_of(data@) matches Some(s) && t@ == s
            && t@.len() == 32,
{
    match bitcoin::consensus::deserialize::<bitcoin::Transaction>(data.as_slice()) {
        Ok(tx) => Some(tx.compute_txid().to_byte_array().to_vec()),
        Err(_) => None,
    }
}

/// The merkle root obtained by hashing `root` with each path node in turn.
pub open spec fn merkle_fold(root: Seq<u8>, path: Seq<Seq<u8>>) -> Seq<u8>
    decreases path.len(),
{
    if path.len() == 0 {
        root
    } else {
        merkle_fold(sha256d_of(root + path[0]), path.skip(1))
    }
}

/// The byte strings held by a vector of byte vectors.
pub open spec fn path_view(path: Seq<Vec<u8>>) -> Seq<Seq<u8>> {
    path.map_values(|v: Vec<u8>| v@)
}

/// The merkle root of the coinbase `cb_prefix` ‖ `extranonce` ‖ `cb_suffix`
/// folded along `path`; `None` when the coinbase does not parse.
pub open spec fn merkle_root_spec(
    cb_prefix: Seq<u8>,
    cb_suffix: Seq<u8>,
    extranonce: Seq<u8>,
    path: Seq<Seq<u8>>,
) -> Option<Seq<u8>> {
    match coinbase_txid_of(cb_prefix + extranonce + cb_suffix) {
        Some(txid) => Some(merkle_fold(txid, path)),
        None => None,
    }
}

/// Rebuilds the coinbase as `cb_prefix` ‖ `extranonce` ‖ `cb_suffix`, takes
/// its txid and folds it along the merkle path.
pub fn merkle_root_from_path(
    cb_prefix: &Vec<u8>,
    cb_suffix: &Vec<u8>,
    extranonce: &Vec<u8>,
    path: &Vec<Vec<u8>>,
) -> (r: Option<Vec<u8>>)
    ensures
        (r is Some) <==> (merkle_root_spec(cb_prefix@, cb_suffix@, extranonce@, path_view(path@))
            is Some),
        r matches Some(v) ==> merkle_root_spec(
            cb_prefix@,
            cb_suffix@,
            extranonce@,
            path_view(path@),
        ) matches Some(s) && v@ == s && v@.len() == 32,
{
    let coinbase = concat3(cb_prefix, extranonce, cb_suffix);
    match coinbase_txid(&coinbase) {
        None => None,
        Some(txid) => {
            let ghost txid0 = txid@;
            let mut root = txid;
            let mut i: usize = 0;
            proof {
                assert(path_view(path@).skip(0) =~= path_view(path@));
            }
            while i < path.len()
                invariant
                    i <= path@.len(),
                    root@.len() == 32,
                    merkle_fold(root@, path_view(path@).skip(i as int)) == merkle_fold(
                        txid0,
                        path_view(path@),
                    ),
                decreases path@.len() - i,
            {
                let mut buf = copy_bytes(&root);
                append_bytes(&mut buf, &path[i]);
                let new_root = sha256d(&buf);
                proof {
                    assert(path_view(path@)[i as int] == path@[i as int]@);
                    assert(path_view(path@).skip(i as int)[0] == path_view(path@)[i as int]);
                    assert(path_view(path@).skip(i as int).skip(1) =~= path_view(path@).skip(
                        i + 1,
                    ));
                    assert(merkle_fold(root@, path_view(path@).skip(i as int)) == merkle_fold(
                        new_root@,
                        path_view(path@).skip(i + 1),
                    ));
                }
                root = new_root;
                i = i + 1;
            }
            proof {
                assert(path_view(path@).skip(path@.len() as int) =~= Seq::<Seq<u8>>::empty());
            }
            Some(root)
        },
    }
}

/// The 80-byte serialized block header: version, previous block hash,
/// merkle root, time, compact target bits and nonce, each little-endian.
pub open spec fn header_bytes(
    version: u32,
    prev_hash: Seq<u8>,
    merkle_root: Seq<u8>,
    ntime: u32,
    nbits: u32,
    nonce: u32,
) -> Seq<u8> {
    le4(version) + prev_hash + merkle_root + le4(ntime) + le4(nbits) + le4(nonce)
}

/// The numeric value of the double-SHA256 of the assembled header.
pub open spec fn header_hash_val(
    version: u32,
    prev_hash: Seq<u8>,
    merkle_root: Seq<u8>,
    ntime: u32,
    nbits: u32,
    nonce: u32,
) -> nat {
    le_val(sha256d_of(header_bytes(version, prev_hash, merkle_root, ntime, nbits, nonce)))
}

/// Assembles the 80-byte header and hashes it with double SHA-256.
pub fn hash_header(
    version: u32,
    prev_hash: &Vec<u8>,
    merkle_root: &Vec<u8>,
    ntime: u32,
    nbits: u32,
    nonce: u32,
) -> (r: Vec<u8>)
    requires
        prev_hash@.len() == 32,
        merkle_root@.len() == 32,
    ensures
        r@ == sha256d_of(header_bytes(version, prev_hash@, merkle_root@, ntime, nbits, nonce)),
        r@.len() == 32,
{
    let mut h: Vec<u8> = Vec::new();
    push_le4(&mut h, version);
    append_bytes(&mut h, prev_hash);
    append_bytes(&mut h, merkle_root);
    push_le4(&mut h, ntime);
    push_le4(&mut h, nbits);
    push_le4(&mut h, nonce);
    proof {
        assert(h@ =~= header_bytes(version, prev_hash@, merkle_root@, ntime, nbits, nonce));
    }
    sha256d(&h)
}

} // verus!
