use vstd::prelude::*;


use crate::error::WalletError;

verus! {

/// The compressed point `k·P` for the compressed point `p` and the 32-byte
/// big-endian scalar `k`; `None` where either is invalid or the product is
/// the point at infinity.
pub uninterp spec fn point_mul(p: Seq<u8>, k: Seq<u8>) -> Option<Seq<u8>>;

/// The compressed point `P + t·G`; `None` where an input is invalid or the
/// sum is the point at infinity.
pub uninterp spec fn point_add_exp(p: Seq<u8>, t: Seq<u8>) -> Option<Seq<u8>>;

/// The SHA-256 digest of the bytes.
pub uninterp spec fn sha256_of(d: Seq<u8>) -> Seq<u8>;

/// Relies on secp256k1's `PublicKey::from_slice`, `Scalar::from_be_bytes`,
/// `PublicKey::mul_tweak` and `PublicKey::serialize`.
#[verifier::external_body]
fn mul_point(p: &Vec<u8>, k: &[u8; 32]) -> (r: Option<Vec<u8>>)
    ensures
        match r {
            Some(q) => point_mul(p@, k@) == Some(q@),
            None => point_mul(p@, k@) is None,
        },
{
    let secp = bitcoin::secp256k1::Secp256k1::verification_only();
    let pk = bitcoin::secp256k1::PublicKey::from_slice(p).ok()?;
    let s = bitcoin::secp256k1::Scalar::from_be_bytes(*k).ok()?;
    pk.mul_tweak(&secp, &s).ok().map(|q| q.serialize().to_vec())
}

/// Relies on secp256k1's `PublicKey::from_slice`, `Scalar::from_be_bytes`,
/// `PublicKey::add_exp_tweak` and `PublicKey::serialize`.
#[verifier::external_body]
fn add_exp_point(p: &Vec<u8>, t: &[u8; 32]) -> (r: Option<Vec<u8>>)
    ensures
        match r {
            Some(q) => point_add_exp(p@, t@) == Some(q@),
            None => point_add_exp(p@, t@) is None,
        },
{
    let secp = bitcoin::secp256k1::Secp256k1::verification_only();
    let pk = bitcoin::secp256k1::PublicKey::from_slice(p).ok()?;
    let s = bitcoin::secp256k1::Scalar::from_be_bytes(*t).ok()?;
    pk.add_exp_tweak(&secp, &s).ok().map(|q| q.serialize().to_vec())
}

/// Relies on bitcoin_hashes' `sha256::Hash::hash`.
#[verifier::external_body]
fn sha256(d: &Vec<u8>) -> (r: [u8; 32])
    ensures
        r@ == sha256_of(d@),
{
    bitcoin::hashes::Hash::to_byte_array(<bitcoin::hashes::sha256::Hash as bitcoin::hashes::Hash>::hash(d))
}

/// The tag of the shared-secret hash, `BIP0352/SharedSecret` in ASCII.
pub open spec fn shared_secret_tag() -> Seq<u8> {
    seq![66u8, 73, 80, 48, 51, 53, 50, 47, 83, 104, 97, 114, 101, 100, 83, 101, 99, 114, 101, 116]
}

/// A tagged hash: SHA-256 over the tag's digest twice, then the message.
pub open spec fn tagged_hash(tag: Seq<u8>, msg: Seq<u8>) -> Seq<u8> {
    sha256_of(sha256_of(tag) + sha256_of(tag) + msg)
}

/// The counter as four big-endian bytes.
pub open spec fn ser32(k: u32) -> Seq<u8> {
    seq![(k >> 24u32) as u8, ((k >> 16u32) & 0xffu32) as u8, ((k >> 8u32) & 0xffu32) as u8, (k & 0xffu32) as u8]
}

/// The `k`-th one-time output key for a recipient: its spend key tweaked by
/// the tagged hash of the shared point and the counter `k`.
pub open spec fn sp_output_key(ecdh: Seq<u8>, spend_pub: Seq<u8>, k: u32) -> Option<Seq<u8>> {
    point_add_exp(spend_pub, tagged_hash(shared_secret_tag(), ecdh + ser32(k)))
}

/// Appends the bytes of `src` to `dst`.
fn append_bytes(dst: &mut Vec<u8>, src: &Vec<u8>)
    ensures
        final(dst)@ == old(dst)@ + src@,
{
    let mut c = src.clone();
    dst.append(&mut c);
}

/// The one-time output keys of a silent-payment recipient with scan key
/// `scan_pub` and spend key `spend_pub`, for the counters `0..n`, from the
/// partial secret of the transaction's inputs. The shared point is the
/// partial secret times the scan key. Fails with `TweakError` where the
/// shared point or one of the keys cannot be formed.
pub fn sp_output_keys(partial_secret: &[u8; 32], scan_pub: &Vec<u8>, spend_pub: &Vec<u8>, n: u32) -> (r: Result<
    Vec<Vec<u8>>,
    WalletError,
>)
    ensures
        match point_mul(scan_pub@, partial_secret@) {
            None => r == Err::<Vec<Vec<u8>>, WalletError>(WalletError::TweakError),
            Some(ecdh) => if forall|k: u32| k < n ==> #[trigger] sp_output_key(ecdh, spend_pub@, k) is Some {
                r matches Ok(v) && v@.len() == n && forall|k: u32|
                    k < n ==> Some(#[trigger] v@[k as int]@) == sp_output_key(ecdh, spend_pub@, k)
            } else {
                r == Err::<Vec<Vec<u8>>, WalletError>(WalletError::TweakError)
            },
        },
{
    let ecdh = match mul_point(scan_pub, partial_secret) {
        Some(e) => e,
        None => return Err(WalletError::TweakError),
    };
    let tag: Vec<u8> = vec![66u8, 73, 80, 48, 51, 53, 50, 47, 83, 104, 97, 114, 101, 100, 83, 101, 99, 114, 101, 116];
    assert(tag@ =~= shared_secret_tag());
    let th = sha256(&tag);
    let mut prefix: Vec<u8> = Vec::new();
    prefix.extend_from_slice(&th);
    prefix.extend_from_slice(&th);
    assert(prefix@ =~= sha256_of(shared_secret_tag()) + sha256_of(shared_secret_tag()));
    let mut keys: Vec<Vec<u8>> = Vec::new();
    let mut k: u32 = 0;
    while k < n
        invariant
            point_mul(scan_pub@, partial_secret@) == Some(ecdh@),
            prefix@ == sha256_of(shared_secret_tag()) + sha256_of(shared_secret_tag()),
            k <= n,
            keys@.len() == k,
            forall|j: u32| j < k ==> Some(#[trigger] keys@[j as int]@) == sp_output_key(ecdh@, spend_pub@, j),
        decreases n - k,
    {
        let mut msg: Vec<u8> = Vec::new();
        append_bytes(&mut msg, &prefix);
        append_bytes(&mut msg, &ecdh);
        let counter: Vec<u8> = vec![(k >> 24u32) as u8, ((k >> 16u32) & 0xffu32) as u8, ((k >> 8u32) & 0xffu32) as u8, (k & 0xffu32) as u8];
        assert(counter@ =~= ser32(k));
        append_bytes(&mut msg, &counter);
        assert(msg@ =~= sha256_of(shared_secret_tag()) + sha256_of(shared_secret_tag()) + (ecdh@ + ser32(k)));
        let t = sha256(&msg);
        match add_exp_point(spend_pub, &t) {
            Some(p) => {
                let ghost before = keys@;
                keys.push(p);
                proof {
                    assert forall|j: u32| j < k + 1 implies Some(#[trigger] keys@[j as int]@) == sp_output_key(ecdh@, spend_pub@, j) by {
                        if j < k {
                            assert(keys@[j as int] == before[j as int]);
                        }
                    }
                }
            },
            None => {
                assert(sp_output_key(ecdh@, spend_pub@, k) is None);
                assert(!(forall|j: u32| j < n ==> #[trigger] sp_output_key(ecdh@, spend_pub@, j) is Some));
                return Err(WalletError::TweakError);
            },
        }
        k = k + 1;
    }
    assert forall|j: u32| j < n implies #[trigger] sp_output_key(ecdh@, spend_pub@, j) is Some by {
        assert(Some(keys@[j as int]@) == sp_output_key(ecdh@, spend_pub@, j));
    }
    Ok(keys)
}

/// Deriving the one-time keys depends on the shared point, the spend key
/// and the counter alone: running it again on equal values gives the same
/// key, byte for byte.
pub proof fn lemma_sp_output_key_deterministic(e1: Seq<u8>, e2: Seq<u8>, s1: Seq<u8>, s2: Seq<u8>, k: u32)
    requires
        e1 == e2,
        s1 == s2,
    ensures
        sp_output_key(e1, s1, k) == sp_output_key(e2, s2, k),
{
}

} // verus!
