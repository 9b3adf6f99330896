//! The stable advisory-lock key under which a tenant's catalog syncs are
//! serialized: the first eight bytes of the SHA-256 digest of the tenant's
//! UUID bytes, read big-endian as a signed 64-bit integer.

use crate::ids::TenantId;
use sha2::Digest;
use vstd::prelude::*;

verus! {

/// What `sha2::Sha256::digest` returns for a byte string.
pub uninterp spec fn sha256_digest(data: Seq<u8>) -> Seq<u8>;

/// Computes the SHA-256 digest of `data` through `sha2::Sha256::digest`.
///
/// Trusted: the result is the named digest of the input bytes, and it is
/// 32 bytes long, as the output size of SHA-256 is.
#[verifier::external_body]
fn sha256(data: &[u8]) -> (r: Vec<u8>)
    ensures
        r@ == sha256_digest(data@),
        r@.len() == 32,
{
    sha2::Sha256::digest(data).to_vec()
}

/// Byte `i` (0 = most significant) of the big-endian form of a UUID value.
pub open spec fn uuid_byte(x: u128, i: int) -> u8 {
    ((x >> (((15 - i) * 8) as u128)) & 0xffu128) as u8
}

/// The 16 bytes of a UUID, most significant first, as `Uuid::as_bytes`
/// gives them.
pub open spec fn uuid_bytes_spec(x: u128) -> Seq<u8> {
    Seq::new(16, |i: int| uuid_byte(x, i))
}

/// The first `n` bytes of `d` read as a big-endian unsigned number.
pub open spec fn be_value(d: Seq<u8>, n: nat) -> nat
    decreases n,
{
    if n == 0 {
        0
    } else {
        be_value(d, (n - 1) as nat) * 256 + d[n - 1] as nat
    }
}

/// 256 to the power `n`.
pub open spec fn pow256(n: nat) -> nat
    decreases n,
{
    if n == 0 {
        1
    } else {
        pow256((n - 1) as nat) * 256
    }
}

/// The advisory-lock key of a tenant.
pub open spec fn advisory_lock_key_spec(tenant_id: TenantId) -> i64 {
    (be_value(sha256_digest(uuid_bytes_spec(tenant_id.0)), 8) as u64) as i64
}

fn uuid_bytes(x: u128) -> (r: Vec<u8>)
    ensures
        r@ == uuid_bytes_spec(x),
{
    let mut out: Vec<u8> = Vec::new();
    for i in 0..16usize
        invariant
            out@.len() == i,
            forall|k: int| 0 <= k < i ==> out@[k] == uuid_byte(x, k),
    {
        let shift: u128 = ((15 - i) * 8) as u128;
        out.push(((x >> shift) & 0xff) as u8);
    }
    assert(out@ =~= uuid_bytes_spec(x));
    out
}

/// Derives the advisory-lock key of a tenant: deterministic for a tenant,
/// whatever the toolchain.
pub fn advisory_lock_key(tenant_id: TenantId) -> (r: i64)
    ensures
        r == advisory_lock_key_spec(tenant_id),
{
    let bytes = uuid_bytes(tenant_id.0);
    let digest = sha256(bytes.as_slice());
    let mut acc: u64 = 0;
    proof {
        reveal_with_fuel(pow256, 9);
        assert(pow256(8) == 0x1_0000_0000_0000_0000);
        assert(pow256(0) * pow256(8) == pow256(8));
    }
    for i in 0..8usize
        invariant
            digest@.len() == 32,
            acc as nat == be_value(digest@, i as nat),
            (acc as nat) < pow256(i as nat),
            pow256(i as nat) * pow256((8 - i) as nat) == pow256(8),
            pow256(8) == 0x1_0000_0000_0000_0000,
    {
        let b = digest[i];
        proof {
            assert(pow256((8 - i) as nat) == pow256((8 - i - 1) as nat) * 256);
            assert(pow256((i + 1) as nat) == pow256(i as nat) * 256);
            assert((acc as nat) * 256 + (b as nat) < pow256(i as nat) * 256) by (nonlinear_arith)
                requires
                    (acc as nat) < pow256(i as nat),
                    (b as nat) < 256,
            ;
            assert(pow256((i + 1) as nat) * pow256((8 - i - 1) as nat) == pow256(8)) by (nonlinear_arith)
                requires
                    pow256(i as nat) * pow256((8 - i) as nat) == pow256(8),
                    pow256((8 - i) as nat) == pow256((8 - i - 1) as nat) * 256,
                    pow256((i + 1) as nat) == pow256(i as nat) * 256,
            ;
            assert(pow256((8 - i - 1) as nat) >= 1) by {
                lemma_pow256_positive((8 - i - 1) as nat);
            }
            assert(pow256((i + 1) as nat) <= pow256(8)) by (nonlinear_arith)
                requires
                    pow256((i + 1) as nat) * pow256((8 - i - 1) as nat) == pow256(8),
                    pow256((8 - i - 1) as nat) >= 1,
            ;
        }
        acc = acc * 256 + b as u64;
    }
    #[verifier::truncate]
    (acc as i64)
}

proof fn lemma_pow256_positive(n: nat)
    ensures
        pow256(n) >= 1,
    decreases n,
{
    if n > 0 {
        lemma_pow256_positive((n - 1) as nat);
    }
}

} // verus!
