//! The derived-authority scheme: a deterministic, keyless address computed
//! from a caller-chosen 32-byte seed and the program's own identity. The
//! contract asserts authority over its storage and escrow accounts by
//! re-deriving this address and comparing it with the accounts supplied.

use vstd::prelude::*;

verus! {

/// The address derived from a 32-byte seed and a program identity by the
/// host's one-way derivation, when the derivation lands off the signing
/// curve; no private key corresponds to such an address.
pub uninterp spec fn derived_address(seed: Seq<u8>, program: Seq<u8>) -> Option<Seq<u8>>;

/// Relies on `solana_program::pubkey::Pubkey::create_program_address` with a
/// single 32-byte seed: the result is a function of the seed and the program
/// identity alone, and the call fails exactly when the derivation lands on
/// the curve.
#[verifier::external_body]
pub(crate) fn create_program_address(seeds: &[u8; 32], program_id: &[u8; 32]) -> (r: Option<
    [u8; 32],
>)
    ensures
        match r {
            Some(a) => derived_address(seeds@, program_id@) == Some(a@),
            None => derived_address(seeds@, program_id@) is None,
        },
{
    let program = solana_program::pubkey::Pubkey::new_from_array(*program_id);
    match solana_program::pubkey::Pubkey::create_program_address(&[seeds.as_slice()], &program) {
        Ok(key) => Some(key.to_bytes()),
        Err(_) => None,
    }
}

/// Compare two 32-byte account addresses.
pub fn addr_eq(a: &[u8; 32], b: &[u8; 32]) -> (r: bool)
    ensures
        r <==> a@ == b@,
{
    let mut i: usize = 0;
    while i < 32
        invariant
            0 <= i <= 32,
            forall|j: int| 0 <= j < i ==> a@[j] == b@[j],
        decreases 32 - i,
    {
        if a[i] != b[i] {
            return false;
        }
        i += 1;
    }
    proof {
        assert(a@ =~= b@);
    }
    true
}

/// Copy the 32-byte address stored in `s` at `offset`.
pub fn read_address(s: &[u8], offset: usize) -> (r: [u8; 32])
    requires
        offset + 32 <= s@.len(),
    ensures
        r@ == s@.subrange(offset as int, offset + 32),
{
    let mut r = [0u8; 32];
    let s_len = s.len();
    let mut i: usize = 0;
    while i < 32
        invariant
            0 <= i <= 32,
            offset + 32 <= s_len == s@.len(),
            forall|j: int| 0 <= j < i ==> r@[j] == s@[offset + j],
        decreases 32 - i,
    {
        r[i] = s[offset + i];
        i += 1;
    }
    proof {
        assert(r@ =~= s@.subrange(offset as int, offset + 32));
    }
    r
}

/// Append a 32-byte address to `buf`.
pub fn push_address(buf: &mut Vec<u8>, addr: &[u8; 32])
    ensures
        final(buf)@ == old(buf)@ + addr@,
{
    let mut i: usize = 0;
    while i < 32
        invariant
            0 <= i <= 32,
            buf@ == old(buf)@ + addr@.take(i as int),
        decreases 32 - i,
    {
        buf.push(addr[i]);
        proof {
            assert(old(buf)@ + addr@.take(i as int) + seq![addr@[i as int]] =~= old(buf)@
                + addr@.take(i + 1));
        }
        i += 1;
    }
    proof {
        assert(addr@.take(32) =~= addr@);
    }
}

} // verus!
