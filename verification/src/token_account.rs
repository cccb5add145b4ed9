//! A plain-value model of the external token-balance accounts the contract
//! reads: the escrow holding the locked funds, the funding account, and the
//! destination accounts. Parsing the external wire layout is delegated to
//! the token program's own library and trusted against the layout its
//! source documents.

use vstd::bytes::spec_u64_from_le_bytes;
use vstd::prelude::*;

verus! {

/// Exact byte length of a packed token account.
pub const TOKEN_ACCOUNT_LEN: usize = 165;

/// The fields of a token account that the transition engine reads.
#[derive(Clone, Copy, Debug)]
pub struct TokenAccount {
    /// The mint this account holds balances of.
    pub mint: [u8; 32],
    /// The authority that controls this account's balance.
    pub owner: [u8; 32],
    /// The balance.
    pub amount: u64,
    /// Whether a delegate authority has been granted.
    pub has_delegate: bool,
    /// Whether a close authority has been granted.
    pub has_close_authority: bool,
}

/// Whether the four bytes starting at `at` are a valid optional-field tag:
/// zero for absent, one for present, in four little-endian bytes.
pub open spec fn spec_coption_tag_ok(s: Seq<u8>, at: int) -> bool {
    &&& (s[at] == 0 || s[at] == 1)
    &&& s[at + 1] == 0
    &&& s[at + 2] == 0
    &&& s[at + 3] == 0
}

/// Whether a byte buffer parses as an initialized token account: exactly 165
/// bytes, well-formed optional-field tags for the delegate (at 72), native
/// marker (at 109) and close authority (at 129), and a state byte (at 108)
/// that is initialized (1) or frozen (2).
pub open spec fn token_account_parse_ok(s: Seq<u8>) -> bool {
    &&& s.len() == TOKEN_ACCOUNT_LEN
    &&& spec_coption_tag_ok(s, 72)
    &&& (s[108] == 1 || s[108] == 2)
    &&& spec_coption_tag_ok(s, 109)
    &&& spec_coption_tag_ok(s, 129)
}

/// The mint stored in a packed token account.
pub open spec fn spec_token_mint(s: Seq<u8>) -> Seq<u8> {
    s.subrange(0, 32)
}

/// The owner stored in a packed token account.
pub open spec fn spec_token_owner(s: Seq<u8>) -> Seq<u8> {
    s.subrange(32, 64)
}

/// The balance stored in a packed token account.
pub open spec fn spec_token_amount(s: Seq<u8>) -> u64 {
    spec_u64_from_le_bytes(s.subrange(64, 72))
}

/// Whether a packed token account has a delegate authority set.
pub open spec fn spec_token_has_delegate(s: Seq<u8>) -> bool {
    s[72] == 1
}

/// Whether a packed token account has a close authority set.
pub open spec fn spec_token_has_close_authority(s: Seq<u8>) -> bool {
    s[129] == 1
}

/// Relies on `spl_token::state::Account::unpack` and the token account wire
/// layout its source defines: mint at 0..32, owner at 32..64, little-endian
/// amount at 64..72, delegate tag at 72..76, state byte at 108, native tag
/// at 109..113, close-authority tag at 129..133; it rejects any length other
/// than 165, a malformed optional-field tag, an unknown state byte, and the
/// uninitialized state.
#[verifier::external_body]
pub(crate) fn unpack_token_account(data: &[u8]) -> (r: Option<TokenAccount>)
    ensures
        r is Some <==> token_account_parse_ok(data@),
        r matches Some(t) ==> {
            &&& t.mint@ == spec_token_mint(data@)
            &&& t.owner@ == spec_token_owner(data@)
            &&& t.amount == spec_token_amount(data@)
            &&& t.has_delegate == spec_token_has_delegate(data@)
            &&& t.has_close_authority == spec_token_has_close_authority(data@)
        },
{
    match <spl_token::state::Account as solana_program::program_pack::Pack>::unpack(data) {
        Ok(a) => Some(TokenAccount {
            mint: a.mint.to_bytes(),
            owner: a.owner.to_bytes(),
            amount: a.amount,
            has_delegate: a.delegate.is_some(),
            has_close_authority: a.close_authority.is_some(),
        }),
        Err(_) => None,
    }
}

} // verus!
