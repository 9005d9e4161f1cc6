use vstd::prelude::*;
use crate::pubkey::Pubkey;

verus! {

/// A four-byte optional tag: none or some.
pub open spec fn option_tag_ok(d: Seq<u8>, at: int) -> bool {
    (d[at] == 0 || d[at] == 1) && d[at + 1] == 0 && d[at + 2] == 0 && d[at + 3] == 0
}

/// Whether bytes hold an initialized token account: the length, the three
/// optional tags (delegate, native amount, close authority) and a state byte
/// that is initialized or frozen.
pub open spec fn token_account_decodes(d: Seq<u8>) -> bool {
    &&& d.len() == 165
    &&& option_tag_ok(d, 72)
    &&& (d[108] == 1 || d[108] == 2)
    &&& option_tag_ok(d, 109)
    &&& option_tag_ok(d, 129)
}

/// The two fields of a token account that the order handlers read.
#[derive(Clone, Copy, Debug)]
pub struct TokenAccountKeys {
    pub mint: Pubkey,
    pub owner: Pubkey,
}

/// Relies on `Pack::unpack` of `spl_token::state::Account`: it wants exactly
/// 165 bytes, valid optional tags and an initialized state, and reads the
/// mint from bytes 0..32 and the owner from bytes 32..64.
#[verifier::external_body]
pub(crate) fn unpack_token_account(data: &[u8]) -> (r: Option<TokenAccountKeys>)
    ensures
        r is Some == token_account_decodes(data@),
        match r {
            Some(t) => t.mint@ == data@.subrange(0, 32) && t.owner@ == data@.subrange(32, 64),
            None => true,
        },
{
    <spl_token::state::Account as solana_program::program_pack::Pack>::unpack(data).ok().map(
        |a| TokenAccountKeys { mint: Pubkey(a.mint.to_bytes()), owner: Pubkey(a.owner.to_bytes()) },
    )
}

} // verus!
