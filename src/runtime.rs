use vstd::prelude::*;
use vstd::bytes::spec_u16_from_le_bytes;
use crate::pubkey::Pubkey;
use crate::state::u64_at;

verus! {

/// Address of the clock sysvar, `SysvarC1ock11111111111111111111111111111111`.
pub open spec fn clock_sysvar_id() -> Seq<u8> {
    seq![
        6u8, 167, 213, 23, 24, 199, 116, 201, 40, 86, 99, 152, 105, 29, 94, 182, 139, 94, 184,
        163, 155, 75, 109, 92, 115, 85, 91, 33, 0, 0, 0, 0,
    ]
}

/// Address of the instructions sysvar, `Sysvar1nstructions1111111111111111111111111`.
pub open spec fn instructions_sysvar_id() -> Seq<u8> {
    seq![
        6u8, 167, 213, 23, 24, 123, 209, 102, 53, 218, 212, 4, 85, 253, 194, 192, 193, 36, 198,
        143, 33, 86, 117, 165, 219, 186, 203, 95, 8, 0, 0, 0,
    ]
}

/// Address of the system program: 32 zero bytes.
pub open spec fn system_program_id() -> Seq<u8> {
    Seq::new(32, |i: int| 0u8)
}

/// Address of the signature-verification program,
/// `Ed25519SigVerify111111111111111111111111111`.
pub open spec fn ed25519_program_id() -> Seq<u8> {
    seq![
        3u8, 125, 70, 214, 124, 147, 251, 190, 18, 249, 66, 143, 131, 141, 64, 255, 5, 112, 116,
        73, 39, 244, 138, 100, 252, 202, 112, 68, 128, 0, 0, 0,
    ]
}

/// Address of the token program, `TokenkegQfeZyiNwAJbNbGKPFXCWuBvf9Ss623VQ5DA`.
pub open spec fn token_program_id() -> Seq<u8> {
    seq![
        6u8, 221, 246, 225, 215, 101, 161, 147, 217, 203, 225, 70, 206, 235, 121, 172, 28, 180,
        133, 237, 95, 91, 55, 145, 58, 140, 245, 133, 126, 255, 0, 169,
    ]
}

/// Address of the associated-token program,
/// `ATokenGPvbdGVxr1b2hvZbsiqW5xWH25efTNsLJA8knL`.
pub open spec fn associated_token_program_id() -> Seq<u8> {
    seq![
        140u8, 151, 37, 143, 78, 36, 137, 241, 187, 61, 16, 41, 20, 142, 13, 131, 11, 90, 19, 153,
        218, 255, 16, 132, 4, 142, 123, 216, 219, 233, 248, 89,
    ]
}

/// Relies on `spl_associated_token_account::id`, declared from the base58
/// string above.
#[verifier::external_body]
pub(crate) fn associated_token_id() -> (r: Pubkey)
    ensures
        r@ == associated_token_program_id(),
{
    Pubkey(spl_associated_token_account::id().to_bytes())
}

/// Relies on `solana_program::sysvar::clock::id`, declared from the base58
/// string above.
#[verifier::external_body]
pub(crate) fn clock_id() -> (r: Pubkey)
    ensures
        r@ == clock_sysvar_id(),
{
    Pubkey(solana_program::sysvar::clock::id().to_bytes())
}

/// Relies on `solana_program::sysvar::instructions::id`, declared from the
/// base58 string above.
#[verifier::external_body]
pub(crate) fn instructions_id() -> (r: Pubkey)
    ensures
        r@ == instructions_sysvar_id(),
{
    Pubkey(solana_program::sysvar::instructions::id().to_bytes())
}

/// Relies on `solana_program::system_program::id`, declared from the base58
/// string above.
#[verifier::external_body]
pub(crate) fn system_id() -> (r: Pubkey)
    ensures
        r@ == system_program_id(),
{
    Pubkey(solana_program::system_program::id().to_bytes())
}

/// Relies on `solana_program::ed25519_program::id`, declared from the base58
/// string above.
#[verifier::external_body]
pub(crate) fn ed25519_id() -> (r: Pubkey)
    ensures
        r@ == ed25519_program_id(),
{
    Pubkey(solana_program::ed25519_program::id().to_bytes())
}

/// Relies on `spl_token::id`, declared from the base58 string above.
#[verifier::external_body]
pub(crate) fn token_id() -> (r: Pubkey)
    ensures
        r@ == token_program_id(),
{
    Pubkey(spl_token::id().to_bytes())
}

/// Relies on `Sysvar::from_account_info` for `Clock`: it refuses any key but
/// the clock sysvar's, then reads the data with `bincode::deserialize`,
/// whose fixed-width little-endian encoding of the five 8-byte fields puts
/// `slot` first and needs 40 bytes.
#[verifier::external_body]
pub(crate) fn clock_slot(key: &Pubkey, data: &[u8]) -> (r: Option<u64>)
    ensures
        r == (if key@ == clock_sysvar_id() && data@.len() >= 40 {
            Some(u64_at(data@, 0))
        } else {
            None
        }),
{
    let key = solana_program::pubkey::Pubkey::new_from_array(key.0);
    let owner = solana_program::sysvar::id();
    let mut lamports: u64 = 0;
    let mut bytes = data.to_vec();
    let info = solana_program::account_info::AccountInfo::new(
        &key, false, false, &mut lamports, &mut bytes, &owner, false, 0,
    );
    <solana_program::sysvar::clock::Clock as solana_program::sysvar::Sysvar>::from_account_info(
        &info,
    ).ok().map(|c| c.slot)
}

/// Relies on `sysvar::instructions::load_current_index`: the index of the
/// running instruction is the little-endian `u16` in the last two bytes of
/// the instructions sysvar. It slices those bytes without a check.
#[verifier::external_body]
#[allow(deprecated)]
pub(crate) fn load_current_index(data: &[u8]) -> (r: u16)
    requires
        data@.len() >= 2,
    ensures
        r == spec_u16_from_le_bytes(data@.subrange(data@.len() - 2, data@.len() as int)),
{
    solana_program::sysvar::instructions::load_current_index(data)
}

/// The program id and data of the instruction at `index` in a serialized
/// instructions sysvar, or `None` where the data does not reach it.
pub uninterp spec fn instruction_at(index: nat, data: Seq<u8>) -> Option<(Seq<u8>, Seq<u8>)>;

/// Relies on `sysvar::instructions::load_instruction_at`, which decodes the
/// instruction at `index` from the sysvar's data and fails where the data is
/// too short; the result depends on the two arguments alone.
#[verifier::external_body]
#[allow(deprecated)]
pub(crate) fn load_instruction_at(index: u16, data: &[u8]) -> (r: Option<(Pubkey, Vec<u8>)>)
    ensures
        match r {
            Some(p) => instruction_at(index as nat, data@) == Some((p.0@, p.1@)),
            None => instruction_at(index as nat, data@) is None,
        },
{
    solana_program::sysvar::instructions::load_instruction_at(index as usize, data).ok().map(
        |i| (Pubkey(i.program_id.to_bytes()), i.data),
    )
}

} // verus!
