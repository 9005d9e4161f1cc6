use vstd::prelude::*;
use vstd::bytes::{spec_u64_to_le_bytes, u64_to_le_bytes};
use crate::error::SwapError;
use crate::pubkey::Pubkey;
use crate::runtime::{associated_token_id, associated_token_program_id, token_id, token_program_id};

verus! {

/// The address and bump seed derived from `seeds` for `program_id`, or
/// `None` where no bump seed gives an address off the curve.
pub uninterp spec fn program_address_of(seeds: Seq<Seq<u8>>, program_id: Seq<u8>) -> Option<
    (Seq<u8>, u8),
>;

/// Relies on `Pubkey::try_find_program_address`: it hashes the seeds with
/// each bump seed from 255 down and returns the first address off the curve,
/// or `None`; the result depends on the arguments alone.
#[verifier::external_body]
fn try_find_program_address(seeds: &Vec<Vec<u8>>, program_id: &Pubkey) -> (r: Option<(Pubkey, u8)>)
    ensures
        match r {
            Some(p) => program_address_of(seeds@.map_values(|s: Vec<u8>| s@), program_id@) == Some((p.0@, p.1)),
            None => program_address_of(seeds@.map_values(|s: Vec<u8>| s@), program_id@) is None,
        },
{
    let seeds: Vec<&[u8]> = seeds.iter().map(|s| s.as_slice()).collect();
    let program_id = solana_program::pubkey::Pubkey::new_from_array(program_id.0);
    solana_program::pubkey::Pubkey::try_find_program_address(&seeds, &program_id).map(
        |(k, b)| (Pubkey(k.to_bytes()), b),
    )
}

/// Seed naming the escrow authority: `OrderWalletAuthority`.
pub open spec fn authority_seed() -> Seq<u8> {
    seq![79u8, 114, 100, 101, 114, 87, 97, 108, 108, 101, 116, 65, 117, 116, 104, 111, 114, 105, 116, 121]
}

/// Seed naming an order record: `OrderAccount`.
pub open spec fn order_seed() -> Seq<u8> {
    seq![79u8, 114, 100, 101, 114, 65, 99, 99, 111, 117, 110, 116]
}

/// The seeds of a seller's escrow authority.
pub open spec fn authority_seeds(seller: Seq<u8>) -> Seq<Seq<u8>> {
    seq![authority_seed(), seller]
}

/// The seeds of the order that `seller` created with nonce `slot`.
pub open spec fn order_seeds(seller: Seq<u8>, slot: u64) -> Seq<Seq<u8>> {
    seq![order_seed(), seller, spec_u64_to_le_bytes(slot)]
}

/// The escrow authority of `seller` under `program_id`.
pub open spec fn wallet_authority_of(program_id: Seq<u8>, seller: Seq<u8>) -> Option<(Seq<u8>, u8)> {
    program_address_of(authority_seeds(seller), program_id)
}

/// The record address of the order that `seller` created with nonce `slot`.
pub open spec fn order_address_of(program_id: Seq<u8>, seller: Seq<u8>, slot: u64) -> Option<
    (Seq<u8>, u8),
> {
    program_address_of(order_seeds(seller, slot), program_id)
}

/// The seeds of the associated token account of `wallet` for `mint`:
/// wallet, token program, mint.
pub open spec fn associated_seeds(wallet: Seq<u8>, mint: Seq<u8>) -> Seq<Seq<u8>> {
    seq![wallet, token_program_id(), mint]
}

/// The associated token account of `wallet` for `mint` and its bump seed:
/// the program address of `associated_seeds` under the associated-token
/// program.
pub open spec fn associated_token_address_of(wallet: Seq<u8>, mint: Seq<u8>) -> Option<(Seq<u8>, u8)> {
    program_address_of(associated_seeds(wallet, mint), associated_token_program_id())
}

/// `key` is the associated token account of `wallet` for `mint`.
pub open spec fn is_associated(key: Seq<u8>, wallet: Seq<u8>, mint: Seq<u8>) -> bool {
    associated_token_address_of(wallet, mint) matches Some(p) && p.0 == key
}

/// Why `key` fails `is_associated`: no address can be derived, or another
/// one is.
pub open spec fn associated_error(wallet: Seq<u8>, mint: Seq<u8>) -> SwapError {
    if associated_token_address_of(wallet, mint) is None {
        SwapError::NoProgramAddress
    } else {
        SwapError::AccountMismatch
    }
}

/// The seed naming the escrow authority, as bytes for signing.
pub fn authority_seed_bytes() -> (r: Vec<u8>)
    ensures
        r@ == authority_seed(),
{
    let r: Vec<u8> = vec![79u8, 114, 100, 101, 114, 87, 97, 108, 108, 101, 116, 65, 117, 116, 104, 111, 114, 105, 116, 121];
    assert(r@ =~= authority_seed());
    r
}

/// The seed naming an order record, as bytes for signing.
pub fn order_seed_bytes() -> (r: Vec<u8>)
    ensures
        r@ == order_seed(),
{
    let r: Vec<u8> = vec![79u8, 114, 100, 101, 114, 65, 99, 99, 111, 117, 110, 116];
    assert(r@ =~= order_seed());
    r
}

/// The associated token account of `wallet` for `mint`, derived as the
/// associated-token program derives it.
pub fn get_associated_token_address(wallet: &Pubkey, mint: &Pubkey) -> (r: Option<Pubkey>)
    ensures
        match r {
            Some(k) => associated_token_address_of(wallet@, mint@) matches Some(p) && k@ == p.0,
            None => associated_token_address_of(wallet@, mint@) is None,
        },
{
    let seeds: Vec<Vec<u8>> = vec![wallet.to_vec(), token_id().to_vec(), mint.to_vec()];
    assert(seeds@.map_values(|s: Vec<u8>| s@) =~= associated_seeds(wallet@, mint@));
    match try_find_program_address(&seeds, &associated_token_id()) {
        Some(p) => Some(p.0),
        None => None,
    }
}

/// The escrow vault: the associated token account of the escrow authority
/// for the sell-token.
pub fn get_order_wallet_address(sell_token_mint: &Pubkey, authority: &Pubkey) -> (r: Option<Pubkey>)
    ensures
        match r {
            Some(k) => associated_token_address_of(authority@, sell_token_mint@) matches Some(p)
                && k@ == p.0,
            None => associated_token_address_of(authority@, sell_token_mint@) is None,
        },
{
    get_associated_token_address(authority, sell_token_mint)
}

/// Checks that `key` is the associated token account of `wallet` for `mint`.
pub fn check_associated_account(key: &Pubkey, wallet: &Pubkey, mint: &Pubkey) -> (r: Result<(), SwapError>)
    ensures
        r is Ok <==> is_associated(key@, wallet@, mint@),
        r matches Err(e) ==> e == associated_error(wallet@, mint@),
{
    match get_associated_token_address(wallet, mint) {
        None => Err(SwapError::NoProgramAddress),
        Some(k) => if k.equals(key) {
            Ok(())
        } else {
            Err(SwapError::AccountMismatch)
        },
    }
}

/// The escrow authority of `seller` and its bump seed.
pub fn get_order_wallet_authority(program_id: &Pubkey, seller: &Pubkey) -> (r: Option<(Pubkey, u8)>)
    ensures
        match r {
            Some(p) => wallet_authority_of(program_id@, seller@) == Some((p.0@, p.1)),
            None => wallet_authority_of(program_id@, seller@) is None,
        },
{
    let seeds: Vec<Vec<u8>> = vec![authority_seed_bytes(), seller.to_vec()];
    assert(seeds@.map_values(|s: Vec<u8>| s@) =~= authority_seeds(seller@));
    try_find_program_address(&seeds, program_id)
}

/// The address of the order that `seller` creates with nonce `order_seed`,
/// and its bump seed.
pub fn get_order_address(program_id: &Pubkey, seller: &Pubkey, order_seed: u64) -> (r: Option<
    (Pubkey, u8),
>)
    ensures
        match r {
            Some(p) => order_address_of(program_id@, seller@, order_seed) == Some((p.0@, p.1)),
            None => order_address_of(program_id@, seller@, order_seed) is None,
        },
{
    let seeds: Vec<Vec<u8>> = vec![order_seed_bytes(), seller.to_vec(), u64_to_le_bytes(order_seed)];
    assert(seeds@.map_values(|s: Vec<u8>| s@) =~= order_seeds(seller@, order_seed));
    try_find_program_address(&seeds, program_id)
}

} // verus!
