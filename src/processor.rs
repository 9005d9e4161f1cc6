use vstd::prelude::*;
use vstd::bytes::{spec_u16_from_le_bytes, spec_u64_from_le_bytes};
use crate::address::{
    associated_error, check_associated_account, get_order_address, get_order_wallet_authority,
    is_associated, order_address_of, wallet_authority_of,
};
use crate::error::SwapError;
use crate::instruction::{
    create_args_of, decode_amount, decode_create_args, instruction_of_tag, P2PSwapInstructions,
};
use crate::pubkey::Pubkey;
use crate::runtime::{
    clock_id, clock_slot, clock_sysvar_id, ed25519_id, ed25519_program_id, instruction_at,
    instructions_id, instructions_sysvar_id, load_current_index, load_instruction_at, system_id,
    system_program_id, token_id, token_program_id,
};
use crate::state::{blank_record, decode_order, decodes_to, lemma_decode_order, order_decodes, u64_at, SwapSPLOrder};
use crate::token::{token_account_decodes, unpack_token_account, TokenAccountKeys};

verus! {

/// What a handler sees of one account that the instruction names.
pub struct AccountView {
    pub key: Pubkey,
    pub is_signer: bool,
    pub lamports: u64,
    pub data: Vec<u8>,
}

/// A movement of `amount` tokens that the token program performs on the
/// signature of `authority`.
#[derive(Clone, Copy, Debug)]
pub struct TokenTransfer {
    pub source: Pubkey,
    pub destination: Pubkey,
    pub authority: Pubkey,
    pub amount: u64,
}

/// How many slots the creation slot may lag behind the clock.
pub const MAX_SLOT_DIFFERENCE: u64 = 150;

/// The effects of an accepted order creation.
#[derive(Clone, Copy, Debug)]
pub struct CreatedOrder {
    /// Sell-token from the seller's wallet into the vault, signed by the seller.
    pub deposit: TokenTransfer,
    /// Where the record is allocated, and the bump seed that signs for it.
    pub order_address: Pubkey,
    pub order_bump: u8,
    /// The record to store.
    pub order: SwapSPLOrder,
}

/// The effects of an accepted revocation.
#[derive(Clone, Copy, Debug)]
pub struct RevokedOrder {
    /// Sell-token from the vault back to the seller's wallet, signed by the
    /// escrow authority.
    pub refund: TokenTransfer,
    /// Seller whose escrow authority signs the refund.
    pub seller: Pubkey,
    /// Bump seed of that escrow authority.
    pub authority_bump: u8,
    /// The record to store back; `None` where nothing remains, and the
    /// record is then zeroed.
    pub order: Option<SwapSPLOrder>,
    /// The record's lamports, paid to the caller when the record is zeroed;
    /// zero otherwise.
    pub reclaimed_lamports: u64,
}

/// The effects of an accepted fill: both legs commit together with the
/// updated record, or none does.
#[derive(Clone, Copy, Debug)]
pub struct FilledOrder {
    /// Sell-token from the vault to the buyer, signed by the escrow authority.
    pub release: TokenTransfer,
    /// Buy-token from the buyer to the seller, signed by the buyer.
    pub payment: TokenTransfer,
    /// Seller whose escrow authority signs the release.
    pub seller: Pubkey,
    /// Bump seed of that escrow authority.
    pub authority_bump: u8,
    /// The record to store back.
    pub order: SwapSPLOrder,
}

/// The buy-token owed for `sell_token_amount` at the order's fixed price,
/// rounded down.
pub open spec fn price_of(sell_token_amount: u64, buy_amount: u64, sell_amount: u64) -> int {
    (sell_token_amount as int * buy_amount as int) / (sell_amount as int)
}

/// Net change of `who`'s token balance after `transfers`, each of which
/// takes from its source and gives to its destination.
pub open spec fn net_change(transfers: Seq<TokenTransfer>, who: Seq<u8>) -> int
    decreases transfers.len(),
{
    if transfers.len() == 0 {
        0
    } else {
        let t = transfers.last();
        let rest = net_change(transfers.drop_last(), who);
        rest + (if t.destination@ == who { t.amount as int } else { 0 }) - (if t.source@ == who {
            t.amount as int
        } else {
            0
        })
    }
}

/// The account at `i`, which the instruction must supply.
fn account_at(accounts: &[AccountView], i: usize) -> (r: Result<&AccountView, SwapError>)
    ensures
        i < accounts@.len() ==> r == Ok::<&AccountView, SwapError>(&accounts@[i as int]),
        i >= accounts@.len() ==> r == Err::<&AccountView, SwapError>(SwapError::NotEnoughAccountKeys),
{
    if i < accounts.len() {
        Ok(&accounts[i])
    } else {
        Err(SwapError::NotEnoughAccountKeys)
    }
}

/// The offsets table of a verification instruction that carries its one
/// signature inline: signature at 48, public key at 16, a 32-byte message at
/// 112, each in the instruction itself (index `u16::MAX`), little-endian.
pub open spec fn inline_offsets_table() -> Seq<u8> {
    seq![48u8, 0, 255, 255, 16, 0, 255, 255, 112, 0, 32, 0, 255, 255]
}

/// Whether the instruction before a private fill binds it: a verification
/// of exactly one signature, laid out inline by `inline_offsets_table`, so
/// that the key it verifies is bytes 16..48 and the message it verifies is
/// bytes 112..144; that key must be the seller and that message the order's
/// address.
pub open spec fn unlock_binding(program: Seq<u8>, data: Seq<u8>, seller: Seq<u8>, order: Seq<u8>) -> Result<(), SwapError> {
    if program != ed25519_program_id() {
        Err(SwapError::UnlockInstructionNotFound)
    } else if data.len() < 144 || data[0] != 1 || data.subrange(2, 16) != inline_offsets_table()
        || data.subrange(16, 48) != seller || data.subrange(112, 144) != order {
        Err(SwapError::UnlockInstructionInvalid)
    } else {
        Ok(())
    }
}

/// The unlock check of a private fill, reading the instruction that precedes
/// the fill from the instructions sysvar. A fill that is first in its batch,
/// or whose predecessor cannot be read, has no unlock instruction.
pub open spec fn unlock_spec(sysvar: AccountView, seller: Seq<u8>, order: Seq<u8>) -> Result<(), SwapError> {
    let d = sysvar.data@;
    if sysvar.key@ != instructions_sysvar_id() {
        Err(SwapError::AccountMismatch)
    } else if d.len() < 2 {
        Err(SwapError::InvalidArgument)
    } else {
        let current = spec_u16_from_le_bytes(d.subrange(d.len() - 2, d.len() as int));
        if current == 0 {
            Err(SwapError::UnlockInstructionNotFound)
        } else {
            match instruction_at((current - 1) as nat, d) {
                None => Err(SwapError::UnlockInstructionNotFound),
                Some(p) => unlock_binding(p.0, p.1, seller, order),
            }
        }
    }
}

/// Whether `data` holds `expected` from `at` on.
fn bytes_match(data: &[u8], at: usize, expected: &[u8]) -> (r: bool)
    requires
        at + expected@.len() <= data@.len(),
    ensures
        r == (data@.subrange(at as int, at + expected@.len()) == expected@),
{
    let mut i: usize = 0;
    while i < expected.len()
        invariant
            i <= expected@.len(),
            at + expected@.len() <= data.len(),
            forall|j: int| 0 <= j < i ==> data@[at + j] == expected@[j],
        decreases expected@.len() - i,
    {
        if data[at + i] != expected[i] {
            assert(data@.subrange(at as int, at + expected@.len())[i as int] != expected@[i as int]);
            return false;
        }
        i = i + 1;
    }
    assert(data@.subrange(at as int, at + expected@.len()) =~= expected@);
    true
}

/// Checks that a signature-verification instruction binds a fill of the
/// order at `order` to `seller`.
pub fn check_unlock_instruction(program: &Pubkey, data: &[u8], seller: &Pubkey, order: &Pubkey) -> (r: Result<(), SwapError>)
    ensures
        r == unlock_binding(program@, data@, seller@, order@),
{
    if !program.equals(&ed25519_id()) {
        return Err(SwapError::UnlockInstructionNotFound);
    }
    if data.len() < 144 || data[0] != 1 {
        return Err(SwapError::UnlockInstructionInvalid);
    }
    let table: Vec<u8> = vec![48u8, 0, 255, 255, 16, 0, 255, 255, 112, 0, 32, 0, 255, 255];
    assert(table@ =~= inline_offsets_table());
    if !bytes_match(data, 2, table.as_slice()) {
        return Err(SwapError::UnlockInstructionInvalid);
    }
    let signer = Pubkey::read_from(data, 16);
    if !signer.equals(seller) {
        return Err(SwapError::UnlockInstructionInvalid);
    }
    let message = Pubkey::read_from(data, 112);
    if !message.equals(order) {
        return Err(SwapError::UnlockInstructionInvalid);
    }
    Ok(())
}

fn check_unlock(sysvar: &AccountView, seller: &Pubkey, order: &Pubkey) -> (r: Result<(), SwapError>)
    ensures
        r == unlock_spec(*sysvar, seller@, order@),
{
    if !sysvar.key.equals(&instructions_id()) {
        return Err(SwapError::AccountMismatch);
    }
    if sysvar.data.len() < 2 {
        return Err(SwapError::InvalidArgument);
    }
    let current = load_current_index(sysvar.data.as_slice());
    if current == 0 {
        return Err(SwapError::UnlockInstructionNotFound);
    }
    match load_instruction_at(current - 1, sysvar.data.as_slice()) {
        None => Err(SwapError::UnlockInstructionNotFound),
        Some(p) => check_unlock_instruction(&p.0, p.1.as_slice(), seller, order),
    }
}

/// The checks of a fill that come before its size is looked at, in the
/// order they run: payload, record, private unlock, seller, and the record's
/// own address. On success, the amount asked for and the stored record.
pub open spec fn fill_gate(program_id: Seq<u8>, accounts: Seq<AccountView>, data: Seq<u8>) -> Result<(u64, SwapSPLOrder), SwapError> {
    if data.len() != 8 {
        Err(SwapError::MalformedInstruction)
    } else if accounts.len() < 3 {
        Err(SwapError::NotEnoughAccountKeys)
    } else if !order_decodes(accounts[2].data@) {
        Err(SwapError::AccountMismatch)
    } else if accounts[2].data@ == blank_record() {
        Err(SwapError::UninitializedAccount)
    } else {
        let amount = spec_u64_from_le_bytes(data);
        let o = decode_order(accounts[2].data@);
        let unlock = if !o.is_private {
            Ok(())
        } else if accounts.len() < 4 {
            Err(SwapError::NotEnoughAccountKeys)
        } else {
            unlock_spec(accounts[3], o.seller@, accounts[2].key@)
        };
        match unlock {
            Err(e) => Err(e),
            Ok(_) => if o.seller@ != accounts[0].key@ {
                Err(SwapError::AccountMismatch)
            } else {
                match order_address_of(program_id, o.seller@, o.creation_slot) {
                    None => Err(SwapError::NoProgramAddress),
                    Some(oa) => if oa.0 != accounts[2].key@ {
                        Err(SwapError::AccountMismatch)
                    } else {
                        Ok((amount, o))
                    },
                }
            },
        }
    }
}

/// `fill_gate`, then the size of the fill: at least the order's minimum and
/// at most what remains.
pub open spec fn fill_prefix(program_id: Seq<u8>, accounts: Seq<AccountView>, data: Seq<u8>) -> Result<(u64, SwapSPLOrder), SwapError> {
    match fill_gate(program_id, accounts, data) {
        Err(e) => Err(e),
        Ok(p) => if p.0 < p.1.min_sell_amount {
            Err(SwapError::BelowMinimumFill)
        } else if p.1.remains_to_fill < p.0 {
            Err(SwapError::InsufficientRemaining)
        } else {
            Ok(p)
        },
    }
}

/// The checks of a fill on the escrow and the wallets, after `fill_prefix`
/// accepted `amount` of order `o`; `k` is where these accounts start.
pub open spec fn fill_rest(program_id: Seq<u8>, accounts: Seq<AccountView>, amount: u64, o: SwapSPLOrder) -> Result<FilledOrder, SwapError> {
    let k: int = if o.is_private { 4 } else { 3 };
    match wallet_authority_of(program_id, accounts[0].key@) {
        None => Err(SwapError::NoProgramAddress),
        Some(a) => if accounts.len() <= k {
            Err(SwapError::NotEnoughAccountKeys)
        } else if accounts[k].key@ != a.0 {
            Err(SwapError::AccountMismatch)
        } else if accounts.len() <= k + 2 {
            Err(SwapError::NotEnoughAccountKeys)
        } else if !is_associated(accounts[k + 2].key@, a.0, accounts[k + 1].key@) {
            Err(associated_error(a.0, accounts[k + 1].key@))
        } else if accounts[k + 2].key@ != o.order_wallet@ {
            Err(SwapError::AccountMismatch)
        } else if !token_account_decodes(accounts[k + 2].data@) || accounts[k + 2].data@.subrange(0, 32) != accounts[k + 1].key@ {
            Err(SwapError::AccountMismatch)
        } else if accounts.len() <= k + 3 {
            Err(SwapError::NotEnoughAccountKeys)
        } else if o.price_mint@ != accounts[k + 3].key@ {
            Err(SwapError::AccountMismatch)
        } else if accounts.len() <= k + 4 {
            Err(SwapError::NotEnoughAccountKeys)
        } else if !is_associated(accounts[k + 4].key@, accounts[1].key@, accounts[k + 3].key@) {
            Err(associated_error(accounts[1].key@, accounts[k + 3].key@))
        } else if accounts.len() <= k + 5 {
            Err(SwapError::NotEnoughAccountKeys)
        } else if !is_associated(accounts[k + 5].key@, accounts[0].key@, accounts[k + 3].key@) {
            Err(associated_error(accounts[0].key@, accounts[k + 3].key@))
        } else if accounts.len() <= k + 6 {
            Err(SwapError::NotEnoughAccountKeys)
        } else if !is_associated(accounts[k + 6].key@, accounts[1].key@, accounts[k + 1].key@) {
            Err(associated_error(accounts[1].key@, accounts[k + 1].key@))
        } else if accounts.len() <= k + 7 {
            Err(SwapError::NotEnoughAccountKeys)
        } else if accounts[k + 7].key@ != token_program_id() {
            Err(SwapError::AccountMismatch)
        } else if o.sell_amount == 0 || price_of(amount, o.buy_amount, o.sell_amount) > u64::MAX {
            Err(SwapError::ArithmeticOverflow)
        } else {
            Ok(
                FilledOrder {
                    release: TokenTransfer {
                        source: accounts[k + 2].key,
                        destination: accounts[k + 6].key,
                        authority: accounts[k].key,
                        amount: amount,
                    },
                    payment: TokenTransfer {
                        source: accounts[k + 4].key,
                        destination: accounts[k + 5].key,
                        authority: accounts[1].key,
                        amount: price_of(amount, o.buy_amount, o.sell_amount) as u64,
                    },
                    seller: accounts[0].key,
                    authority_bump: a.1,
                    order: SwapSPLOrder { remains_to_fill: (o.remains_to_fill - amount) as u64, ..o },
                },
            )
        },
    }
}

/// What a fill instruction does: every check in order, then its effects.
pub open spec fn fill_order_spec(program_id: Seq<u8>, accounts: Seq<AccountView>, data: Seq<u8>) -> Result<FilledOrder, SwapError> {
    match fill_prefix(program_id, accounts, data) {
        Err(e) => Err(e),
        Ok(p) => fill_rest(program_id, accounts, p.0, p.1),
    }
}

/// The buy-token owed for a fill, rounded down.
pub fn fill_price(sell_token_amount: u64, buy_amount: u64, sell_amount: u64) -> (r: Option<u64>)
    ensures
        r == (if sell_amount == 0 || price_of(sell_token_amount, buy_amount, sell_amount) > u64::MAX {
            None::<u64>
        } else {
            Some(price_of(sell_token_amount, buy_amount, sell_amount) as u64)
        }),
{
    if sell_amount == 0 {
        return None;
    }
    let a: u128 = sell_token_amount as u128;
    let b: u128 = buy_amount as u128;
    assert(a * b <= 0xffff_ffff_ffff_ffffu128 * 0xffff_ffff_ffff_ffffu128) by (nonlinear_arith)
        requires
            a <= 0xffff_ffff_ffff_ffffu128,
            b <= 0xffff_ffff_ffff_ffffu128,
    ;
    let product: u128 = a * b;
    let q: u128 = product / (sell_amount as u128);
    if q > u64::MAX as u128 {
        None
    } else {
        Some(q as u64)
    }
}

/// Validates a fill of `instruction_data`'s amount against the accounts,
/// and returns both transfer legs and the updated record.
pub fn fill_order(program_id: &Pubkey, accounts: &[AccountView], instruction_data: &[u8]) -> (r: Result<FilledOrder, SwapError>)
    ensures
        r == fill_order_spec(program_id@, accounts@, instruction_data@),
{
    let sell_token_amount = decode_amount(instruction_data)?;
    let seller = account_at(accounts, 0)?;
    let buyer = account_at(accounts, 1)?;
    let order_account = account_at(accounts, 2)?;
    let mut order = SwapSPLOrder::unpack(order_account.data.as_slice())?;
    proof {
        lemma_decode_order(order_account.data@, order);
    }
    let mut k: usize = 3;
    if order.is_private {
        let sysvar = account_at(accounts, 3)?;
        check_unlock(sysvar, &order.seller, &order_account.key)?;
        k = 4;
    }
    if !order.seller.equals(&seller.key) {
        return Err(SwapError::AccountMismatch);
    }
    let (expected_order, _) = match get_order_address(program_id, &order.seller, order.creation_slot) {
        None => return Err(SwapError::NoProgramAddress),
        Some(p) => p,
    };
    if !expected_order.equals(&order_account.key) {
        return Err(SwapError::AccountMismatch);
    }
    assert(fill_gate(program_id@, accounts@, instruction_data@) == Ok::<(u64, SwapSPLOrder), SwapError>((sell_token_amount, order)));
    if order.min_sell_amount > sell_token_amount {
        return Err(SwapError::BelowMinimumFill);
    }
    if order.remains_to_fill < sell_token_amount {
        return Err(SwapError::InsufficientRemaining);
    }
    assert(fill_prefix(program_id@, accounts@, instruction_data@) == Ok::<(u64, SwapSPLOrder), SwapError>((sell_token_amount, order)));
    let (authority, bump) = match get_order_wallet_authority(program_id, &seller.key) {
        None => return Err(SwapError::NoProgramAddress),
        Some(p) => p,
    };
    let authority_account = account_at(accounts, k)?;
    if !authority.equals(&authority_account.key) {
        return Err(SwapError::AccountMismatch);
    }
    let sell_token = account_at(accounts, k + 1)?;
    let order_wallet = account_at(accounts, k + 2)?;
    check_associated_account(&order_wallet.key, &authority_account.key, &sell_token.key)?;
    if !order.order_wallet.equals(&order_wallet.key) {
        return Err(SwapError::AccountMismatch);
    }
    let wallet_keys = match unpack_token_account(order_wallet.data.as_slice()) {
        None => return Err(SwapError::AccountMismatch),
        Some(t) => t,
    };
    if !wallet_keys.mint.equals(&sell_token.key) {
        return Err(SwapError::AccountMismatch);
    }
    let buy_token = account_at(accounts, k + 3)?;
    if !order.price_mint.equals(&buy_token.key) {
        return Err(SwapError::AccountMismatch);
    }
    let buyer_buy_wallet = account_at(accounts, k + 4)?;
    check_associated_account(&buyer_buy_wallet.key, &buyer.key, &buy_token.key)?;
    let seller_buy_wallet = account_at(accounts, k + 5)?;
    check_associated_account(&seller_buy_wallet.key, &seller.key, &buy_token.key)?;
    let buyer_sell_wallet = account_at(accounts, k + 6)?;
    check_associated_account(&buyer_sell_wallet.key, &buyer.key, &sell_token.key)?;
    let token_program = account_at(accounts, k + 7)?;
    if !token_program.key.equals(&token_id()) {
        return Err(SwapError::AccountMismatch);
    }
    let buy_token_amount = match fill_price(sell_token_amount, order.buy_amount, order.sell_amount) {
        None => return Err(SwapError::ArithmeticOverflow),
        Some(p) => p,
    };
    order.remains_to_fill = order.remains_to_fill - sell_token_amount;
    Ok(
        FilledOrder {
            release: TokenTransfer {
                source: order_wallet.key,
                destination: buyer_sell_wallet.key,
                authority: authority_account.key,
                amount: sell_token_amount,
            },
            payment: TokenTransfer {
                source: buyer_buy_wallet.key,
                destination: seller_buy_wallet.key,
                authority: buyer.key,
                amount: buy_token_amount,
            },
            seller: seller.key,
            authority_bump: bump,
            order,
        },
    )
}

/// The quantity a revocation asks for before zero is read as everything:
/// a caller other than the seller may only take the whole remainder, and
/// only once it is dust; the seller names an amount in the payload.
pub open spec fn revoke_request(accounts: Seq<AccountView>, data: Seq<u8>, o: SwapSPLOrder) -> Result<u64, SwapError> {
    if accounts[0].key@ != accounts[1].key@ {
        if o.remains_to_fill > o.min_sell_amount {
            Err(SwapError::AccountMismatch)
        } else {
            Ok(o.remains_to_fill)
        }
    } else if data.len() != 8 {
        Err(SwapError::MalformedInstruction)
    } else {
        Ok(spec_u64_from_le_bytes(data))
    }
}

/// The record stored in `order_account`, once it is shown to be `seller`'s
/// and to sit at the address derived from its seller and nonce; with that
/// address's bump seed.
pub open spec fn order_check(program_id: Seq<u8>, seller: AccountView, order_account: AccountView) -> Result<(SwapSPLOrder, u8), SwapError> {
    let d = order_account.data@;
    if !order_decodes(d) {
        Err(SwapError::AccountMismatch)
    } else if d == blank_record() {
        Err(SwapError::UninitializedAccount)
    } else {
        let o = decode_order(d);
        if o.seller@ != seller.key@ {
            Err(SwapError::AccountMismatch)
        } else {
            match order_address_of(program_id, o.seller@, o.creation_slot) {
                None => Err(SwapError::NoProgramAddress),
                Some(oa) => if oa.0 != order_account.key@ {
                    Err(SwapError::AccountMismatch)
                } else {
                    Ok((o, oa.1))
                },
            }
        }
    }
}

/// The bump seed of `o`'s escrow authority, once `authority` is shown to be
/// that authority and `wallet` to be the record's vault: the authority's
/// associated account for the token that `wallet` holds.
pub open spec fn wallet_check(program_id: Seq<u8>, o: SwapSPLOrder, authority: AccountView, wallet: AccountView) -> Result<u8, SwapError> {
    if !token_account_decodes(wallet.data@) {
        Err(SwapError::AccountMismatch)
    } else {
        match wallet_authority_of(program_id, o.seller@) {
            None => Err(SwapError::NoProgramAddress),
            Some(auth) => if auth.0 != authority.key@ {
                Err(SwapError::AccountMismatch)
            } else if !is_associated(wallet.key@, authority.key@, wallet.data@.subrange(0, 32)) {
                Err(associated_error(authority.key@, wallet.data@.subrange(0, 32)))
            } else if wallet.key@ != o.order_wallet@ {
                Err(SwapError::AccountMismatch)
            } else {
                Ok(auth.1)
            },
        }
    }
}

/// The checks of a revocation that identify the order and its escrow, in
/// the order they run. On success, the stored record and the escrow
/// authority's bump seed.
pub open spec fn revoke_gate(program_id: Seq<u8>, accounts: Seq<AccountView>) -> Result<(SwapSPLOrder, u8), SwapError> {
    if accounts.len() < 1 {
        Err(SwapError::NotEnoughAccountKeys)
    } else if !accounts[0].is_signer {
        Err(SwapError::AccountMismatch)
    } else if accounts.len() < 3 {
        Err(SwapError::NotEnoughAccountKeys)
    } else {
        match order_check(program_id, accounts[1], accounts[2]) {
            Err(e) => Err(e),
            Ok(p) => if accounts.len() < 5 {
                Err(SwapError::NotEnoughAccountKeys)
            } else {
                match wallet_check(program_id, p.0, accounts[3], accounts[4]) {
                    Err(e) => Err(e),
                    Ok(bump) => Ok((p.0, bump)),
                }
            },
        }
    }
}

/// Reads the record in `order_account` and checks that it belongs to
/// `seller` and sits at its derived address.
pub fn check_and_get_order(program_id: &Pubkey, seller: &AccountView, order_account: &AccountView) -> (r: Result<(SwapSPLOrder, u8), SwapError>)
    ensures
        r == order_check(program_id@, *seller, *order_account),
{
    let order = SwapSPLOrder::unpack(order_account.data.as_slice())?;
    proof {
        lemma_decode_order(order_account.data@, order);
    }
    if !order.seller.equals(&seller.key) {
        return Err(SwapError::AccountMismatch);
    }
    let (expected_order, bump) = match get_order_address(program_id, &order.seller, order.creation_slot) {
        None => return Err(SwapError::NoProgramAddress),
        Some(p) => p,
    };
    if !expected_order.equals(&order_account.key) {
        return Err(SwapError::AccountMismatch);
    }
    Ok((order, bump))
}

/// Reads the escrow vault and checks that `authority` is the order's escrow
/// authority and `wallet` the record's vault; returns the vault's keys and
/// the authority's bump seed.
pub fn check_and_get_order_wallet(program_id: &Pubkey, order: &SwapSPLOrder, authority: &AccountView, wallet: &AccountView) -> (r: Result<(TokenAccountKeys, u8), SwapError>)
    ensures
        match r {
            Ok(p) => wallet_check(program_id@, *order, *authority, *wallet) == Ok::<u8, SwapError>(p.1)
                && p.0.mint@ == wallet.data@.subrange(0, 32) && p.0.owner@ == wallet.data@.subrange(
                32,
                64,
            ),
            Err(e) => wallet_check(program_id@, *order, *authority, *wallet) == Err::<u8, SwapError>(e),
        },
{
    let wallet_keys = match unpack_token_account(wallet.data.as_slice()) {
        None => return Err(SwapError::AccountMismatch),
        Some(t) => t,
    };
    let (expected_authority, bump) = match get_order_wallet_authority(program_id, &order.seller) {
        None => return Err(SwapError::NoProgramAddress),
        Some(p) => p,
    };
    if !expected_authority.equals(&authority.key) {
        return Err(SwapError::AccountMismatch);
    }
    check_associated_account(&wallet.key, &authority.key, &wallet_keys.mint)?;
    if !order.order_wallet.equals(&wallet.key) {
        return Err(SwapError::AccountMismatch);
    }
    Ok((wallet_keys, bump))
}

/// The rest of a revocation once `revoke_gate` accepted record `o`.
pub open spec fn revoke_rest(accounts: Seq<AccountView>, data: Seq<u8>, o: SwapSPLOrder, bump: u8) -> Result<RevokedOrder, SwapError> {
    match revoke_request(accounts, data, o) {
        Err(e) => Err(e),
        Ok(requested) => {
            let amount = if requested == 0 {
                o.remains_to_fill
            } else {
                requested
            };
            let after = o.remains_to_fill - amount;
            if requested > o.remains_to_fill {
                Err(SwapError::MalformedInstruction)
            } else if accounts.len() < 6 {
                Err(SwapError::NotEnoughAccountKeys)
            } else if !is_associated(
                accounts[5].key@,
                accounts[1].key@,
                accounts[4].data@.subrange(0, 32),
            ) {
                Err(associated_error(accounts[1].key@, accounts[4].data@.subrange(0, 32)))
            } else if accounts.len() < 7 {
                Err(SwapError::NotEnoughAccountKeys)
            } else if accounts[6].key@ != token_program_id() {
                Err(SwapError::AccountMismatch)
            } else if after == 0 && accounts[0].lamports + accounts[2].lamports > u64::MAX {
                Err(SwapError::ArithmeticOverflow)
            } else {
                Ok(
                    RevokedOrder {
                        refund: TokenTransfer {
                            source: accounts[4].key,
                            destination: accounts[5].key,
                            authority: accounts[3].key,
                            amount: amount,
                        },
                        seller: accounts[1].key,
                        authority_bump: bump,
                        order: if after == 0 {
                            None
                        } else {
                            Some(SwapSPLOrder { remains_to_fill: after as u64, ..o })
                        },
                        reclaimed_lamports: if after == 0 {
                            accounts[2].lamports
                        } else {
                            0
                        },
                    },
                )
            }
        },
    }
}

/// What a revocation does: every check in order, then its effects.
pub open spec fn revoke_order_spec(program_id: Seq<u8>, accounts: Seq<AccountView>, data: Seq<u8>) -> Result<RevokedOrder, SwapError> {
    match revoke_gate(program_id, accounts) {
        Err(e) => Err(e),
        Ok(p) => revoke_rest(accounts, data, p.0, p.1),
    }
}

/// Validates a revocation against the accounts, and returns the refund to
/// the seller and what becomes of the record.
pub fn revoke_order(program_id: &Pubkey, accounts: &[AccountView], instruction_data: &[u8]) -> (r: Result<RevokedOrder, SwapError>)
    ensures
        r == revoke_order_spec(program_id@, accounts@, instruction_data@),
{
    let caller = account_at(accounts, 0)?;
    if !caller.is_signer {
        return Err(SwapError::AccountMismatch);
    }
    let seller = account_at(accounts, 1)?;
    let order_account = account_at(accounts, 2)?;
    let (mut order, _) = check_and_get_order(program_id, seller, order_account)?;
    let authority = account_at(accounts, 3)?;
    let order_wallet = account_at(accounts, 4)?;
    let (wallet_keys, bump) = check_and_get_order_wallet(program_id, &order, authority, order_wallet)?;
    assert(revoke_gate(program_id@, accounts@) == Ok::<(SwapSPLOrder, u8), SwapError>((order, bump)));
    let requested = if !caller.key.equals(&seller.key) {
        if order.remains_to_fill > order.min_sell_amount {
            return Err(SwapError::AccountMismatch);
        }
        order.remains_to_fill
    } else {
        decode_amount(instruction_data)?
    };
    if requested > order.remains_to_fill {
        return Err(SwapError::MalformedInstruction);
    }
    let amount = if requested == 0 {
        order.remains_to_fill
    } else {
        requested
    };
    let seller_wallet = account_at(accounts, 5)?;
    check_associated_account(&seller_wallet.key, &seller.key, &wallet_keys.mint)?;
    let token_program = account_at(accounts, 6)?;
    if !token_program.key.equals(&token_id()) {
        return Err(SwapError::AccountMismatch);
    }
    let after = order.remains_to_fill - amount;
    let refund = TokenTransfer {
        source: order_wallet.key,
        destination: seller_wallet.key,
        authority: authority.key,
        amount,
    };
    if after == 0 {
        if caller.lamports > u64::MAX - order_account.lamports {
            return Err(SwapError::ArithmeticOverflow);
        }
        Ok(
            RevokedOrder {
                refund,
                seller: seller.key,
                authority_bump: bump,
                order: None,
                reclaimed_lamports: order_account.lamports,
            },
        )
    } else {
        order.remains_to_fill = after;
        Ok(
            RevokedOrder {
                refund,
                seller: seller.key,
                authority_bump: bump,
                order: Some(order),
                reclaimed_lamports: 0,
            },
        )
    }
}

/// A public order: anyone may fill it.
pub fn create_public_order(program_id: &Pubkey, accounts: &[AccountView], instruction_data: &[u8]) -> (r: Result<CreatedOrder, SwapError>)
    ensures
        r == create_order_spec(program_id@, accounts@, instruction_data@, false),
{
    create_order(program_id, accounts, instruction_data, false)
}

/// A private order: each fill needs the seller's signature over the order's
/// address.
pub fn create_private_order(program_id: &Pubkey, accounts: &[AccountView], instruction_data: &[u8]) -> (r: Result<CreatedOrder, SwapError>)
    ensures
        r == create_order_spec(program_id@, accounts@, instruction_data@, true),
{
    create_order(program_id, accounts, instruction_data, true)
}

/// The effects of an accepted instruction, one variant per handler.
#[derive(Clone, Copy, Debug)]
pub enum SwapOutcome {
    Created(CreatedOrder),
    Revoked(RevokedOrder),
    Filled(FilledOrder),
}

/// What an instruction does: its leading byte picks the handler, which gets
/// the rest of the data.
pub open spec fn process_spec(program_id: Seq<u8>, accounts: Seq<AccountView>, data: Seq<u8>) -> Result<SwapOutcome, SwapError> {
    if data.len() == 0 {
        Err(SwapError::MalformedInstruction)
    } else {
        let rest = data.subrange(1, data.len() as int);
        match instruction_of_tag(data[0]) {
            P2PSwapInstructions::Undefined => Err(SwapError::MalformedInstruction),
            P2PSwapInstructions::CreatePublicOrder => match create_order_spec(program_id, accounts, rest, false) {
                Ok(c) => Ok(SwapOutcome::Created(c)),
                Err(e) => Err(e),
            },
            P2PSwapInstructions::CreatePrivateOrder => match create_order_spec(program_id, accounts, rest, true) {
                Ok(c) => Ok(SwapOutcome::Created(c)),
                Err(e) => Err(e),
            },
            P2PSwapInstructions::RevokeOrder => match revoke_order_spec(program_id, accounts, rest) {
                Ok(r) => Ok(SwapOutcome::Revoked(r)),
                Err(e) => Err(e),
            },
            P2PSwapInstructions::FillOrder => match fill_order_spec(program_id, accounts, rest) {
                Ok(f) => Ok(SwapOutcome::Filled(f)),
                Err(e) => Err(e),
            },
        }
    }
}

/// Routes an instruction to its handler by the leading tag byte; an empty
/// payload or an unknown tag is malformed.
pub fn process_instruction(program_id: &Pubkey, accounts: &[AccountView], instruction_data: &[u8]) -> (r: Result<SwapOutcome, SwapError>)
    ensures
        r == process_spec(program_id@, accounts@, instruction_data@),
{
    if instruction_data.len() == 0 {
        return Err(SwapError::MalformedInstruction);
    }
    let rest = vstd::slice::slice_subrange(instruction_data, 1, instruction_data.len());
    match P2PSwapInstructions::from_u8(instruction_data[0]) {
        P2PSwapInstructions::Undefined => Err(SwapError::MalformedInstruction),
        P2PSwapInstructions::CreatePublicOrder => match create_public_order(program_id, accounts, rest) {
            Ok(c) => Ok(SwapOutcome::Created(c)),
            Err(e) => Err(e),
        },
        P2PSwapInstructions::CreatePrivateOrder => match create_private_order(program_id, accounts, rest) {
            Ok(c) => Ok(SwapOutcome::Created(c)),
            Err(e) => Err(e),
        },
        P2PSwapInstructions::RevokeOrder => match revoke_order(program_id, accounts, rest) {
            Ok(r) => Ok(SwapOutcome::Revoked(r)),
            Err(e) => Err(e),
        },
        P2PSwapInstructions::FillOrder => match fill_order(program_id, accounts, rest) {
            Ok(f) => Ok(SwapOutcome::Filled(f)),
            Err(e) => Err(e),
        },
    }
}

/// Whether an order created with nonce `slot` may still be created at
/// clock slot `now`.
pub open spec fn within_creation_window(slot: u64, now: u64) -> bool {
    slot <= now && now - slot <= MAX_SLOT_DIFFERENCE
}

/// What an order-creation instruction does: every check in order, then its
/// effects.
pub open spec fn create_order_spec(program_id: Seq<u8>, accounts: Seq<AccountView>, data: Seq<u8>, is_private: bool) -> Result<CreatedOrder, SwapError> {
    let a = create_args_of(data);
    if data.len() != 32 {
        Err(SwapError::MalformedInstruction)
    } else if accounts.len() < 1 {
        Err(SwapError::NotEnoughAccountKeys)
    } else if accounts[0].key@ != clock_sysvar_id() {
        Err(SwapError::AccountMismatch)
    } else if accounts[0].data@.len() < 40 {
        Err(SwapError::InvalidArgument)
    } else if !within_creation_window(a.creation_slot, u64_at(accounts[0].data@, 0)) {
        Err(SwapError::CreationWindowExceeded)
    } else if accounts.len() < 3 {
        Err(SwapError::NotEnoughAccountKeys)
    } else if !token_account_decodes(accounts[2].data@) || accounts[2].data@.subrange(32, 64)
        != accounts[1].key@ {
        Err(SwapError::AccountMismatch)
    } else if accounts.len() < 4 {
        Err(SwapError::NotEnoughAccountKeys)
    } else if accounts[2].data@.subrange(0, 32) != accounts[3].key@ {
        Err(SwapError::AccountMismatch)
    } else {
        match wallet_authority_of(program_id, accounts[1].key@) {
            None => Err(SwapError::NoProgramAddress),
            Some(auth) => if accounts.len() < 5 {
                Err(SwapError::NotEnoughAccountKeys)
            } else if accounts[4].key@ != auth.0 {
                Err(SwapError::AccountMismatch)
            } else if accounts.len() < 7 {
                Err(SwapError::NotEnoughAccountKeys)
            } else if !is_associated(accounts[6].key@, accounts[4].key@, accounts[3].key@) {
                Err(associated_error(accounts[4].key@, accounts[3].key@))
            } else if accounts.len() < 8 {
                Err(SwapError::NotEnoughAccountKeys)
            } else if accounts[7].key@ != token_program_id() {
                Err(SwapError::AccountMismatch)
            } else if accounts.len() < 9 {
                Err(SwapError::NotEnoughAccountKeys)
            } else {
                match order_address_of(program_id, accounts[1].key@, a.creation_slot) {
                    None => Err(SwapError::NoProgramAddress),
                    Some(oa) => if accounts[8].key@ != oa.0 {
                        Err(SwapError::AccountMismatch)
                    } else if accounts.len() < 10 {
                        Err(SwapError::NotEnoughAccountKeys)
                    } else if accounts[9].key@ != system_program_id() {
                        Err(SwapError::AccountMismatch)
                    } else if accounts[8].lamports > 0 {
                        Err(SwapError::OrderExists)
                    } else {
                        Ok(
                            CreatedOrder {
                                deposit: TokenTransfer {
                                    source: accounts[2].key,
                                    destination: accounts[6].key,
                                    authority: accounts[1].key,
                                    amount: a.sell_amount,
                                },
                                order_address: accounts[8].key,
                                order_bump: oa.1,
                                order: SwapSPLOrder {
                                    creation_slot: a.creation_slot,
                                    seller: accounts[1].key,
                                    sell_amount: a.sell_amount,
                                    order_wallet: accounts[6].key,
                                    price_mint: accounts[5].key,
                                    buy_amount: a.buy_amount,
                                    min_sell_amount: a.min_sell_amount,
                                    remains_to_fill: a.sell_amount,
                                    is_private: is_private,
                                },
                            },
                        )
                    },
                }
            },
        }
    }
}

/// Validates an order creation against the accounts, and returns the
/// deposit into the vault and the record to allocate. Public and private
/// orders differ only in `is_private`.
pub fn create_order(program_id: &Pubkey, accounts: &[AccountView], instruction_data: &[u8], is_private: bool) -> (r: Result<CreatedOrder, SwapError>)
    ensures
        r == create_order_spec(program_id@, accounts@, instruction_data@, is_private),
{
    let args = decode_create_args(instruction_data)?;
    let clock = account_at(accounts, 0)?;
    if !clock.key.equals(&clock_id()) {
        return Err(SwapError::AccountMismatch);
    }
    let newest_slot = match clock_slot(&clock.key, clock.data.as_slice()) {
        None => return Err(SwapError::InvalidArgument),
        Some(s) => s,
    };
    if args.creation_slot > newest_slot || newest_slot - args.creation_slot > MAX_SLOT_DIFFERENCE {
        return Err(SwapError::CreationWindowExceeded);
    }
    let seller = account_at(accounts, 1)?;
    let seller_token_account = account_at(accounts, 2)?;
    let seller_token = match unpack_token_account(seller_token_account.data.as_slice()) {
        None => return Err(SwapError::AccountMismatch),
        Some(t) => t,
    };
    if !seller_token.owner.equals(&seller.key) {
        return Err(SwapError::AccountMismatch);
    }
    let sell_token_mint = account_at(accounts, 3)?;
    if !seller_token.mint.equals(&sell_token_mint.key) {
        return Err(SwapError::AccountMismatch);
    }
    let (expected_authority, _) = match get_order_wallet_authority(program_id, &seller.key) {
        None => return Err(SwapError::NoProgramAddress),
        Some(p) => p,
    };
    let authority = account_at(accounts, 4)?;
    if !expected_authority.equals(&authority.key) {
        return Err(SwapError::AccountMismatch);
    }
    let buy_token_mint = account_at(accounts, 5)?;
    let order_wallet = account_at(accounts, 6)?;
    check_associated_account(&order_wallet.key, &authority.key, &sell_token_mint.key)?;
    let token_program = account_at(accounts, 7)?;
    if !token_program.key.equals(&token_id()) {
        return Err(SwapError::AccountMismatch);
    }
    let order_account = account_at(accounts, 8)?;
    let (expected_order, order_bump) = match get_order_address(program_id, &seller.key, args.creation_slot) {
        None => return Err(SwapError::NoProgramAddress),
        Some(p) => p,
    };
    if !expected_order.equals(&order_account.key) {
        return Err(SwapError::AccountMismatch);
    }
    let system_program = account_at(accounts, 9)?;
    if !system_program.key.equals(&system_id()) {
        return Err(SwapError::AccountMismatch);
    }
    if order_account.lamports > 0 {
        return Err(SwapError::OrderExists);
    }
    Ok(
        CreatedOrder {
            deposit: TokenTransfer {
                source: seller_token_account.key,
                destination: order_wallet.key,
                authority: seller.key,
                amount: args.sell_amount,
            },
            order_address: order_account.key,
            order_bump,
            order: SwapSPLOrder {
                creation_slot: args.creation_slot,
                seller: seller.key,
                sell_amount: args.sell_amount,
                order_wallet: order_wallet.key,
                price_mint: buy_token_mint.key,
                buy_amount: args.buy_amount,
                min_sell_amount: args.min_sell_amount,
                remains_to_fill: args.sell_amount,
                is_private,
            },
        },
    )
}

} // verus!
