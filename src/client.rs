use vstd::prelude::*;
use vstd::bytes::spec_u64_to_le_bytes;
use crate::address::{
    associated_token_address_of, get_associated_token_address, get_order_wallet_address,
    get_order_wallet_authority, wallet_authority_of,
};
use crate::processor::inline_offsets_table;
use crate::error::SwapError;
use crate::instruction::{
    amount_instruction_data, create_order_data, encode_create_args, CreateOrderArgs,
    P2PSwapInstructions,
};
use crate::processor::unlock_binding;
use crate::pubkey::Pubkey;
use crate::runtime::{
    clock_id, clock_sysvar_id, ed25519_id, ed25519_program_id, instructions_id,
    instructions_sysvar_id, system_id, system_program_id, token_id, token_program_id,
};
use crate::state::SwapSPLOrder;

verus! {

/// Where the offsets table starts in a signature-verification instruction,
/// after the signature count and a padding byte.
pub const SIGNATURE_OFFSETS_START: usize = 2;
/// Size of one offsets table.
pub const SIGNATURE_OFFSETS_SERIALIZED_SIZE: usize = 14;
/// Where the public key, signature and message follow the table.
pub const DATA_START: usize = 16;
pub const PUBKEY_SERIALIZED_SIZE: usize = 32;
pub const SIGNATURE_SERIALIZED_SIZE: usize = 64;

/// One account that an instruction names, and how it is used.
#[derive(Clone, Copy, Debug)]
pub struct AccountMeta {
    pub pubkey: Pubkey,
    pub is_signer: bool,
    pub is_writable: bool,
}

/// An instruction for some program: its accounts in order, and its data.
#[derive(Debug)]
pub struct Instruction {
    pub program_id: Pubkey,
    pub accounts: Vec<AccountMeta>,
    pub data: Vec<u8>,
}

/// Where the signature-verification program finds the parts of one
/// signature. An index of `u16::MAX` means "this same instruction".
#[derive(Clone, Copy, Debug, Default)]
pub struct Ed25519SignatureOffsets {
    pub signature_offset: u16,
    pub signature_instruction_index: u16,
    pub public_key_offset: u16,
    pub public_key_instruction_index: u16,
    pub message_data_offset: u16,
    pub message_data_size: u16,
    pub message_instruction_index: u16,
}

/// A `u16` as two little-endian bytes.
pub open spec fn u16_le(x: u16) -> Seq<u8> {
    seq![(x & 0xff) as u8, (x >> 8) as u8]
}

fn push_u16_le(v: &mut Vec<u8>, x: u16)
    ensures
        final(v)@ == old(v)@ + u16_le(x),
{
    v.push((x & 0xff) as u8);
    v.push((x >> 8) as u8);
    assert(final(v)@ =~= old(v)@ + u16_le(x));
}

/// The 14-byte table: the seven fields in order, little-endian.
pub open spec fn encode_offsets(o: Ed25519SignatureOffsets) -> Seq<u8> {
    u16_le(o.signature_offset) + u16_le(o.signature_instruction_index)
        + u16_le(o.public_key_offset) + u16_le(
        o.public_key_instruction_index,
    ) + u16_le(o.message_data_offset) + u16_le(o.message_data_size)
        + u16_le(o.message_instruction_index)
}

impl Ed25519SignatureOffsets {
    /// The table for one signature carried in the instruction itself: key
    /// at `DATA_START`, then the signature, then a 32-byte message.
    pub fn for_inline_signature() -> (r: Self)
        ensures
            r.public_key_offset == 16,
            r.signature_offset == 48,
            r.message_data_offset == 112,
            r.message_data_size == 32,
            r.signature_instruction_index == u16::MAX,
            r.public_key_instruction_index == u16::MAX,
            r.message_instruction_index == u16::MAX,
    {
        Ed25519SignatureOffsets {
            signature_offset: (DATA_START + PUBKEY_SERIALIZED_SIZE) as u16,
            signature_instruction_index: u16::MAX,
            public_key_offset: DATA_START as u16,
            public_key_instruction_index: u16::MAX,
            message_data_offset: (DATA_START + PUBKEY_SERIALIZED_SIZE + SIGNATURE_SERIALIZED_SIZE) as u16,
            message_data_size: 32,
            message_instruction_index: u16::MAX,
        }
    }

    /// The table as the signature-verification program reads it.
    pub fn to_bytes(&self) -> (r: Vec<u8>)
        ensures
            r@ == encode_offsets(*self),
            r@.len() == SIGNATURE_OFFSETS_SERIALIZED_SIZE,
    {
        let mut r: Vec<u8> = Vec::new();
        push_u16_le(&mut r, self.signature_offset);
        push_u16_le(&mut r, self.signature_instruction_index);
        push_u16_le(&mut r, self.public_key_offset);
        push_u16_le(&mut r, self.public_key_instruction_index);
        push_u16_le(&mut r, self.message_data_offset);
        push_u16_le(&mut r, self.message_data_size);
        push_u16_le(&mut r, self.message_instruction_index);
        assert(r@ =~= encode_offsets(*self));
        r
    }
}

/// The data of a signature-verification instruction for one signature by
/// `seller` over the 32-byte `message`.
pub open spec fn unlock_data_of(seller: Seq<u8>, signature: Seq<u8>, message: Seq<u8>) -> Seq<u8> {
    seq![1u8, 0u8] + encode_offsets(
        Ed25519SignatureOffsets {
            signature_offset: 48,
            signature_instruction_index: u16::MAX,
            public_key_offset: 16,
            public_key_instruction_index: u16::MAX,
            message_data_offset: 112,
            message_data_size: 32,
            message_instruction_index: u16::MAX,
        },
    ) + seller + signature + message
}

fn append_key(v: &mut Vec<u8>, k: &Pubkey)
    ensures
        final(v)@ == old(v)@ + k@,
{
    let mut b = k.to_vec();
    v.append(&mut b);
}

/// The instruction that asks the signature-verification program to check
/// the seller's signature over the order's address; placed right before a
/// fill, it unlocks a private order for that fill.
pub fn new_ed25519_signature_instruction(order: &Pubkey, seller: &Pubkey, signature: &[u8; 64]) -> (r: Instruction)
    ensures
        r.program_id@ == ed25519_program_id(),
        r.accounts@.len() == 0,
        r.data@ == unlock_data_of(seller@, signature@, order@),
{
    let mut data: Vec<u8> = Vec::new();
    data.push(1u8);
    data.push(0u8);
    let offsets = Ed25519SignatureOffsets::for_inline_signature();
    let mut table = offsets.to_bytes();
    data.append(&mut table);
    append_key(&mut data, seller);
    data.extend_from_slice(signature);
    append_key(&mut data, order);
    Instruction { program_id: ed25519_id(), accounts: Vec::new(), data }
}

/// The signature-verification instruction that the client builds for the
/// seller and an order passes the unlock check of a fill of that same
/// order, and of no other order.
pub proof fn lemma_unlock_instruction_binds(seller: Seq<u8>, signature: Seq<u8>, order: Seq<u8>, other: Seq<u8>)
    requires
        seller.len() == 32,
        signature.len() == 64,
        order.len() == 32,
    ensures
        unlock_binding(ed25519_program_id(), unlock_data_of(seller, signature, order), seller, order)
            == Ok::<(), SwapError>(()),
        other != order ==> unlock_binding(
            ed25519_program_id(),
            unlock_data_of(seller, signature, order),
            seller,
            other,
        ) == Err::<(), SwapError>(SwapError::UnlockInstructionInvalid),
{
    let d = unlock_data_of(seller, signature, order);
    let t = encode_offsets(
        Ed25519SignatureOffsets {
            signature_offset: 48,
            signature_instruction_index: u16::MAX,
            public_key_offset: 16,
            public_key_instruction_index: u16::MAX,
            message_data_offset: 112,
            message_data_size: 32,
            message_instruction_index: u16::MAX,
        },
    );
    assert(t.len() == 14);
    assert(d.len() == 144);
    assert((48u16 & 0xff) == 48u16 && (48u16 >> 8) == 0u16 && (16u16 & 0xff) == 16u16 && (16u16
        >> 8) == 0u16 && (112u16 & 0xff) == 112u16 && (112u16 >> 8) == 0u16 && (32u16 & 0xff)
        == 32u16 && (32u16 >> 8) == 0u16 && (0xffffu16 & 0xff) == 255u16 && (0xffffu16 >> 8)
        == 255u16) by (bit_vector);
    assert(d.subrange(2, 16) =~= t);
    assert(t =~= inline_offsets_table());
    assert(d.subrange(16, 48) =~= seller);
    assert(d.subrange(112, 144) =~= order);
}

/// `m` names `key`, with these permissions.
pub open spec fn meta_is(m: AccountMeta, key: Seq<u8>, is_signer: bool, is_writable: bool) -> bool {
    m.pubkey@ == key && m.is_signer == is_signer && m.is_writable == is_writable
}

fn meta(pubkey: Pubkey, is_signer: bool, is_writable: bool) -> (r: AccountMeta)
    ensures
        r.pubkey == pubkey,
        r.is_signer == is_signer,
        r.is_writable == is_writable,
{
    AccountMeta { pubkey, is_signer, is_writable }
}

/// The order-creation instruction of `seller`, who sells `args.sell_amount`
/// of `sell_token` from their associated wallet for `args.buy_amount` of
/// `buy_token`, the record going to `order_account`. It fails where one of
/// the derived addresses does not exist.
pub fn create_order_instruction(
    program_id: &Pubkey,
    seller: &Pubkey,
    sell_token: &Pubkey,
    buy_token: &Pubkey,
    order_account: &Pubkey,
    args: CreateOrderArgs,
    is_private: bool,
) -> (r: Result<Instruction, SwapError>)
    ensures
        r is Ok <==> ({
            &&& wallet_authority_of(program_id@, seller@) matches Some(a)
            &&& associated_token_address_of(seller@, sell_token@) is Some
            &&& associated_token_address_of(a.0, sell_token@) is Some
        }),
        r matches Err(e) ==> e == SwapError::NoProgramAddress,
        r matches Ok(ix) ==> {
            let authority = wallet_authority_of(program_id@, seller@)->Some_0.0;
            let m = ix.accounts@;
            &&& ix.program_id == *program_id
            &&& ix.data@ == seq![if is_private { 2u8 } else { 1u8 }] + encode_create_args(args)
            &&& m.len() == 10
            &&& meta_is(m[0], clock_sysvar_id(), false, false)
            &&& meta_is(m[1], seller@, true, true)
            &&& meta_is(m[2], associated_token_address_of(seller@, sell_token@)->Some_0.0, false, true)
            &&& meta_is(m[3], sell_token@, false, false)
            &&& meta_is(m[4], authority, false, false)
            &&& meta_is(m[5], buy_token@, false, false)
            &&& meta_is(m[6], associated_token_address_of(authority, sell_token@)->Some_0.0, false, true)
            &&& meta_is(m[7], token_program_id(), false, false)
            &&& meta_is(m[8], order_account@, false, true)
            &&& meta_is(m[9], system_program_id(), false, false)
        },
{
    let authority = match get_order_wallet_authority(program_id, seller) {
        None => return Err(SwapError::NoProgramAddress),
        Some(p) => p.0,
    };
    let seller_wallet = match get_associated_token_address(seller, sell_token) {
        None => return Err(SwapError::NoProgramAddress),
        Some(k) => k,
    };
    let order_wallet = match get_order_wallet_address(sell_token, &authority) {
        None => return Err(SwapError::NoProgramAddress),
        Some(k) => k,
    };
    let mut accounts: Vec<AccountMeta> = Vec::new();
    accounts.push(meta(clock_id(), false, false));
    accounts.push(meta(*seller, true, true));
    accounts.push(meta(seller_wallet, false, true));
    accounts.push(meta(*sell_token, false, false));
    accounts.push(meta(authority, false, false));
    accounts.push(meta(*buy_token, false, false));
    accounts.push(meta(order_wallet, false, true));
    accounts.push(meta(token_id(), false, false));
    accounts.push(meta(*order_account, false, true));
    accounts.push(meta(system_id(), false, false));
    Ok(Instruction { program_id: *program_id, accounts, data: create_order_data(args, is_private) })
}

/// The fill instruction by which `buyer` takes `sell_token_amount` of the
/// order stored at `order_address`, whose vault holds `sell_token`. The
/// escrow authority is the seller's. It fails where one of the derived
/// addresses does not exist.
pub fn fill_order_instruction(
    program_id: &Pubkey,
    buyer: &Pubkey,
    order_address: &Pubkey,
    order: &SwapSPLOrder,
    sell_token: &Pubkey,
    sell_token_amount: u64,
) -> (r: Result<Instruction, SwapError>)
    ensures
        r is Ok <==> ({
            &&& wallet_authority_of(program_id@, order.seller@) is Some
            &&& associated_token_address_of(buyer@, order.price_mint@) is Some
            &&& associated_token_address_of(order.seller@, order.price_mint@) is Some
            &&& associated_token_address_of(buyer@, sell_token@) is Some
        }),
        r matches Err(e) ==> e == SwapError::NoProgramAddress,
        r matches Ok(ix) ==> {
            let authority = wallet_authority_of(program_id@, order.seller@)->Some_0.0;
            let m = ix.accounts@;
            let k: int = if order.is_private { 4 } else { 3 };
            &&& ix.program_id == *program_id
            &&& ix.data@ == seq![4u8] + spec_u64_to_le_bytes(sell_token_amount)
            &&& m.len() == k + 8
            &&& meta_is(m[0], order.seller@, false, false)
            &&& meta_is(m[1], buyer@, true, true)
            &&& meta_is(m[2], order_address@, false, true)
            &&& order.is_private ==> meta_is(m[3], instructions_sysvar_id(), false, false)
            &&& meta_is(m[k], authority, false, false)
            &&& meta_is(m[k + 1], sell_token@, false, false)
            &&& meta_is(m[k + 2], order.order_wallet@, false, true)
            &&& meta_is(m[k + 3], order.price_mint@, false, false)
            &&& meta_is(m[k + 4], associated_token_address_of(buyer@, order.price_mint@)->Some_0.0, false, true)
            &&& meta_is(m[k + 5], associated_token_address_of(order.seller@, order.price_mint@)->Some_0.0, false, true)
            &&& meta_is(m[k + 6], associated_token_address_of(buyer@, sell_token@)->Some_0.0, false, true)
            &&& meta_is(m[k + 7], token_program_id(), false, false)
        },
{
    let authority = match get_order_wallet_authority(program_id, &order.seller) {
        None => return Err(SwapError::NoProgramAddress),
        Some(p) => p.0,
    };
    let buyer_buy_wallet = match get_associated_token_address(buyer, &order.price_mint) {
        None => return Err(SwapError::NoProgramAddress),
        Some(k) => k,
    };
    let seller_buy_wallet = match get_associated_token_address(&order.seller, &order.price_mint) {
        None => return Err(SwapError::NoProgramAddress),
        Some(k) => k,
    };
    let buyer_sell_wallet = match get_associated_token_address(buyer, sell_token) {
        None => return Err(SwapError::NoProgramAddress),
        Some(k) => k,
    };
    let mut accounts: Vec<AccountMeta> = Vec::new();
    accounts.push(meta(order.seller, false, false));
    accounts.push(meta(*buyer, true, true));
    accounts.push(meta(*order_address, false, true));
    if order.is_private {
        accounts.push(meta(instructions_id(), false, false));
    }
    accounts.push(meta(authority, false, false));
    accounts.push(meta(*sell_token, false, false));
    accounts.push(meta(order.order_wallet, false, true));
    accounts.push(meta(order.price_mint, false, false));
    accounts.push(meta(buyer_buy_wallet, false, true));
    accounts.push(meta(seller_buy_wallet, false, true));
    accounts.push(meta(buyer_sell_wallet, false, true));
    accounts.push(meta(token_id(), false, false));
    let data = amount_instruction_data(P2PSwapInstructions::FillOrder, sell_token_amount);
    Ok(Instruction { program_id: *program_id, accounts, data })
}

} // verus!
