use vstd::prelude::*;
use vstd::bytes::{
    spec_u64_from_le_bytes, spec_u64_to_le_bytes, u64_from_le_bytes, u64_to_le_bytes,
    lemma_auto_spec_u64_to_from_le_bytes,
};
use vstd::slice::slice_subrange;
use crate::error::SwapError;

verus! {

/// The instruction selected by the leading tag byte.
#[derive(Clone, Copy, Debug, PartialEq, Eq, Structural)]
pub enum P2PSwapInstructions {
    Undefined,
    CreatePublicOrder,
    CreatePrivateOrder,
    RevokeOrder,
    FillOrder,
}

/// The instruction that a tag byte selects.
pub open spec fn instruction_of_tag(value: u8) -> P2PSwapInstructions {
    if value == 1 {
        P2PSwapInstructions::CreatePublicOrder
    } else if value == 2 {
        P2PSwapInstructions::CreatePrivateOrder
    } else if value == 3 {
        P2PSwapInstructions::RevokeOrder
    } else if value == 4 {
        P2PSwapInstructions::FillOrder
    } else {
        P2PSwapInstructions::Undefined
    }
}

/// The tag byte of an instruction.
pub open spec fn tag_of(i: P2PSwapInstructions) -> u8 {
    match i {
        P2PSwapInstructions::Undefined => 0,
        P2PSwapInstructions::CreatePublicOrder => 1,
        P2PSwapInstructions::CreatePrivateOrder => 2,
        P2PSwapInstructions::RevokeOrder => 3,
        P2PSwapInstructions::FillOrder => 4,
    }
}

impl P2PSwapInstructions {
    pub fn from_u8(value: u8) -> (r: Self)
        ensures
            r == instruction_of_tag(value),
    {
        match value {
            1 => P2PSwapInstructions::CreatePublicOrder,
            2 => P2PSwapInstructions::CreatePrivateOrder,
            3 => P2PSwapInstructions::RevokeOrder,
            4 => P2PSwapInstructions::FillOrder,
            _ => P2PSwapInstructions::Undefined,
        }
    }

    pub fn to_u8(&self) -> (r: u8)
        ensures
            r == tag_of(*self),
    {
        match self {
            P2PSwapInstructions::Undefined => 0,
            P2PSwapInstructions::CreatePublicOrder => 1,
            P2PSwapInstructions::CreatePrivateOrder => 2,
            P2PSwapInstructions::RevokeOrder => 3,
            P2PSwapInstructions::FillOrder => 4,
        }
    }
}

/// The payload of an order-creation instruction.
#[derive(Clone, Copy, Debug, PartialEq, Eq, Structural)]
pub struct CreateOrderArgs {
    pub sell_amount: u64,
    pub buy_amount: u64,
    pub min_sell_amount: u64,
    pub creation_slot: u64,
}

/// The 32-byte payload of an order-creation instruction.
pub open spec fn encode_create_args(a: CreateOrderArgs) -> Seq<u8> {
    spec_u64_to_le_bytes(a.sell_amount) + spec_u64_to_le_bytes(a.buy_amount)
        + spec_u64_to_le_bytes(a.min_sell_amount) + spec_u64_to_le_bytes(a.creation_slot)
}

/// The arguments that a 32-byte payload holds.
pub open spec fn create_args_of(s: Seq<u8>) -> CreateOrderArgs {
    CreateOrderArgs {
        sell_amount: spec_u64_from_le_bytes(s.subrange(0, 8)),
        buy_amount: spec_u64_from_le_bytes(s.subrange(8, 16)),
        min_sell_amount: spec_u64_from_le_bytes(s.subrange(16, 24)),
        creation_slot: spec_u64_from_le_bytes(s.subrange(24, 32)),
    }
}

/// Reads the payload of an order-creation instruction, which is four
/// little-endian `u64`s.
pub fn decode_create_args(data: &[u8]) -> (r: Result<CreateOrderArgs, SwapError>)
    ensures
        r is Ok <==> data@.len() == 32,
        r matches Ok(a) ==> a == create_args_of(data@),
        r matches Err(e) ==> e == SwapError::MalformedInstruction,
{
    if data.len() != 32 {
        return Err(SwapError::MalformedInstruction);
    }
    Ok(
        CreateOrderArgs {
            sell_amount: u64_from_le_bytes(slice_subrange(data, 0, 8)),
            buy_amount: u64_from_le_bytes(slice_subrange(data, 8, 16)),
            min_sell_amount: u64_from_le_bytes(slice_subrange(data, 16, 24)),
            creation_slot: u64_from_le_bytes(slice_subrange(data, 24, 32)),
        },
    )
}

/// Reads a payload that is one little-endian `u64`.
pub fn decode_amount(data: &[u8]) -> (r: Result<u64, SwapError>)
    ensures
        r is Ok <==> data@.len() == 8,
        r matches Ok(a) ==> a == spec_u64_from_le_bytes(data@),
        r matches Err(e) ==> e == SwapError::MalformedInstruction,
{
    if data.len() != 8 {
        return Err(SwapError::MalformedInstruction);
    }
    Ok(u64_from_le_bytes(data))
}

/// The whole data of an order-creation instruction: tag, then payload.
pub fn create_order_data(args: CreateOrderArgs, is_private: bool) -> (r: Vec<u8>)
    ensures
        r@ == seq![if is_private { 2u8 } else { 1u8 }] + encode_create_args(args),
{
    let mut r: Vec<u8> = Vec::new();
    r.push(if is_private { 2u8 } else { 1u8 });
    let mut b = u64_to_le_bytes(args.sell_amount);
    r.append(&mut b);
    let mut b = u64_to_le_bytes(args.buy_amount);
    r.append(&mut b);
    let mut b = u64_to_le_bytes(args.min_sell_amount);
    r.append(&mut b);
    let mut b = u64_to_le_bytes(args.creation_slot);
    r.append(&mut b);
    r
}

/// The whole data of an instruction whose payload is one amount.
pub fn amount_instruction_data(tag: P2PSwapInstructions, amount: u64) -> (r: Vec<u8>)
    ensures
        r@ == seq![tag_of(tag)] + spec_u64_to_le_bytes(amount),
{
    let mut r: Vec<u8> = Vec::new();
    r.push(tag.to_u8());
    let mut b = u64_to_le_bytes(amount);
    r.append(&mut b);
    r
}

/// The creation payload decodes to the arguments it was built from.
pub proof fn lemma_create_args_round_trip(a: CreateOrderArgs)
    ensures
        encode_create_args(a).len() == 32,
        create_args_of(encode_create_args(a)) == a,
{
    lemma_auto_spec_u64_to_from_le_bytes();
    let s = encode_create_args(a);
    assert(s.subrange(0, 8) =~= spec_u64_to_le_bytes(a.sell_amount));
    assert(s.subrange(8, 16) =~= spec_u64_to_le_bytes(a.buy_amount));
    assert(s.subrange(16, 24) =~= spec_u64_to_le_bytes(a.min_sell_amount));
    assert(s.subrange(24, 32) =~= spec_u64_to_le_bytes(a.creation_slot));
}

/// The data that a client builds reads back, through the tag byte and the
/// payload decoders, as the instruction and the values it was built from.
pub proof fn lemma_client_data_decodes(a: CreateOrderArgs, is_private: bool, amount: u64)
    ensures
        ({
            let d = seq![if is_private { 2u8 } else { 1u8 }] + encode_create_args(a);
            &&& d.len() == 33
            &&& instruction_of_tag(d[0]) == (if is_private {
                P2PSwapInstructions::CreatePrivateOrder
            } else {
                P2PSwapInstructions::CreatePublicOrder
            })
            &&& create_args_of(d.subrange(1, 33)) == a
        }),
        ({
            let d = seq![tag_of(P2PSwapInstructions::FillOrder)] + spec_u64_to_le_bytes(amount);
            &&& d.len() == 9
            &&& instruction_of_tag(d[0]) == P2PSwapInstructions::FillOrder
            &&& spec_u64_from_le_bytes(d.subrange(1, 9)) == amount
        }),
{
    lemma_create_args_round_trip(a);
    lemma_auto_spec_u64_to_from_le_bytes();
    let d = seq![if is_private { 2u8 } else { 1u8 }] + encode_create_args(a);
    assert(d.subrange(1, 33) =~= encode_create_args(a));
    let f = seq![tag_of(P2PSwapInstructions::FillOrder)] + spec_u64_to_le_bytes(amount);
    assert(f.subrange(1, 9) =~= spec_u64_to_le_bytes(amount));
}

} // verus!
