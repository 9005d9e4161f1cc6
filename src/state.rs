use vstd::prelude::*;
use vstd::bytes::{
    spec_u64_from_le_bytes, spec_u64_to_le_bytes, u64_from_le_bytes, u64_to_le_bytes,
    lemma_auto_spec_u64_to_from_le_bytes,
};
use vstd::slice::slice_subrange;
use crate::error::SwapError;
use crate::pubkey::Pubkey;

verus! {

/// Size in bytes of a packed order record.
pub const ORDER_LEN: usize = 137;

/// One swap order: what the seller escrowed, at which price, and how much of
/// it is still for sale.
#[derive(Clone, Copy, Debug)]
pub struct SwapSPLOrder {
    /// Slot used as a nonce when the order's address was derived.
    pub creation_slot: u64,
    /// Who sells.
    pub seller: Pubkey,
    /// How much was escrowed when the order was created.
    pub sell_amount: u64,
    /// Escrow vault holding the sell-token; shared by all the seller's
    /// orders on that token.
    pub order_wallet: Pubkey,
    /// Token that the seller is paid in.
    pub price_mint: Pubkey,
    /// What the seller receives when the whole order is filled.
    pub buy_amount: u64,
    /// Smallest quantity that one fill may take.
    pub min_sell_amount: u64,
    /// What is still for sale.
    pub remains_to_fill: u64,
    /// Whether each fill needs the seller's signature over the order address.
    pub is_private: bool,
}

pub open spec fn bool_byte(b: bool) -> u8 {
    if b {
        1u8
    } else {
        0u8
    }
}

/// The little-endian `u64` stored at `at`.
pub open spec fn u64_at(s: Seq<u8>, at: int) -> u64 {
    spec_u64_from_le_bytes(s.subrange(at, at + 8))
}

/// The packed layout of a record.
pub open spec fn encode_order(o: SwapSPLOrder) -> Seq<u8> {
    spec_u64_to_le_bytes(o.creation_slot) + o.seller@ + spec_u64_to_le_bytes(o.sell_amount)
        + o.order_wallet@ + o.price_mint@ + spec_u64_to_le_bytes(o.buy_amount)
        + spec_u64_to_le_bytes(o.min_sell_amount) + spec_u64_to_le_bytes(o.remains_to_fill)
        + seq![bool_byte(o.is_private)]
}

/// Whether 137 bytes decode as a record: only the flag byte can be wrong.
pub open spec fn order_decodes(s: Seq<u8>) -> bool {
    s.len() == 137 && (s[136] == 0 || s[136] == 1)
}

/// The record that `s` decodes to is `o`.
pub open spec fn decodes_to(s: Seq<u8>, o: SwapSPLOrder) -> bool {
    &&& order_decodes(s)
    &&& o.creation_slot == u64_at(s, 0)
    &&& o.seller@ == s.subrange(8, 40)
    &&& o.sell_amount == u64_at(s, 40)
    &&& o.order_wallet@ == s.subrange(48, 80)
    &&& o.price_mint@ == s.subrange(80, 112)
    &&& o.buy_amount == u64_at(s, 112)
    &&& o.min_sell_amount == u64_at(s, 120)
    &&& o.remains_to_fill == u64_at(s, 128)
    &&& o.is_private == (s[136] == 1)
}

/// The bytes of a record that was never created, or that was closed: all
/// zero.
pub open spec fn blank_record() -> Seq<u8> {
    Seq::new(137, |i: int| 0u8)
}

/// Whether every byte of `src` is zero.
pub fn all_zero(src: &[u8]) -> (r: bool)
    ensures
        r == (forall|i: int| 0 <= i < src@.len() ==> src@[i] == 0),
{
    let mut i: usize = 0;
    while i < src.len()
        invariant
            i <= src@.len(),
            forall|j: int| 0 <= j < i ==> src@[j] == 0,
        decreases src@.len() - i,
    {
        if src[i] != 0 {
            return false;
        }
        i = i + 1;
    }
    true
}

/// Two records are the same field by field.
pub open spec fn same_order(a: SwapSPLOrder, b: SwapSPLOrder) -> bool {
    &&& a.creation_slot == b.creation_slot
    &&& a.seller@ == b.seller@
    &&& a.sell_amount == b.sell_amount
    &&& a.order_wallet@ == b.order_wallet@
    &&& a.price_mint@ == b.price_mint@
    &&& a.buy_amount == b.buy_amount
    &&& a.min_sell_amount == b.min_sell_amount
    &&& a.remains_to_fill == b.remains_to_fill
    &&& a.is_private == b.is_private
}

/// The record that bytes satisfying `order_decodes` stand for.
pub open spec fn decode_order(s: Seq<u8>) -> SwapSPLOrder {
    choose|o: SwapSPLOrder| decodes_to(s, o)
}

/// Records that agree on every field are equal.
pub proof fn lemma_same_order_eq(a: SwapSPLOrder, b: SwapSPLOrder)
    requires
        same_order(a, b),
    ensures
        a == b,
{
    broadcast use vstd::array::group_array_axioms;

    assert(a.seller.0 =~= b.seller.0);
    assert(a.order_wallet.0 =~= b.order_wallet.0);
    assert(a.price_mint.0 =~= b.price_mint.0);
}

/// Bytes decode to at most one record, which `decode_order` names.
pub proof fn lemma_decode_order(s: Seq<u8>, o: SwapSPLOrder)
    requires
        decodes_to(s, o),
    ensures
        decode_order(s) == o,
{
    let c = decode_order(s);
    assert(decodes_to(s, c));
    lemma_same_order_eq(c, o);
}

/// A packed record decodes to exactly the record that was packed.
pub proof fn lemma_encode_decodes(o: SwapSPLOrder)
    ensures
        encode_order(o).len() == ORDER_LEN,
        decodes_to(encode_order(o), o),
{
    lemma_auto_spec_u64_to_from_le_bytes();
    let s = encode_order(o);
    assert(o.seller@.len() == 32);
    assert(o.order_wallet@.len() == 32);
    assert(o.price_mint@.len() == 32);
    assert(s.subrange(0, 8) =~= spec_u64_to_le_bytes(o.creation_slot));
    assert(s.subrange(8, 40) =~= o.seller@);
    assert(s.subrange(40, 48) =~= spec_u64_to_le_bytes(o.sell_amount));
    assert(s.subrange(48, 80) =~= o.order_wallet@);
    assert(s.subrange(80, 112) =~= o.price_mint@);
    assert(s.subrange(112, 120) =~= spec_u64_to_le_bytes(o.buy_amount));
    assert(s.subrange(120, 128) =~= spec_u64_to_le_bytes(o.min_sell_amount));
    assert(s.subrange(128, 136) =~= spec_u64_to_le_bytes(o.remains_to_fill));
}

/// Bytes that decode to a record are that record's packed layout.
pub proof fn lemma_decodes_to_encode(s: Seq<u8>, o: SwapSPLOrder)
    requires
        decodes_to(s, o),
    ensures
        encode_order(o) == s,
{
    lemma_auto_spec_u64_to_from_le_bytes();
    assert(s.subrange(0, 8).len() == 8);
    assert(encode_order(o) =~= s.subrange(0, 8) + s.subrange(8, 40) + s.subrange(40, 48)
        + s.subrange(48, 80) + s.subrange(80, 112) + s.subrange(112, 120) + s.subrange(120, 128)
        + s.subrange(128, 136) + seq![s[136]]);
    assert(encode_order(o) =~= s);
}

/// Packing then unpacking gives back every field unchanged, unpacking then
/// packing gives back the bytes, and a flag byte other than 0 or 1 never
/// decodes.
pub proof fn lemma_pack_unpack_round_trip(o: SwapSPLOrder, s: Seq<u8>, u: SwapSPLOrder)
    ensures
        order_decodes(encode_order(o)),
        decodes_to(encode_order(o), u) ==> same_order(u, o),
        decodes_to(s, u) ==> encode_order(u) == s,
        s.len() == ORDER_LEN && s[136] != 0 && s[136] != 1 ==> !order_decodes(s),
{
    lemma_encode_decodes(o);
    if decodes_to(s, u) {
        lemma_decodes_to_encode(s, u);
    }
}

/// Writes `src` into `dst` from `at` on.
pub fn write_bytes(dst: &mut [u8], at: usize, src: &[u8])
    requires
        at + src@.len() <= old(dst)@.len(),
    ensures
        final(dst)@.len() == old(dst)@.len(),
        final(dst)@ == old(dst)@.subrange(0, at as int) + src@ + old(dst)@.subrange(
            at + src@.len(),
            old(dst)@.len() as int,
        ),
{
    let mut i: usize = 0;
    while i < src.len()
        invariant
            i <= src@.len(),
            at + src@.len() <= dst.len(),
            dst@.len() == old(dst)@.len(),
            forall|j: int| 0 <= j < at ==> dst@[j] == old(dst)@[j],
            forall|j: int| 0 <= j < i ==> dst@[at + j] == src@[j],
            forall|j: int| at + src@.len() <= j < dst@.len() ==> dst@[j] == old(dst)@[j],
        decreases src@.len() - i,
    {
        dst[at + i] = src[i];
        i = i + 1;
    }
    assert(dst@ =~= old(dst)@.subrange(0, at as int) + src@ + old(dst)@.subrange(
        at + src@.len(),
        old(dst)@.len() as int,
    ));
}

impl SwapSPLOrder {
    /// A record counts as created unless its packed layout is all zero,
    /// which is what a closed record is left as.
    pub fn is_initialized(&self) -> (r: bool)
        ensures
            r == (encode_order(*self) != blank_record()),
    {
        let bytes = self.to_bytes();
        proof {
            lemma_encode_decodes(*self);
        }
        let z = all_zero(bytes.as_slice());
        if z {
            assert(bytes@ =~= blank_record());
        } else {
            assert(bytes@ != blank_record());
        }
        !z
    }

    /// The packed layout of the record.
    pub fn to_bytes(&self) -> (r: Vec<u8>)
        ensures
            r@ == encode_order(*self),
    {
        let mut r = u64_to_le_bytes(self.creation_slot);
        r.extend_from_slice(&self.seller.0);
        let mut b = u64_to_le_bytes(self.sell_amount);
        r.append(&mut b);
        r.extend_from_slice(&self.order_wallet.0);
        r.extend_from_slice(&self.price_mint.0);
        let mut b = u64_to_le_bytes(self.buy_amount);
        r.append(&mut b);
        let mut b = u64_to_le_bytes(self.min_sell_amount);
        r.append(&mut b);
        let mut b = u64_to_le_bytes(self.remains_to_fill);
        r.append(&mut b);
        r.push(if self.is_private { 1u8 } else { 0u8 });
        r
    }

    /// Writes the packed record over the first 137 bytes of `dst`.
    pub fn pack_into_slice(&self, dst: &mut [u8])
        requires
            old(dst)@.len() >= ORDER_LEN,
        ensures
            final(dst)@ == encode_order(*self) + old(dst)@.subrange(137, old(dst)@.len() as int),
    {
        let bytes = self.to_bytes();
        proof {
            lemma_encode_decodes(*self);
        }
        write_bytes(dst, 0, bytes.as_slice());
        assert(final(dst)@ =~= encode_order(*self) + old(dst)@.subrange(137, old(dst)@.len() as int));
    }

    /// Decodes the first 137 bytes of `src`.
    pub fn unpack_from_slice(src: &[u8]) -> (r: Result<SwapSPLOrder, SwapError>)
        requires
            src@.len() >= ORDER_LEN,
        ensures
            r is Ok <==> order_decodes(src@.subrange(0, 137)),
            r matches Ok(o) ==> decodes_to(src@.subrange(0, 137), o),
            r matches Err(e) ==> e == SwapError::AccountMismatch,
    {
        let flag = src[136];
        if flag > 1 {
            return Err(SwapError::AccountMismatch);
        }
        let o = SwapSPLOrder {
            creation_slot: u64_from_le_bytes(slice_subrange(src, 0, 8)),
            seller: Pubkey::read_from(src, 8),
            sell_amount: u64_from_le_bytes(slice_subrange(src, 40, 48)),
            order_wallet: Pubkey::read_from(src, 48),
            price_mint: Pubkey::read_from(src, 80),
            buy_amount: u64_from_le_bytes(slice_subrange(src, 112, 120)),
            min_sell_amount: u64_from_le_bytes(slice_subrange(src, 120, 128)),
            remains_to_fill: u64_from_le_bytes(slice_subrange(src, 128, 136)),
            is_private: flag == 1,
        };
        proof {
            let s = src@.subrange(0, 137);
            assert(s.subrange(0, 8) =~= src@.subrange(0, 8));
            assert(s.subrange(8, 40) =~= src@.subrange(8, 40));
            assert(s.subrange(40, 48) =~= src@.subrange(40, 48));
            assert(s.subrange(48, 80) =~= src@.subrange(48, 80));
            assert(s.subrange(80, 112) =~= src@.subrange(80, 112));
            assert(s.subrange(112, 120) =~= src@.subrange(112, 120));
            assert(s.subrange(120, 128) =~= src@.subrange(120, 128));
            assert(s.subrange(128, 136) =~= src@.subrange(128, 136));
        }
        Ok(o)
    }

    /// Decodes a record that must be exactly 137 bytes long and not blank.
    pub fn unpack(src: &[u8]) -> (r: Result<SwapSPLOrder, SwapError>)
        ensures
            r is Ok <==> order_decodes(src@) && src@ != blank_record(),
            r matches Ok(o) ==> decodes_to(src@, o),
            !order_decodes(src@) ==> r == Err::<SwapSPLOrder, SwapError>(SwapError::AccountMismatch),
            src@ == blank_record() ==> r == Err::<SwapSPLOrder, SwapError>(
                SwapError::UninitializedAccount,
            ),
    {
        if src.len() != ORDER_LEN {
            return Err(SwapError::AccountMismatch);
        }
        assert(src@.subrange(0, 137) =~= src@);
        let o = Self::unpack_from_slice(src)?;
        if all_zero(src) {
            assert(src@ =~= blank_record());
            return Err(SwapError::UninitializedAccount);
        }
        Ok(o)
    }

    /// Writes the record into `dst`, which must be exactly 137 bytes long.
    pub fn pack(&self, dst: &mut [u8]) -> (r: Result<(), SwapError>)
        ensures
            r is Ok <==> old(dst)@.len() == ORDER_LEN,
            r is Ok ==> final(dst)@ == encode_order(*self),
            r is Err ==> final(dst)@ == old(dst)@ && r == Err::<(), SwapError>(SwapError::AccountMismatch),
    {
        if dst.len() != ORDER_LEN {
            return Err(SwapError::AccountMismatch);
        }
        self.pack_into_slice(dst);
        assert(old(dst)@.subrange(137, 137) =~= Seq::<u8>::empty());
        assert(encode_order(*self) + Seq::<u8>::empty() =~= encode_order(*self));
        Ok(())
    }
}

} // verus!
