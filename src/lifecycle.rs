use vstd::prelude::*;
use vstd::bytes::spec_u16_from_le_bytes;
use crate::error::SwapError;
use crate::instruction::create_args_of;
use crate::processor::{
    create_order_spec, fill_gate, fill_order_spec, fill_prefix, net_change, price_of,
    inline_offsets_table, revoke_gate, revoke_order_spec, within_creation_window, AccountView,
    CreatedOrder,
    FilledOrder, RevokedOrder, TokenTransfer, MAX_SLOT_DIFFERENCE,
};
use crate::runtime::clock_sysvar_id;
use crate::state::u64_at;
use crate::address::order_address_of;
use crate::runtime::{ed25519_program_id, instruction_at, instructions_sysvar_id};
use crate::state::SwapSPLOrder;

verus! {

/// Rounding the price down never owes more than the whole order's buy
/// amount while the fill stays within the order.
pub proof fn lemma_price_within_order(sell_token_amount: u64, buy_amount: u64, sell_amount: u64)
    requires
        sell_amount > 0,
        sell_token_amount <= sell_amount,
    ensures
        0 <= price_of(sell_token_amount, buy_amount, sell_amount) <= buy_amount,
{
    let a = sell_token_amount as int;
    let b = buy_amount as int;
    let s = sell_amount as int;
    assert(0 <= a * b) by (nonlinear_arith)
        requires
            0 <= a,
            0 <= b,
    ;
    assert(a * b <= s * b) by (nonlinear_arith)
        requires
            0 <= a <= s,
            0 <= b,
    ;
    assert((s * b) / s == b) by (nonlinear_arith)
        requires
            s > 0,
    ;
    assert((a * b) / s <= (s * b) / s) by (nonlinear_arith)
        requires
            a * b <= s * b,
            s > 0,
    ;
    assert(0 <= (a * b) / s) by (nonlinear_arith)
        requires
            0 <= a * b,
            s > 0,
    ;
}

/// An accepted fill of `amount` from order `o` pays the seller the price
/// rounded down, takes `amount` off what remains, and moves `amount` out of
/// the vault and the price from the buyer's buy-wallet to the seller's.
/// The balance statements need the four wallets to be distinct; the buyer
/// and the seller being one party is where they fail.
pub proof fn lemma_fill_effects(program_id: Seq<u8>, accounts: Seq<AccountView>, data: Seq<u8>)
    ensures
        fill_order_spec(program_id, accounts, data) matches Ok(f) ==> ({
            let amount = fill_prefix(program_id, accounts, data)->Ok_0.0;
            let o = fill_prefix(program_id, accounts, data)->Ok_0.1;
            let legs = seq![f.release, f.payment];
            &&& o.min_sell_amount <= amount <= o.remains_to_fill
            &&& f.payment.amount == price_of(amount, o.buy_amount, o.sell_amount)
            &&& f.order.remains_to_fill == o.remains_to_fill - amount
            &&& f.order == (SwapSPLOrder { remains_to_fill: f.order.remains_to_fill, ..o })
            &&& f.release.amount == amount
            &&& f.release.source@ == o.order_wallet@
            &&& f.payment.destination@ != f.payment.source@ ==> (
                {
                    &&& f.release.source@ != f.release.destination@
                    &&& f.release.source@ != f.payment.source@
                    &&& f.release.source@ != f.payment.destination@
                } ==> {
                    &&& net_change(legs, f.release.source@) == -(amount as int)
                    &&& net_change(legs, f.payment.source@) == -price_of(
                        amount,
                        o.buy_amount,
                        o.sell_amount,
                    ) + (if f.payment.source@ == f.release.destination@ {
                        amount as int
                    } else {
                        0
                    })
                    &&& net_change(legs, f.payment.destination@) == price_of(
                        amount,
                        o.buy_amount,
                        o.sell_amount,
                    ) + (if f.payment.destination@ == f.release.destination@ {
                        amount as int
                    } else {
                        0
                    })
                })
        }),
{
    reveal_with_fuel(net_change, 3);
    if let Ok(f) = fill_order_spec(program_id, accounts, data) {
        let legs = seq![f.release, f.payment];
        assert(legs.drop_last() =~= seq![f.release]);
        assert(seq![f.release].drop_last() =~= Seq::<TokenTransfer>::empty());
    }
}

/// The remainder left by an accepted fill never exceeds what was sold, and
/// the price of such a fill fits the order's buy amount.
pub proof fn lemma_fill_keeps_remainder(program_id: Seq<u8>, accounts: Seq<AccountView>, data: Seq<u8>)
    ensures
        fill_order_spec(program_id, accounts, data) matches Ok(f) ==> ({
            let o = fill_prefix(program_id, accounts, data)->Ok_0.1;
            &&& f.order.remains_to_fill <= o.remains_to_fill
            &&& o.remains_to_fill <= o.sell_amount ==> f.payment.amount <= o.buy_amount
        }),
{
    if let Ok(f) = fill_order_spec(program_id, accounts, data) {
        let p = fill_prefix(program_id, accounts, data)->Ok_0;
        if p.1.remains_to_fill <= p.1.sell_amount {
            lemma_price_within_order(p.0, p.1.buy_amount, p.1.sell_amount);
        }
    }
}

/// A record that keeps its invariant (something was sold, and no more
/// remains than was sold) never has a fill within its bounds refused for the
/// size of the price: the price is at most the order's buy amount.
pub proof fn lemma_fill_price_fits(program_id: Seq<u8>, accounts: Seq<AccountView>, data: Seq<u8>)
    ensures
        fill_prefix(program_id, accounts, data) matches Ok(p) ==> (0 < p.1.sell_amount
            && p.1.remains_to_fill <= p.1.sell_amount ==> fill_order_spec(program_id, accounts, data)
            != Err::<FilledOrder, SwapError>(SwapError::ArithmeticOverflow)),
{
    if let Ok(p) = fill_prefix(program_id, accounts, data) {
        if 0 < p.1.sell_amount && p.1.remains_to_fill <= p.1.sell_amount {
            lemma_price_within_order(p.0, p.1.buy_amount, p.1.sell_amount);
        }
    }
}

/// A fill below the order's minimum is always refused with
/// `BelowMinimumFill`, whatever remains of the order, once the checks that
/// come before the size (payload, record, unlock, seller) have passed; and
/// no fill below the minimum is ever accepted.
pub proof fn lemma_fill_below_minimum(program_id: Seq<u8>, accounts: Seq<AccountView>, data: Seq<u8>)
    ensures
        fill_gate(program_id, accounts, data) matches Ok(p) ==> (p.0 < p.1.min_sell_amount ==> fill_order_spec(
            program_id,
            accounts,
            data,
        ) == Err::<FilledOrder, SwapError>(SwapError::BelowMinimumFill)),
        fill_order_spec(program_id, accounts, data) is Ok ==> (fill_gate(program_id, accounts, data) matches Ok(
            p,
        ) && p.0 >= p.1.min_sell_amount),
{
}

/// A fill larger than what remains is always refused with
/// `InsufficientRemaining` once the earlier checks have passed and the fill
/// reaches the minimum (below it, `BelowMinimumFill` comes first); and no
/// fill larger than what remains is ever accepted.
pub proof fn lemma_fill_above_remaining(program_id: Seq<u8>, accounts: Seq<AccountView>, data: Seq<u8>)
    ensures
        fill_gate(program_id, accounts, data) matches Ok(p) ==> (p.0 >= p.1.min_sell_amount && p.0
            > p.1.remains_to_fill ==> fill_order_spec(program_id, accounts, data) == Err::<
            FilledOrder,
            SwapError,
        >(SwapError::InsufficientRemaining)),
        fill_order_spec(program_id, accounts, data) is Ok ==> (fill_gate(program_id, accounts, data) matches Ok(
            p,
        ) && p.0 <= p.1.remains_to_fill),
{
}

/// The instruction that the instructions sysvar in `sysvar` shows right
/// before the running one binds a fill of the order at `order` to `seller`:
/// it verifies one signature laid out inline, so the key it verifies is
/// `seller` and the message it verifies is `order`.
pub open spec fn preceded_by_binding_signature(sysvar: AccountView, seller: Seq<u8>, order: Seq<u8>) -> bool {
    let d = sysvar.data@;
    &&& sysvar.key@ == instructions_sysvar_id()
    &&& d.len() >= 2
    &&& spec_u16_from_le_bytes(d.subrange(d.len() - 2, d.len() as int)) > 0
    &&& instruction_at(
        (spec_u16_from_le_bytes(d.subrange(d.len() - 2, d.len() as int)) - 1) as nat,
        d,
    ) matches Some(p)
    &&& p.0 == ed25519_program_id()
    &&& p.1.len() >= 144
    &&& p.1[0] == 1
    &&& p.1.subrange(2, 16) == inline_offsets_table()
    &&& p.1.subrange(16, 48) == seller
    &&& p.1.subrange(112, 144) == order
}

/// A private order is filled only right after a verified signature whose
/// signer is the order's seller and whose message is this order's own
/// address: a missing signature, another signer, or a signature over another
/// order's address is refused.
pub proof fn lemma_private_fill_needs_binding(program_id: Seq<u8>, accounts: Seq<AccountView>, data: Seq<u8>)
    ensures
        fill_gate(program_id, accounts, data) matches Ok(p) ==> (p.1.is_private ==> accounts.len() >= 4
            && preceded_by_binding_signature(accounts[3], p.1.seller@, accounts[2].key@)),
        fill_order_spec(program_id, accounts, data) is Ok ==> fill_gate(program_id, accounts, data) is Ok,
{
}

/// An accepted creation records the whole sell amount as remaining, and
/// its one transfer puts exactly that amount into the order's vault (the
/// vault's balance grows by it unless the seller's wallet is the vault
/// itself, where nothing moves).
pub proof fn lemma_create_locks_sell_amount(program_id: Seq<u8>, accounts: Seq<AccountView>, data: Seq<u8>, is_private: bool)
    ensures
        create_order_spec(program_id, accounts, data, is_private) matches Ok(c) ==> ({
            &&& c.order.sell_amount == create_args_of(data).sell_amount
            &&& c.order.remains_to_fill == c.order.sell_amount
            &&& c.order.is_private == is_private
            &&& c.deposit.amount == c.order.sell_amount
            &&& c.deposit.destination == c.order.order_wallet
            &&& c.deposit.source@ != c.deposit.destination@ ==> net_change(
                seq![c.deposit],
                c.order.order_wallet@,
            ) == c.order.sell_amount as int
        }),
{
    reveal_with_fuel(net_change, 2);
    if let Ok(c) = create_order_spec(program_id, accounts, data, is_private) {
        assert(seq![c.deposit].drop_last() =~= Seq::<TokenTransfer>::empty());
    }
}

/// A creation whose nonce is later than the clock, or more than
/// `MAX_SLOT_DIFFERENCE` slots behind it, is refused with
/// `CreationWindowExceeded` once the 32-byte payload and the clock account
/// have been read; and no creation outside
/// that window is ever accepted.
pub proof fn lemma_create_window(program_id: Seq<u8>, accounts: Seq<AccountView>, data: Seq<u8>, is_private: bool)
    ensures
        (data.len() == 32 && accounts.len() >= 1 && accounts[0].key@ == clock_sysvar_id()
            && accounts[0].data@.len() >= 40 && !within_creation_window(
            create_args_of(data).creation_slot,
            u64_at(accounts[0].data@, 0),
        )) ==> create_order_spec(program_id, accounts, data, is_private) == Err::<
            CreatedOrder,
            SwapError,
        >(SwapError::CreationWindowExceeded),
        create_order_spec(program_id, accounts, data, is_private) is Ok ==> ({
            let slot = create_args_of(data).creation_slot;
            let now = u64_at(accounts[0].data@, 0);
            slot <= now && now - slot <= MAX_SLOT_DIFFERENCE
        }),
{
}

/// A caller other than the seller revokes only an order whose remainder is
/// at most its minimum fill, and then always takes the whole remainder,
/// which closes the record; for such a caller, a larger remainder is
/// refused once the order and its escrow have been checked.
pub proof fn lemma_revoke_by_other(program_id: Seq<u8>, accounts: Seq<AccountView>, data: Seq<u8>)
    ensures
        revoke_order_spec(program_id, accounts, data) matches Ok(r) ==> (accounts[0].key@
            != accounts[1].key@ ==> {
            let o = revoke_gate(program_id, accounts)->Ok_0.0;
            &&& o.remains_to_fill <= o.min_sell_amount
            &&& r.refund.amount == o.remains_to_fill
            &&& r.order is None
        }),
        revoke_gate(program_id, accounts) matches Ok(p) ==> (accounts[0].key@ != accounts[1].key@
            && p.0.remains_to_fill > p.0.min_sell_amount ==> revoke_order_spec(
            program_id,
            accounts,
            data,
        ) is Err),
{
}

/// A revocation that takes what remains zeroes the record and pays its
/// lamports to the caller; one that leaves a remainder keeps the record,
/// unchanged but for the remainder, which drops by the amount refunded.
pub proof fn lemma_revoke_closes_at_zero(program_id: Seq<u8>, accounts: Seq<AccountView>, data: Seq<u8>)
    ensures
        revoke_order_spec(program_id, accounts, data) matches Ok(r) ==> ({
            let o = revoke_gate(program_id, accounts)->Ok_0.0;
            &&& r.refund.amount <= o.remains_to_fill
            &&& r.refund.amount == o.remains_to_fill ==> r.order is None
                && r.reclaimed_lamports == accounts[2].lamports
            &&& r.refund.amount < o.remains_to_fill ==> r.order == Some(
                SwapSPLOrder { remains_to_fill: (o.remains_to_fill - r.refund.amount) as u64, ..o },
            ) && r.reclaimed_lamports == 0
        }),
{
}

/// An accepted fill or revocation acts on a record that sits at the address
/// derived from its own seller and nonce, and takes tokens only from that
/// record's own vault.
pub proof fn lemma_accounts_rederived(program_id: Seq<u8>, accounts: Seq<AccountView>, data: Seq<u8>)
    ensures
        fill_order_spec(program_id, accounts, data) matches Ok(f) ==> ({
            let o = fill_prefix(program_id, accounts, data)->Ok_0.1;
            &&& order_address_of(program_id, o.seller@, o.creation_slot) matches Some(a)
            &&& a.0 == accounts[2].key@
            &&& f.release.source@ == o.order_wallet@
        }),
        revoke_order_spec(program_id, accounts, data) matches Ok(r) ==> ({
            let o = revoke_gate(program_id, accounts)->Ok_0.0;
            &&& order_address_of(program_id, o.seller@, o.creation_slot) matches Some(a)
            &&& a.0 == accounts[2].key@
            &&& r.refund.source@ == o.order_wallet@
        }),
{
}

} // verus!
