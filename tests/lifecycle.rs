use p2p_swap::address::get_associated_token_address;
use p2p_swap::instruction::{amount_instruction_data, create_order_data, CreateOrderArgs};
use p2p_swap::processor::{
    create_order, create_private_order, create_public_order, fill_order, process_instruction,
    revoke_order, AccountView, CreatedOrder, FilledOrder, RevokedOrder, SwapOutcome,
};
use p2p_swap::{
    get_order_address, get_order_wallet_address, get_order_wallet_authority,
    new_ed25519_signature_instruction, P2PSwapInstructions, Pubkey, SwapError, SwapSPLOrder,
};
use solana_program::sysvar::instructions::{
    construct_instructions_data, store_current_index, BorrowedAccountMeta, BorrowedInstruction,
};

fn k(n: u8) -> Pubkey {
    Pubkey::new_from_array([n; 32])
}

fn program() -> Pubkey {
    k(200)
}

fn seller() -> Pubkey {
    k(1)
}

fn buyer() -> Pubkey {
    k(9)
}

fn sell_mint() -> Pubkey {
    k(3)
}

fn buy_mint() -> Pubkey {
    k(5)
}

fn from_sol(p: solana_program::pubkey::Pubkey) -> Pubkey {
    Pubkey::new_from_array(p.to_bytes())
}

fn view(key: Pubkey, is_signer: bool, lamports: u64, data: Vec<u8>) -> AccountView {
    AccountView { key, is_signer, lamports, data }
}

fn token_data(mint: &Pubkey, owner: &Pubkey) -> Vec<u8> {
    let mut d = vec![0u8; 165];
    d[0..32].copy_from_slice(&mint.to_bytes());
    d[32..64].copy_from_slice(&owner.to_bytes());
    d[108] = 1;
    d
}

fn clock_data(slot: u64) -> Vec<u8> {
    let mut d = slot.to_le_bytes().to_vec();
    d.extend_from_slice(&[0u8; 32]);
    d
}

fn authority() -> Pubkey {
    get_order_wallet_authority(&program(), &seller()).unwrap().0
}

fn vault() -> Pubkey {
    get_order_wallet_address(&sell_mint(), &authority()).unwrap()
}

fn order_key(slot: u64) -> Pubkey {
    get_order_address(&program(), &seller(), slot).unwrap().0
}

fn args(sell: u64, buy: u64, min: u64, slot: u64) -> CreateOrderArgs {
    CreateOrderArgs { sell_amount: sell, buy_amount: buy, min_sell_amount: min, creation_slot: slot }
}

fn payload(a: CreateOrderArgs) -> Vec<u8> {
    create_order_data(a, false)[1..].to_vec()
}

fn create_accounts(now: u64, slot: u64) -> Vec<AccountView> {
    vec![
        view(from_sol(solana_program::sysvar::clock::id()), false, 0, clock_data(now)),
        view(seller(), true, 10_000, vec![]),
        view(k(2), false, 0, token_data(&sell_mint(), &seller())),
        view(sell_mint(), false, 0, vec![]),
        view(authority(), false, 0, vec![]),
        view(buy_mint(), false, 0, vec![]),
        view(vault(), false, 0, token_data(&sell_mint(), &authority())),
        view(from_sol(spl_token::id()), false, 0, vec![]),
        view(order_key(slot), false, 0, vec![]),
        view(from_sol(solana_program::system_program::id()), false, 0, vec![]),
    ]
}

fn make_order(sell: u64, buy: u64, min: u64, remains: u64, private: bool) -> SwapSPLOrder {
    SwapSPLOrder {
        creation_slot: 10,
        seller: seller(),
        sell_amount: sell,
        order_wallet: vault(),
        price_mint: buy_mint(),
        buy_amount: buy,
        min_sell_amount: min,
        remains_to_fill: remains,
        is_private: private,
    }
}

fn fill_tail() -> Vec<AccountView> {
    vec![
        view(authority(), false, 0, vec![]),
        view(sell_mint(), false, 0, vec![]),
        view(vault(), false, 0, token_data(&sell_mint(), &authority())),
        view(buy_mint(), false, 0, vec![]),
        view(get_associated_token_address(&buyer(), &buy_mint()).unwrap(), false, 0, vec![]),
        view(get_associated_token_address(&seller(), &buy_mint()).unwrap(), false, 0, vec![]),
        view(get_associated_token_address(&buyer(), &sell_mint()).unwrap(), false, 0, vec![]),
        view(from_sol(spl_token::id()), false, 0, vec![]),
    ]
}

fn fill_accounts(order: &SwapSPLOrder) -> Vec<AccountView> {
    let mut v = vec![
        view(seller(), false, 0, vec![]),
        view(buyer(), true, 0, vec![]),
        view(order_key(10), false, 2_000, order.to_bytes()),
    ];
    v.extend(fill_tail());
    v
}

fn sysvar_with(previous_program: &Pubkey, previous_data: &[u8], current: u16) -> AccountView {
    let prev = solana_program::pubkey::Pubkey::new_from_array(previous_program.to_bytes());
    let this = solana_program::pubkey::Pubkey::new_from_array(program().to_bytes());
    let acc = solana_program::pubkey::Pubkey::new_from_array(seller().to_bytes());
    let ixs = vec![
        BorrowedInstruction { program_id: &prev, accounts: vec![], data: previous_data },
        BorrowedInstruction {
            program_id: &this,
            accounts: vec![BorrowedAccountMeta { pubkey: &acc, is_signer: false, is_writable: false }],
            data: &[4u8, 0, 0, 0, 0, 0, 0, 0, 0],
        },
    ];
    let mut data = construct_instructions_data(&ixs);
    store_current_index(&mut data, current);
    view(from_sol(solana_program::sysvar::instructions::id()), false, 0, data)
}

fn private_fill_accounts(order: &SwapSPLOrder, sysvar: AccountView) -> Vec<AccountView> {
    let mut v = vec![
        view(seller(), false, 0, vec![]),
        view(buyer(), true, 0, vec![]),
        view(order_key(10), false, 2_000, order.to_bytes()),
        sysvar,
    ];
    v.extend(fill_tail());
    v
}

fn revoke_accounts(caller: Pubkey, caller_lamports: u64, order: &SwapSPLOrder) -> Vec<AccountView> {
    vec![
        view(caller, true, caller_lamports, vec![]),
        view(seller(), false, 0, vec![]),
        view(order_key(10), false, 2_000, order.to_bytes()),
        view(authority(), false, 0, vec![]),
        view(vault(), false, 0, token_data(&sell_mint(), &authority())),
        view(get_associated_token_address(&seller(), &sell_mint()).unwrap(), false, 0, vec![]),
        view(from_sol(spl_token::id()), false, 0, vec![]),
    ]
}

fn fill_data(amount: u64) -> Vec<u8> {
    amount.to_le_bytes().to_vec()
}

fn unwrap_created(r: Result<CreatedOrder, SwapError>) -> CreatedOrder {
    match r {
        Ok(c) => c,
        Err(e) => panic!("creation refused: {:?}", e),
    }
}

fn unwrap_filled(r: Result<FilledOrder, SwapError>) -> FilledOrder {
    match r {
        Ok(f) => f,
        Err(e) => panic!("fill refused: {:?}", e),
    }
}

fn unwrap_revoked(r: Result<RevokedOrder, SwapError>) -> RevokedOrder {
    match r {
        Ok(f) => f,
        Err(e) => panic!("revocation refused: {:?}", e),
    }
}

fn fill_error(r: Result<FilledOrder, SwapError>) -> SwapError {
    match r {
        Ok(_) => panic!("fill accepted"),
        Err(e) => e,
    }
}

fn create_error(r: Result<CreatedOrder, SwapError>) -> SwapError {
    match r {
        Ok(_) => panic!("creation accepted"),
        Err(e) => e,
    }
}

fn revoke_error(r: Result<RevokedOrder, SwapError>) -> SwapError {
    match r {
        Ok(_) => panic!("revocation accepted"),
        Err(e) => e,
    }
}

#[test]
fn public_order_filled_in_two_steps() {
    let accounts = create_accounts(12, 10);
    let created = unwrap_created(create_public_order(&program(), &accounts, &payload(args(1000, 500, 100, 10))));
    assert_eq!(created.order.remains_to_fill, 1000);
    assert_eq!(created.order.sell_amount, 1000);
    assert_eq!(created.deposit.amount, 1000);
    assert!(created.deposit.source == k(2));
    assert!(created.deposit.destination == vault());
    assert!(created.deposit.authority == seller());
    assert!(created.order_address == order_key(10));
    assert!(created.order.price_mint == buy_mint());
    assert!(!created.order.is_private);

    let mut accounts = fill_accounts(&created.order);
    let first = unwrap_filled(fill_order(&program(), &accounts, &fill_data(200)));
    assert_eq!(first.payment.amount, 100);
    assert_eq!(first.release.amount, 200);
    assert_eq!(first.order.remains_to_fill, 800);
    assert!(first.release.source == vault());
    assert!(first.release.destination == get_associated_token_address(&buyer(), &sell_mint()).unwrap());
    assert!(first.release.authority == authority());
    assert!(first.payment.source == get_associated_token_address(&buyer(), &buy_mint()).unwrap());
    assert!(first.payment.destination == get_associated_token_address(&seller(), &buy_mint()).unwrap());
    assert!(first.payment.authority == buyer());
    assert_eq!(first.authority_bump, get_order_wallet_authority(&program(), &seller()).unwrap().1);

    accounts[2].data = first.order.to_bytes();
    let second = unwrap_filled(fill_order(&program(), &accounts, &fill_data(800)));
    assert_eq!(second.payment.amount, 400);
    assert_eq!(second.order.remains_to_fill, 0);
}

#[test]
fn private_order_created_with_flag() {
    let accounts = create_accounts(12, 10);
    let created = unwrap_created(create_private_order(&program(), &accounts, &payload(args(1000, 500, 100, 10))));
    assert!(created.order.is_private);
    assert_eq!(created.order_bump, get_order_address(&program(), &seller(), 10).unwrap().1);
    let via = unwrap_created(create_order(&program(), &accounts, &payload(args(1000, 500, 100, 10)), true));
    assert!(via.order.is_private);
}

#[test]
fn creation_window_edges() {
    assert!(create_public_order(&program(), &create_accounts(160, 10), &payload(args(5, 5, 1, 10))).is_ok());
    assert_eq!(
        create_error(create_public_order(&program(), &create_accounts(161, 10), &payload(args(5, 5, 1, 10)))),
        SwapError::CreationWindowExceeded
    );
    assert_eq!(
        create_error(create_public_order(&program(), &create_accounts(9, 10), &payload(args(5, 5, 1, 10)))),
        SwapError::CreationWindowExceeded
    );
    assert!(create_public_order(&program(), &create_accounts(10, 10), &payload(args(5, 5, 1, 10))).is_ok());
}

#[test]
fn creation_refusals() {
    let mut accounts = create_accounts(12, 10);
    accounts[8].lamports = 1;
    assert_eq!(create_error(create_public_order(&program(), &accounts, &payload(args(5, 5, 1, 10)))), SwapError::OrderExists);

    let accounts = create_accounts(12, 10);
    assert_eq!(create_error(create_public_order(&program(), &accounts, &[0u8; 31])), SwapError::MalformedInstruction);
    assert_eq!(create_error(create_public_order(&program(), &accounts[..5], &payload(args(5, 5, 1, 10)))), SwapError::NotEnoughAccountKeys);

    let mut wrong_authority = create_accounts(12, 10);
    wrong_authority[4].key = k(77);
    assert_eq!(create_error(create_public_order(&program(), &wrong_authority, &payload(args(5, 5, 1, 10)))), SwapError::AccountMismatch);

    let mut wrong_owner = create_accounts(12, 10);
    wrong_owner[2].data = token_data(&sell_mint(), &k(78));
    assert_eq!(create_error(create_public_order(&program(), &wrong_owner, &payload(args(5, 5, 1, 10)))), SwapError::AccountMismatch);

    let mut wrong_clock = create_accounts(12, 10);
    wrong_clock[0].key = k(79);
    assert_eq!(create_error(create_public_order(&program(), &wrong_clock, &payload(args(5, 5, 1, 10)))), SwapError::AccountMismatch);

    let mut short_clock = create_accounts(12, 10);
    short_clock[0].data = vec![0u8; 39];
    assert_eq!(create_error(create_public_order(&program(), &short_clock, &payload(args(5, 5, 1, 10)))), SwapError::InvalidArgument);

    let mut wrong_order = create_accounts(12, 10);
    wrong_order[8].key = order_key(11);
    assert_eq!(create_error(create_public_order(&program(), &wrong_order, &payload(args(5, 5, 1, 10)))), SwapError::AccountMismatch);
}

#[test]
fn fill_below_minimum_refused_whatever_remains() {
    let order = make_order(1000, 500, 100, 50, false);
    assert_eq!(fill_error(fill_order(&program(), &fill_accounts(&order), &fill_data(99))), SwapError::BelowMinimumFill);
    let order = make_order(1000, 500, 100, 1000, false);
    assert_eq!(fill_error(fill_order(&program(), &fill_accounts(&order), &fill_data(99))), SwapError::BelowMinimumFill);
}

#[test]
fn fill_above_remaining_refused() {
    let order = make_order(1000, 500, 100, 300, false);
    assert_eq!(fill_error(fill_order(&program(), &fill_accounts(&order), &fill_data(301))), SwapError::InsufficientRemaining);
    assert!(fill_order(&program(), &fill_accounts(&order), &fill_data(300)).is_ok());
}

#[test]
fn fill_price_rounds_down() {
    let order = make_order(3, 10, 1, 3, false);
    let f = unwrap_filled(fill_order(&program(), &fill_accounts(&order), &fill_data(1)));
    assert_eq!(f.payment.amount, 3);
    let order = make_order(u64::MAX, u64::MAX, 1, u64::MAX, false);
    let f = unwrap_filled(fill_order(&program(), &fill_accounts(&order), &fill_data(u64::MAX - 1)));
    assert_eq!(f.payment.amount, u64::MAX - 1);
}

#[test]
fn fill_refusals() {
    let order = make_order(1000, 500, 100, 1000, false);
    assert_eq!(fill_error(fill_order(&program(), &fill_accounts(&order), &[1u8, 2, 3])), SwapError::MalformedInstruction);

    let mut wrong_seller = fill_accounts(&order);
    wrong_seller[0].key = k(44);
    assert_eq!(fill_error(fill_order(&program(), &wrong_seller, &fill_data(200))), SwapError::AccountMismatch);

    let mut bad_flag = fill_accounts(&order);
    bad_flag[2].data[136] = 2;
    assert_eq!(fill_error(fill_order(&program(), &bad_flag, &fill_data(200))), SwapError::AccountMismatch);

    let mut blank = fill_accounts(&order);
    blank[2].data = vec![0u8; 137];
    assert_eq!(fill_error(fill_order(&program(), &blank, &fill_data(200))), SwapError::UninitializedAccount);

    let mut wrong_wallet = fill_accounts(&order);
    wrong_wallet[7].key = k(45);
    assert_eq!(fill_error(fill_order(&program(), &wrong_wallet, &fill_data(200))), SwapError::AccountMismatch);

    let mut wrong_program = fill_accounts(&order);
    wrong_program[10].key = k(46);
    assert_eq!(fill_error(fill_order(&program(), &wrong_program, &fill_data(200))), SwapError::AccountMismatch);

    let zero_sold = make_order(0, 5, 0, 0, false);
    assert_eq!(fill_error(fill_order(&program(), &fill_accounts(&zero_sold), &fill_data(0))), SwapError::ArithmeticOverflow);

    let short = fill_accounts(&order);
    assert_eq!(fill_error(fill_order(&program(), &short[..10], &fill_data(200))), SwapError::NotEnoughAccountKeys);
}

#[test]
fn private_fill_with_binding_signature() {
    let order = make_order(1000, 500, 100, 1000, true);
    let unlock = new_ed25519_signature_instruction(&order_key(10), &seller(), &[7u8; 64]);
    let sysvar = sysvar_with(&unlock.program_id, &unlock.data, 1);
    let f = unwrap_filled(fill_order(&program(), &private_fill_accounts(&order, sysvar), &fill_data(200)));
    assert_eq!(f.payment.amount, 100);
    assert_eq!(f.order.remains_to_fill, 800);
}

#[test]
fn private_fill_refusals() {
    let order = make_order(1000, 500, 100, 1000, true);
    assert_eq!(fill_error(fill_order(&program(), &fill_accounts(&order), &fill_data(200))), SwapError::AccountMismatch);

    let other_order = new_ed25519_signature_instruction(&order_key(11), &seller(), &[7u8; 64]);
    let sysvar = sysvar_with(&other_order.program_id, &other_order.data, 1);
    assert_eq!(
        fill_error(fill_order(&program(), &private_fill_accounts(&order, sysvar), &fill_data(200))),
        SwapError::UnlockInstructionInvalid
    );

    let other_signer = new_ed25519_signature_instruction(&order_key(10), &k(50), &[7u8; 64]);
    let sysvar = sysvar_with(&other_signer.program_id, &other_signer.data, 1);
    assert_eq!(
        fill_error(fill_order(&program(), &private_fill_accounts(&order, sysvar), &fill_data(200))),
        SwapError::UnlockInstructionInvalid
    );

    let unlock = new_ed25519_signature_instruction(&order_key(10), &seller(), &[7u8; 64]);
    let sysvar = sysvar_with(&k(51), &unlock.data, 1);
    assert_eq!(
        fill_error(fill_order(&program(), &private_fill_accounts(&order, sysvar), &fill_data(200))),
        SwapError::UnlockInstructionNotFound
    );

    let sysvar = sysvar_with(&unlock.program_id, &unlock.data[..100], 1);
    assert_eq!(
        fill_error(fill_order(&program(), &private_fill_accounts(&order, sysvar), &fill_data(200))),
        SwapError::UnlockInstructionInvalid
    );

    let sysvar = sysvar_with(&unlock.program_id, &unlock.data, 0);
    assert_eq!(
        fill_error(fill_order(&program(), &private_fill_accounts(&order, sysvar), &fill_data(200))),
        SwapError::UnlockInstructionNotFound
    );
}

#[test]
fn private_fill_refuses_decoy_layout() {
    let order = make_order(1000, 500, 100, 1000, true);
    let unlock = new_ed25519_signature_instruction(&order_key(10), &seller(), &[7u8; 64]);
    let mut decoy = unlock.data.clone();
    decoy[6] = 144;
    decoy.extend_from_slice(&k(66).to_bytes());
    let sysvar = sysvar_with(&unlock.program_id, &decoy, 1);
    assert_eq!(
        fill_error(fill_order(&program(), &private_fill_accounts(&order, sysvar), &fill_data(200))),
        SwapError::UnlockInstructionInvalid
    );
    let mut two = unlock.data.clone();
    two[0] = 2;
    let sysvar = sysvar_with(&unlock.program_id, &two, 1);
    assert_eq!(
        fill_error(fill_order(&program(), &private_fill_accounts(&order, sysvar), &fill_data(200))),
        SwapError::UnlockInstructionInvalid
    );
}

#[test]
fn fill_refuses_record_at_other_address() {
    let order = make_order(1000, 500, 100, 1000, false);
    let mut moved = fill_accounts(&order);
    moved[2].key = k(99);
    assert_eq!(fill_error(fill_order(&program(), &moved, &fill_data(200))), SwapError::AccountMismatch);
}

#[test]
fn revoke_refuses_other_vault_of_seller() {
    let order = make_order(1000, 500, 100, 1000, false);
    let other_mint = k(4);
    let mut accounts = revoke_accounts(seller(), 5, &order);
    accounts[4] = view(
        get_order_wallet_address(&other_mint, &authority()).unwrap(),
        false,
        0,
        token_data(&other_mint, &authority()),
    );
    accounts[5].key = get_associated_token_address(&seller(), &other_mint).unwrap();
    assert_eq!(revoke_error(revoke_order(&program(), &accounts, &0u64.to_le_bytes())), SwapError::AccountMismatch);
}

#[test]
fn creation_accepts_zero_buy_amount() {
    let created = unwrap_created(create_public_order(&program(), &create_accounts(12, 10), &payload(args(5, 0, 1, 10))));
    assert_eq!(created.order.buy_amount, 0);
    assert_eq!(created.order.remains_to_fill, 5);
    let f = unwrap_filled(fill_order(&program(), &fill_accounts(&created.order), &fill_data(2)));
    assert_eq!(f.payment.amount, 0);
    assert_eq!(f.order.remains_to_fill, 3);
    let r = unwrap_revoked(revoke_order(&program(), &revoke_accounts(seller(), 5, &f.order), &0u64.to_le_bytes()));
    assert_eq!(r.refund.amount, 3);
    assert!(r.order.is_none());
    assert_eq!(
        create_error(create_public_order(&program(), &create_accounts(200, 10), &payload(args(5, 0, 1, 10)))),
        SwapError::CreationWindowExceeded
    );
}

#[test]
fn seller_revokes_part_then_rest() {
    let order = make_order(1000, 500, 100, 1000, false);
    let mut accounts = revoke_accounts(seller(), 5, &order);
    let r = unwrap_revoked(revoke_order(&program(), &accounts, &300u64.to_le_bytes()));
    assert_eq!(r.refund.amount, 300);
    assert!(r.refund.source == vault());
    assert!(r.refund.destination == get_associated_token_address(&seller(), &sell_mint()).unwrap());
    assert!(r.refund.authority == authority());
    assert!(r.seller == seller());
    assert_eq!(r.reclaimed_lamports, 0);
    let kept = r.order.unwrap();
    assert_eq!(kept.remains_to_fill, 700);
    assert_eq!(kept.sell_amount, 1000);

    accounts[2].data = kept.to_bytes();
    let r = unwrap_revoked(revoke_order(&program(), &accounts, &0u64.to_le_bytes()));
    assert_eq!(r.refund.amount, 700);
    assert!(r.order.is_none());
    assert_eq!(r.reclaimed_lamports, 2_000);
}

#[test]
fn other_caller_revokes_only_dust() {
    let order = make_order(1000, 500, 100, 101, false);
    assert_eq!(
        revoke_error(revoke_order(&program(), &revoke_accounts(k(60), 5, &order), &[])),
        SwapError::AccountMismatch
    );
    let dust = make_order(1000, 500, 100, 100, false);
    let r = unwrap_revoked(revoke_order(&program(), &revoke_accounts(k(60), 5, &dust), &[]));
    assert_eq!(r.refund.amount, 100);
    assert!(r.order.is_none());
    assert_eq!(r.reclaimed_lamports, 2_000);
}

#[test]
fn revoke_refusals() {
    let order = make_order(1000, 500, 100, 1000, false);
    assert_eq!(
        revoke_error(revoke_order(&program(), &revoke_accounts(seller(), 5, &order), &1001u64.to_le_bytes())),
        SwapError::MalformedInstruction
    );
    assert_eq!(
        revoke_error(revoke_order(&program(), &revoke_accounts(seller(), 5, &order), &[1u8])),
        SwapError::MalformedInstruction
    );
    let mut unsigned = revoke_accounts(seller(), 5, &order);
    unsigned[0].is_signer = false;
    assert_eq!(revoke_error(revoke_order(&program(), &unsigned, &0u64.to_le_bytes())), SwapError::AccountMismatch);
    assert_eq!(
        revoke_error(revoke_order(&program(), &revoke_accounts(seller(), u64::MAX, &order), &0u64.to_le_bytes())),
        SwapError::ArithmeticOverflow
    );
    let mut wrong_order = revoke_accounts(seller(), 5, &order);
    wrong_order[2].key = order_key(11);
    assert_eq!(revoke_error(revoke_order(&program(), &wrong_order, &0u64.to_le_bytes())), SwapError::AccountMismatch);
    let mut wrong_wallet = revoke_accounts(seller(), 5, &order);
    wrong_wallet[5].key = k(61);
    assert_eq!(revoke_error(revoke_order(&program(), &wrong_wallet, &0u64.to_le_bytes())), SwapError::AccountMismatch);
}

#[test]
fn dispatcher_routes_by_tag() {
    let order = make_order(1000, 500, 100, 1000, false);
    assert!(matches!(process_instruction(&program(), &fill_accounts(&order), &[]), Err(SwapError::MalformedInstruction)));
    assert!(matches!(process_instruction(&program(), &fill_accounts(&order), &[0u8]), Err(SwapError::MalformedInstruction)));
    assert!(matches!(process_instruction(&program(), &fill_accounts(&order), &[5u8, 0, 0]), Err(SwapError::MalformedInstruction)));
    let data = amount_instruction_data(P2PSwapInstructions::FillOrder, 200);
    match process_instruction(&program(), &fill_accounts(&order), &data) {
        Ok(SwapOutcome::Filled(f)) => assert_eq!(f.payment.amount, 100),
        _ => panic!("fill not routed"),
    }
    let create = create_order_data(args(1000, 500, 100, 10), true);
    match process_instruction(&program(), &create_accounts(12, 10), &create) {
        Ok(SwapOutcome::Created(c)) => assert!(c.order.is_private),
        _ => panic!("creation not routed"),
    }
    let revoke = amount_instruction_data(P2PSwapInstructions::RevokeOrder, 0);
    match process_instruction(&program(), &revoke_accounts(seller(), 5, &order), &revoke) {
        Ok(SwapOutcome::Revoked(r)) => assert_eq!(r.refund.amount, 1000),
        _ => panic!("revocation not routed"),
    }
}
