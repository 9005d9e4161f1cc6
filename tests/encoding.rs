use p2p_swap::args::{is_valid_bool, is_valid_u64, parse_amount, parse_bool};
use p2p_swap::client::{create_order_instruction, fill_order_instruction};
use p2p_swap::instruction::{decode_amount, decode_create_args, create_order_data, CreateOrderArgs};
use p2p_swap::state::ORDER_LEN;
use p2p_swap::{
    get_order_address, get_order_wallet_address, get_order_wallet_authority,
    new_ed25519_signature_instruction, Ed25519SignatureOffsets, P2PSwapInstructions, Pubkey,
    SwapError, SwapSPLOrder,
};

fn key_of(n: u8) -> Pubkey {
    Pubkey::new_from_array([n; 32])
}

fn sol_of(p: &Pubkey) -> solana_program::pubkey::Pubkey {
    solana_program::pubkey::Pubkey::new_from_array(p.to_bytes())
}

fn sample() -> SwapSPLOrder {
    SwapSPLOrder {
        creation_slot: 0x0102030405060708,
        seller: key_of(1),
        sell_amount: 1000,
        order_wallet: key_of(2),
        price_mint: key_of(3),
        buy_amount: 500,
        min_sell_amount: 100,
        remains_to_fill: 800,
        is_private: true,
    }
}

fn same(a: &SwapSPLOrder, b: &SwapSPLOrder) -> bool {
    a.creation_slot == b.creation_slot
        && a.seller == b.seller
        && a.sell_amount == b.sell_amount
        && a.order_wallet == b.order_wallet
        && a.price_mint == b.price_mint
        && a.buy_amount == b.buy_amount
        && a.min_sell_amount == b.min_sell_amount
        && a.remains_to_fill == b.remains_to_fill
        && a.is_private == b.is_private
}

#[test]
fn record_round_trip() {
    let bytes = sample().to_bytes();
    assert_eq!(bytes.len(), ORDER_LEN);
    assert_eq!(&bytes[0..8], &[8, 7, 6, 5, 4, 3, 2, 1]);
    assert_eq!(bytes[136], 1);
    let back = SwapSPLOrder::unpack(&bytes).unwrap();
    assert!(same(&back, &sample()));
    let extremes = SwapSPLOrder {
        creation_slot: u64::MAX,
        sell_amount: u64::MAX,
        buy_amount: 1,
        min_sell_amount: 0,
        remains_to_fill: u64::MAX,
        is_private: false,
        ..sample()
    };
    assert!(same(&SwapSPLOrder::unpack(&extremes.to_bytes()).unwrap(), &extremes));
}

#[test]
fn record_decode_refusals() {
    let mut bytes = sample().to_bytes();
    bytes[136] = 2;
    assert!(matches!(SwapSPLOrder::unpack(&bytes), Err(SwapError::AccountMismatch)));
    assert!(matches!(SwapSPLOrder::unpack_from_slice(&bytes), Err(SwapError::AccountMismatch)));
    let bytes = sample().to_bytes();
    assert!(matches!(SwapSPLOrder::unpack(&bytes[..136]), Err(SwapError::AccountMismatch)));
    assert!(matches!(SwapSPLOrder::unpack(&[0u8; 137]), Err(SwapError::UninitializedAccount)));
    let blank = SwapSPLOrder::unpack_from_slice(&[0u8; 137]).unwrap();
    assert!(!blank.is_initialized());
    let free = SwapSPLOrder { buy_amount: 0, ..sample() };
    assert!(free.is_initialized());
    assert!(same(&SwapSPLOrder::unpack(&free.to_bytes()).unwrap(), &free));
}

#[test]
fn record_pack_into_buffers() {
    let mut longer = vec![9u8; 140];
    sample().pack_into_slice(&mut longer);
    assert_eq!(&longer[..137], &sample().to_bytes()[..]);
    assert_eq!(&longer[137..], &[9, 9, 9]);
    let mut exact = vec![0u8; 137];
    assert!(sample().pack(&mut exact).is_ok());
    assert_eq!(exact, sample().to_bytes());
    let mut wrong = vec![0u8; 138];
    assert!(sample().pack(&mut wrong).is_err());
    assert_eq!(wrong, vec![0u8; 138]);
    let with_slice = SwapSPLOrder::unpack_from_slice(&longer).unwrap();
    assert!(same(&with_slice, &sample()));
}

#[test]
fn tags_select_instructions() {
    assert_eq!(P2PSwapInstructions::from_u8(0), P2PSwapInstructions::Undefined);
    assert_eq!(P2PSwapInstructions::from_u8(1), P2PSwapInstructions::CreatePublicOrder);
    assert_eq!(P2PSwapInstructions::from_u8(2), P2PSwapInstructions::CreatePrivateOrder);
    assert_eq!(P2PSwapInstructions::from_u8(3), P2PSwapInstructions::RevokeOrder);
    assert_eq!(P2PSwapInstructions::from_u8(4), P2PSwapInstructions::FillOrder);
    assert_eq!(P2PSwapInstructions::from_u8(5), P2PSwapInstructions::Undefined);
    assert_eq!(P2PSwapInstructions::from_u8(255), P2PSwapInstructions::Undefined);
    assert_eq!(P2PSwapInstructions::FillOrder.to_u8(), 4);
}

#[test]
fn payloads_round_trip() {
    let a = CreateOrderArgs { sell_amount: 1, buy_amount: 2, min_sell_amount: 3, creation_slot: u64::MAX };
    let data = create_order_data(a, false);
    assert_eq!(data.len(), 33);
    assert_eq!(data[0], 1);
    assert_eq!(create_order_data(a, true)[0], 2);
    assert_eq!(decode_create_args(&data[1..]).unwrap(), a);
    assert!(matches!(decode_create_args(&data), Err(SwapError::MalformedInstruction)));
    assert_eq!(decode_amount(&300u64.to_le_bytes()).unwrap(), 300);
    assert!(matches!(decode_amount(&[0u8; 9]), Err(SwapError::MalformedInstruction)));
}

#[test]
fn unlock_instruction_layout() {
    let order = key_of(11);
    let seller = key_of(12);
    let ix = new_ed25519_signature_instruction(&order, &seller, &[5u8; 64]);
    assert_eq!(ix.program_id.to_bytes(), solana_program::ed25519_program::id().to_bytes());
    assert!(ix.accounts.is_empty());
    assert_eq!(ix.data.len(), 144);
    assert_eq!(&ix.data[..16], &[1, 0, 48, 0, 255, 255, 16, 0, 255, 255, 112, 0, 32, 0, 255, 255]);
    assert_eq!(&ix.data[16..48], &seller.to_bytes());
    assert_eq!(&ix.data[48..112], &[5u8; 64][..]);
    assert_eq!(&ix.data[112..144], &order.to_bytes());
    let offsets = Ed25519SignatureOffsets::for_inline_signature();
    assert_eq!(offsets.to_bytes(), ix.data[2..16].to_vec());
    assert_eq!(Ed25519SignatureOffsets::default().to_bytes(), vec![0u8; 14]);
}

#[test]
fn client_builds_create_instruction() {
    let program = key_of(200);
    let seller = key_of(1);
    let a = CreateOrderArgs { sell_amount: 1000, buy_amount: 500, min_sell_amount: 100, creation_slot: 10 };
    let order = get_order_address(&program, &seller, 10).unwrap().0;
    let ix = create_order_instruction(&program, &seller, &key_of(3), &key_of(5), &order, a, false).unwrap();
    assert_eq!(ix.accounts.len(), 10);
    assert_eq!(ix.data, create_order_data(a, false));
    let authority = get_order_wallet_authority(&program, &seller).unwrap().0;
    assert!(ix.accounts[4].pubkey == authority);
    assert!(ix.accounts[6].pubkey == get_order_wallet_address(&key_of(3), &authority).unwrap());
    assert!(ix.accounts[1].is_signer && ix.accounts[1].is_writable);
    assert!(ix.accounts[8].pubkey == order && ix.accounts[8].is_writable);
    assert_eq!(ix.accounts[0].pubkey.to_bytes(), solana_program::sysvar::clock::id().to_bytes());
    assert_eq!(ix.accounts[9].pubkey.to_bytes(), solana_program::system_program::id().to_bytes());
    let wallet = spl_associated_token_account::get_associated_token_address(&sol_of(&seller), &sol_of(&key_of(3)));
    assert_eq!(ix.accounts[2].pubkey.to_bytes(), wallet.to_bytes());
}

#[test]
fn client_builds_fill_instruction() {
    let program = key_of(200);
    let order = SwapSPLOrder { seller: key_of(1), ..sample() };
    let ix = fill_order_instruction(&program, &key_of(9), &key_of(20), &order, &key_of(3), 200).unwrap();
    assert_eq!(ix.accounts.len(), 12);
    assert_eq!(ix.accounts[3].pubkey.to_bytes(), solana_program::sysvar::instructions::id().to_bytes());
    let authority = get_order_wallet_authority(&program, &key_of(1)).unwrap().0;
    assert!(ix.accounts[4].pubkey == authority);
    assert_eq!(ix.data, vec![4u8, 200, 0, 0, 0, 0, 0, 0, 0]);
    let public = SwapSPLOrder { is_private: false, ..order };
    let ix = fill_order_instruction(&program, &key_of(9), &key_of(20), &public, &key_of(3), 200).unwrap();
    assert_eq!(ix.accounts.len(), 11);
    assert!(ix.accounts[3].pubkey == authority);
    assert_eq!(ix.accounts[10].pubkey.to_bytes(), spl_token::id().to_bytes());
}

#[test]
fn flags_parse_in_any_case() {
    assert_eq!(parse_bool("TRUE").unwrap(), true);
    assert_eq!(parse_bool("Yes").unwrap(), true);
    assert_eq!(parse_bool("1").unwrap(), true);
    assert_eq!(parse_bool("y").unwrap(), true);
    assert_eq!(parse_bool("No").unwrap(), false);
    assert_eq!(parse_bool("FALSE").unwrap(), false);
    assert_eq!(parse_bool("0").unwrap(), false);
    assert_eq!(parse_bool("n").unwrap(), false);
    assert!(parse_bool("maybe").is_err());
    assert!(parse_bool("").is_err());
    assert!(is_valid_bool("N").is_ok());
    assert!(is_valid_bool("2").is_err());
}

#[test]
fn amounts_parse_as_u64() {
    assert!(is_valid_u64("0").is_ok());
    assert!(is_valid_u64("+5").is_ok());
    assert!(is_valid_u64("18446744073709551615").is_ok());
    assert!(is_valid_u64("18446744073709551616").is_err());
    assert!(is_valid_u64("").is_err());
    assert!(is_valid_u64("-1").is_err());
    assert!(is_valid_u64("1a").is_err());
    assert_eq!(parse_amount("+42").unwrap(), 42);
}

#[test]
fn derivations_match_outside_crates() {
    let program = key_of(200);
    let seller = key_of(1);
    let (a, bump) = get_order_wallet_authority(&program, &seller).unwrap();
    let (sa, sbump) = solana_program::pubkey::Pubkey::find_program_address(
        &[b"OrderWalletAuthority", &seller.to_bytes()],
        &sol_of(&program),
    );
    assert_eq!(a.to_bytes(), sa.to_bytes());
    assert_eq!(bump, sbump);
    assert!(a != seller);
    let (o, obump) = get_order_address(&program, &seller, 77).unwrap();
    let (so, sobump) = solana_program::pubkey::Pubkey::find_program_address(
        &[b"OrderAccount", &seller.to_bytes(), &77u64.to_le_bytes()],
        &sol_of(&program),
    );
    assert_eq!(o.to_bytes(), so.to_bytes());
    assert_eq!(obump, sobump);
    let w = get_order_wallet_address(&key_of(3), &a).unwrap();
    let sw = spl_associated_token_account::get_associated_token_address(&sa, &sol_of(&key_of(3)));
    assert_eq!(w.to_bytes(), sw.to_bytes());
    assert!(w != a && w != key_of(3));
}

#[test]
fn error_codes() {
    assert_eq!(SwapError::OrderExists.custom_code(), Some(1));
    assert_eq!(SwapError::CreationWindowExceeded.custom_code(), Some(2));
    assert_eq!(SwapError::UnlockInstructionNotFound.custom_code(), Some(3));
    assert_eq!(SwapError::UnlockInstructionInvalid.custom_code(), Some(4));
    assert_eq!(SwapError::BelowMinimumFill.custom_code(), Some(5));
    assert_eq!(SwapError::InsufficientRemaining.custom_code(), Some(6));
    assert_eq!(SwapError::ArithmeticOverflow.custom_code(), Some(7));
    assert_eq!(SwapError::AccountMismatch.custom_code(), None);
}

#[test]
fn pubkey_bytes() {
    let p = Pubkey::new_from_array([4u8; 32]);
    assert_eq!(p.to_vec(), vec![4u8; 32]);
    assert_eq!(Pubkey::read_from(&[0u8, 4, 4, 4, 4, 4, 4, 4, 4, 4, 4, 4, 4, 4, 4, 4, 4, 4, 4, 4, 4, 4, 4, 4, 4, 4, 4, 4, 4, 4, 4, 4, 4], 1), p);
    assert!(p.equals(&key_of(4)));
    assert!(!p.equals(&key_of(5)));
}
