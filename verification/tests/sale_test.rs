use anchor_lang::prelude::Pubkey;
use simple_token::sale::{INITIAL_LIQUIDITY, INITIAL_TOKENS};
use simple_token::{
    initialize, initialize_with_authority, Address, CustomError, Initialize, Mint, TokenAccount,
    TokenInstruction, TokenMetadata,
};

fn addr(n: u8) -> Address {
    let mut bytes = [0u8; 32];
    bytes[0] = n;
    bytes[31] = 1;
    Address::new(bytes)
}

fn account(key: u8, owner: u8) -> TokenAccount {
    TokenAccount { key: addr(key), owner: addr(owner), amount: 0 }
}

fn blank() -> TokenMetadata {
    TokenMetadata {
        name: String::new(),
        symbol: String::new(),
        mint: Address::default(),
        authority: Address::default(),
        payment_token: Address::default(),
        deployer: Address::default(),
        initialized: false,
    }
}

fn accounts() -> Initialize {
    Initialize {
        up_only_mint: Mint { key: addr(1), supply: 1_000_000_000 },
        metadata: blank(),
        user_up_only_account: account(2, 9),
        program_up_only_account: account(3, 10),
        payment_token_mint: Mint { key: addr(4), supply: 0 },
        user_payment_token_account: account(5, 9),
        program_payment_token_account: account(6, 10),
        current_mint_authority: addr(7),
        authority: addr(9),
    }
}

fn expected_instructions(mint_authority: Address) -> Vec<TokenInstruction> {
    vec![
        TokenInstruction::Transfer { from: addr(5), to: addr(6), authority: addr(9), amount: 3_000 },
        TokenInstruction::Transfer {
            from: addr(2),
            to: addr(3),
            authority: addr(9),
            amount: 1_000_000_000,
        },
        TokenInstruction::SetMintAuthority {
            mint: addr(1),
            current_authority: addr(7),
            new_authority: mint_authority,
        },
    ]
}

fn expected_metadata(mint_authority: Address) -> TokenMetadata {
    TokenMetadata {
        name: String::from("UpOnly"),
        symbol: String::from("UP"),
        mint: addr(1),
        authority: mint_authority,
        payment_token: addr(4),
        deployer: addr(9),
        initialized: true,
    }
}

#[test]
fn set_up_with_a_given_authority() {
    assert_eq!(INITIAL_LIQUIDITY, 3_000);
    assert_eq!(INITIAL_TOKENS, 1_000_000_000);
    let mut a = accounts();
    assert_eq!(initialize_with_authority(&mut a, addr(42)), Ok(expected_instructions(addr(42))));
    let mut expected = accounts();
    expected.metadata = expected_metadata(addr(42));
    assert_eq!(a, expected);
}

#[test]
fn set_up_happens_once() {
    let mut a = accounts();
    assert!(initialize_with_authority(&mut a, addr(42)).is_ok());
    let before = a.clone();
    assert_eq!(initialize_with_authority(&mut a, addr(43)), Err(CustomError::AlreadyInitialized));
    assert_eq!(a, before);
    assert_eq!(initialize(&mut a, &addr(77)), Some(Err(CustomError::AlreadyInitialized)));
    assert_eq!(a, before);
}

#[test]
fn set_up_derives_the_mint_authority_from_the_program() {
    let program = addr(77);
    let (derived, _) =
        Pubkey::find_program_address(&[b"mint_authority"], &Pubkey::new_from_array(program.bytes));
    let mint_authority = Address::new(derived.to_bytes());
    assert_ne!(mint_authority, program);
    let mut a = accounts();
    assert_eq!(initialize(&mut a, &program), Some(Ok(expected_instructions(mint_authority))));
    let mut expected = accounts();
    expected.metadata = expected_metadata(mint_authority);
    assert_eq!(a, expected);
}

#[test]
fn different_programs_have_different_mint_authorities() {
    let mut a = accounts();
    let mut b = accounts();
    assert!(initialize(&mut a, &addr(77)).is_some());
    assert!(initialize(&mut b, &addr(78)).is_some());
    assert_ne!(a.metadata.authority, b.metadata.authority);
}
