use simple_token::pass::PASS_PRICE;
use simple_token::{
    buy_pass, give_pass, Address, BuyPass, CustomError, GivePassInit, TokenAccount,
    TokenInstruction, TokenMetadata, UserState,
};

fn addr(n: u8) -> Address {
    let mut bytes = [0u8; 32];
    bytes[0] = n;
    bytes[31] = 1;
    Address::new(bytes)
}

const USER: u8 = 1;
const DEPLOYER: u8 = 2;
const REFERRAL: u8 = 3;

fn metadata() -> TokenMetadata {
    TokenMetadata {
        name: String::from("UpOnly"),
        symbol: String::from("UP"),
        mint: addr(200),
        authority: addr(201),
        payment_token: addr(202),
        deployer: addr(DEPLOYER),
        initialized: true,
    }
}

fn accounts(referral_account: Option<TokenAccount>) -> BuyPass {
    BuyPass {
        user: addr(USER),
        user_state: UserState::new(),
        user_usdc_account: TokenAccount { key: addr(11), owner: addr(USER), amount: PASS_PRICE },
        metadata: metadata(),
        deployer_usdc_account: TokenAccount { key: addr(12), owner: addr(DEPLOYER), amount: 0 },
        referral_usdc_account: referral_account,
    }
}

fn referral_account() -> TokenAccount {
    TokenAccount { key: addr(13), owner: addr(REFERRAL), amount: 0 }
}

fn pay(to: u8, amount: u64) -> TokenInstruction {
    TokenInstruction::Transfer { from: addr(11), to: addr(to), authority: addr(USER), amount }
}

#[test]
fn pass_costs_ten_thousand_payment_tokens() {
    assert_eq!(PASS_PRICE, 10_000 * 1_000_000);
}

#[test]
fn pass_without_referral_pays_the_treasury_in_full() {
    let mut a = accounts(None);
    assert_eq!(buy_pass(&mut a, None), Ok(vec![pay(12, 10_000_000_000)]));
    assert!(a.user_state.has_pass);
    assert!(!a.user_state.referral_set);
}

#[test]
fn pass_with_referral_is_split_in_halves() {
    let mut a = accounts(Some(referral_account()));
    assert_eq!(
        buy_pass(&mut a, Some(addr(REFERRAL))),
        Ok(vec![pay(13, 5_000_000_000), pay(12, 5_000_000_000)])
    );
    assert_eq!(
        a.user_state,
        UserState { has_pass: true, referral: addr(REFERRAL), referral_set: true }
    );
}

#[test]
fn second_pass_is_refused() {
    let mut a = accounts(None);
    a.user_state.has_pass = true;
    let before = a.clone();
    assert_eq!(buy_pass(&mut a, Some(addr(REFERRAL))), Err(CustomError::AlreadyHasPass));
    assert_eq!(a, before);
}

#[test]
fn referral_cannot_be_the_buyer() {
    let mut a = accounts(Some(referral_account()));
    let before = a.clone();
    assert_eq!(buy_pass(&mut a, Some(addr(USER))), Err(CustomError::InvalidReferral));
    assert_eq!(a, before);
}

#[test]
fn treasury_account_must_belong_to_the_deployer() {
    let mut a = accounts(Some(referral_account()));
    a.deployer_usdc_account.owner = addr(9);
    let before = a.clone();
    assert_eq!(buy_pass(&mut a, Some(addr(REFERRAL))), Err(CustomError::InvalidDeployerAccount));
    assert_eq!(a, before);
}

#[test]
fn bound_referral_needs_its_account() {
    let mut a = accounts(None);
    let before = a.clone();
    assert_eq!(buy_pass(&mut a, Some(addr(REFERRAL))), Err(CustomError::MissingReferralAccount));
    assert_eq!(a, before);
    let mut a = accounts(Some(TokenAccount { key: addr(13), owner: addr(9), amount: 0 }));
    let before = a.clone();
    assert_eq!(buy_pass(&mut a, Some(addr(REFERRAL))), Err(CustomError::InvalidReferral));
    assert_eq!(a, before);
}

#[test]
fn bound_referral_is_kept() {
    let mut a = accounts(Some(referral_account()));
    a.user_state = UserState { has_pass: false, referral: addr(REFERRAL), referral_set: true };
    assert_eq!(
        buy_pass(&mut a, Some(addr(44))),
        Ok(vec![pay(13, 5_000_000_000), pay(12, 5_000_000_000)])
    );
    assert_eq!(
        a.user_state,
        UserState { has_pass: true, referral: addr(REFERRAL), referral_set: true }
    );
    let mut a = accounts(Some(referral_account()));
    a.user_state = UserState { has_pass: false, referral: addr(REFERRAL), referral_set: true };
    assert!(buy_pass(&mut a, Some(addr(USER))).is_ok());
    assert_eq!(a.user_state.referral, addr(REFERRAL));
    let mut a = accounts(Some(referral_account()));
    a.user_state = UserState { has_pass: false, referral: addr(REFERRAL), referral_set: true };
    assert!(buy_pass(&mut a, None).is_ok());
    assert_eq!(a.user_state.referral, addr(REFERRAL));
    assert!(a.user_state.referral_set);
}

#[test]
fn grant_needs_the_deployer_and_binds_nothing() {
    let mut a = GivePassInit {
        metadata: metadata(),
        user_state: UserState::new(),
        user: addr(USER),
        deployer: addr(9),
    };
    let before = a.clone();
    assert_eq!(give_pass(&mut a), Err(CustomError::Unauthorized));
    assert_eq!(a, before);
    a.deployer = addr(DEPLOYER);
    assert_eq!(give_pass(&mut a), Ok(()));
    assert_eq!(
        a.user_state,
        UserState { has_pass: true, referral: Address::default(), referral_set: false }
    );
    let before = a.clone();
    assert_eq!(give_pass(&mut a), Err(CustomError::AlreadyHasPass));
    assert_eq!(a, before);
}

#[test]
fn error_messages() {
    assert_eq!(CustomError::AlreadyHasPass.message(), "User already has a pass");
    assert_eq!(CustomError::NotFounder.message(), "Caller is not a founder");
    assert_eq!(CustomError::InvalidLockPeriod.message(), "Invalid lock period");
}
