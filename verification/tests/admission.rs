use anchor_lang::prelude::{Pubkey, Rent};
use chat_agent::ai_inference::PREPAYMENT_LAMPORTS;
use chat_agent::initialize::AGENT_DESC;
use chat_agent::{
    AccountMeta, Address, AiInference, Allocation, ChatError, Config, Initialize, Payer, Response,
    ResponseAccount, Vault,
};

const PROGRAM: [u8; 32] = [7u8; 32];
const ORACLE_PROGRAM: [u8; 32] = [11u8; 32];
const ORACLE_IDENTITY: [u8; 32] = [12u8; 32];
const SYSTEM_PROGRAM: [u8; 32] = [0u8; 32];
const USER: [u8; 32] = [1u8; 32];

fn config() -> Config {
    Config {
        program: Address::new(PROGRAM),
        oracle_program: Address::new(ORACLE_PROGRAM),
        oracle_identity: Address::new(ORACLE_IDENTITY),
        system_program: Address::new(SYSTEM_PROGRAM),
        callback_discriminator: [1, 2, 3, 4, 5, 6, 7, 8],
    }
}

fn derived(tag: &[u8], key: &[u8; 32]) -> (Address, u8) {
    let (at, bump) = Pubkey::find_program_address(&[tag, key], &Pubkey::new_from_array(PROGRAM));
    (Address::new(at.to_bytes()), bump)
}

fn accounts(user_lamports: u64) -> AiInference {
    let (response, _) = derived(b"response", &USER);
    let (vault, _) = derived(b"vault", &response.bytes);
    AiInference {
        config: config(),
        user: Payer { key: Address::new(USER), is_signer: true, lamports: user_lamports },
        response: ResponseAccount::unallocated(response, 0),
        vault: Vault { key: vault, lamports: 0 },
        oracle_program: Address::new(ORACLE_PROGRAM),
        system_program: Address::new(SYSTEM_PROGRAM),
    }
}

#[test]
fn prepayment_is_fixed() {
    assert_eq!(PREPAYMENT_LAMPORTS, 5_000_000);
}

#[test]
fn first_admission_allocates_the_record_at_the_baseline() {
    let mut ctx = accounts(10_000_000);
    let (_, bump) = derived(b"response", &USER);
    let plan = ctx.ai_inference("hello".to_string(), 1, &Rent::default()).unwrap();
    assert_eq!(plan.allocation, Some(Allocation { space: 13, lamports: 981_360, bump }));
    assert_eq!(plan.prepayment, 5_000_000);
    assert!(ctx.response.owned);
    assert_eq!(ctx.response.data_len, 13);
    assert_eq!(ctx.response.lamports, 981_360);
    assert_eq!(ctx.response.data, Response { response: String::new() });
    assert_eq!(ctx.user.lamports, 10_000_000 - 981_360 - 5_000_000);
    assert_eq!(ctx.vault.lamports, 5_000_000);
    assert!(ctx.is_wf());
}

#[test]
fn admission_hands_the_provider_the_callback_and_its_accounts() {
    let mut ctx = accounts(10_000_000);
    let response = ctx.response.key;
    let vault = ctx.vault.key;
    let plan = ctx.ai_inference("hello".to_string(), 1, &Rent::default()).unwrap();
    assert_eq!(plan.request.text, "hello");
    assert_eq!(plan.request.seed, 1);
    assert_eq!(plan.request.callback_program, Address::new(PROGRAM));
    assert_eq!(plan.request.callback_discriminator, [1, 2, 3, 4, 5, 6, 7, 8]);
    assert_eq!(
        plan.request.account_metas,
        vec![
            AccountMeta { pubkey: response, is_signer: false, is_writable: true },
            AccountMeta { pubkey: vault, is_signer: false, is_writable: true },
            AccountMeta { pubkey: Address::new(SYSTEM_PROGRAM), is_signer: false, is_writable: false },
        ]
    );
}

#[test]
fn second_admission_does_not_allocate_again() {
    let mut ctx = accounts(20_000_000);
    let rent = Rent::default();
    let first = ctx.ai_inference("hello".to_string(), 1, &rent).unwrap();
    assert!(first.allocation.is_some());
    let record = ctx.response.clone();
    let second = ctx.ai_inference("hello again".to_string(), 1, &rent).unwrap();
    assert_eq!(second.allocation, None);
    assert_eq!(ctx.response, record);
}

#[test]
fn every_admission_prepays_the_vault() {
    let mut ctx = accounts(20_000_000);
    let rent = Rent::default();
    ctx.ai_inference("hello".to_string(), 1, &rent).unwrap();
    let second = ctx.ai_inference("hello".to_string(), 1, &rent).unwrap();
    assert_eq!(second.prepayment, 5_000_000);
    assert_eq!(ctx.vault.lamports, 10_000_000);
    assert_eq!(ctx.user.lamports, 20_000_000 - 981_360 - 10_000_000);
}

#[test]
fn admission_keeps_an_existing_payload() {
    let mut ctx = accounts(20_000_000);
    ctx.response.owned = true;
    ctx.response.data_len = 18;
    ctx.response.lamports = 1_016_160;
    ctx.response.data = Response { response: "hello".to_string() };
    let plan = ctx.ai_inference("next".to_string(), 2, &Rent::default()).unwrap();
    assert_eq!(plan.allocation, None);
    assert_eq!(ctx.response.data.response, "hello");
    assert_eq!(ctx.response.data_len, 18);
    assert_eq!(ctx.response.lamports, 1_016_160);
    assert_eq!(ctx.user.lamports, 15_000_000);
}

#[test]
fn allocation_adds_to_what_the_account_held() {
    let mut ctx = accounts(10_000_000);
    ctx.response.lamports = 500;
    ctx.ai_inference("hello".to_string(), 1, &Rent::default()).unwrap();
    assert_eq!(ctx.response.lamports, 981_860);
}

#[test]
fn admission_needs_the_requester_signature() {
    let mut ctx = accounts(10_000_000);
    ctx.user.is_signer = false;
    let before = ctx.clone();
    assert_eq!(
        ctx.ai_inference("hello".to_string(), 1, &Rent::default()),
        Err(ChatError::MissingSignature)
    );
    assert_eq!(ctx, before);
}

#[test]
fn admission_rejects_another_provider() {
    let mut ctx = accounts(10_000_000);
    ctx.oracle_program = Address::new([13u8; 32]);
    let before = ctx.clone();
    assert_eq!(
        ctx.ai_inference("hello".to_string(), 1, &Rent::default()),
        Err(ChatError::AddressMismatch)
    );
    assert_eq!(ctx, before);
}

#[test]
fn admission_rejects_another_currency_service() {
    let mut ctx = accounts(10_000_000);
    ctx.system_program = Address::new([13u8; 32]);
    assert_eq!(
        ctx.ai_inference("hello".to_string(), 1, &Rent::default()),
        Err(ChatError::AddressMismatch)
    );
}

#[test]
fn admission_rejects_a_record_of_another_requester() {
    let mut ctx = accounts(10_000_000);
    ctx.user.key = Address::new([2u8; 32]);
    let before = ctx.clone();
    assert_eq!(
        ctx.ai_inference("hello".to_string(), 1, &Rent::default()),
        Err(ChatError::AddressMismatch)
    );
    assert_eq!(ctx, before);
}

#[test]
fn admission_rejects_a_vault_of_another_record() {
    let mut ctx = accounts(10_000_000);
    ctx.vault.key = derived(b"vault", &USER).0;
    let before = ctx.clone();
    assert_eq!(
        ctx.ai_inference("hello".to_string(), 1, &Rent::default()),
        Err(ChatError::AddressMismatch)
    );
    assert_eq!(ctx, before);
}

#[test]
fn admission_fails_when_the_requester_cannot_pay() {
    let mut ctx = accounts(981_360 + 5_000_000 - 1);
    let before = ctx.clone();
    assert_eq!(
        ctx.ai_inference("hello".to_string(), 1, &Rent::default()),
        Err(ChatError::InsufficientFunds)
    );
    assert_eq!(ctx, before);
    let mut exact = accounts(981_360 + 5_000_000);
    assert!(exact.ai_inference("hello".to_string(), 1, &Rent::default()).is_ok());
    assert_eq!(exact.user.lamports, 0);
}

#[test]
fn admission_fails_when_the_prepayment_is_not_covered() {
    let mut ctx = accounts(4_999_999);
    ctx.response.owned = true;
    ctx.response.data_len = 13;
    ctx.response.lamports = 981_360;
    assert_eq!(
        ctx.ai_inference("hello".to_string(), 1, &Rent::default()),
        Err(ChatError::InsufficientFunds)
    );
}

#[test]
fn admission_fails_when_the_baseline_cannot_be_priced() {
    let mut ctx = accounts(10_000_000);
    let rent = Rent { lamports_per_byte_year: u64::MAX, exemption_threshold: 2.0, burn_percent: 50 };
    let before = ctx.clone();
    assert_eq!(ctx.ai_inference("hello".to_string(), 1, &rent), Err(ChatError::InsufficientFunds));
    assert_eq!(ctx, before);
}

#[test]
fn signature_is_tested_before_addresses_and_funds() {
    let mut ctx = accounts(0);
    ctx.user.is_signer = false;
    ctx.oracle_program = Address::new([13u8; 32]);
    assert_eq!(
        ctx.ai_inference("hello".to_string(), 1, &Rent::default()),
        Err(ChatError::MissingSignature)
    );
    ctx.user.is_signer = true;
    assert_eq!(
        ctx.ai_inference("hello".to_string(), 1, &Rent::default()),
        Err(ChatError::AddressMismatch)
    );
}

#[test]
fn admission_accounts_are_well_formed_while_balances_fit() {
    let mut ctx = accounts(10);
    assert!(ctx.is_wf());
    ctx.vault.lamports = u64::MAX;
    assert!(!ctx.is_wf());
    ctx.vault.lamports = u64::MAX - 10;
    assert!(ctx.is_wf());
    ctx.response.lamports = 1;
    assert!(!ctx.is_wf());
}

#[test]
fn initialize_opens_the_conversation_with_the_agent_description() {
    let ctx = Initialize {
        config: config(),
        user: Payer { key: Address::new(USER), is_signer: true, lamports: 0 },
        oracle_program: Address::new(ORACLE_PROGRAM),
        system_program: Address::new(SYSTEM_PROGRAM),
    };
    let creation = ctx.initialize(3).unwrap();
    assert_eq!(creation.text, "You are a helpful assistant.");
    assert_eq!(creation.text, AGENT_DESC);
    assert_eq!(creation.seed, 3);
}

#[test]
fn initialize_needs_signature_and_trusted_services() {
    let good = Initialize {
        config: config(),
        user: Payer { key: Address::new(USER), is_signer: true, lamports: 0 },
        oracle_program: Address::new(ORACLE_PROGRAM),
        system_program: Address::new(SYSTEM_PROGRAM),
    };
    let mut unsigned = good;
    unsigned.user.is_signer = false;
    assert_eq!(unsigned.initialize(0), Err(ChatError::MissingSignature));
    let mut other_provider = good;
    other_provider.oracle_program = Address::new([13u8; 32]);
    assert_eq!(other_provider.initialize(0), Err(ChatError::AddressMismatch));
    let mut other_service = good;
    other_service.system_program = Address::new([13u8; 32]);
    assert_eq!(other_service.initialize(0), Err(ChatError::AddressMismatch));
}
