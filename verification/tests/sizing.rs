use anchor_lang::prelude::{Pubkey, Rent};
use chat_agent::address::{derive_response, derive_vault, RESPONSE_SEED, VAULT_SEED};
use chat_agent::rent::{required_collateral, shortfall, ACCOUNT_STORAGE_OVERHEAD};
use chat_agent::response::{
    BASELINE_BYTES, DISCRIMINATOR_BYTES, LENGTH_PREFIX_BYTES, SLACK_BYTES,
};
use chat_agent::{Address, ChatError, Response, ResponseAccount};

fn steep_rent() -> Rent {
    Rent { lamports_per_byte_year: u64::MAX, exemption_threshold: 2.0, burn_percent: 50 }
}

#[test]
fn space_of_empty_text_is_the_baseline() {
    assert_eq!(Response::space(""), 13);
    assert_eq!(Response::space(""), BASELINE_BYTES);
}

#[test]
fn space_counts_tag_prefix_payload_and_slack() {
    assert_eq!(Response::space("hello"), 18);
    assert_eq!(
        Response::space("hello"),
        DISCRIMINATOR_BYTES + LENGTH_PREFIX_BYTES + 5 + SLACK_BYTES
    );
    assert_eq!(Response::space("a helpful response of length 23 bytes"), 50);
}

#[test]
fn space_counts_bytes_not_characters() {
    assert_eq!("h\u{e9}llo".chars().count(), 5);
    assert_eq!(Response::space("h\u{e9}llo"), 19);
    assert_eq!(Response::space("\u{1f600}"), 17);
}

#[test]
fn space_never_shrinks_for_a_longer_payload() {
    let texts = ["", "a", "ab", "hello", "hello world", "a helpful response of length 23 bytes"];
    for pair in texts.windows(2) {
        assert!(pair[0].len() <= pair[1].len());
        assert!(Response::space(pair[0]) <= Response::space(pair[1]));
    }
}

#[test]
fn fits_accepts_ordinary_text() {
    assert!(Response::fits(""));
    assert!(Response::fits("hello"));
}

#[test]
fn collateral_follows_the_platform_schedule() {
    let rent = Rent::default();
    assert_eq!(ACCOUNT_STORAGE_OVERHEAD, 128);
    assert_eq!(ACCOUNT_STORAGE_OVERHEAD, anchor_lang::solana_program::rent::ACCOUNT_STORAGE_OVERHEAD);
    assert_eq!(required_collateral(&rent, 13), Some(981_360));
    assert_eq!(required_collateral(&rent, 50), Some(1_238_880));
    assert_eq!(required_collateral(&rent, 0), Some(890_880));
    assert_eq!(required_collateral(&rent, 13), Some(rent.minimum_balance(13)));
}

#[test]
fn collateral_of_a_free_schedule_is_zero() {
    assert_eq!(required_collateral(&Rent::free(), 1_000), Some(0));
}

#[test]
fn collateral_never_shrinks_for_a_longer_payload() {
    let rent = Rent::default();
    let texts = ["", "a", "hello", "a helpful response of length 23 bytes"];
    for pair in texts.windows(2) {
        let small = required_collateral(&rent, Response::space(pair[0])).unwrap();
        let large = required_collateral(&rent, Response::space(pair[1])).unwrap();
        assert!(small <= large);
    }
}

#[test]
fn collateral_is_none_where_the_rate_overflows() {
    assert_eq!(required_collateral(&steep_rent(), 13), None);
}

#[test]
fn collateral_is_none_where_the_size_overflows() {
    assert_eq!(required_collateral(&Rent::default(), usize::MAX), None);
    assert_eq!(required_collateral(&Rent::free(), usize::MAX), None);
}

#[test]
fn shortfall_is_the_difference_of_the_collaterals() {
    let rent = Rent::default();
    assert_eq!(shortfall(&rent, 13, 50), Some(257_520));
    assert_eq!(shortfall(&rent, 13, 14), Some(6_960));
}

#[test]
fn shortfall_is_clamped_at_zero() {
    let rent = Rent::default();
    assert_eq!(shortfall(&rent, 50, 13), Some(0));
    assert_eq!(shortfall(&rent, 50, 50), Some(0));
}

#[test]
fn shortfall_is_none_where_a_size_cannot_be_priced() {
    assert_eq!(shortfall(&steep_rent(), 13, 50), None);
    assert_eq!(shortfall(&Rent::default(), usize::MAX, 13), None);
    assert_eq!(shortfall(&Rent::default(), 13, usize::MAX), None);
}

#[test]
fn seeds_spell_their_names() {
    assert_eq!(&RESPONSE_SEED, b"response");
    assert_eq!(&VAULT_SEED, b"vault");
}

#[test]
fn response_address_is_the_platform_derivation() {
    let program = Pubkey::new_from_array([7u8; 32]);
    let user = [1u8; 32];
    let (expected, bump) = Pubkey::find_program_address(&[b"response", &user], &program);
    let found = derive_response(&Address::new(user), &Address::new([7u8; 32]));
    assert_eq!(found, Some((Address::new(expected.to_bytes()), bump)));
    assert_ne!(found.unwrap().0, Address::new(user));
}

#[test]
fn vault_address_is_the_platform_derivation() {
    let program = Pubkey::new_from_array([7u8; 32]);
    let response = [9u8; 32];
    let (expected, bump) = Pubkey::find_program_address(&[b"vault", &response], &program);
    let found = derive_vault(&Address::new(response), &Address::new([7u8; 32]));
    assert_eq!(found, Some((Address::new(expected.to_bytes()), bump)));
    assert_ne!(found, derive_response(&Address::new(response), &Address::new([7u8; 32])));
}

#[test]
fn derivation_depends_on_the_program() {
    let response = Address::new([9u8; 32]);
    assert_ne!(
        derive_vault(&response, &Address::new([7u8; 32])),
        derive_vault(&response, &Address::new([8u8; 32]))
    );
}

#[test]
fn addresses_match_by_their_bytes() {
    let mut other = [3u8; 32];
    assert!(Address::new([3u8; 32]).matches(&Address::new(other)));
    other[31] = 4;
    assert!(!Address::new([3u8; 32]).matches(&Address::new(other)));
    other[31] = 3;
    other[0] = 4;
    assert!(!Address::new([3u8; 32]).matches(&Address::new(other)));
}

#[test]
fn unallocated_record_is_empty_and_well_formed() {
    let record = ResponseAccount::unallocated(Address::new([2u8; 32]), 17);
    assert!(!record.owned);
    assert_eq!(record.data_len, 0);
    assert_eq!(record.lamports, 17);
    assert_eq!(record.data.response, "");
    assert!(record.is_wf());
}

#[test]
fn record_is_well_formed_when_long_enough_for_its_payload() {
    let mut record = ResponseAccount::unallocated(Address::new([2u8; 32]), 0);
    record.owned = true;
    record.data = Response { response: "hello".to_string() };
    record.data_len = 16;
    assert!(!record.is_wf());
    record.data_len = 17;
    assert!(record.is_wf());
    record.data_len = 11;
    assert!(!record.is_wf());
}

#[test]
fn every_rejection_has_its_message() {
    assert_eq!(
        ChatError::InvalidOracleIdentity.message(),
        "Invalid account or oracle sent the callback!"
    );
    let all = [
        ChatError::InvalidOracleIdentity,
        ChatError::MissingSignature,
        ChatError::AddressMismatch,
        ChatError::InsufficientFunds,
    ];
    for (i, a) in all.iter().enumerate() {
        assert!(!a.message().is_empty());
        for b in all.iter().skip(i + 1) {
            assert_ne!(a.message(), b.message());
        }
    }
}
