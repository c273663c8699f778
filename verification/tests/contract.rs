use custodial_nft::contract::Contract;
use custodial_nft::error::ContractError;
use custodial_nft::metadata::{NFTContractMetadata, TokenMetadata};
use custodial_nft::model::NotificationOutcome;
use custodial_nft::token::Approvals;

fn account(name: &str) -> String {
    format!("{}.near", name)
}

fn contract_metadata() -> NFTContractMetadata {
    NFTContractMetadata {
        spec: "nft-1.0.0".to_string(),
        name: "Mosaics".to_string(),
        symbol: "MOSAIC".to_string(),
        icon: None,
        base_uri: None,
        reference: None,
        reference_hash: None,
    }
}

fn sample_token_metadata() -> TokenMetadata {
    TokenMetadata {
        title: Some("Olympus Mons".to_string()),
        description: Some("The tallest mountain in the charted solar system".to_string()),
        media: None,
        media_hash: None,
        copies: Some(1u64),
        issued_at: None,
        expires_at: None,
        starts_at: None,
        updated_at: None,
        extra: None,
        reference: None,
        reference_hash: None,
    }
}

fn new_contract(owner: &str) -> Contract {
    Contract::new(false, account(owner), contract_metadata()).unwrap()
}

#[test]
fn test_new() {
    let contract = new_contract("alice");
    assert!(contract.nft_token("1".to_string()).is_none());
    assert_eq!(contract.owner_id(), &account("alice"));
    assert_eq!(contract.nft_metadata(), contract_metadata());
    assert_eq!(contract.tokens().len(), 0);
}

#[test]
fn new_refuses_existing_state() {
    let r = Contract::new(true, account("alice"), contract_metadata());
    assert_eq!(r.err(), Some(ContractError::AlreadyInitialized));
}

#[test]
fn new_refuses_existing_state_before_it_looks_at_metadata() {
    let mut metadata = contract_metadata();
    metadata.spec = "nft-2.0.0".to_string();
    let r = Contract::new(true, account("alice"), metadata);
    assert_eq!(r.err(), Some(ContractError::AlreadyInitialized));
}

#[test]
fn new_refuses_wrong_spec() {
    let mut metadata = contract_metadata();
    metadata.spec = "nft-2.0.0".to_string();
    let r = Contract::new(false, account("alice"), metadata);
    assert_eq!(r.err(), Some(ContractError::InvalidMetadata));
}

#[test]
fn new_refuses_reference_without_hash() {
    let mut metadata = contract_metadata();
    metadata.reference = Some("https://example.org/nft.json".to_string());
    let r = Contract::new(false, account("alice"), metadata);
    assert_eq!(r.err(), Some(ContractError::InvalidMetadata));
}

#[test]
fn new_refuses_hash_without_reference() {
    let mut metadata = contract_metadata();
    metadata.reference_hash = Some(vec![7u8; 32]);
    let r = Contract::new(false, account("alice"), metadata);
    assert_eq!(r.err(), Some(ContractError::InvalidMetadata));
}

#[test]
fn new_refuses_short_hash() {
    let mut metadata = contract_metadata();
    metadata.reference = Some("https://example.org/nft.json".to_string());
    metadata.reference_hash = Some(vec![7u8; 31]);
    let r = Contract::new(false, account("alice"), metadata);
    assert_eq!(r.err(), Some(ContractError::InvalidMetadata));
}

#[test]
fn new_accepts_reference_with_hash() {
    let mut metadata = contract_metadata();
    metadata.reference = Some("https://example.org/nft.json".to_string());
    metadata.reference_hash = Some(vec![7u8; 32]);
    let contract = Contract::new(false, account("alice"), metadata.clone()).unwrap();
    assert_eq!(contract.nft_metadata(), metadata);
}

#[test]
fn test_mint() {
    let mut contract = new_contract("alice");
    let token_id = "0".to_string();
    let token = contract
        .nft_mint(&account("alice"), token_id.clone(), account("alice"), sample_token_metadata())
        .unwrap();
    assert_eq!(token.token_id, token_id);
    assert_eq!(token.owner_id, account("alice"));
    assert_eq!(token.metadata.unwrap(), sample_token_metadata());
    assert!(token.approved_account_ids.unwrap().is_empty());
    assert_eq!(contract.tokens().len(), 1);
}

#[test]
fn test_transfer() {
    let mut contract = new_contract("alice");
    let token_id = "0".to_string();
    contract
        .nft_mint(&account("alice"), token_id.clone(), account("alice"), sample_token_metadata())
        .unwrap();
    contract.nft_transfer(&account("alice"), account("bob"), token_id.clone(), None, None).unwrap();
    if let Some(token) = contract.nft_token(token_id.clone()) {
        assert_eq!(token.token_id, token_id);
        assert_eq!(token.owner_id, account("bob"));
        assert_eq!(token.metadata.unwrap(), sample_token_metadata());
        assert!(token.approved_account_ids.unwrap().is_empty());
    } else {
        panic!("token not correctly created, or not found by nft_token");
    }
}

#[test]
fn mint_twice_is_refused_as_existing() {
    let mut contract = new_contract("alice");
    contract
        .nft_mint(&account("alice"), "1".to_string(), account("alice"), sample_token_metadata())
        .unwrap();
    let again =
        contract.nft_mint(&account("alice"), "1".to_string(), account("bob"), sample_token_metadata());
    assert_eq!(again.err(), Some(ContractError::AlreadyExists));
    assert_eq!(contract.nft_token("1".to_string()).unwrap().owner_id, account("alice"));
    assert_eq!(contract.tokens().len(), 1);
}

#[test]
fn mint_by_another_caller_is_unauthorized() {
    let mut contract = new_contract("alice");
    let r = contract.nft_mint(&account("bob"), "1".to_string(), account("bob"), sample_token_metadata());
    assert_eq!(r.err(), Some(ContractError::Unauthorized));
    assert!(contract.nft_token("1".to_string()).is_none());
}

#[test]
fn unauthorized_comes_before_already_exists() {
    let mut contract = new_contract("alice");
    contract
        .nft_mint(&account("alice"), "1".to_string(), account("alice"), sample_token_metadata())
        .unwrap();
    let r = contract.nft_mint(&account("bob"), "1".to_string(), account("bob"), sample_token_metadata());
    assert_eq!(r.err(), Some(ContractError::Unauthorized));
}

#[test]
fn transfer_by_another_caller_is_unauthorized_and_changes_nothing() {
    let mut contract = new_contract("alice");
    contract
        .nft_mint(&account("alice"), "1".to_string(), account("alice"), sample_token_metadata())
        .unwrap();
    let r = contract.nft_transfer(&account("bob"), account("bob"), "1".to_string(), None, None);
    assert_eq!(r.err(), Some(ContractError::Unauthorized));
    assert_eq!(contract.nft_token("1".to_string()).unwrap().owner_id, account("alice"));
    let r = contract.nft_transfer_call(
        &account("carol"),
        account("bob"),
        "1".to_string(),
        None,
        None,
        "keep".to_string(),
    );
    assert_eq!(r.err(), Some(ContractError::Unauthorized));
    assert_eq!(contract.nft_token("1".to_string()).unwrap().owner_id, account("alice"));
}

#[test]
fn transfer_by_the_token_owner_who_is_not_the_owner_account_is_unauthorized() {
    let mut contract = new_contract("alice");
    contract
        .nft_mint(&account("alice"), "1".to_string(), account("bob"), sample_token_metadata())
        .unwrap();
    let r = contract.nft_transfer(&account("bob"), account("carol"), "1".to_string(), None, None);
    assert_eq!(r.err(), Some(ContractError::Unauthorized));
    assert_eq!(contract.nft_token("1".to_string()).unwrap().owner_id, account("bob"));
}

#[test]
fn owner_account_without_approval_cannot_move_the_token_of_another() {
    let mut contract = new_contract("alice");
    contract
        .nft_mint(&account("alice"), "1".to_string(), account("bob"), sample_token_metadata())
        .unwrap();
    let r = contract.nft_transfer(&account("alice"), account("carol"), "1".to_string(), None, None);
    assert_eq!(r.err(), Some(ContractError::Unauthorized));
    assert_eq!(contract.nft_token("1".to_string()).unwrap().owner_id, account("bob"));
}

#[test]
fn transfer_of_a_missing_token_is_not_found() {
    let mut contract = new_contract("alice");
    let r = contract.nft_transfer(&account("alice"), account("bob"), "9".to_string(), None, None);
    assert_eq!(r.err(), Some(ContractError::NotFound));
}

#[test]
fn transfer_to_the_current_owner_is_a_self_transfer() {
    let mut contract = new_contract("alice");
    contract
        .nft_mint(&account("alice"), "1".to_string(), account("alice"), sample_token_metadata())
        .unwrap();
    let r = contract.nft_transfer(&account("alice"), account("alice"), "1".to_string(), None, None);
    assert_eq!(r.err(), Some(ContractError::SelfTransfer));
    assert_eq!(contract.nft_token("1".to_string()).unwrap().owner_id, account("alice"));
}

#[test]
fn transfer_returns_the_record_of_the_transfer() {
    let mut contract = new_contract("alice");
    contract
        .nft_mint(&account("alice"), "1".to_string(), account("alice"), sample_token_metadata())
        .unwrap();
    let t = contract
        .nft_transfer(
            &account("alice"),
            account("bob"),
            "1".to_string(),
            None,
            Some("a gift".to_string()),
        )
        .unwrap();
    assert_eq!(t.sender_id, account("alice"));
    assert_eq!(t.previous_owner_id, account("alice"));
    assert_eq!(t.receiver_id, account("bob"));
    assert_eq!(t.token_id, "1".to_string());
    assert_eq!(t.memo, Some("a gift".to_string()));
    assert!(t.approved_account_ids.unwrap().is_empty());
}

#[test]
fn notification_failure_returns_the_token() {
    let mut contract = new_contract("alice");
    contract
        .nft_mint(&account("alice"), "1".to_string(), account("alice"), sample_token_metadata())
        .unwrap();
    let n = contract
        .nft_transfer_call(
            &account("alice"),
            account("bob"),
            "1".to_string(),
            None,
            None,
            "payload".to_string(),
        )
        .unwrap();
    assert_eq!(n.msg, "payload".to_string());
    assert_eq!(n.transfer.previous_owner_id, account("alice"));
    assert_eq!(n.transfer.receiver_id, account("bob"));
    assert_eq!(contract.nft_token("1".to_string()).unwrap().owner_id, account("bob"));
    let reverted = contract.nft_resolve_transfer(
        n.transfer.previous_owner_id,
        n.transfer.receiver_id,
        n.transfer.token_id,
        n.transfer.approved_account_ids,
        NotificationOutcome::Failed,
    );
    assert!(reverted);
    assert_eq!(contract.nft_token("1".to_string()).unwrap().owner_id, account("alice"));
}

#[test]
fn receiver_keeps_the_token() {
    let mut contract = new_contract("alice");
    contract
        .nft_mint(&account("alice"), "1".to_string(), account("alice"), sample_token_metadata())
        .unwrap();
    let n = contract
        .nft_transfer_call(
            &account("alice"),
            account("bob"),
            "1".to_string(),
            None,
            None,
            "keep".to_string(),
        )
        .unwrap();
    let reverted = contract.nft_resolve_transfer(
        n.transfer.previous_owner_id,
        n.transfer.receiver_id,
        n.transfer.token_id,
        n.transfer.approved_account_ids,
        NotificationOutcome::Keep,
    );
    assert!(!reverted);
    assert_eq!(contract.nft_token("1".to_string()).unwrap().owner_id, account("bob"));
}

#[test]
fn receiver_returns_the_token() {
    let mut contract = new_contract("alice");
    contract
        .nft_mint(&account("alice"), "1".to_string(), account("alice"), sample_token_metadata())
        .unwrap();
    let n = contract
        .nft_transfer_call(
            &account("alice"),
            account("bob"),
            "1".to_string(),
            None,
            None,
            "return".to_string(),
        )
        .unwrap();
    let reverted = contract.nft_resolve_transfer(
        n.transfer.previous_owner_id,
        n.transfer.receiver_id,
        n.transfer.token_id,
        n.transfer.approved_account_ids,
        NotificationOutcome::Return,
    );
    assert!(reverted);
    let token = contract.nft_token("1".to_string()).unwrap();
    assert_eq!(token.owner_id, account("alice"));
    assert_eq!(token.metadata.unwrap(), sample_token_metadata());
    assert!(token.approved_account_ids.unwrap().is_empty());
}

#[test]
fn resolve_of_a_missing_token_changes_nothing() {
    let mut contract = new_contract("alice");
    let reverted = contract.nft_resolve_transfer(
        account("alice"),
        account("bob"),
        "1".to_string(),
        Some(Approvals::new()),
        NotificationOutcome::Return,
    );
    assert!(!reverted);
    assert!(contract.nft_token("1".to_string()).is_none());
}

#[test]
fn resolve_without_prior_approvals_leaves_none() {
    let mut contract = new_contract("alice");
    contract
        .nft_mint(&account("alice"), "1".to_string(), account("alice"), sample_token_metadata())
        .unwrap();
    contract
        .nft_transfer_call(
            &account("alice"),
            account("bob"),
            "1".to_string(),
            None,
            None,
            "return".to_string(),
        )
        .unwrap();
    let reverted = contract.nft_resolve_transfer(
        account("alice"),
        account("bob"),
        "1".to_string(),
        None,
        NotificationOutcome::Return,
    );
    assert!(reverted);
    let token = contract.nft_token("1".to_string()).unwrap();
    assert_eq!(token.owner_id, account("alice"));
    assert!(token.approved_account_ids.unwrap().is_empty());
}

#[test]
fn authorize_tells_the_owner_account_from_others() {
    let contract = new_contract("alice");
    assert_eq!(contract.authorize(&account("alice")), Ok(()));
    assert_eq!(contract.authorize(&account("bob")), Err(ContractError::Unauthorized));
    assert_eq!(contract.authorize(&"alice.nea".to_string()), Err(ContractError::Unauthorized));
    assert_eq!(contract.authorize(&"".to_string()), Err(ContractError::Unauthorized));
}

#[test]
fn reasons_are_as_documented() {
    assert_eq!(ContractError::AlreadyInitialized.reason(), "Already initialized");
    assert_eq!(ContractError::InvalidMetadata.reason(), "Invalid contract metadata");
    assert_eq!(ContractError::Unauthorized.reason(), "Unauthorized");
    assert_eq!(ContractError::NotFound.reason(), "Token not found");
    assert_eq!(ContractError::AlreadyExists.reason(), "token_id must be unique");
    assert_eq!(ContractError::SelfTransfer.reason(), "Current and next owner must differ");
    assert_eq!(
        ContractError::StaleApproval.reason(),
        "The given approval_id is not the actual approval_id"
    );
}

#[test]
fn a_token_that_moved_on_before_the_answer_stays_where_it_is() {
    let mut contract = new_contract("alice");
    contract
        .nft_mint(&account("alice"), "1".to_string(), account("alice"), sample_token_metadata())
        .unwrap();
    let n = contract
        .nft_transfer_call(
            &account("alice"),
            account("bob"),
            "1".to_string(),
            None,
            None,
            "return".to_string(),
        )
        .unwrap();
    let (owner_id, metadata, mut ledger) = contract.into_parts();
    ledger.transfer(&account("bob"), account("carol"), &"1".to_string(), None, None).unwrap();
    let mut contract = Contract::from_parts(owner_id, metadata, ledger).unwrap();
    let reverted = contract.nft_resolve_transfer(
        n.transfer.previous_owner_id,
        n.transfer.receiver_id,
        n.transfer.token_id,
        n.transfer.approved_account_ids,
        NotificationOutcome::Return,
    );
    assert!(!reverted);
    assert_eq!(contract.nft_token("1".to_string()).unwrap().owner_id, account("carol"));
}

#[test]
fn the_owner_account_moves_the_token_of_another_with_an_approval() {
    let mut contract = new_contract("alice");
    contract
        .nft_mint(&account("alice"), "1".to_string(), account("bob"), sample_token_metadata())
        .unwrap();
    let (owner_id, metadata, mut ledger) = contract.into_parts();
    assert_eq!(ledger.approve(&"1".to_string(), account("alice")), Ok(1));
    let mut contract = Contract::from_parts(owner_id, metadata, ledger).unwrap();
    let stale =
        contract.nft_transfer(&account("alice"), account("carol"), "1".to_string(), Some(2), None);
    assert_eq!(stale.err(), Some(ContractError::StaleApproval));
    assert_eq!(contract.nft_token("1".to_string()).unwrap().owner_id, account("bob"));
    let t = contract
        .nft_transfer(&account("alice"), account("carol"), "1".to_string(), Some(1), None)
        .unwrap();
    assert_eq!(t.sender_id, account("alice"));
    assert_eq!(t.previous_owner_id, account("bob"));
    assert_eq!(contract.nft_token("1".to_string()).unwrap().owner_id, account("carol"));
}

#[test]
fn a_contract_taken_apart_and_put_together_is_the_same() {
    let mut contract = new_contract("alice");
    contract
        .nft_mint(&account("alice"), "1".to_string(), account("bob"), sample_token_metadata())
        .unwrap();
    let (owner_id, metadata, ledger) = contract.into_parts();
    assert_eq!(owner_id, account("alice"));
    assert_eq!(metadata, contract_metadata());
    assert_eq!(ledger.len(), 1);
    let contract = Contract::from_parts(owner_id, metadata, ledger).unwrap();
    assert_eq!(contract.owner_id(), &account("alice"));
    assert_eq!(contract.nft_metadata(), contract_metadata());
    assert_eq!(contract.nft_token("1".to_string()).unwrap().owner_id, account("bob"));
}

#[test]
fn from_parts_refuses_metadata_off_the_schema() {
    let mut metadata = contract_metadata();
    metadata.spec = "nft".to_string();
    let r = Contract::from_parts(account("alice"), metadata, custodial_nft::ledger::Ledger::new());
    assert_eq!(r.err(), Some(ContractError::InvalidMetadata));
}
