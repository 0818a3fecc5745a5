use alien_gateway::chain_registry::{ChainRegistry, ChainRegistryError, ChainRegistryEvent};
use alien_gateway::types::ChainId;

fn owner() -> String {
    String::from("GOWNERAAAAAAAAAAAAAAAAAAAAAAAAAAAAAAAAAAAAAAAAAAAAAAAAAA")
}

fn stranger() -> String {
    String::from("GSTRANGERBBBBBBBBBBBBBBBBBBBBBBBBBBBBBBBBBBBBBBBBBBBBBB")
}

fn setup() -> ChainRegistry {
    let mut reg = ChainRegistry::new();
    reg.initialize(owner());
    reg
}

#[test]
fn test_initialize() {
    let reg = setup();
    let retrieved_owner = reg.get_owner().expect("Owner should be set");
    assert_eq!(retrieved_owner, owner());
}

#[test]
fn test_add_chain_address_ethereum() {
    let mut reg = setup();
    let address = String::from("0x1234567890123456789012345678901234567890");
    let label = String::from("My Ethereum Wallet");
    let result = reg.add_chain_address(&owner(), ChainId::Ethereum, address.clone(), label.clone());
    assert!(result.is_ok());
    let count = reg.get_chain_address_count(ChainId::Ethereum);
    assert_eq!(count, 1);
    let stored_addr = reg
        .get_chain_address_at(ChainId::Ethereum, 0)
        .expect("Address should exist");
    assert_eq!(stored_addr.address, address);
    assert_eq!(stored_addr.label, label);
    assert_eq!(stored_addr.chain, ChainId::Ethereum);
}

#[test]
fn test_add_chain_address_multiple_chains() {
    let mut reg = setup();
    let result = reg.add_chain_address(
        &owner(),
        ChainId::Ethereum,
        String::from("0xeth"),
        String::from("Ethereum Wallet"),
    );
    assert!(result.is_ok());
    let result = reg.add_chain_address(
        &owner(),
        ChainId::Bitcoin,
        String::from("1A1z7agoat"),
        String::from("Bitcoin Wallet"),
    );
    assert!(result.is_ok());
    let result = reg.add_chain_address(
        &owner(),
        ChainId::Solana,
        String::from("SolAddress123456789"),
        String::from("Solana Wallet"),
    );
    assert!(result.is_ok());
    assert_eq!(reg.get_chain_address_count(ChainId::Ethereum), 1);
    assert_eq!(reg.get_chain_address_count(ChainId::Bitcoin), 1);
    assert_eq!(reg.get_chain_address_count(ChainId::Solana), 1);
}

#[test]
fn test_prevent_duplicate_addresses() {
    let mut reg = setup();
    let address = String::from("0x1234567890123456789012345678901234567890");
    let label = String::from("My Wallet");
    let result1 = reg.add_chain_address(&owner(), ChainId::Ethereum, address.clone(), label.clone());
    assert!(result1.is_ok());
    let result2 = reg.add_chain_address(
        &owner(),
        ChainId::Ethereum,
        address.clone(),
        String::from("Different Label"),
    );
    assert!(result2.is_err());
    let error = result2.unwrap_err();
    assert_eq!(error, ChainRegistryError::AlreadyExists);
    assert!(error.message().contains("already exists"));
    assert_eq!(reg.get_chain_address_count(ChainId::Ethereum), 1);
}

#[test]
fn test_multiple_addresses_same_chain() {
    let mut reg = setup();
    let addresses = [
        ("0xAddress1", "Wallet 1"),
        ("0xAddress2", "Wallet 2"),
        ("0xAddress3", "Wallet 3"),
    ];
    for (addr, label) in addresses.iter() {
        let result = reg.add_chain_address(
            &owner(),
            ChainId::Ethereum,
            String::from(*addr),
            String::from(*label),
        );
        assert!(result.is_ok());
    }
    let count = reg.get_chain_address_count(ChainId::Ethereum);
    assert_eq!(count, 3);
    for i in 0..3 {
        let stored = reg
            .get_chain_address_at(ChainId::Ethereum, i)
            .expect("Address should exist");
        assert_eq!(stored.chain, ChainId::Ethereum);
    }
}

#[test]
fn test_unauthorized_add_fails() {
    let mut reg = setup();
    let result = reg.add_chain_address(
        &stranger(),
        ChainId::Ethereum,
        String::from("0x1234567890123456789012345678901234567890"),
        String::from("Wallet"),
    );
    assert!(result.is_err());
    let error = result.unwrap_err();
    assert_eq!(error, ChainRegistryError::NotOwnerToAdd);
    assert!(error.message().contains("Only owner"));
}

#[test]
fn test_has_chain_address() {
    let mut reg = setup();
    let address = String::from("0x1234567890123456789012345678901234567890");
    assert!(!reg.has_chain_address(ChainId::Ethereum, &address));
    let _ = reg.add_chain_address(&owner(), ChainId::Ethereum, address.clone(), String::from("Wallet"));
    assert!(reg.has_chain_address(ChainId::Ethereum, &address));
}

#[test]
fn test_remove_chain_address() {
    let mut reg = setup();
    let address = String::from("0x1234567890123456789012345678901234567890");
    let _ = reg.add_chain_address(&owner(), ChainId::Ethereum, address.clone(), String::from("Wallet"));
    assert_eq!(reg.get_chain_address_count(ChainId::Ethereum), 1);
    let result = reg.remove_chain_address(&owner(), ChainId::Ethereum, address.clone());
    assert!(result.is_ok());
    assert_eq!(reg.get_chain_address_count(ChainId::Ethereum), 0);
    assert!(!reg.has_chain_address(ChainId::Ethereum, &address));
}

#[test]
fn test_unauthorized_remove_fails() {
    let mut reg = setup();
    let address = String::from("0x1234567890123456789012345678901234567890");
    let _ = reg.add_chain_address(&owner(), ChainId::Ethereum, address.clone(), String::from("Wallet"));
    let result = reg.remove_chain_address(&stranger(), ChainId::Ethereum, address);
    assert!(result.is_err());
    let error = result.unwrap_err();
    assert_eq!(error, ChainRegistryError::NotOwnerToRemove);
    assert!(error.message().contains("Only owner"));
}

#[test]
fn test_change_owner() {
    let mut reg = setup();
    let new_owner = stranger();
    let result = reg.change_owner(&owner(), new_owner.clone());
    assert!(result.is_ok());
    let current_owner = reg.get_owner().expect("Owner should exist");
    assert_eq!(current_owner, new_owner);
    let address = String::from("0x1234567890123456789012345678901234567890");
    let label = String::from("Wallet");
    let result = reg.add_chain_address(&owner(), ChainId::Ethereum, address.clone(), label.clone());
    assert!(result.is_err());
    let result = reg.add_chain_address(&new_owner, ChainId::Ethereum, address, label);
    assert!(result.is_ok());
}

#[test]
fn add_without_owner_fails() {
    let mut reg = ChainRegistry::new();
    let r = reg.add_chain_address(&owner(), ChainId::Base, String::from("0xb"), String::from("b"));
    assert_eq!(r, Err(ChainRegistryError::OwnerNotSet));
    assert_eq!(reg.get_owner(), Err(ChainRegistryError::OwnerNotSet));
}

#[test]
fn remove_missing_address_not_found() {
    let mut reg = setup();
    let _ = reg.add_chain_address(&owner(), ChainId::Polygon, String::from("0xa"), String::from("a"));
    let r = reg.remove_chain_address(&owner(), ChainId::Polygon, String::from("0xb"));
    assert_eq!(r, Err(ChainRegistryError::NotFound));
    // The same address on another chain is a different entry.
    let r = reg.remove_chain_address(&owner(), ChainId::Arbitrum, String::from("0xa"));
    assert_eq!(r, Err(ChainRegistryError::NotFound));
    assert_eq!(reg.get_chain_address_count(ChainId::Polygon), 1);
}

#[test]
fn remove_keeps_order_of_the_rest() {
    let mut reg = setup();
    for a in ["0x1", "0x2", "0x3"] {
        reg.add_chain_address(&owner(), ChainId::Optimism, String::from(a), String::from("w"))
            .unwrap();
    }
    reg.remove_chain_address(&owner(), ChainId::Optimism, String::from("0x2")).unwrap();
    let rest: Vec<String> = reg
        .get_chain_addresses(ChainId::Optimism)
        .into_iter()
        .map(|a| a.address)
        .collect();
    assert_eq!(rest, vec![String::from("0x1"), String::from("0x3")]);
    assert_eq!(
        reg.events().last(),
        Some(&ChainRegistryEvent::ChainAddressRemoved {
            chain: ChainId::Optimism,
            address: String::from("0x2"),
        })
    );
}

#[test]
fn index_out_of_bounds() {
    let reg = setup();
    assert_eq!(
        reg.get_chain_address_at(ChainId::Ethereum, 0),
        Err(ChainRegistryError::IndexOutOfBounds)
    );
}

#[test]
fn chain_names() {
    assert_eq!(ChainId::Ethereum.to_string(), "ethereum");
    assert_eq!(ChainId::Bitcoin.to_string(), "bitcoin");
    assert_eq!(ChainId::Solana.to_string(), "solana");
    assert_eq!(ChainId::Polygon.to_string(), "polygon");
    assert_eq!(ChainId::Arbitrum.to_string(), "arbitrum");
    assert_eq!(ChainId::Optimism.to_string(), "optimism");
    assert_eq!(ChainId::Base.to_string(), "base");
}

#[test]
fn change_owner_by_stranger_refused() {
    let mut reg = setup();
    let before = reg.events().len();
    let r = reg.change_owner(&stranger(), stranger());
    assert_eq!(r, Err(ChainRegistryError::NotCurrentOwner));
    assert_eq!(r.unwrap_err().message(), "Only current owner can change owner");
    assert_eq!(reg.get_owner(), Ok(owner()));
    assert_eq!(reg.events().len(), before);
}

#[test]
fn refusal_texts() {
    assert_eq!(ChainRegistryError::NotOwnerToAdd.message(), "Only owner can add chain addresses");
    assert_eq!(
        ChainRegistryError::NotOwnerToRemove.message(),
        "Only owner can remove chain addresses"
    );
    assert_eq!(ChainRegistryError::OwnerNotSet.message(), "Owner not set");
}
