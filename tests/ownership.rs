use alien_gateway::contract_core::{CoreContract, CoreEvent};
use alien_gateway::errors::{ErrorKind, GatewayError};
use alien_gateway::gateway::Contract;
use alien_gateway::registration::RegisterEvent;

fn a() -> String {
    String::from("GAAAA")
}

fn b() -> String {
    String::from("GBBBB")
}

#[test]
fn init_then_getters_return_stored_values() {
    let mut core = CoreContract::new();
    assert_eq!(core.get_owner(), Err(GatewayError::NotInitialized));
    assert_eq!(core.get_username(), Err(GatewayError::NotInitialized));
    assert_eq!(core.get_created_at(), Err(GatewayError::NotInitialized));
    core.init(String::from("alien_user"), a(), 42).unwrap();
    assert_eq!(core.get_owner(), Ok(a()));
    assert_eq!(core.get_username(), Ok(String::from("alien_user")));
    assert_eq!(core.get_created_at(), Ok(42));
    assert_eq!(
        core.events(),
        &[CoreEvent::Init { username: String::from("alien_user"), owner: a() }][..]
    );
}

#[test]
fn second_init_fails_whatever_the_arguments() {
    let mut core = CoreContract::new();
    core.init(String::from("alien_user"), a(), 1).unwrap();
    let r = core.init(String::from("other"), b(), 2);
    assert_eq!(r, Err(GatewayError::AlreadyInitialized));
    assert_eq!(r.unwrap_err().kind(), ErrorKind::Initialization);
    let r = core.init(String::new(), b(), 2);
    assert_eq!(r, Err(GatewayError::AlreadyInitialized));
    assert_eq!(core.get_owner(), Ok(a()));
    assert_eq!(core.get_username(), Ok(String::from("alien_user")));
    assert_eq!(core.get_created_at(), Ok(1));
    assert_eq!(core.events().len(), 1);
}

#[test]
fn empty_username_rejected_without_change() {
    let mut core = CoreContract::new();
    let r = core.init(String::new(), a(), 1);
    assert_eq!(r, Err(GatewayError::InvalidUsername));
    assert_eq!(r.unwrap_err().kind(), ErrorKind::Initialization);
    assert_eq!(core.get_owner(), Err(GatewayError::NotInitialized));
    assert!(core.events().is_empty());
    // The record can still be created afterwards.
    assert!(core.init(String::from("x"), a(), 1).is_ok());
}

#[test]
fn transfer_before_init_fails() {
    let mut core = CoreContract::new();
    let r = core.transfer(&a(), b(), [1u8; 32]);
    assert_eq!(r, Err(GatewayError::NotInitialized));
    assert_eq!(r.unwrap_err().kind(), ErrorKind::State);
    assert_eq!(core.get_root(), Err(GatewayError::RootNotSet));
}

#[test]
fn update_root_by_non_owner_fails() {
    let mut core = CoreContract::new();
    assert_eq!(core.update_root(&a(), [1u8; 32]), Err(GatewayError::Unauthorized));
    core.init(String::from("alien_user"), a(), 1).unwrap();
    assert_eq!(core.update_root(&b(), [1u8; 32]), Err(GatewayError::Unauthorized));
    assert_eq!(core.get_root(), Err(GatewayError::RootNotSet));
    assert!(core.update_root(&a(), [1u8; 32]).is_ok());
    assert_eq!(core.get_root(), Ok([1u8; 32]));
    assert_eq!(core.events().last(), Some(&CoreEvent::RootUpdated { root: [1u8; 32] }));
}

#[test]
fn transfer_ownership_is_owner_gated_and_allows_same_owner() {
    let mut core = CoreContract::new();
    assert_eq!(core.transfer_ownership(&a(), b()), Err(GatewayError::NotInitialized));
    core.init(String::from("alien_user"), a(), 1).unwrap();
    assert_eq!(core.transfer_ownership(&b(), b()), Err(GatewayError::Unauthorized));
    assert!(core.transfer_ownership(&a(), a()).is_ok());
    assert_eq!(core.get_owner(), Ok(a()));
    assert!(core.transfer_ownership(&a(), b()).is_ok());
    assert_eq!(core.get_owner(), Ok(b()));
    assert_eq!(core.get_root(), Err(GatewayError::RootNotSet));
    assert_eq!(core.events().len(), 1);
}

#[test]
fn require_owner_guard() {
    let mut core = CoreContract::new();
    assert_eq!(core.require_owner(&a()), Err(GatewayError::NotInitialized));
    core.init(String::from("u"), a(), 1).unwrap();
    assert_eq!(core.require_owner(&a()), Ok(()));
    assert_eq!(core.require_owner(&b()), Err(GatewayError::Unauthorized));
}

#[test]
fn old_owner_loses_authority_after_transfer() {
    let mut core = CoreContract::new();
    core.init(String::from("alien_user"), a(), 1).unwrap();
    core.transfer(&a(), b(), [0xbb; 32]).unwrap();
    assert_eq!(core.update_root(&a(), [0xff; 32]), Err(GatewayError::Unauthorized));
    assert_eq!(core.transfer(&a(), a(), [0xff; 32]), Err(GatewayError::Unauthorized));
    assert_eq!(core.get_root(), Ok([0xbb; 32]));
    assert!(core.update_root(&b(), [0xff; 32]).is_ok());
}

#[test]
fn end_to_end_transfer_then_root_update() {
    let mut core = CoreContract::new();
    core.init(String::from("alien_user"), a(), 7).unwrap();
    core.transfer(&a(), b(), [0xbb; 32]).unwrap();
    assert_eq!(core.get_owner(), Ok(b()));
    assert_eq!(core.get_root(), Ok([0xbb; 32]));
    assert_eq!(
        &core.events()[1..],
        &[
            CoreEvent::Transfer {
                username: String::from("alien_user"),
                old_owner: a(),
                new_owner: b(),
            },
            CoreEvent::RootUpdated { root: [0xbb; 32] },
        ][..]
    );
    assert!(core.update_root(&b(), [0xff; 32]).is_ok());
    assert_eq!(core.get_root(), Ok([0xff; 32]));
    assert_eq!(core.update_root(&a(), [0xff; 32]), Err(GatewayError::Unauthorized));
    assert_eq!(core.get_username(), Ok(String::from("alien_user")));
    assert_eq!(core.get_created_at(), Ok(7));
}

#[test]
fn end_to_end_commitment_claim() {
    let mut gw = Contract::new();
    let h = [0x42u8; 32];
    assert!(gw.register_commitment(a(), h).is_ok());
    assert_eq!(gw.get_commitment_owner(&h), Some(a()));
    let r = gw.register_commitment(b(), h);
    assert_eq!(r, Err(GatewayError::AlreadyRegistered));
    assert_eq!(r.unwrap_err().kind(), ErrorKind::Conflict);
    assert_eq!(gw.get_commitment_owner(&h), Some(a()));
    assert_eq!(gw.events(), &[RegisterEvent { commitment: h, owner: a() }][..]);
}

#[test]
fn same_claimant_cannot_claim_twice() {
    let mut gw = Contract::new();
    let h = [9u8; 32];
    gw.register_commitment(a(), h).unwrap();
    assert_eq!(gw.register_commitment(a(), h), Err(GatewayError::AlreadyRegistered));
    let mut h2 = h;
    h2[0] = 0;
    assert_eq!(gw.get_commitment_owner(&h2), None);
    assert!(gw.register_commitment(b(), h2).is_ok());
    assert_eq!(gw.get_commitment_owner(&h2), Some(b()));
    assert_eq!(gw.get_commitment_owner(&h), Some(a()));
}

#[test]
fn error_kinds() {
    assert_eq!(GatewayError::AlreadyInitialized.kind(), ErrorKind::Initialization);
    assert_eq!(GatewayError::InvalidUsername.kind(), ErrorKind::Initialization);
    assert_eq!(GatewayError::Unauthorized.kind(), ErrorKind::Authorization);
    assert_eq!(GatewayError::NotInitialized.kind(), ErrorKind::State);
    assert_eq!(GatewayError::RootNotSet.kind(), ErrorKind::State);
    assert_eq!(GatewayError::SameOwner.kind(), ErrorKind::Conflict);
    assert_eq!(GatewayError::AlreadyRegistered.kind(), ErrorKind::Conflict);
}
