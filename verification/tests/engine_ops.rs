//! Behaviour of the governance engine, operation by operation.
//!
//! Principals are plain numbers; the membership-balance outcome that the
//! host would obtain from the external service is passed explicitly.

use access_control::engine::AccessControlModule;
use access_control::errors::AccessControlError;
use access_control::model::{AccessControlConfig, BalanceQuery, ProposalAction};
use access_control::types::UserRole;

const ADMIN: u64 = 1;
const USER1: u64 = 2;
const USER2: u64 = 3;

/// Outcome handed to operations whose membership gate is off: the engine
/// must not look at it.
const UNQUERIED: BalanceQuery = BalanceQuery::Balance(0);

fn setup_initialized() -> AccessControlModule {
    let mut acl = AccessControlModule::new();
    acl.initialize(ADMIN, None).unwrap();
    acl
}

#[test]
fn test_initialize() {
    let mut acl = AccessControlModule::new();

    let result = acl.initialize(ADMIN, None);
    assert!(result.is_ok());

    // Check admin role was set
    assert_eq!(acl.get_role(ADMIN), UserRole::Admin);
    assert!(acl.is_admin(ADMIN));
    assert!(acl.is_initialized());
    assert!(!acl.is_paused());
}

#[test]
fn test_initialize_twice_fails() {
    let mut acl = AccessControlModule::new();

    acl.initialize(ADMIN, None).unwrap();
    let result = acl.initialize(ADMIN, None);
    assert_eq!(result.unwrap_err(), AccessControlError::ConfigurationError);
}

#[test]
fn test_set_role_by_admin() {
    let mut acl = setup_initialized();

    let result = acl.set_role(ADMIN, USER1, UserRole::Member, UNQUERIED);
    assert!(result.is_ok());

    assert_eq!(acl.get_role(USER1), UserRole::Member);
}

#[test]
fn test_set_role_by_non_admin_fails() {
    let mut acl = setup_initialized();

    let result = acl.set_role(USER1, USER2, UserRole::Member, UNQUERIED);
    assert_eq!(result.unwrap_err(), AccessControlError::AdminRequired);
}

#[test]
fn test_get_role_default_guest() {
    let acl = setup_initialized();

    // User without assigned role should be Guest
    assert_eq!(acl.get_role(USER1), UserRole::Guest);
}

#[test]
fn test_check_access_hierarchy() {
    let mut acl = setup_initialized();

    // Set roles
    acl.set_role(ADMIN, USER1, UserRole::Member, UNQUERIED).unwrap();
    acl.set_role(ADMIN, USER2, UserRole::Admin, UNQUERIED).unwrap();

    // Admin can access everything
    assert!(acl.check_access(ADMIN, UserRole::Guest, UNQUERIED).unwrap());
    assert!(acl.check_access(ADMIN, UserRole::Member, UNQUERIED).unwrap());
    assert!(acl.check_access(ADMIN, UserRole::Admin, UNQUERIED).unwrap());

    // Member can access Guest and Member
    assert!(acl.check_access(USER1, UserRole::Guest, UNQUERIED).unwrap());
    assert!(acl.check_access(USER1, UserRole::Member, UNQUERIED).unwrap());
    assert!(!acl.check_access(USER1, UserRole::Admin, UNQUERIED).unwrap());

    // Guest can only access Guest
    let guest: u64 = 4;
    assert!(acl.check_access(guest, UserRole::Guest, UNQUERIED).unwrap());
    assert!(!acl.check_access(guest, UserRole::Member, UNQUERIED).unwrap());
    assert!(!acl.check_access(guest, UserRole::Admin, UNQUERIED).unwrap());
}

#[test]
fn test_require_access() {
    let mut acl = setup_initialized();

    acl.set_role(ADMIN, USER1, UserRole::Member, UNQUERIED).unwrap();

    // Should succeed for valid access
    assert!(acl.require_access(USER1, UserRole::Guest, UNQUERIED).is_ok());
    assert!(acl.require_access(USER1, UserRole::Member, UNQUERIED).is_ok());

    // Should fail for insufficient access
    let result = acl.require_access(USER1, UserRole::Admin, UNQUERIED);
    assert_eq!(result.unwrap_err(), AccessControlError::InsufficientRole);
}

#[test]
fn test_pause_unpause() {
    let mut acl = setup_initialized();

    // Pause contract
    acl.pause(ADMIN).unwrap();
    assert!(acl.is_paused());

    // Operations should fail when paused
    let result = acl.set_role(ADMIN, USER1, UserRole::Member, UNQUERIED);
    assert_eq!(result.unwrap_err(), AccessControlError::ContractPaused);

    // Unpause contract
    acl.unpause(ADMIN).unwrap();
    assert!(!acl.is_paused());

    // Operations should work again
    assert!(acl.set_role(ADMIN, USER1, UserRole::Member, UNQUERIED).is_ok());
}

#[test]
fn test_pause_by_non_admin_fails() {
    let mut acl = setup_initialized();

    let result = acl.pause(USER1);
    assert_eq!(result.unwrap_err(), AccessControlError::AdminRequired);
}

#[test]
fn test_transfer_admin() {
    let mut acl = setup_initialized();

    acl.propose_admin_transfer(ADMIN, USER1, 0).unwrap();
    acl.accept_admin_transfer(USER1, 0).unwrap();

    // New admin should have admin role
    assert_eq!(acl.get_role(USER1), UserRole::Admin);
    assert!(acl.is_admin(USER1));

    // New admin should be able to perform admin operations
    assert!(acl.set_role(USER1, USER2, UserRole::Member, UNQUERIED).is_ok());
}

#[test]
fn test_remove_role() {
    let mut acl = setup_initialized();

    // Set role and then remove it
    acl.set_role(ADMIN, USER1, UserRole::Member, UNQUERIED).unwrap();
    assert_eq!(acl.get_role(USER1), UserRole::Member);

    acl.remove_role(ADMIN, USER1).unwrap();
    assert_eq!(acl.get_role(USER1), UserRole::Guest);
}

#[test]
fn test_cannot_remove_main_admin_role() {
    let mut acl = setup_initialized();

    let result = acl.remove_role(ADMIN, ADMIN);
    assert_eq!(result.unwrap_err(), AccessControlError::RoleHierarchyViolation);
}

#[test]
fn test_operations_on_uninitialized_system_fail() {
    let mut acl = AccessControlModule::new();

    let result = acl.set_role(ADMIN, USER1, UserRole::Member, UNQUERIED);
    assert_eq!(result.unwrap_err(), AccessControlError::NotInitialized);

    let result = acl.check_access(USER1, UserRole::Guest, UNQUERIED);
    assert_eq!(result.unwrap_err(), AccessControlError::NotInitialized);
}

#[test]
fn test_config_management() {
    let mut acl = setup_initialized();

    let membership_contract: u64 = 77;
    let new_config = AccessControlConfig {
        membership_token_contract: Some(membership_contract),
        require_membership_for_roles: true,
        min_token_balance: 100,
    };

    acl.update_config(ADMIN, new_config).unwrap();

    let stored_config = acl.get_config();
    assert_eq!(stored_config.membership_token_contract, Some(membership_contract));
    assert!(stored_config.require_membership_for_roles);
    assert_eq!(stored_config.min_token_balance, 100);
}

// The external membership service of these tests answers every balance
// query with 1000.
const MOCK_BALANCE: BalanceQuery = BalanceQuery::Balance(1000);

#[test]
fn test_membership_token_integration() {
    let mut acl = setup_initialized();

    let membership_token: u64 = 88;

    // Configure access control to require membership
    let config = AccessControlConfig {
        membership_token_contract: Some(membership_token),
        require_membership_for_roles: true,
        min_token_balance: 500,
    };

    acl.update_config(ADMIN, config).unwrap();

    // Setting Member role should work (the service reports 1000 tokens)
    let result = acl.set_role(ADMIN, USER1, UserRole::Member, MOCK_BALANCE);
    assert!(result.is_ok());

    // Check access should also work
    let result = acl.check_access(USER1, UserRole::Member, MOCK_BALANCE);
    assert!(result.is_ok());
    assert!(result.unwrap());
}

#[test]
fn test_membership_token_insufficient_balance() {
    let mut acl = setup_initialized();

    let membership_token: u64 = 88;

    // Require more tokens than the service reports
    let config = AccessControlConfig {
        membership_token_contract: Some(membership_token),
        require_membership_for_roles: true,
        min_token_balance: 2000, // the service only reports 1000
    };

    acl.update_config(ADMIN, config).unwrap();

    // Setting Member role should fail due to insufficient tokens
    let result = acl.set_role(ADMIN, USER1, UserRole::Member, MOCK_BALANCE);
    assert_eq!(result.unwrap_err(), AccessControlError::InsufficientMembership);
}

#[test]
fn test_membership_not_required_for_guest_role() {
    let mut acl = setup_initialized();

    let membership_token: u64 = 88;

    let config = AccessControlConfig {
        membership_token_contract: Some(membership_token),
        require_membership_for_roles: true,
        min_token_balance: 2000, // more than the service reports
    };

    acl.update_config(ADMIN, config).unwrap();

    // Setting Guest role should work even without sufficient tokens
    let result = acl.set_role(ADMIN, USER1, UserRole::Guest, MOCK_BALANCE);
    assert!(result.is_ok());

    // Guest access should also work
    let result = acl.check_access(USER1, UserRole::Guest, MOCK_BALANCE);
    assert!(result.is_ok());
    assert!(result.unwrap());
}

#[test]
fn test_config_update_by_non_admin_fails() {
    let mut acl = setup_initialized();

    let config = AccessControlConfig::default();
    let result = acl.update_config(USER1, config);
    assert_eq!(result.unwrap_err(), AccessControlError::AdminRequired);
}

#[test]
fn test_blacklist_functionality() {
    let mut acl = setup_initialized();

    assert!(!acl.is_blacklisted(USER1));

    acl.blacklist_user(ADMIN, USER1).unwrap();
    assert!(acl.is_blacklisted(USER1));

    let result = acl.set_role(ADMIN, USER1, UserRole::Member, UNQUERIED);
    assert_eq!(result.unwrap_err(), AccessControlError::Unauthorized);

    acl.unblacklist_user(ADMIN, USER1).unwrap();
    assert!(!acl.is_blacklisted(USER1));

    let result = acl.set_role(ADMIN, USER1, UserRole::Member, UNQUERIED);
    assert!(result.is_ok());
}

#[test]
fn test_admin_self_removal_prevention() {
    let mut acl = setup_initialized();

    let result = acl.remove_role(ADMIN, ADMIN);
    assert_eq!(result.unwrap_err(), AccessControlError::RoleHierarchyViolation);
}

#[test]
fn test_admin_transfer_security() {
    let mut acl = setup_initialized();

    let result = acl.propose_admin_transfer(ADMIN, ADMIN, 0);
    assert_eq!(result.unwrap_err(), AccessControlError::InvalidAddress);

    acl.propose_admin_transfer(ADMIN, USER1, 0).unwrap();
    acl.accept_admin_transfer(USER1, 0).unwrap();

    assert_eq!(acl.get_role(USER1), UserRole::Admin);
    assert_eq!(acl.get_role(ADMIN), UserRole::Guest);

    let result = acl.set_role(ADMIN, USER1, UserRole::Member, UNQUERIED);
    assert_eq!(result.unwrap_err(), AccessControlError::AdminRequired);
}

#[test]
fn test_blacklisted_user_access_denied() {
    let mut acl = setup_initialized();

    acl.set_role(ADMIN, USER1, UserRole::Member, UNQUERIED).unwrap();
    assert!(acl.check_access(USER1, UserRole::Member, UNQUERIED).unwrap());

    acl.blacklist_user(ADMIN, USER1).unwrap();
    assert!(!acl.check_access(USER1, UserRole::Member, UNQUERIED).unwrap());
    assert!(!acl.check_access(USER1, UserRole::Guest, UNQUERIED).unwrap());
}

#[test]
fn test_non_admin_cannot_blacklist() {
    let mut acl = setup_initialized();

    let result = acl.blacklist_user(USER1, USER2);
    assert_eq!(result.unwrap_err(), AccessControlError::AdminRequired);
}

#[test]
fn test_multisig_initialization() {
    let mut acl = AccessControlModule::new();
    let admin1: u64 = 10;
    let admin2: u64 = 20;
    let admin3: u64 = 30;

    let admins = vec![admin1, admin2, admin3];
    let result = acl.initialize_multisig(admins, 2, None);
    assert!(result.is_ok());

    assert!(acl.is_multisig_enabled());
    let config = acl.get_multisig_config().unwrap();
    assert_eq!(config.required_signatures, 2);
    assert_eq!(config.admins.len(), 3);

    assert_eq!(acl.get_role(admin1), UserRole::Admin);
    assert_eq!(acl.get_role(admin2), UserRole::Admin);
    assert_eq!(acl.get_role(admin3), UserRole::Admin);
}

#[test]
fn test_multisig_proposal_creation_and_approval() {
    let mut acl = AccessControlModule::new();
    let admin1: u64 = 10;
    let admin2: u64 = 20;
    let admin3: u64 = 30;
    let user: u64 = 5;

    acl.initialize_multisig(vec![admin1, admin2, admin3], 2, None).unwrap();

    let action = ProposalAction::SetRole(user, UserRole::Member);
    let proposal_id = acl.create_proposal(admin1, action, 0, UNQUERIED).unwrap();

    acl.approve_proposal(admin2, proposal_id, 0, UNQUERIED).unwrap();

    assert_eq!(acl.get_role(user), UserRole::Member);
}

#[test]
fn test_two_step_admin_transfer() {
    let mut acl = setup_initialized();

    acl.propose_admin_transfer(ADMIN, USER1, 0).unwrap();

    let pending = acl.get_pending_admin_transfer().unwrap();
    assert_eq!(pending.proposed_admin, USER1);
    assert_eq!(pending.proposer, ADMIN);

    acl.accept_admin_transfer(USER1, 0).unwrap();

    assert_eq!(acl.get_role(USER1), UserRole::Admin);
    assert_eq!(acl.get_role(ADMIN), UserRole::Guest);
    assert!(acl.get_pending_admin_transfer().is_none());
}

#[test]
fn test_admin_transfer_cancellation() {
    let mut acl = setup_initialized();

    acl.propose_admin_transfer(ADMIN, USER1, 0).unwrap();

    assert!(acl.get_pending_admin_transfer().is_some());

    acl.cancel_admin_transfer(ADMIN).unwrap();

    assert!(acl.get_pending_admin_transfer().is_none());
    assert_eq!(acl.get_role(ADMIN), UserRole::Admin);
}

#[test]
fn test_multisig_prevents_direct_operations() {
    let mut acl = AccessControlModule::new();
    let admin1: u64 = 10;
    let admin2: u64 = 20;

    acl.initialize_multisig(vec![admin1, admin2], 2, None).unwrap();

    let config = AccessControlConfig::default();
    let result = acl.update_config(admin1, config);
    assert_eq!(result.unwrap_err(), AccessControlError::AdminRequired);

    let result = acl.pause(admin1);
    assert_eq!(result.unwrap_err(), AccessControlError::AdminRequired);
}

#[test]
fn test_insufficient_multisig_approvals() {
    let mut acl = AccessControlModule::new();
    let admin1: u64 = 10;
    let admin2: u64 = 20;
    let admin3: u64 = 30;
    let user: u64 = 5;

    acl.initialize_multisig(vec![admin1, admin2, admin3], 3, None).unwrap();

    let action = ProposalAction::SetRole(user, UserRole::Member);
    let proposal_id = acl.create_proposal(admin1, action, 0, UNQUERIED).unwrap();

    acl.approve_proposal(admin2, proposal_id, 0, UNQUERIED).unwrap();

    assert_eq!(acl.get_role(user), UserRole::Guest);

    acl.approve_proposal(admin3, proposal_id, 0, UNQUERIED).unwrap();

    assert_eq!(acl.get_role(user), UserRole::Member);
}

#[test]
fn test_set_role_event_emitted() {
    let mut acl = AccessControlModule::new();

    acl.initialize(ADMIN, None).unwrap();
    acl.set_role(ADMIN, USER1, UserRole::Member, UNQUERIED).unwrap();

    // Verify role was set
    let role = acl.get_role(USER1);
    assert_eq!(role, UserRole::Member, "Role should have been set to Member");
}

#[test]
fn test_pause_unpause_events_emitted() {
    let mut acl = AccessControlModule::new();

    acl.initialize(ADMIN, None).unwrap();
    acl.pause(ADMIN).unwrap();

    // Verify contract is paused
    assert!(acl.is_paused());

    acl.unpause(ADMIN).unwrap();

    // Verify contract is unpaused
    assert!(!acl.is_paused());
}

#[test]
fn test_admin_transfer_events_emitted() {
    let mut acl = AccessControlModule::new();

    acl.initialize(ADMIN, None).unwrap();
    acl.propose_admin_transfer(ADMIN, USER1, 0).unwrap();

    // Verify proposal was created
    acl.accept_admin_transfer(USER1, 0).unwrap();

    // Verify admin was transferred
    assert!(acl.is_admin(USER1));
}

#[test]
fn test_proposal_events_emitted() {
    let mut acl = AccessControlModule::new();
    let admin1: u64 = 10;
    let admin2: u64 = 20;
    let user: u64 = 5;

    acl.initialize_multisig(vec![admin1, admin2], 2, None).unwrap();

    let action = ProposalAction::SetRole(user, UserRole::Member);
    let proposal_id = acl.create_proposal(admin1, action, 0, UNQUERIED).unwrap();

    // Approve proposal
    acl.approve_proposal(admin2, proposal_id, 0, UNQUERIED).unwrap();

    // Verify role was set after approval
    assert_eq!(acl.get_role(user), UserRole::Member);
}
