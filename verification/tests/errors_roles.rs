use access_control::errors::AccessControlError;
use access_control::types::UserRole;

#[test]
fn test_error_descriptions() {
    assert!(!AccessControlError::Unauthorized.description().is_empty());
    assert!(!AccessControlError::AdminRequired.description().is_empty());
    assert!(!AccessControlError::InvalidRole.description().is_empty());
}

#[test]
fn test_error_categories() {
    assert!(AccessControlError::NotInitialized.is_critical());
    assert!(!AccessControlError::Unauthorized.is_critical());

    assert!(AccessControlError::Unauthorized.is_permission_error());
    assert!(!AccessControlError::InvalidRole.is_permission_error());

    assert!(AccessControlError::MembershipTokenNotSet.is_membership_error());
    assert!(!AccessControlError::Unauthorized.is_membership_error());
}

#[test]
fn test_error_codes() {
    // Ensure error codes are unique and in expected range
    assert_eq!(AccessControlError::Unauthorized.code(), 100);
    assert_eq!(AccessControlError::AdminRequired.code(), 101);
    assert_eq!(AccessControlError::ContractPaused.code(), 115);
}

#[test]
fn test_user_role_hierarchy() {
    assert!(UserRole::Admin.has_access(&UserRole::Guest));
    assert!(UserRole::Admin.has_access(&UserRole::Member));
    assert!(UserRole::Admin.has_access(&UserRole::Admin));

    assert!(UserRole::Member.has_access(&UserRole::Guest));
    assert!(UserRole::Member.has_access(&UserRole::Member));
    assert!(!UserRole::Member.has_access(&UserRole::Admin));

    assert!(UserRole::Guest.has_access(&UserRole::Guest));
    assert!(!UserRole::Guest.has_access(&UserRole::Member));
    assert!(!UserRole::Guest.has_access(&UserRole::Admin));
}

#[test]
fn test_user_role_string_conversion() {
    assert_eq!(UserRole::Admin.as_str(), "Admin");
    assert_eq!(UserRole::Member.as_str(), "Member");
    assert_eq!(UserRole::Guest.as_str(), "Guest");

    assert_eq!(UserRole::parse_from_str("admin"), Some(UserRole::Admin));
    assert_eq!(UserRole::parse_from_str("MEMBER"), Some(UserRole::Member));
    assert_eq!(UserRole::parse_from_str("guest"), Some(UserRole::Guest));
    assert_eq!(UserRole::parse_from_str("invalid"), None);
}

#[test]
fn all_error_codes_unique_and_described() {
    let all = [
        AccessControlError::Unauthorized,
        AccessControlError::AdminRequired,
        AccessControlError::InvalidRole,
        AccessControlError::InsufficientRole,
        AccessControlError::RoleAssignmentFailed,
        AccessControlError::MembershipTokenNotSet,
        AccessControlError::MembershipTokenCallFailed,
        AccessControlError::InsufficientMembership,
        AccessControlError::InvalidTokenBalance,
        AccessControlError::NotInitialized,
        AccessControlError::ConfigurationError,
        AccessControlError::StorageError,
        AccessControlError::InvalidAddress,
        AccessControlError::RoleHierarchyViolation,
        AccessControlError::MaxRolesExceeded,
        AccessControlError::ContractPaused,
    ];
    for (i, e) in all.iter().enumerate() {
        assert_eq!(e.code(), 100 + i as u32);
        assert!(!e.description().is_empty());
    }
}

#[test]
fn parse_from_str_mixed_case_and_junk() {
    assert_eq!(UserRole::parse_from_str("AdMiN"), Some(UserRole::Admin));
    assert_eq!(UserRole::parse_from_str("Guest"), Some(UserRole::Guest));
    assert_eq!(UserRole::parse_from_str("mEmBeR"), Some(UserRole::Member));
    assert_eq!(UserRole::parse_from_str(""), None);
    assert_eq!(UserRole::parse_from_str("admins"), None);
    assert_eq!(UserRole::parse_from_str("adm"), None);
}
