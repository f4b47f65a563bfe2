//! Error taxonomy of the access-control engine.

use vstd::prelude::*;

verus! {

/// Everything that can go wrong in an access-control operation.
#[derive(Clone, Copy, Debug, PartialEq, Eq, Structural)]
pub enum AccessControlError {
    /// Caller is not authorized to perform this action
    Unauthorized,
    /// Caller does not have admin privileges
    AdminRequired,
    /// Invalid role specified
    InvalidRole,
    /// User does not have the required role
    InsufficientRole,
    /// Role assignment failed
    RoleAssignmentFailed,
    /// Membership token contract not configured
    MembershipTokenNotSet,
    /// Cross-contract call to membership token failed
    MembershipTokenCallFailed,
    /// User does not have required membership token
    InsufficientMembership,
    /// Invalid membership token balance
    InvalidTokenBalance,
    /// Access control not initialized
    NotInitialized,
    /// Configuration error
    ConfigurationError,
    /// Storage operation failed
    StorageError,
    /// Invalid address provided
    InvalidAddress,
    /// Role hierarchy violation
    RoleHierarchyViolation,
    /// Maximum roles per user exceeded
    MaxRolesExceeded,
    /// Contract is paused
    ContractPaused,
}

impl AccessControlError {
    /// Numeric code of the error, as reported to hosts.
    pub open spec fn code_spec(self) -> u32 {
        match self {
            AccessControlError::Unauthorized => 100,
            AccessControlError::AdminRequired => 101,
            AccessControlError::InvalidRole => 102,
            AccessControlError::InsufficientRole => 103,
            AccessControlError::RoleAssignmentFailed => 104,
            AccessControlError::MembershipTokenNotSet => 105,
            AccessControlError::MembershipTokenCallFailed => 106,
            AccessControlError::InsufficientMembership => 107,
            AccessControlError::InvalidTokenBalance => 108,
            AccessControlError::NotInitialized => 109,
            AccessControlError::ConfigurationError => 110,
            AccessControlError::StorageError => 111,
            AccessControlError::InvalidAddress => 112,
            AccessControlError::RoleHierarchyViolation => 113,
            AccessControlError::MaxRolesExceeded => 114,
            AccessControlError::ContractPaused => 115,
        }
    }

    /// Human-readable description of the error.
    pub open spec fn description_spec(self) -> Seq<char> {
        match self {
            AccessControlError::Unauthorized => "Caller is not authorized to perform this action"@,
            AccessControlError::AdminRequired => "Admin privileges required for this operation"@,
            AccessControlError::InvalidRole => "Invalid role specified"@,
            AccessControlError::InsufficientRole => "User does not have the required role"@,
            AccessControlError::RoleAssignmentFailed => "Failed to assign role to user"@,
            AccessControlError::MembershipTokenNotSet => "Membership token contract not configured"@,
            AccessControlError::MembershipTokenCallFailed => "Cross-contract call to membership token failed"@,
            AccessControlError::InsufficientMembership => "User does not have required membership token"@,
            AccessControlError::InvalidTokenBalance => "Invalid membership token balance"@,
            AccessControlError::NotInitialized => "Access control system not initialized"@,
            AccessControlError::ConfigurationError => "Access control configuration error"@,
            AccessControlError::StorageError => "Storage operation failed"@,
            AccessControlError::InvalidAddress => "Invalid address provided"@,
            AccessControlError::RoleHierarchyViolation => "Role hierarchy violation"@,
            AccessControlError::MaxRolesExceeded => "Maximum roles per user exceeded"@,
            AccessControlError::ContractPaused => "Contract is currently paused"@,
        }
    }

    /// Errors that should halt execution rather than be handled locally.
    pub open spec fn critical_spec(self) -> bool {
        ||| self == AccessControlError::NotInitialized
        ||| self == AccessControlError::ConfigurationError
        ||| self == AccessControlError::StorageError
        ||| self == AccessControlError::ContractPaused
    }

    /// Errors caused by missing permissions.
    pub open spec fn permission_spec(self) -> bool {
        ||| self == AccessControlError::Unauthorized
        ||| self == AccessControlError::AdminRequired
        ||| self == AccessControlError::InsufficientRole
        ||| self == AccessControlError::InsufficientMembership
    }

    /// Errors related to the membership-token gate.
    pub open spec fn membership_spec(self) -> bool {
        ||| self == AccessControlError::MembershipTokenNotSet
        ||| self == AccessControlError::MembershipTokenCallFailed
        ||| self == AccessControlError::InsufficientMembership
        ||| self == AccessControlError::InvalidTokenBalance
    }

    /// Numeric code of the error, as reported to hosts.
    pub fn code(&self) -> (r: u32)
        ensures
            r == self.code_spec(),
    {
        match self {
            AccessControlError::Unauthorized => 100,
            AccessControlError::AdminRequired => 101,
            AccessControlError::InvalidRole => 102,
            AccessControlError::InsufficientRole => 103,
            AccessControlError::RoleAssignmentFailed => 104,
            AccessControlError::MembershipTokenNotSet => 105,
            AccessControlError::MembershipTokenCallFailed => 106,
            AccessControlError::InsufficientMembership => 107,
            AccessControlError::InvalidTokenBalance => 108,
            AccessControlError::NotInitialized => 109,
            AccessControlError::ConfigurationError => 110,
            AccessControlError::StorageError => 111,
            AccessControlError::InvalidAddress => 112,
            AccessControlError::RoleHierarchyViolation => 113,
            AccessControlError::MaxRolesExceeded => 114,
            AccessControlError::ContractPaused => 115,
        }
    }

    /// Get a human-readable description of the error.
    pub fn description(&self) -> (r: &'static str)
        ensures
            r@ == self.description_spec(),
            r@.len() > 0,
    {
        let r: &'static str = match self {
            AccessControlError::Unauthorized => "Caller is not authorized to perform this action",
            AccessControlError::AdminRequired => "Admin privileges required for this operation",
            AccessControlError::InvalidRole => "Invalid role specified",
            AccessControlError::InsufficientRole => "User does not have the required role",
            AccessControlError::RoleAssignmentFailed => "Failed to assign role to user",
            AccessControlError::MembershipTokenNotSet => "Membership token contract not configured",
            AccessControlError::MembershipTokenCallFailed => "Cross-contract call to membership token failed",
            AccessControlError::InsufficientMembership => "User does not have required membership token",
            AccessControlError::InvalidTokenBalance => "Invalid membership token balance",
            AccessControlError::NotInitialized => "Access control system not initialized",
            AccessControlError::ConfigurationError => "Access control configuration error",
            AccessControlError::StorageError => "Storage operation failed",
            AccessControlError::InvalidAddress => "Invalid address provided",
            AccessControlError::RoleHierarchyViolation => "Role hierarchy violation",
            AccessControlError::MaxRolesExceeded => "Maximum roles per user exceeded",
            AccessControlError::ContractPaused => "Contract is currently paused",
        };
        proof {
            reveal_strlit("Caller is not authorized to perform this action");
            reveal_strlit("Admin privileges required for this operation");
            reveal_strlit("Invalid role specified");
            reveal_strlit("User does not have the required role");
            reveal_strlit("Failed to assign role to user");
            reveal_strlit("Membership token contract not configured");
            reveal_strlit("Cross-contract call to membership token failed");
            reveal_strlit("User does not have required membership token");
            reveal_strlit("Invalid membership token balance");
            reveal_strlit("Access control system not initialized");
            reveal_strlit("Access control configuration error");
            reveal_strlit("Storage operation failed");
            reveal_strlit("Invalid address provided");
            reveal_strlit("Role hierarchy violation");
            reveal_strlit("Maximum roles per user exceeded");
            reveal_strlit("Contract is currently paused");
        }
        r
    }

    /// Check if this is a critical error that should halt execution.
    pub fn is_critical(&self) -> (r: bool)
        ensures
            r == self.critical_spec(),
    {
        matches!(
            self,
            AccessControlError::NotInitialized
                | AccessControlError::ConfigurationError
                | AccessControlError::StorageError
                | AccessControlError::ContractPaused
        )
    }

    /// Check if this error is related to permissions.
    pub fn is_permission_error(&self) -> (r: bool)
        ensures
            r == self.permission_spec(),
    {
        matches!(
            self,
            AccessControlError::Unauthorized
                | AccessControlError::AdminRequired
                | AccessControlError::InsufficientRole
                | AccessControlError::InsufficientMembership
        )
    }

    /// Check if this error is related to membership tokens.
    pub fn is_membership_error(&self) -> (r: bool)
        ensures
            r == self.membership_spec(),
    {
        matches!(
            self,
            AccessControlError::MembershipTokenNotSet
                | AccessControlError::MembershipTokenCallFailed
                | AccessControlError::InsufficientMembership
                | AccessControlError::InvalidTokenBalance
        )
    }
}

/// Result type for access control operations.
pub type AccessControlResult<T> = Result<T, AccessControlError>;

} // verus!
