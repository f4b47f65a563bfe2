//! Shared vocabulary used across the wider platform: subscription plans,
//! attendance actions, membership states, the platform-wide user-role
//! variants, and the unified platform error taxonomy with its categories.

use vstd::prelude::*;

verus! {

/// Subscription plan types: the billing frequencies for subscriptions.
#[derive(Clone, Copy, Debug, PartialEq, Eq, Structural)]
pub enum SubscriptionPlan {
    /// Daily subscription plan
    Daily,
    /// Monthly subscription plan
    Monthly,
    /// Pay-per-use plan
    PayPerUse,
}

/// Attendance tracking actions.
#[derive(Clone, Copy, Debug, PartialEq, Eq, Structural)]
pub enum AttendanceAction {
    /// Clock in action (arrival)
    ClockIn,
    /// Clock out action (departure)
    ClockOut,
}

/// Platform-wide user role types.
#[derive(Clone, Copy, Debug, PartialEq, Eq, Structural)]
pub enum UserRole {
    /// Regular member
    Member,
    /// Staff member with elevated privileges
    Staff,
    /// Administrator with full access
    Admin,
    /// Temporary visitor with limited access
    Visitor,
}

/// Membership status types.
#[derive(Clone, Copy, Debug, PartialEq, Eq, Structural)]
pub enum MembershipStatus {
    /// Active membership
    Active,
    /// Expired membership
    Expired,
    /// Revoked membership
    Revoked,
    /// Inactive membership
    Inactive,
}

/// Unified error taxonomy across the platform's contracts.
#[derive(Clone, Copy, Debug, PartialEq, Eq, Structural)]
pub enum ManageHubError {
    /// Contract initialization failed
    ContractInitializationFailed,
    /// Storage corruption detected
    StorageCorruption,
    /// System maintenance mode active
    SystemMaintenanceMode,
    /// User authentication required
    AuthenticationRequired,
    /// Insufficient permissions for operation
    InsufficientPermissions,
    /// Admin privileges required
    AdminPrivilegesRequired,
    /// Account locked or suspended
    AccountLocked,
    /// Session expired, re-authentication required
    SessionExpired,
    /// Subscription not found
    SubscriptionNotFound,
    /// Subscription already exists with this ID
    SubscriptionAlreadyExists,
    /// Subscription has expired
    SubscriptionExpired,
    /// Subscription is inactive
    SubscriptionInactive,
    /// Subscription renewal failed
    SubscriptionRenewalFailed,
    /// Invalid payment amount (must be positive)
    InvalidPaymentAmount,
    /// Unsupported payment token
    InvalidPaymentToken,
    /// Insufficient token balance
    InsufficientBalance,
    /// Payment transaction failed
    PaymentTransactionFailed,
    /// USDC contract not configured
    UsdcContractNotSet,
    /// Token not found
    TokenNotFound,
    /// Token already issued with this ID
    TokenAlreadyIssued,
    /// Token has expired
    TokenExpired,
    /// Invalid token expiry date
    InvalidExpiryDate,
    /// Token metadata validation failed
    TokenMetadataValidationFailed,
    /// Token metadata not found
    MetadataNotFound,
    /// Attendance logging failed
    AttendanceLogFailed,
    /// Invalid event details provided
    InvalidEventDetails,
    /// Attendance validation failed
    AttendanceValidationFailed,
    /// Tier not found
    TierNotFound,
    /// Tier already exists
    TierAlreadyExists,
    /// Tier is not active
    TierNotActive,
    /// Feature not available in current tier
    FeatureNotAvailable,
    /// Access control validation failed
    AccessControlValidationFailed,
    /// Role not found
    RoleNotFound,
    /// Permission denied for resource
    PermissionDenied,
    /// Role hierarchy violation
    RoleHierarchyViolation,
    /// Input validation failed
    InputValidationFailed,
    /// Invalid string format
    InvalidStringFormat,
    /// Timestamp overflow detected
    TimestampOverflow,
    /// Invalid address format
    InvalidAddressFormat,
    /// Storage operation failed
    StorageOperationFailed,
    /// Data not found in storage
    DataNotFound,
    /// Network communication failed
    NetworkCommunicationFailed,
    /// External service unavailable
    ExternalServiceUnavailable,
    /// Business rule violation
    BusinessRuleViolation,
    /// Operation not permitted in current state
    OperationNotPermittedInCurrentState,
    /// Configuration error
    ConfigurationError,
    /// Operation failed for unknown reason
    OperationFailed,
    /// Temporary service unavailable
    TemporaryServiceUnavailable,
}

/// Error categories for classification and monitoring.
#[derive(Clone, Copy, Debug, PartialEq, Eq, Structural)]
pub enum ErrorCategory {
    Critical,
    Authentication,
    Subscription,
    Payment,
    Token,
    Attendance,
    Tier,
    AccessControl,
    Validation,
    Storage,
}

impl ManageHubError {
    /// The errors that demand immediate attention and halt execution.
    pub open spec fn critical_spec(self) -> bool {
        ||| self == ManageHubError::ContractInitializationFailed
        ||| self == ManageHubError::StorageCorruption
        ||| self == ManageHubError::SystemMaintenanceMode
    }

    /// The category an error belongs to, for logging and monitoring.
    pub open spec fn category_spec(self) -> ErrorCategory {
        match self {
            ManageHubError::ContractInitializationFailed
            | ManageHubError::StorageCorruption
            | ManageHubError::SystemMaintenanceMode => ErrorCategory::Critical,
            ManageHubError::AuthenticationRequired
            | ManageHubError::InsufficientPermissions
            | ManageHubError::AdminPrivilegesRequired
            | ManageHubError::AccountLocked
            | ManageHubError::SessionExpired => ErrorCategory::Authentication,
            ManageHubError::SubscriptionNotFound
            | ManageHubError::SubscriptionAlreadyExists
            | ManageHubError::SubscriptionExpired
            | ManageHubError::SubscriptionInactive
            | ManageHubError::SubscriptionRenewalFailed => ErrorCategory::Subscription,
            ManageHubError::InvalidPaymentAmount
            | ManageHubError::InvalidPaymentToken
            | ManageHubError::InsufficientBalance
            | ManageHubError::PaymentTransactionFailed
            | ManageHubError::UsdcContractNotSet => ErrorCategory::Payment,
            ManageHubError::TokenNotFound
            | ManageHubError::TokenAlreadyIssued
            | ManageHubError::TokenExpired
            | ManageHubError::InvalidExpiryDate
            | ManageHubError::TokenMetadataValidationFailed
            | ManageHubError::MetadataNotFound => ErrorCategory::Token,
            ManageHubError::AttendanceLogFailed
            | ManageHubError::InvalidEventDetails
            | ManageHubError::AttendanceValidationFailed => ErrorCategory::Attendance,
            ManageHubError::TierNotFound
            | ManageHubError::TierAlreadyExists
            | ManageHubError::TierNotActive
            | ManageHubError::FeatureNotAvailable => ErrorCategory::Tier,
            ManageHubError::AccessControlValidationFailed
            | ManageHubError::RoleNotFound
            | ManageHubError::PermissionDenied
            | ManageHubError::RoleHierarchyViolation => ErrorCategory::AccessControl,
            ManageHubError::InputValidationFailed
            | ManageHubError::InvalidStringFormat
            | ManageHubError::TimestampOverflow
            | ManageHubError::InvalidAddressFormat => ErrorCategory::Validation,
            ManageHubError::StorageOperationFailed
            | ManageHubError::DataNotFound
            | ManageHubError::NetworkCommunicationFailed
            | ManageHubError::ExternalServiceUnavailable
            | ManageHubError::BusinessRuleViolation
            | ManageHubError::OperationNotPermittedInCurrentState
            | ManageHubError::ConfigurationError
            | ManageHubError::OperationFailed
            | ManageHubError::TemporaryServiceUnavailable => ErrorCategory::Storage,
        }
    }

    /// Returns whether this error is recoverable (can be retried or handled
    /// gracefully): everything short of the critical errors.
    pub fn is_recoverable(&self) -> (r: bool)
        ensures
            r == !self.critical_spec(),
    {
        !matches!(
            self,
            ManageHubError::ContractInitializationFailed
                | ManageHubError::StorageCorruption
                | ManageHubError::SystemMaintenanceMode
        )
    }

    /// Returns whether this error requires immediate admin attention.
    pub fn is_critical(&self) -> (r: bool)
        ensures
            r == self.critical_spec(),
    {
        matches!(
            self,
            ManageHubError::ContractInitializationFailed
                | ManageHubError::StorageCorruption
                | ManageHubError::SystemMaintenanceMode
        )
    }

    /// Returns the error category for logging and monitoring.
    pub fn category(&self) -> (r: ErrorCategory)
        ensures
            r == self.category_spec(),
    {
        match self {
            ManageHubError::ContractInitializationFailed
            | ManageHubError::StorageCorruption
            | ManageHubError::SystemMaintenanceMode => ErrorCategory::Critical,
            ManageHubError::AuthenticationRequired
            | ManageHubError::InsufficientPermissions
            | ManageHubError::AdminPrivilegesRequired
            | ManageHubError::AccountLocked
            | ManageHubError::SessionExpired => ErrorCategory::Authentication,
            ManageHubError::SubscriptionNotFound
            | ManageHubError::SubscriptionAlreadyExists
            | ManageHubError::SubscriptionExpired
            | ManageHubError::SubscriptionInactive
            | ManageHubError::SubscriptionRenewalFailed => ErrorCategory::Subscription,
            ManageHubError::InvalidPaymentAmount
            | ManageHubError::InvalidPaymentToken
            | ManageHubError::InsufficientBalance
            | ManageHubError::PaymentTransactionFailed
            | ManageHubError::UsdcContractNotSet => ErrorCategory::Payment,
            ManageHubError::TokenNotFound
            | ManageHubError::TokenAlreadyIssued
            | ManageHubError::TokenExpired
            | ManageHubError::InvalidExpiryDate
            | ManageHubError::TokenMetadataValidationFailed
            | ManageHubError::MetadataNotFound => ErrorCategory::Token,
            ManageHubError::AttendanceLogFailed
            | ManageHubError::InvalidEventDetails
            | ManageHubError::AttendanceValidationFailed => ErrorCategory::Attendance,
            ManageHubError::TierNotFound
            | ManageHubError::TierAlreadyExists
            | ManageHubError::TierNotActive
            | ManageHubError::FeatureNotAvailable => ErrorCategory::Tier,
            ManageHubError::AccessControlValidationFailed
            | ManageHubError::RoleNotFound
            | ManageHubError::PermissionDenied
            | ManageHubError::RoleHierarchyViolation => ErrorCategory::AccessControl,
            ManageHubError::InputValidationFailed
            | ManageHubError::InvalidStringFormat
            | ManageHubError::TimestampOverflow
            | ManageHubError::InvalidAddressFormat => ErrorCategory::Validation,
            ManageHubError::StorageOperationFailed
            | ManageHubError::DataNotFound
            | ManageHubError::NetworkCommunicationFailed
            | ManageHubError::ExternalServiceUnavailable
            | ManageHubError::BusinessRuleViolation
            | ManageHubError::OperationNotPermittedInCurrentState
            | ManageHubError::ConfigurationError
            | ManageHubError::OperationFailed
            | ManageHubError::TemporaryServiceUnavailable => ErrorCategory::Storage,
        }
    }
}

/// The critical errors are exactly those of the `Critical` category, and
/// exactly those that are not recoverable.
pub proof fn lemma_critical_category(e: ManageHubError)
    ensures
        e.critical_spec() <==> e.category_spec() == ErrorCategory::Critical,
{
}

} // verus!
