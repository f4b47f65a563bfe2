use access_control::common_types::{
    AttendanceAction, ErrorCategory, ManageHubError, MembershipStatus, SubscriptionPlan, UserRole,
};

#[test]
fn test_subscription_plan_variants() {
    let daily = SubscriptionPlan::Daily;
    let monthly = SubscriptionPlan::Monthly;
    let pay_per_use = SubscriptionPlan::PayPerUse;

    assert_eq!(daily, SubscriptionPlan::Daily);
    assert_eq!(monthly, SubscriptionPlan::Monthly);
    assert_eq!(pay_per_use, SubscriptionPlan::PayPerUse);
}

#[test]
fn test_attendance_action_variants() {
    let clock_in = AttendanceAction::ClockIn;
    let clock_out = AttendanceAction::ClockOut;

    assert_eq!(clock_in, AttendanceAction::ClockIn);
    assert_eq!(clock_out, AttendanceAction::ClockOut);
}

#[test]
fn test_user_role_variants() {
    let member = UserRole::Member;
    let staff = UserRole::Staff;
    let admin = UserRole::Admin;
    let visitor = UserRole::Visitor;

    assert_eq!(member, UserRole::Member);
    assert_eq!(staff, UserRole::Staff);
    assert_eq!(admin, UserRole::Admin);
    assert_eq!(visitor, UserRole::Visitor);
}

#[test]
fn test_membership_status_variants() {
    let active = MembershipStatus::Active;
    let expired = MembershipStatus::Expired;
    let revoked = MembershipStatus::Revoked;
    let inactive = MembershipStatus::Inactive;

    assert_eq!(active, MembershipStatus::Active);
    assert_eq!(expired, MembershipStatus::Expired);
    assert_eq!(revoked, MembershipStatus::Revoked);
    assert_eq!(inactive, MembershipStatus::Inactive);
}

#[test]
fn test_clone_derive() {
    let plan = SubscriptionPlan::Monthly;
    let cloned = plan.clone();
    assert_eq!(plan, cloned);
}

#[test]
fn manage_hub_error_classification() {
    assert!(ManageHubError::StorageCorruption.is_critical());
    assert!(!ManageHubError::StorageCorruption.is_recoverable());
    assert!(ManageHubError::SubscriptionNotFound.is_recoverable());
    assert!(!ManageHubError::SubscriptionNotFound.is_critical());

    assert_eq!(ManageHubError::ContractInitializationFailed.category(), ErrorCategory::Critical);
    assert_eq!(ManageHubError::SessionExpired.category(), ErrorCategory::Authentication);
    assert_eq!(ManageHubError::SubscriptionExpired.category(), ErrorCategory::Subscription);
    assert_eq!(ManageHubError::InvalidPaymentAmount.category(), ErrorCategory::Payment);
    assert_eq!(ManageHubError::TokenNotFound.category(), ErrorCategory::Token);
    assert_eq!(ManageHubError::AttendanceLogFailed.category(), ErrorCategory::Attendance);
    assert_eq!(ManageHubError::TierNotActive.category(), ErrorCategory::Tier);
    assert_eq!(ManageHubError::PermissionDenied.category(), ErrorCategory::AccessControl);
    assert_eq!(ManageHubError::TimestampOverflow.category(), ErrorCategory::Validation);
    assert_eq!(ManageHubError::DataNotFound.category(), ErrorCategory::Storage);
}
