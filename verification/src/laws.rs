//! The laws of the governance engine, proved over the model of
//! [`crate::model`].
//!
//! Each public operation of [`crate::engine::AccessControlModule`] is
//! specified exactly by its step function, so everything proved here about a
//! step holds of the corresponding operation.

use vstd::prelude::*;
use crate::types::{Address, UserRole, role_rank};
use crate::errors::AccessControlError;
use crate::model::{
    AccessControlConfig, BalanceQuery, GovModel, ProposalAction, no_duplicates, wf, empty_model,
    role_of, is_authorized, is_multisig, attempt_count, initialize_step, initialize_multisig_step,
    set_role_step, check_access_step, require_access_step, update_config_step, pause_step,
    unpause_step, propose_admin_transfer_step, accept_admin_transfer_step,
    cancel_admin_transfer_step, remove_role_step, blacklist_step, unblacklist_step, apply_action,
    execute_proposal_step, create_proposal_step, approve_proposal_step,
};

verus! {

/// Role ordering: `Admin` covers every role, coverage is reflexive, and
/// `Guest` does not cover `Member`.
pub proof fn lemma_role_ordering()
    ensures
        forall|r: UserRole| UserRole::Admin.covers(r),
        forall|r: UserRole| #[trigger] r.covers(r),
        !UserRole::Guest.covers(UserRole::Member),
{
    assert(forall|r: UserRole| role_rank(r) <= 2);
}

/// Coverage is total and transitive: of any two roles one covers the other,
/// and coverage carries over intermediate roles.
pub proof fn lemma_role_order_total(a: UserRole, b: UserRole, c: UserRole)
    ensures
        a.covers(b) || b.covers(a),
        a.covers(b) && b.covers(c) ==> a.covers(c),
{
}

/// Idempotent initialization guard: on an initialized state both
/// initializers fail with `ConfigurationError` and change nothing, and both
/// initializers leave the state initialized when they succeed.  Hence the
/// second of any two initializations always fails.
pub proof fn lemma_idempotent_init_guard(
    m: GovModel,
    admin: Address,
    config: Option<AccessControlConfig>,
    admins: Seq<Address>,
    required_signatures: u32,
    ms_config: Option<AccessControlConfig>,
)
    ensures
        m.initialized ==> initialize_step(m, admin, config) == (
            Result::<(), AccessControlError>::Err(AccessControlError::ConfigurationError),
            m,
        ),
        m.initialized ==> initialize_multisig_step(m, admins, required_signatures, ms_config) == (
            Result::<(), AccessControlError>::Err(AccessControlError::ConfigurationError),
            m,
        ),
        initialize_step(m, admin, config).0 is Ok ==> initialize_step(m, admin, config).1.initialized,
        initialize_multisig_step(m, admins, required_signatures, ms_config).0 is Ok
            ==> initialize_multisig_step(m, admins, required_signatures, ms_config).1.initialized,
{
}

/// Mode exclusivity: a successful multisig initialization switches multisig
/// mode on, after which configuration update, pause and unpause fail with
/// `AdminRequired`, and an admin-transfer proposal by a listed multisig
/// admin naming another principal fails with `InvalidAddress` — multisig
/// governance admits none of the single-admin operations.
pub proof fn lemma_mode_exclusivity(
    m: GovModel,
    admins: Seq<Address>,
    required_signatures: u32,
    config: Option<AccessControlConfig>,
    caller: Address,
    new_admin: Address,
    new_config: AccessControlConfig,
    now: u64,
)
    requires
        initialize_multisig_step(m, admins, required_signatures, config).0 is Ok,
    ensures
        ({
            let m1 = initialize_multisig_step(m, admins, required_signatures, config).1;
            &&& is_multisig(m1)
            &&& update_config_step(m1, caller, new_config) == (
                Result::<(), AccessControlError>::Err(AccessControlError::AdminRequired),
                m1,
            )
            &&& pause_step(m1, caller) == (
                Result::<(), AccessControlError>::Err(AccessControlError::AdminRequired),
                m1,
            )
            &&& unpause_step(m1, caller) == (
                Result::<(), AccessControlError>::Err(AccessControlError::AdminRequired),
                m1,
            )
            &&& propose_admin_transfer_step(m1, caller, new_admin, now).0 is Err
            &&& (admins.contains(caller) && caller != new_admin
                ==> propose_admin_transfer_step(m1, caller, new_admin, now) == (
                Result::<(), AccessControlError>::Err(AccessControlError::InvalidAddress),
                m1,
            ))
        }),
{
}

/// Threshold auto-execution: when multisig is active, a successful approval
/// marks the proposal executed exactly when it brings the approval count up
/// to the threshold; a `SetRole` action then takes effect within the same
/// step, and below the threshold no role changes.
pub proof fn lemma_threshold_auto_execution(
    m: GovModel,
    approver: Address,
    id: u64,
    now: u64,
    q: BalanceQuery,
)
    requires
        is_multisig(m),
        approve_proposal_step(m, approver, id, now, q).0 is Ok,
    ensures
        ({
            let s = approve_proposal_step(m, approver, id, now, q);
            let p = m.proposals[id];
            let reached = p.approvals.len() + 1 >= m.multisig->Some_0.required_signatures as int;
            &&& m.proposals.contains_key(id)
            &&& s.1.proposals.contains_key(id)
            &&& s.1.proposals[id].executed == reached
            &&& s.1.proposals[id].approvals == p.approvals.push(approver)
            &&& (reached ==> match p.action {
                ProposalAction::SetRole(user, role) => role_of(s.1, user) == role,
                _ => true,
            })
            &&& (!reached ==> s.1.roles == m.roles)
        }),
{
    let s = approve_proposal_step(m, approver, id, now, q);
    let p = m.proposals[id];
    let reached = p.approvals.len() + 1 >= m.multisig->Some_0.required_signatures as int;
    if reached {
        match p.action {
            ProposalAction::SetRole(user, role) => {
                assert(role_of(s.1, user) == role);
            },
            _ => {},
        }
    }
}

/// The blacklist short-circuits before the attempt counter: an access check
/// on a blacklisted user is denied and leaves the whole state — the counter
/// included — unchanged.
pub proof fn lemma_blacklist_short_circuit(
    m: GovModel,
    user: Address,
    required: UserRole,
    q: BalanceQuery,
)
    requires
        m.initialized,
        !m.paused,
        m.blacklist.contains(user),
    ensures
        check_access_step(m, user, required, q) == (
            Result::<bool, AccessControlError>::Ok(false),
            m,
        ),
{
}

/// An access check on a non-blacklisted user always advances that user's
/// attempt counter by exactly one, whatever the outcome.
pub proof fn lemma_attempt_counter_monotonic(
    m: GovModel,
    user: Address,
    required: UserRole,
    q: BalanceQuery,
)
    requires
        m.initialized,
        !m.paused,
        !m.blacklist.contains(user),
        attempt_count(m, user) < u32::MAX,
    ensures
        attempt_count(check_access_step(m, user, required, q).1, user) == attempt_count(m, user)
            + 1,
{
}

/// Transfer expiry: once its 24-hour window has passed, a pending admin
/// transfer can no longer be accepted, even by the proposed admin — the
/// call fails with `InvalidAddress` and the governing admin is unchanged.
pub proof fn lemma_transfer_expiry(m: GovModel, now: u64)
    requires
        m.pending_transfer is Some,
        now > m.pending_transfer->Some_0.expiry,
    ensures
        accept_admin_transfer_step(m, m.pending_transfer->Some_0.proposed_admin, now) == (
            Result::<(), AccessControlError>::Err(AccessControlError::InvalidAddress),
            m,
        ),
{
}

/// Self-admin-removal guard: an authorized caller holding the Admin role
/// can never remove their own role — the call fails with
/// `RoleHierarchyViolation` and changes nothing.
pub proof fn lemma_self_admin_removal_guard(m: GovModel, caller: Address)
    requires
        is_authorized(m, caller),
        role_of(m, caller) == UserRole::Admin,
    ensures
        remove_role_step(m, caller, caller) == (
            Result::<(), AccessControlError>::Err(AccessControlError::RoleHierarchyViolation),
            m,
        ),
{
}

/// Membership strictness asymmetry: with membership gating demanded but no
/// membership contract configured, assigning `Member` fails with
/// `MembershipTokenNotSet`, while an access check at `Member` for a user
/// already holding a sufficient role passes — there is no contract to fail
/// against.
pub proof fn lemma_membership_strictness_asymmetry(
    m: GovModel,
    caller: Address,
    user: Address,
    q: BalanceQuery,
)
    requires
        m.initialized,
        !m.paused,
        !m.blacklist.contains(user),
        is_authorized(m, caller),
        m.config.require_membership_for_roles,
        m.config.membership_token_contract is None,
        role_of(m, user).covers(UserRole::Member),
    ensures
        set_role_step(m, caller, user, UserRole::Member, q) == (
            Result::<(), AccessControlError>::Err(AccessControlError::MembershipTokenNotSet),
            m,
        ),
        check_access_step(m, user, UserRole::Member, q).0 == Result::<
            bool,
            AccessControlError,
        >::Ok(true),
{
}

/// Appending a fresh element keeps a sequence duplicate-free.
proof fn lemma_push_no_duplicates(s: Seq<Address>, x: Address)
    requires
        no_duplicates(s),
        !s.contains(x),
    ensures
        no_duplicates(s.push(x)),
{
    assert forall|i: int, j: int| 0 <= i < j < s.push(x).len() implies s.push(x)[i] != s.push(x)[j]
    by {
        if j < s.len() {
            assert(s.push(x)[i] == s[i]);
            assert(s.push(x)[j] == s[j]);
        } else {
            assert(s.push(x)[j] == x);
            assert(s.push(x)[i] == s[i]);
            assert(s.contains(s[i]));
        }
    }
}

/// Appending keeps every element a sequence already holds.
proof fn lemma_push_keeps_contains(s: Seq<Address>, x: Address, y: Address)
    requires
        s.contains(y),
    ensures
        s.push(x).contains(y),
{
    let i = choose|i: int| 0 <= i < s.len() && s[i] == y;
    assert(s.push(x)[i] == y);
}

/// Whatever `apply_action` does to the model, it leaves the proposal store,
/// the governance mode, the admin, the pending transfer, the initialization
/// flag and the counter untouched.
proof fn lemma_apply_action_frame(m: GovModel, action: ProposalAction, q: BalanceQuery)
    ensures
        match apply_action(m, action, q) {
            Ok(m2) => {
                &&& m2.proposals == m.proposals
                &&& m2.multisig == m.multisig
                &&& m2.admin == m.admin
                &&& m2.pending_transfer == m.pending_transfer
                &&& m2.initialized == m.initialized
                &&& m2.proposal_counter == m.proposal_counter
            },
            Err(_) => true,
        },
{
}

/// A fresh instance is well-formed.
pub proof fn lemma_empty_model_wf()
    ensures
        wf(empty_model()),
{
}

/// Single-admin initialization preserves well-formedness.
pub proof fn lemma_initialize_preserves_wf(
    m: GovModel,
    admin: Address,
    config: Option<AccessControlConfig>,
)
    requires
        wf(m),
    ensures
        wf(initialize_step(m, admin, config).1),
{
}

/// Multisig initialization preserves well-formedness.
pub proof fn lemma_initialize_multisig_preserves_wf(
    m: GovModel,
    admins: Seq<Address>,
    required_signatures: u32,
    config: Option<AccessControlConfig>,
)
    requires
        wf(m),
    ensures
        wf(initialize_multisig_step(m, admins, required_signatures, config).1),
{
}

/// Role assignment preserves well-formedness.
pub proof fn lemma_set_role_preserves_wf(
    m: GovModel,
    caller: Address,
    user: Address,
    role: UserRole,
    q: BalanceQuery,
)
    requires
        wf(m),
    ensures
        wf(set_role_step(m, caller, user, role, q).1),
{
}

/// Access evaluation preserves well-formedness.
pub proof fn lemma_check_access_preserves_wf(
    m: GovModel,
    user: Address,
    required: UserRole,
    q: BalanceQuery,
)
    requires
        wf(m),
    ensures
        wf(check_access_step(m, user, required, q).1),
        wf(require_access_step(m, user, required, q).1),
{
}

/// Configuration update, pause and unpause preserve well-formedness.
pub proof fn lemma_config_pause_preserve_wf(
    m: GovModel,
    caller: Address,
    config: AccessControlConfig,
)
    requires
        wf(m),
    ensures
        wf(update_config_step(m, caller, config).1),
        wf(pause_step(m, caller).1),
        wf(unpause_step(m, caller).1),
{
}

/// The admin-transfer protocol preserves well-formedness.
pub proof fn lemma_admin_transfer_preserves_wf(
    m: GovModel,
    current_admin: Address,
    new_admin: Address,
    now: u64,
)
    requires
        wf(m),
    ensures
        wf(propose_admin_transfer_step(m, current_admin, new_admin, now).1),
        wf(accept_admin_transfer_step(m, new_admin, now).1),
        wf(cancel_admin_transfer_step(m, current_admin).1),
{
}

/// Role removal and the blacklist operations preserve well-formedness.
pub proof fn lemma_role_blacklist_preserve_wf(m: GovModel, caller: Address, user: Address)
    requires
        wf(m),
    ensures
        wf(remove_role_step(m, caller, user).1),
        wf(blacklist_step(m, caller, user).1),
        wf(unblacklist_step(m, caller, user).1),
{
}

/// Proposal execution preserves well-formedness.
pub proof fn lemma_execute_proposal_preserves_wf(m: GovModel, id: u64, q: BalanceQuery)
    requires
        wf(m),
    ensures
        wf(execute_proposal_step(m, id, q).1),
{
    if m.proposals.contains_key(id) {
        let p = m.proposals[id];
        lemma_apply_action_frame(m, p.action, q);
    }
}

/// Proposal creation preserves well-formedness.
pub proof fn lemma_create_proposal_preserves_wf(
    m: GovModel,
    proposer: Address,
    action: ProposalAction,
    now: u64,
    q: BalanceQuery,
)
    requires
        wf(m),
    ensures
        wf(create_proposal_step(m, proposer, action, now, q).1),
{
    if is_authorized(m, proposer) {
        let id = m.proposal_counter;
        let s = create_proposal_step(m, proposer, action, now, q);
        assert(seq![proposer].contains(proposer)) by {
            assert(seq![proposer][0] == proposer);
        }
        assert(no_duplicates(seq![proposer]));
        let m1 = GovModel {
            proposals: m.proposals.insert(
                id,
                crate::model::ProposalModel {
                    id,
                    proposer,
                    action,
                    approvals: seq![proposer],
                    executed: false,
                    expiry: (now + crate::model::VALIDITY_WINDOW) as u64,
                },
            ),
            proposal_counter: (id + 1) as u64,
            ..m
        };
        assert(wf(m1));
        lemma_execute_proposal_preserves_wf(m1, id, q);
    }
}

/// Proposal approval preserves well-formedness.
pub proof fn lemma_approve_proposal_preserves_wf(
    m: GovModel,
    approver: Address,
    id: u64,
    now: u64,
    q: BalanceQuery,
)
    requires
        wf(m),
    ensures
        wf(approve_proposal_step(m, approver, id, now, q).1),
{
    if is_authorized(m, approver) && m.proposals.contains_key(id) {
        let p = m.proposals[id];
        if !p.executed && now <= p.expiry && !p.approvals.contains(approver) {
            lemma_push_no_duplicates(p.approvals, approver);
            lemma_push_keeps_contains(p.approvals, approver, p.proposer);
            let p2 = crate::model::ProposalModel { approvals: p.approvals.push(approver), ..p };
            let m1 = GovModel { proposals: m.proposals.insert(id, p2), ..m };
            assert(wf(m1));
            lemma_execute_proposal_preserves_wf(m1, id, q);
        }
    }
}

} // verus!
