//! Mathematical model of the governance state and its transitions.
//!
//! Every public operation of the engine is specified by a *step* function
//! here: a spec-level map from the pre-state and the operation's inputs to
//! the pair of (result, post-state).  An error result always leaves the model
//! unchanged — operations are atomic.

use vstd::prelude::*;
use crate::types::{Address, UserRole};
use crate::errors::AccessControlError;

verus! {

/// Membership gating configuration.
///
/// `membership_token_contract` names the external balance service (by the
/// host's address token); `require_membership_for_roles` switches gating
/// on; `min_token_balance` is the balance a principal must hold.
#[derive(Clone, Copy, Debug, PartialEq, Eq)]
pub struct AccessControlConfig {
    pub membership_token_contract: Option<Address>,
    pub require_membership_for_roles: bool,
    pub min_token_balance: i128,
}

/// The outcome of querying the external membership-balance service for a
/// principal.  The host performs the query and hands the engine the result.
#[derive(Clone, Copy, Debug, PartialEq, Eq)]
pub enum BalanceQuery {
    /// The cross-contract call failed (transport or remote error).
    Failed,
    /// The call returned this balance.
    Balance(i128),
}

/// A governance action a proposal can carry.  `AddAdmin`, `RemoveAdmin` and
/// `TransferAdmin` are part of the vocabulary but have no execution branch:
/// executing them fails.
#[derive(Clone, Copy, Debug, PartialEq, Eq)]
pub enum ProposalAction {
    SetRole(Address, UserRole),
    UpdateConfig(AccessControlConfig),
    AddAdmin(Address),
    RemoveAdmin(Address),
    Pause,
    Unpause,
    TransferAdmin(Address),
}

/// A pending two-step admin transfer.
#[derive(Clone, Copy, Debug, PartialEq, Eq)]
pub struct PendingAdminTransfer {
    pub proposed_admin: Address,
    pub proposer: Address,
    pub expiry: u64,
}

/// Model of the multi-signature configuration.
#[verifier::ext_equal]
pub ghost struct MultiSigModel {
    pub admins: Seq<Address>,
    pub required_signatures: u32,
}

/// Model of a governance proposal.
#[verifier::ext_equal]
pub ghost struct ProposalModel {
    pub id: u64,
    pub proposer: Address,
    pub action: ProposalAction,
    pub approvals: Seq<Address>,
    pub executed: bool,
    pub expiry: u64,
}

/// Model of the whole governance state.
#[verifier::ext_equal]
pub ghost struct GovModel {
    /// Sole administrator; present only in single-admin mode.
    pub admin: Option<Address>,
    /// Stored role assignments; absent means `Guest`.
    pub roles: Map<Address, UserRole>,
    /// Membership gating configuration.
    pub config: AccessControlConfig,
    /// Whether one of the two initializers has run.
    pub initialized: bool,
    /// Global kill switch.
    pub paused: bool,
    /// Principals barred from access and role assignment.
    pub blacklist: Set<Address>,
    /// Per-principal count of access checks that passed the blacklist gate.
    pub attempts: Map<Address, u32>,
    /// Multi-signature configuration; presence means multisig mode.
    pub multisig: Option<MultiSigModel>,
    /// Governance proposals by identifier.
    pub proposals: Map<u64, ProposalModel>,
    /// Source of fresh proposal identifiers.
    pub proposal_counter: u64,
    /// Pending two-step admin transfer, if any.
    pub pending_transfer: Option<PendingAdminTransfer>,
}

/// Seconds in the fixed 24-hour validity window of proposals and transfers.
pub const VALIDITY_WINDOW: u64 = 86400;

/// Configuration in force when none was supplied: gating disabled.
pub open spec fn default_config() -> AccessControlConfig {
    AccessControlConfig {
        membership_token_contract: None,
        require_membership_for_roles: false,
        min_token_balance: 0,
    }
}

pub open spec fn config_or_default(c: Option<AccessControlConfig>) -> AccessControlConfig {
    match c {
        Some(c) => c,
        None => default_config(),
    }
}

impl Default for AccessControlConfig {
    /// Membership gating disabled.
    fn default() -> (r: Self)
        ensures
            r == default_config(),
    {
        AccessControlConfig {
            membership_token_contract: None,
            require_membership_for_roles: false,
            min_token_balance: 0,
        }
    }
}

/// The model of a freshly deployed instance: nothing stored.
pub open spec fn empty_model() -> GovModel {
    GovModel {
        admin: None,
        roles: Map::empty(),
        config: default_config(),
        initialized: false,
        paused: false,
        blacklist: Set::empty(),
        attempts: Map::empty(),
        multisig: None,
        proposals: Map::empty(),
        proposal_counter: 0,
        pending_transfer: None,
    }
}

/// The role on record for `user`; `Guest` when none is stored.
pub open spec fn role_of(m: GovModel, user: Address) -> UserRole {
    if m.roles.contains_key(user) {
        m.roles[user]
    } else {
        UserRole::Guest
    }
}

/// Whether multi-signature governance is active.
pub open spec fn is_multisig(m: GovModel) -> bool {
    m.multisig is Some
}

/// The single authorization rule: in multisig mode, membership of the
/// multisig set is authoritative; otherwise the stored Admin role is.
pub open spec fn is_authorized(m: GovModel, caller: Address) -> bool {
    match m.multisig {
        Some(ms) => ms.admins.contains(caller),
        None => role_of(m, caller) == UserRole::Admin,
    }
}

/// Number of access attempts recorded for `user`.
pub open spec fn attempt_count(m: GovModel, user: Address) -> u32 {
    if m.attempts.contains_key(user) {
        m.attempts[user]
    } else {
        0
    }
}

/// Roles whose grant or exercise is subject to the membership gate.
pub open spec fn needs_membership(role: UserRole) -> bool {
    role == UserRole::Member || role == UserRole::Admin
}

/// The balance test shared by both gate variants, given the outcome of the
/// external query.
pub open spec fn balance_gate(config: AccessControlConfig, q: BalanceQuery) -> Option<
    AccessControlError,
> {
    match q {
        BalanceQuery::Failed => Some(AccessControlError::MembershipTokenCallFailed),
        BalanceQuery::Balance(b) => if b < config.min_token_balance {
            Some(AccessControlError::InsufficientMembership)
        } else {
            None
        },
    }
}

/// Membership gate on the role-assignment path: an unconfigured membership
/// contract is an error.
pub open spec fn strict_gate(config: AccessControlConfig, role: UserRole, q: BalanceQuery) -> Option<
    AccessControlError,
> {
    if config.require_membership_for_roles && needs_membership(role) {
        match config.membership_token_contract {
            None => Some(AccessControlError::MembershipTokenNotSet),
            Some(_) => balance_gate(config, q),
        }
    } else {
        None
    }
}

/// Membership gate on the access-evaluation path: an unconfigured membership
/// contract passes.
pub open spec fn lenient_gate(config: AccessControlConfig, role: UserRole, q: BalanceQuery) -> Option<
    AccessControlError,
> {
    if config.require_membership_for_roles && needs_membership(role) {
        match config.membership_token_contract {
            None => None,
            Some(_) => balance_gate(config, q),
        }
    } else {
        None
    }
}

/// Role map after granting `Admin` to every address in `admins`, in order.
pub open spec fn grant_admins(roles: Map<Address, UserRole>, admins: Seq<Address>) -> Map<
    Address,
    UserRole,
>
    decreases admins.len(),
{
    if admins.len() == 0 {
        roles
    } else {
        grant_admins(roles, admins.drop_last()).insert(admins.last(), UserRole::Admin)
    }
}

/// Single-admin initialization.
pub open spec fn initialize_step(
    m: GovModel,
    admin: Address,
    config: Option<AccessControlConfig>,
) -> (Result<(), AccessControlError>, GovModel) {
    if m.initialized {
        (Err(AccessControlError::ConfigurationError), m)
    } else {
        (
            Ok(()),
            GovModel {
                admin: Some(admin),
                roles: m.roles.insert(admin, UserRole::Admin),
                config: config_or_default(config),
                initialized: true,
                paused: false,
                proposal_counter: 0,
                ..m
            },
        )
    }
}

/// Multi-signature initialization.
pub open spec fn initialize_multisig_step(
    m: GovModel,
    admins: Seq<Address>,
    required_signatures: u32,
    config: Option<AccessControlConfig>,
) -> (Result<(), AccessControlError>, GovModel) {
    if m.initialized {
        (Err(AccessControlError::ConfigurationError), m)
    } else if admins.len() == 0 || required_signatures == 0 || required_signatures as int
        > admins.len() as int {
        (Err(AccessControlError::InvalidAddress), m)
    } else {
        (
            Ok(()),
            GovModel {
                multisig: Some(MultiSigModel { admins, required_signatures }),
                roles: grant_admins(m.roles, admins),
                config: config_or_default(config),
                initialized: true,
                paused: false,
                proposal_counter: 0,
                ..m
            },
        )
    }
}

/// Direct role assignment.
pub open spec fn set_role_step(
    m: GovModel,
    caller: Address,
    user: Address,
    role: UserRole,
    q: BalanceQuery,
) -> (Result<(), AccessControlError>, GovModel) {
    if !m.initialized {
        (Err(AccessControlError::NotInitialized), m)
    } else if m.paused {
        (Err(AccessControlError::ContractPaused), m)
    } else if m.blacklist.contains(user) {
        (Err(AccessControlError::Unauthorized), m)
    } else if !is_authorized(m, caller) {
        (Err(AccessControlError::AdminRequired), m)
    } else {
        match strict_gate(m.config, role, q) {
            Some(e) => (Err(e), m),
            None => (Ok(()), GovModel { roles: m.roles.insert(user, role), ..m }),
        }
    }
}

/// Model with the attempt counter for `user` advanced by one.
pub open spec fn bump_attempt(m: GovModel, user: Address) -> GovModel {
    GovModel { attempts: m.attempts.insert(user, (attempt_count(m, user) + 1) as u32), ..m }
}

/// Access evaluation.  Blacklisted principals are denied before the counter;
/// everyone else has the attempt recorded, success or failure; membership
/// gate failures are downgraded to a plain denial.
pub open spec fn check_access_step(
    m: GovModel,
    user: Address,
    required: UserRole,
    q: BalanceQuery,
) -> (Result<bool, AccessControlError>, GovModel) {
    if !m.initialized {
        (Err(AccessControlError::NotInitialized), m)
    } else if m.paused {
        (Err(AccessControlError::ContractPaused), m)
    } else if m.blacklist.contains(user) {
        (Ok(false), m)
    } else {
        let granted = role_of(m, user).covers(required) && lenient_gate(m.config, required, q)
            is None;
        (Ok(granted), bump_attempt(m, user))
    }
}

/// Access evaluation that fails loudly: a denial is an error, and as an
/// error it leaves no trace — the attempt counter is not advanced.
pub open spec fn require_access_step(
    m: GovModel,
    user: Address,
    required: UserRole,
    q: BalanceQuery,
) -> (Result<(), AccessControlError>, GovModel) {
    let c = check_access_step(m, user, required, q);
    match c.0 {
        Err(e) => (Err(e), m),
        Ok(granted) => if granted {
            (Ok(()), c.1)
        } else {
            (Err(AccessControlError::InsufficientRole), m)
        },
    }
}

/// Configuration update; refused outright in multisig mode.
pub open spec fn update_config_step(
    m: GovModel,
    caller: Address,
    config: AccessControlConfig,
) -> (Result<(), AccessControlError>, GovModel) {
    if is_multisig(m) {
        (Err(AccessControlError::AdminRequired), m)
    } else if !is_authorized(m, caller) {
        (Err(AccessControlError::AdminRequired), m)
    } else {
        (Ok(()), GovModel { config, ..m })
    }
}

/// Pause; refused outright in multisig mode (use a proposal there).
pub open spec fn pause_step(m: GovModel, caller: Address) -> (
    Result<(), AccessControlError>,
    GovModel,
) {
    if is_multisig(m) {
        (Err(AccessControlError::AdminRequired), m)
    } else if !is_authorized(m, caller) {
        (Err(AccessControlError::AdminRequired), m)
    } else {
        (Ok(()), GovModel { paused: true, ..m })
    }
}

/// Unpause; refused outright in multisig mode (use a proposal there).
pub open spec fn unpause_step(m: GovModel, caller: Address) -> (
    Result<(), AccessControlError>,
    GovModel,
) {
    if is_multisig(m) {
        (Err(AccessControlError::AdminRequired), m)
    } else if !is_authorized(m, caller) {
        (Err(AccessControlError::AdminRequired), m)
    } else {
        (Ok(()), GovModel { paused: false, ..m })
    }
}

/// Propose a time-locked admin transfer (single-admin mode only).
pub open spec fn propose_admin_transfer_step(
    m: GovModel,
    current_admin: Address,
    new_admin: Address,
    now: u64,
) -> (Result<(), AccessControlError>, GovModel) {
    if !is_authorized(m, current_admin) {
        (Err(AccessControlError::AdminRequired), m)
    } else if current_admin == new_admin {
        (Err(AccessControlError::InvalidAddress), m)
    } else if is_multisig(m) {
        (Err(AccessControlError::InvalidAddress), m)
    } else {
        (
            Ok(()),
            GovModel {
                pending_transfer: Some(
                    PendingAdminTransfer {
                        proposed_admin: new_admin,
                        proposer: current_admin,
                        expiry: (now + VALIDITY_WINDOW) as u64,
                    },
                ),
                ..m
            },
        )
    }
}

/// Accept a pending admin transfer: swaps the governing admin, promotes the
/// new admin's role, demotes the displaced admin's role to `Guest`.
pub open spec fn accept_admin_transfer_step(m: GovModel, new_admin: Address, now: u64) -> (
    Result<(), AccessControlError>,
    GovModel,
) {
    match m.pending_transfer {
        None => (Err(AccessControlError::InvalidAddress), m),
        Some(pt) => if pt.proposed_admin != new_admin {
            (Err(AccessControlError::Unauthorized), m)
        } else if now > pt.expiry {
            (Err(AccessControlError::InvalidAddress), m)
        } else {
            match m.admin {
                None => (Err(AccessControlError::AdminRequired), m),
                Some(old_admin) => (
                    Ok(()),
                    GovModel {
                        admin: Some(new_admin),
                        roles: m.roles.insert(new_admin, UserRole::Admin).insert(
                            old_admin,
                            UserRole::Guest,
                        ),
                        pending_transfer: None,
                        ..m
                    },
                ),
            }
        },
    }
}

/// Cancel a pending admin transfer; only its proposer may.
pub open spec fn cancel_admin_transfer_step(m: GovModel, current_admin: Address) -> (
    Result<(), AccessControlError>,
    GovModel,
) {
    if !is_authorized(m, current_admin) {
        (Err(AccessControlError::AdminRequired), m)
    } else {
        match m.pending_transfer {
            None => (Err(AccessControlError::InvalidAddress), m),
            Some(pt) => if pt.proposer != current_admin {
                (Err(AccessControlError::Unauthorized), m)
            } else {
                (Ok(()), GovModel { pending_transfer: None, ..m })
            },
        }
    }
}

/// Role removal (reset to `Guest`).  The governing admin cannot be demoted,
/// and a caller cannot remove their own Admin role.
pub open spec fn remove_role_step(m: GovModel, caller: Address, user: Address) -> (
    Result<(), AccessControlError>,
    GovModel,
) {
    if !is_authorized(m, caller) {
        (Err(AccessControlError::AdminRequired), m)
    } else if m.admin == Some(user) {
        (Err(AccessControlError::RoleHierarchyViolation), m)
    } else if caller == user && role_of(m, user) == UserRole::Admin {
        (Err(AccessControlError::RoleHierarchyViolation), m)
    } else {
        (Ok(()), GovModel { roles: m.roles.insert(user, UserRole::Guest), ..m })
    }
}

/// Add a principal to the blacklist.
pub open spec fn blacklist_step(m: GovModel, caller: Address, user: Address) -> (
    Result<(), AccessControlError>,
    GovModel,
) {
    if !is_authorized(m, caller) {
        (Err(AccessControlError::AdminRequired), m)
    } else {
        (Ok(()), GovModel { blacklist: m.blacklist.insert(user), ..m })
    }
}

/// Remove a principal from the blacklist.
pub open spec fn unblacklist_step(m: GovModel, caller: Address, user: Address) -> (
    Result<(), AccessControlError>,
    GovModel,
) {
    if !is_authorized(m, caller) {
        (Err(AccessControlError::AdminRequired), m)
    } else {
        (Ok(()), GovModel { blacklist: m.blacklist.remove(user), ..m })
    }
}

/// Effect of a proposal's action on the model, or the error it raises.
/// `SetRole` re-runs the strict membership gate; the three unimplemented
/// vocabulary entries fail.
pub open spec fn apply_action(m: GovModel, action: ProposalAction, q: BalanceQuery) -> Result<
    GovModel,
    AccessControlError,
> {
    match action {
        ProposalAction::SetRole(user, role) => match strict_gate(m.config, role, q) {
            Some(e) => Err(e),
            None => Ok(GovModel { roles: m.roles.insert(user, role), ..m }),
        },
        ProposalAction::UpdateConfig(config) => Ok(GovModel { config, ..m }),
        ProposalAction::Pause => Ok(GovModel { paused: true, ..m }),
        ProposalAction::Unpause => Ok(GovModel { paused: false, ..m }),
        ProposalAction::AddAdmin(_) => Err(AccessControlError::InvalidAddress),
        ProposalAction::RemoveAdmin(_) => Err(AccessControlError::InvalidAddress),
        ProposalAction::TransferAdmin(_) => Err(AccessControlError::InvalidAddress),
    }
}

/// Whether the multisig threshold blocks execution of `p` under `m`.
/// Without a multisig configuration nothing blocks: any caller may execute.
pub open spec fn threshold_unmet(m: GovModel, p: ProposalModel) -> bool {
    match m.multisig {
        Some(ms) => (p.approvals.len() as int) < ms.required_signatures as int,
        None => false,
    }
}

/// Execute a proposal.  Expiry is deliberately not checked here — only
/// approval checks it — and no caller authorization is required beyond the
/// threshold test.
pub open spec fn execute_proposal_step(m: GovModel, id: u64, q: BalanceQuery) -> (
    Result<(), AccessControlError>,
    GovModel,
) {
    if !m.proposals.contains_key(id) {
        (Err(AccessControlError::InvalidAddress), m)
    } else {
        let p = m.proposals[id];
        if p.executed {
            (Err(AccessControlError::InvalidAddress), m)
        } else if threshold_unmet(m, p) {
            (Err(AccessControlError::AdminRequired), m)
        } else {
            match apply_action(m, p.action, q) {
                Err(e) => (Err(e), m),
                Ok(m2) => (
                    Ok(()),
                    GovModel {
                        proposals: m2.proposals.insert(id, ProposalModel { executed: true, ..p }),
                        ..m2
                    },
                ),
            }
        }
    }
}

/// Create a proposal: allocates the next identifier, seeds the approval set
/// with the proposer, and — when the seed already meets the multisig
/// threshold — executes immediately within the same step.
pub open spec fn create_proposal_step(
    m: GovModel,
    proposer: Address,
    action: ProposalAction,
    now: u64,
    q: BalanceQuery,
) -> (Result<u64, AccessControlError>, GovModel) {
    if !is_authorized(m, proposer) {
        (Err(AccessControlError::AdminRequired), m)
    } else {
        let id = m.proposal_counter;
        let p = ProposalModel {
            id,
            proposer,
            action,
            approvals: seq![proposer],
            executed: false,
            expiry: (now + VALIDITY_WINDOW) as u64,
        };
        let m1 = GovModel {
            proposals: m.proposals.insert(id, p),
            proposal_counter: (id + 1) as u64,
            ..m
        };
        let auto = match m.multisig {
            Some(ms) => 1 >= ms.required_signatures as int,
            None => false,
        };
        if auto {
            let e = execute_proposal_step(m1, id, q);
            match e.0 {
                Ok(_) => (Ok(id), e.1),
                Err(err) => (Err(err), m),
            }
        } else {
            (Ok(id), m1)
        }
    }
}

/// Approve a proposal: appends a fresh approval and — when the threshold is
/// now met — executes immediately within the same step.
pub open spec fn approve_proposal_step(
    m: GovModel,
    approver: Address,
    id: u64,
    now: u64,
    q: BalanceQuery,
) -> (Result<(), AccessControlError>, GovModel) {
    if !is_authorized(m, approver) {
        (Err(AccessControlError::AdminRequired), m)
    } else if !m.proposals.contains_key(id) {
        (Err(AccessControlError::InvalidAddress), m)
    } else {
        let p = m.proposals[id];
        if p.executed {
            (Err(AccessControlError::InvalidAddress), m)
        } else if now > p.expiry {
            (Err(AccessControlError::InvalidAddress), m)
        } else if p.approvals.contains(approver) {
            (Err(AccessControlError::InvalidAddress), m)
        } else {
            let p2 = ProposalModel { approvals: p.approvals.push(approver), ..p };
            let m1 = GovModel { proposals: m.proposals.insert(id, p2), ..m };
            let auto = match m.multisig {
                Some(ms) => p2.approvals.len() as int >= ms.required_signatures as int,
                None => false,
            };
            if auto {
                let e = execute_proposal_step(m1, id, q);
                match e.0 {
                    Ok(_) => (Ok(()), e.1),
                    Err(err) => (Err(err), m),
                }
            } else {
                (Ok(()), m1)
            }
        }
    }
}

/// Access evaluation keyed by a role name: "Admin" and "Member" select those
/// roles, anything else selects `Guest`; an engine error is reported as a
/// plain denial and leaves the model unchanged.
pub open spec fn check_access_legacy_step(
    m: GovModel,
    caller: Address,
    required_role: Seq<char>,
    q: BalanceQuery,
) -> (bool, GovModel) {
    let role = if required_role == "Admin"@ {
        UserRole::Admin
    } else if required_role == "Member"@ {
        UserRole::Member
    } else {
        UserRole::Guest
    };
    let c = check_access_step(m, caller, role, q);
    match c.0 {
        Ok(granted) => (granted, c.1),
        Err(_) => (false, m),
    }
}

/// A sequence without repeated elements.
pub open spec fn no_duplicates(s: Seq<Address>) -> bool {
    forall|i: int, j: int| 0 <= i < j < s.len() ==> s[i] != s[j]
}

/// Structural well-formedness of a governance state.  Freshly deployed
/// instances satisfy it and every operation preserves it (see
/// `crate::laws`): the multisig configuration, once present, is valid and
/// excludes single-admin machinery; before initialization no administrative
/// authority and no governance data exist; and every proposal is keyed by
/// its own identifier, approved by distinct principals, and carries its
/// proposer's approval.
pub open spec fn wf(m: GovModel) -> bool {
    &&& match m.multisig {
        Some(ms) => {
            &&& 1 <= ms.required_signatures as int <= ms.admins.len()
            &&& m.admin is None
            &&& m.pending_transfer is None
            &&& m.initialized
        },
        None => true,
    }
    &&& !m.initialized ==> {
        &&& m.admin is None
        &&& m.pending_transfer is None
        &&& (forall|a: Address| m.roles.contains_key(a) ==> #[trigger] m.roles[a]
            != UserRole::Admin)
        &&& forall|id: u64| !m.proposals.contains_key(id)
    }
    &&& forall|id: u64|
        m.proposals.contains_key(id) ==> {
            let p = #[trigger] m.proposals[id];
            &&& p.id == id
            &&& no_duplicates(p.approvals)
            &&& p.approvals.contains(p.proposer)
        }
}

} // verus!
