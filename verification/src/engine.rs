//! The executable governance engine.
//!
//! [`AccessControlModule`] holds the whole governance state.  Each public
//! operation is verified against the corresponding step function of
//! [`crate::model`]: its result and the state after the call are exactly the
//! pair that the step function yields for the state before the call.
//!
//! The host supplies what the engine cannot know by itself: the current time
//! (`now`) for time-locked operations, and the outcome of the external
//! membership-balance query (a [`BalanceQuery`]) for membership-gated ones.

use vstd::prelude::*;
use std::collections::HashMap;
use std::collections::HashSet;
use crate::types::{Address, UserRole};
use crate::errors::{AccessControlError, AccessControlResult};
use crate::model::{
    AccessControlConfig, BalanceQuery, GovModel, MultiSigModel, PendingAdminTransfer,
    ProposalAction, ProposalModel, wf, empty_model, role_of, is_authorized, is_multisig,
    attempt_count, strict_gate, lenient_gate, grant_admins, initialize_step,
    initialize_multisig_step, set_role_step, check_access_step, require_access_step,
    update_config_step, pause_step, unpause_step, propose_admin_transfer_step,
    accept_admin_transfer_step, cancel_admin_transfer_step, remove_role_step, blacklist_step,
    unblacklist_step, apply_action, execute_proposal_step, create_proposal_step,
    approve_proposal_step, check_access_legacy_step, bump_attempt, VALIDITY_WINDOW,
};

verus! {

broadcast use vstd::std_specs::hash::group_hash_axioms;

/// Multi-signature configuration: the governing set and how many distinct
/// approvals a proposal needs.
#[derive(Debug)]
pub struct MultiSigConfig {
    pub admins: Vec<Address>,
    pub required_signatures: u32,
}

impl View for MultiSigConfig {
    type V = MultiSigModel;

    open spec fn view(&self) -> MultiSigModel {
        MultiSigModel { admins: self.admins@, required_signatures: self.required_signatures }
    }
}

/// A governance proposal awaiting approvals.
#[derive(Debug)]
pub struct PendingProposal {
    pub id: u64,
    pub proposer: Address,
    pub action: ProposalAction,
    pub approvals: Vec<Address>,
    pub executed: bool,
    pub expiry: u64,
}

impl View for PendingProposal {
    type V = ProposalModel;

    open spec fn view(&self) -> ProposalModel {
        ProposalModel {
            id: self.id,
            proposer: self.proposer,
            action: self.action,
            approvals: self.approvals@,
            executed: self.executed,
            expiry: self.expiry,
        }
    }
}

/// Membership information derived from an external balance query.
#[derive(Clone, Copy, Debug, PartialEq, Eq)]
pub struct MembershipInfo {
    /// Address of the user
    pub user: Address,
    /// Token balance
    pub balance: i128,
    /// Whether the user holds any balance at all
    pub has_membership: bool,
}

/// The governance state aggregate.  A value of this type stands for one
/// deployed instance; the host persists it and passes it to every operation.
pub struct AccessControlModule {
    admin: Option<Address>,
    roles: HashMap<Address, UserRole>,
    config: AccessControlConfig,
    initialized: bool,
    paused: bool,
    blacklist: HashSet<Address>,
    attempts: HashMap<Address, u32>,
    multisig: Option<MultiSigConfig>,
    proposals: HashMap<u64, PendingProposal>,
    proposal_counter: u64,
    pending_transfer: Option<PendingAdminTransfer>,
}

/// Abstraction of the proposal store: each stored proposal, by identifier.
pub open spec fn proposals_view(m: Map<u64, PendingProposal>) -> Map<u64, ProposalModel> {
    Map::new(|id: u64| m.contains_key(id), |id: u64| m[id]@)
}

/// Abstraction of the optional multisig configuration.
pub open spec fn multisig_view(ms: Option<MultiSigConfig>) -> Option<MultiSigModel> {
    match ms {
        Some(c) => Some(c@),
        None => None,
    }
}

impl View for AccessControlModule {
    type V = GovModel;

    closed spec fn view(&self) -> GovModel {
        GovModel {
            admin: self.admin,
            roles: self.roles@,
            config: self.config,
            initialized: self.initialized,
            paused: self.paused,
            blacklist: self.blacklist@,
            attempts: self.attempts@,
            multisig: multisig_view(self.multisig),
            proposals: proposals_view(self.proposals@),
            proposal_counter: self.proposal_counter,
            pending_transfer: self.pending_transfer,
        }
    }
}

/// Whether `v` holds `x`.
fn vec_contains(v: &Vec<Address>, x: Address) -> (r: bool)
    ensures
        r == v@.contains(x),
{
    let mut i: usize = 0;
    while i < v.len()
        invariant
            i <= v@.len(),
            forall|j: int| 0 <= j < i ==> v@[j] != x,
        decreases v@.len() - i,
    {
        if v[i] == x {
            return true;
        }
        i = i + 1;
    }
    false
}

/// Whether two strings hold the same characters.
fn str_eq(s: &str, t: &str) -> (r: bool)
    ensures
        r == (s@ == t@),
{
    let n = s.unicode_len();
    if n != t.unicode_len() {
        return false;
    }
    let mut i: usize = 0;
    while i < n
        invariant
            i <= n,
            n == s@.len(),
            n == t@.len(),
            forall|j: int| 0 <= j < i ==> s@[j] == t@[j],
        decreases n - i,
    {
        if s.get_char(i) != t.get_char(i) {
            return false;
        }
        i = i + 1;
    }
    proof {
        assert(s@ =~= t@);
    }
    true
}

/// An element-wise copy of `v`.
fn copy_addr_vec(v: &Vec<Address>) -> (r: Vec<Address>)
    ensures
        r@ == v@,
{
    let mut r: Vec<Address> = Vec::new();
    let mut i: usize = 0;
    while i < v.len()
        invariant
            i <= v@.len(),
            r@ == v@.subrange(0, i as int),
        decreases v@.len() - i,
    {
        r.push(v[i]);
        i = i + 1;
    }
    assert(r@ =~= v@);
    r
}

impl AccessControlModule {
    /// A freshly deployed instance: uninitialized, with nothing stored.
    pub fn new() -> (r: Self)
        ensures
            r@ == empty_model(),
            wf(r@),
    {
        let r = AccessControlModule {
            admin: None,
            roles: HashMap::new(),
            config: AccessControlConfig::default(),
            initialized: false,
            paused: false,
            blacklist: HashSet::new(),
            attempts: HashMap::new(),
            multisig: None,
            proposals: HashMap::new(),
            proposal_counter: 0,
            pending_transfer: None,
        };
        proof {
            assert(proposals_view(r.proposals@) =~= Map::<u64, ProposalModel>::empty());
            assert(r@ =~= empty_model());
        }
        r
    }

    /// Check if the system is initialized.
    pub fn is_initialized(&self) -> (r: bool)
        ensures
            r == self@.initialized,
    {
        self.initialized
    }

    /// Check if the contract is paused.
    pub fn is_paused(&self) -> (r: bool)
        ensures
            r == self@.paused,
    {
        self.paused
    }

    /// Get role for a user; `Guest` when none is stored.
    pub fn get_role(&self, user: Address) -> (r: UserRole)
        ensures
            r == role_of(self@, user),
    {
        match self.roles.get(&user) {
            Some(role) => *role,
            None => UserRole::Guest,
        }
    }

    /// Check if user holds the Admin role.
    pub fn is_admin(&self, user: Address) -> (r: bool)
        ensures
            r == (role_of(self@, user) == UserRole::Admin),
    {
        let role = self.get_role(user);
        matches!(role, UserRole::Admin)
    }

    /// Whether the caller holds administrative authority: multisig
    /// membership when multisig is active, the Admin role otherwise.
    fn check_authorized(&self, caller: Address) -> (r: bool)
        ensures
            r == is_authorized(self@, caller),
    {
        match &self.multisig {
            Some(ms) => vec_contains(&ms.admins, caller),
            None => self.is_admin(caller),
        }
    }

    /// The single authorization primitive: errs unless the caller holds
    /// administrative authority under the active governance mode.
    pub fn require_admin(&self, caller: Address) -> (r: AccessControlResult<()>)
        ensures
            r == if is_authorized(self@, caller) {
                Result::<(), AccessControlError>::Ok(())
            } else {
                Result::<(), AccessControlError>::Err(AccessControlError::AdminRequired)
            },
    {
        if self.check_authorized(caller) {
            Ok(())
        } else {
            Err(AccessControlError::AdminRequired)
        }
    }

    /// Get the governing admin, when single-admin mode has one.
    pub fn get_admin(&self) -> (r: Option<Address>)
        ensures
            r == self@.admin,
    {
        self.admin
    }

    /// Get the current configuration.
    pub fn get_config(&self) -> (r: AccessControlConfig)
        ensures
            r == self@.config,
    {
        self.config
    }

    /// Check if a user is blacklisted.
    pub fn is_blacklisted(&self, user: Address) -> (r: bool)
        ensures
            r == self@.blacklist.contains(user),
    {
        self.blacklist.contains(&user)
    }

    /// Whether multi-signature governance is active.
    pub fn is_multisig_enabled(&self) -> (r: bool)
        ensures
            r == is_multisig(self@),
    {
        self.multisig.is_some()
    }

    /// Get the multisig configuration, when multisig mode is active.
    pub fn get_multisig_config(&self) -> (r: Option<MultiSigConfig>)
        ensures
            match r {
                Some(c) => self@.multisig == Some(c@),
                None => self@.multisig is None,
            },
    {
        match &self.multisig {
            Some(ms) => Some(
                MultiSigConfig {
                    admins: copy_addr_vec(&ms.admins),
                    required_signatures: ms.required_signatures,
                },
            ),
            None => None,
        }
    }

    /// The multisig governing set; empty when multisig is inactive.
    pub fn get_multisig_admins(&self) -> (r: Vec<Address>)
        ensures
            match self@.multisig {
                Some(ms) => r@ == ms.admins,
                None => r@ == Seq::<Address>::empty(),
            },
    {
        match &self.multisig {
            Some(ms) => copy_addr_vec(&ms.admins),
            None => {
                let r: Vec<Address> = Vec::new();
                assert(r@ =~= Seq::<Address>::empty());
                r
            },
        }
    }

    /// The multisig approval threshold; zero when multisig is inactive.
    pub fn get_multisig_threshold(&self) -> (r: u32)
        ensures
            match self@.multisig {
                Some(ms) => r == ms.required_signatures,
                None => r == 0,
            },
    {
        match &self.multisig {
            Some(ms) => ms.required_signatures,
            None => 0,
        }
    }

    /// Get the pending admin transfer, if one exists.
    pub fn get_pending_admin_transfer(&self) -> (r: Option<PendingAdminTransfer>)
        ensures
            r == self@.pending_transfer,
    {
        self.pending_transfer
    }

    /// Number of access attempts recorded for `user`.
    pub fn get_access_attempts(&self, user: Address) -> (r: u32)
        ensures
            r == attempt_count(self@, user),
    {
        match self.attempts.get(&user) {
            Some(c) => *c,
            None => 0,
        }
    }

    /// Single-admin initialization: records the admin, grants them the Admin
    /// role, stores the configuration (or the default), and unpauses.
    pub fn initialize(&mut self, admin: Address, config: Option<AccessControlConfig>) -> (r:
        AccessControlResult<()>)
        ensures
            ({
                let s = initialize_step(old(self)@, admin, config);
                r == s.0 && final(self)@ == s.1
            }),
    {
        if self.initialized {
            return Err(AccessControlError::ConfigurationError);
        }
        self.admin = Some(admin);
        self.roles.insert(admin, UserRole::Admin);
        self.config = match config {
            Some(c) => c,
            None => AccessControlConfig::default(),
        };
        self.initialized = true;
        self.paused = false;
        self.proposal_counter = 0;
        Ok(())
    }

    /// Multi-signature initialization: validates the governing set and the
    /// threshold, grants every listed admin the Admin role, and stores the
    /// multisig configuration, whose presence switches the governance mode.
    pub fn initialize_multisig(
        &mut self,
        admins: Vec<Address>,
        required_signatures: u32,
        config: Option<AccessControlConfig>,
    ) -> (r: AccessControlResult<()>)
        ensures
            ({
                let s = initialize_multisig_step(old(self)@, admins@, required_signatures, config);
                r == s.0 && final(self)@ == s.1
            }),
    {
        if self.initialized {
            return Err(AccessControlError::ConfigurationError);
        }
        if admins.len() == 0 || required_signatures == 0 || (required_signatures as usize)
            > admins.len() {
            return Err(AccessControlError::InvalidAddress);
        }
        let ghost m0 = self@;
        let mut i: usize = 0;
        while i < admins.len()
            invariant
                i <= admins@.len(),
                self@ == (GovModel {
                    roles: grant_admins(m0.roles, admins@.subrange(0, i as int)),
                    ..m0
                }),
            decreases admins@.len() - i,
        {
            proof {
                assert(admins@.subrange(0, i + 1).drop_last() =~= admins@.subrange(0, i as int));
                assert(admins@.subrange(0, i + 1).last() == admins@[i as int]);
            }
            self.roles.insert(admins[i], UserRole::Admin);
            i = i + 1;
        }
        proof {
            assert(admins@.subrange(0, admins@.len() as int) =~= admins@);
        }
        self.multisig = Some(MultiSigConfig { admins, required_signatures });
        self.config = match config {
            Some(c) => c,
            None => AccessControlConfig::default(),
        };
        self.initialized = true;
        self.paused = false;
        self.proposal_counter = 0;
        Ok(())
    }

    /// The membership gate on the role-assignment path, against the outcome
    /// of the external balance query.
    fn strict_gate_exec(&self, role: UserRole, q: BalanceQuery) -> (r: Option<AccessControlError>)
        ensures
            r == strict_gate(self@.config, role, q),
    {
        let needs = matches!(role, UserRole::Member | UserRole::Admin);
        if self.config.require_membership_for_roles && needs {
            match self.config.membership_token_contract {
                None => Some(AccessControlError::MembershipTokenNotSet),
                Some(_) => match q {
                    BalanceQuery::Failed => Some(AccessControlError::MembershipTokenCallFailed),
                    BalanceQuery::Balance(b) => if b < self.config.min_token_balance {
                        Some(AccessControlError::InsufficientMembership)
                    } else {
                        None
                    },
                },
            }
        } else {
            None
        }
    }

    /// The membership gate on the access-evaluation path, against the
    /// outcome of the external balance query.
    fn lenient_gate_exec(&self, role: UserRole, q: BalanceQuery) -> (r: Option<AccessControlError>)
        ensures
            r == lenient_gate(self@.config, role, q),
    {
        let needs = matches!(role, UserRole::Member | UserRole::Admin);
        if self.config.require_membership_for_roles && needs {
            match self.config.membership_token_contract {
                None => None,
                Some(_) => match q {
                    BalanceQuery::Failed => Some(AccessControlError::MembershipTokenCallFailed),
                    BalanceQuery::Balance(b) => if b < self.config.min_token_balance {
                        Some(AccessControlError::InsufficientMembership)
                    } else {
                        None
                    },
                },
            }
        } else {
            None
        }
    }

    /// Membership information for `user` given the outcome of the external
    /// balance query, with a failed call mapped to the engine's error.
    pub fn check_membership_token(user: Address, outcome: BalanceQuery) -> (r: AccessControlResult<
        MembershipInfo,
    >)
        ensures
            match outcome {
                BalanceQuery::Failed => r == Result::<MembershipInfo, AccessControlError>::Err(
                    AccessControlError::MembershipTokenCallFailed,
                ),
                BalanceQuery::Balance(b) => r == Result::<MembershipInfo, AccessControlError>::Ok(
                    MembershipInfo { user, balance: b, has_membership: b > 0 },
                ),
            },
    {
        match outcome {
            BalanceQuery::Failed => Err(AccessControlError::MembershipTokenCallFailed),
            BalanceQuery::Balance(balance) => Ok(
                MembershipInfo { user, balance, has_membership: balance > 0 },
            ),
        }
    }

    /// Record one access attempt for `user`.
    fn log_access_attempt(&mut self, user: Address)
        requires
            attempt_count(old(self)@, user) < u32::MAX,
        ensures
            final(self)@ == bump_attempt(old(self)@, user),
    {
        let current: u32 = match self.attempts.get(&user) {
            Some(c) => *c,
            None => 0,
        };
        self.attempts.insert(user, current + 1);
    }

    /// Assign a role directly.  Requires an initialized, unpaused instance,
    /// a non-blacklisted target, an authorized caller, and the strict
    /// membership gate to pass.
    pub fn set_role(
        &mut self,
        caller: Address,
        user: Address,
        role: UserRole,
        membership: BalanceQuery,
    ) -> (r: AccessControlResult<()>)
        ensures
            ({
                let s = set_role_step(old(self)@, caller, user, role, membership);
                r == s.0 && final(self)@ == s.1
            }),
    {
        if !self.initialized {
            return Err(AccessControlError::NotInitialized);
        }
        if self.paused {
            return Err(AccessControlError::ContractPaused);
        }
        if self.blacklist.contains(&user) {
            return Err(AccessControlError::Unauthorized);
        }
        if !self.check_authorized(caller) {
            return Err(AccessControlError::AdminRequired);
        }
        match self.strict_gate_exec(role, membership) {
            Some(e) => Err(e),
            None => {
                self.roles.insert(user, role);
                Ok(())
            },
        }
    }

    /// Evaluate whether `user` may act at `required_role`.  Blacklisted
    /// users are denied before the attempt counter; everyone else has the
    /// attempt recorded; a membership-gate failure is a plain denial.
    pub fn check_access(
        &mut self,
        user: Address,
        required_role: UserRole,
        membership: BalanceQuery,
    ) -> (r: AccessControlResult<bool>)
        requires
            attempt_count(old(self)@, user) < u32::MAX,
        ensures
            ({
                let s = check_access_step(old(self)@, user, required_role, membership);
                r == s.0 && final(self)@ == s.1
            }),
    {
        if !self.initialized {
            return Err(AccessControlError::NotInitialized);
        }
        if self.paused {
            return Err(AccessControlError::ContractPaused);
        }
        if self.blacklist.contains(&user) {
            return Ok(false);
        }
        let user_role = self.get_role(user);
        let granted = if user_role.has_access(&required_role) {
            self.lenient_gate_exec(required_role, membership).is_none()
        } else {
            false
        };
        self.log_access_attempt(user);
        Ok(granted)
    }

    /// Like `check_access`, but a denial is an error — and, being an error,
    /// it leaves the state (the attempt counter included) unchanged.
    pub fn require_access(
        &mut self,
        user: Address,
        required_role: UserRole,
        membership: BalanceQuery,
    ) -> (r: AccessControlResult<()>)
        requires
            attempt_count(old(self)@, user) < u32::MAX,
        ensures
            ({
                let s = require_access_step(old(self)@, user, required_role, membership);
                r == s.0 && final(self)@ == s.1
            }),
    {
        if !self.initialized {
            return Err(AccessControlError::NotInitialized);
        }
        if self.paused {
            return Err(AccessControlError::ContractPaused);
        }
        if self.blacklist.contains(&user) {
            return Err(AccessControlError::InsufficientRole);
        }
        let user_role = self.get_role(user);
        let granted = if user_role.has_access(&required_role) {
            self.lenient_gate_exec(required_role, membership).is_none()
        } else {
            false
        };
        if granted {
            self.log_access_attempt(user);
            Ok(())
        } else {
            Err(AccessControlError::InsufficientRole)
        }
    }

    /// Replace the configuration (single-admin mode only; multisig
    /// deployments must use an `UpdateConfig` proposal).
    pub fn update_config(&mut self, caller: Address, config: AccessControlConfig) -> (r:
        AccessControlResult<()>)
        ensures
            ({
                let s = update_config_step(old(self)@, caller, config);
                r == s.0 && final(self)@ == s.1
            }),
    {
        if self.multisig.is_some() {
            return Err(AccessControlError::AdminRequired);
        }
        if !self.check_authorized(caller) {
            return Err(AccessControlError::AdminRequired);
        }
        self.config = config;
        Ok(())
    }

    /// Pause the instance (single-admin mode only; multisig deployments
    /// must use a `Pause` proposal).
    pub fn pause(&mut self, caller: Address) -> (r: AccessControlResult<()>)
        ensures
            ({
                let s = pause_step(old(self)@, caller);
                r == s.0 && final(self)@ == s.1
            }),
    {
        if self.multisig.is_some() {
            return Err(AccessControlError::AdminRequired);
        }
        if !self.check_authorized(caller) {
            return Err(AccessControlError::AdminRequired);
        }
        self.paused = true;
        Ok(())
    }

    /// Unpause the instance (single-admin mode only; multisig deployments
    /// must use an `Unpause` proposal).
    pub fn unpause(&mut self, caller: Address) -> (r: AccessControlResult<()>)
        ensures
            ({
                let s = unpause_step(old(self)@, caller);
                r == s.0 && final(self)@ == s.1
            }),
    {
        if self.multisig.is_some() {
            return Err(AccessControlError::AdminRequired);
        }
        if !self.check_authorized(caller) {
            return Err(AccessControlError::AdminRequired);
        }
        self.paused = false;
        Ok(())
    }

    /// Propose a time-locked handover of single-admin authority, valid for
    /// 24 hours from `now`.
    pub fn propose_admin_transfer(
        &mut self,
        current_admin: Address,
        new_admin: Address,
        now: u64,
    ) -> (r: AccessControlResult<()>)
        requires
            now <= u64::MAX - VALIDITY_WINDOW,
        ensures
            ({
                let s = propose_admin_transfer_step(old(self)@, current_admin, new_admin, now);
                r == s.0 && final(self)@ == s.1
            }),
    {
        if !self.check_authorized(current_admin) {
            return Err(AccessControlError::AdminRequired);
        }
        if current_admin == new_admin {
            return Err(AccessControlError::InvalidAddress);
        }
        if self.multisig.is_some() {
            return Err(AccessControlError::InvalidAddress);
        }
        self.pending_transfer = Some(
            PendingAdminTransfer {
                proposed_admin: new_admin,
                proposer: current_admin,
                expiry: now + VALIDITY_WINDOW,
            },
        );
        Ok(())
    }

    /// Accept a pending admin transfer before its expiry: the proposed
    /// admin takes over, the displaced admin's role falls to `Guest`.
    pub fn accept_admin_transfer(&mut self, new_admin: Address, now: u64) -> (r:
        AccessControlResult<()>)
        ensures
            ({
                let s = accept_admin_transfer_step(old(self)@, new_admin, now);
                r == s.0 && final(self)@ == s.1
            }),
    {
        let pending = match self.pending_transfer {
            None => {
                return Err(AccessControlError::InvalidAddress);
            },
            Some(pt) => pt,
        };
        if pending.proposed_admin != new_admin {
            return Err(AccessControlError::Unauthorized);
        }
        if now > pending.expiry {
            return Err(AccessControlError::InvalidAddress);
        }
        let old_admin = match self.admin {
            None => {
                return Err(AccessControlError::AdminRequired);
            },
            Some(a) => a,
        };
        self.admin = Some(new_admin);
        self.roles.insert(new_admin, UserRole::Admin);
        self.roles.insert(old_admin, UserRole::Guest);
        self.pending_transfer = None;
        Ok(())
    }

    /// Cancel a pending admin transfer; only its proposer may.
    pub fn cancel_admin_transfer(&mut self, current_admin: Address) -> (r: AccessControlResult<()>)
        ensures
            ({
                let s = cancel_admin_transfer_step(old(self)@, current_admin);
                r == s.0 && final(self)@ == s.1
            }),
    {
        if !self.check_authorized(current_admin) {
            return Err(AccessControlError::AdminRequired);
        }
        let pending = match self.pending_transfer {
            None => {
                return Err(AccessControlError::InvalidAddress);
            },
            Some(pt) => pt,
        };
        if pending.proposer != current_admin {
            return Err(AccessControlError::Unauthorized);
        }
        self.pending_transfer = None;
        Ok(())
    }

    /// Reset a user's role to `Guest`.  The governing admin cannot be
    /// demoted, and a caller cannot remove their own Admin role.
    pub fn remove_role(&mut self, caller: Address, user: Address) -> (r: AccessControlResult<()>)
        ensures
            ({
                let s = remove_role_step(old(self)@, caller, user);
                r == s.0 && final(self)@ == s.1
            }),
    {
        if !self.check_authorized(caller) {
            return Err(AccessControlError::AdminRequired);
        }
        if let Some(admin) = self.admin {
            if user == admin {
                return Err(AccessControlError::RoleHierarchyViolation);
            }
        }
        if caller == user {
            let role = self.get_role(user);
            if matches!(role, UserRole::Admin) {
                return Err(AccessControlError::RoleHierarchyViolation);
            }
        }
        self.roles.insert(user, UserRole::Guest);
        Ok(())
    }

    /// Bar a user from access and role assignment.  Admin addresses have no
    /// special protection; role storage is untouched.
    pub fn blacklist_user(&mut self, caller: Address, user: Address) -> (r: AccessControlResult<()>)
        ensures
            ({
                let s = blacklist_step(old(self)@, caller, user);
                r == s.0 && final(self)@ == s.1
            }),
    {
        if !self.check_authorized(caller) {
            return Err(AccessControlError::AdminRequired);
        }
        self.blacklist.insert(user);
        Ok(())
    }

    /// Lift a user's blacklisting.
    pub fn unblacklist_user(&mut self, caller: Address, user: Address) -> (r: AccessControlResult<
        (),
    >)
        ensures
            ({
                let s = unblacklist_step(old(self)@, caller, user);
                r == s.0 && final(self)@ == s.1
            }),
    {
        if !self.check_authorized(caller) {
            return Err(AccessControlError::AdminRequired);
        }
        self.blacklist.remove(&user);
        Ok(())
    }

    /// Apply a proposal's action to the state, or report why it cannot be.
    /// The proposal store itself is untouched.
    fn apply_action_exec(&mut self, action: ProposalAction, membership: BalanceQuery) -> (r:
        AccessControlResult<()>)
        ensures
            match apply_action(old(self)@, action, membership) {
                Ok(m2) => r == Result::<(), AccessControlError>::Ok(()) && final(self)@ == m2,
                Err(e) => r == Result::<(), AccessControlError>::Err(e) && final(self)@ == old(
                    self,
                )@,
            },
    {
        match action {
            ProposalAction::SetRole(user, role) => {
                match self.strict_gate_exec(role, membership) {
                    Some(e) => Err(e),
                    None => {
                        self.roles.insert(user, role);
                        Ok(())
                    },
                }
            },
            ProposalAction::UpdateConfig(config) => {
                self.config = config;
                Ok(())
            },
            ProposalAction::Pause => {
                self.paused = true;
                Ok(())
            },
            ProposalAction::Unpause => {
                self.paused = false;
                Ok(())
            },
            ProposalAction::AddAdmin(_) => Err(AccessControlError::InvalidAddress),
            ProposalAction::RemoveAdmin(_) => Err(AccessControlError::InvalidAddress),
            ProposalAction::TransferAdmin(_) => Err(AccessControlError::InvalidAddress),
        }
    }

    /// Execute a proposal whose threshold is met.  Deliberately, no caller
    /// authorization is demanded beyond the threshold test, and expiry is
    /// not re-checked here: only approval checks it.
    pub fn execute_proposal(&mut self, proposal_id: u64, membership: BalanceQuery) -> (r:
        AccessControlResult<()>)
        ensures
            ({
                let s = execute_proposal_step(old(self)@, proposal_id, membership);
                r == s.0 && final(self)@ == s.1
            }),
    {
        let (stored_id, proposer, action, approvals, executed, expiry) = match self.proposals.get(
            &proposal_id,
        ) {
            None => {
                return Err(AccessControlError::InvalidAddress);
            },
            Some(p) => (p.id, p.proposer, p.action, copy_addr_vec(&p.approvals), p.executed, p.expiry),
        };
        if executed {
            return Err(AccessControlError::InvalidAddress);
        }
        if let Some(ms) = &self.multisig {
            if approvals.len() < ms.required_signatures as usize {
                return Err(AccessControlError::AdminRequired);
            }
        }
        match self.apply_action_exec(action, membership) {
            Err(e) => {
                return Err(e);
            },
            Ok(()) => {},
        }
        let updated = PendingProposal {
            id: stored_id,
            proposer,
            action,
            approvals,
            executed: true,
            expiry,
        };
        self.proposals.insert(proposal_id, updated);
        proof {
            let s = execute_proposal_step(old(self)@, proposal_id, membership);
            assert(final(self)@ =~= s.1);
        }
        Ok(())
    }

    /// Create a proposal: the next identifier is allocated, the proposer's
    /// own approval is seeded, and the 24-hour expiry starts at `now`.  When
    /// multisig is active and the seed already meets the threshold, the
    /// proposal executes within this same call; if that execution fails, the
    /// whole call fails and nothing is recorded.
    pub fn create_proposal(
        &mut self,
        proposer: Address,
        action: ProposalAction,
        now: u64,
        membership: BalanceQuery,
    ) -> (r: AccessControlResult<u64>)
        requires
            old(self)@.proposal_counter < u64::MAX,
            now <= u64::MAX - VALIDITY_WINDOW,
        ensures
            ({
                let s = create_proposal_step(old(self)@, proposer, action, now, membership);
                r == s.0 && final(self)@ == s.1
            }),
    {
        if !self.check_authorized(proposer) {
            return Err(AccessControlError::AdminRequired);
        }
        let id = self.proposal_counter;
        let mut approvals: Vec<Address> = Vec::new();
        approvals.push(proposer);
        proof {
            assert(approvals@ =~= seq![proposer]);
        }
        let expiry = now + VALIDITY_WINDOW;
        let auto = match &self.multisig {
            Some(ms) => 1 >= ms.required_signatures,
            None => false,
        };
        if auto {
            // The seed approval already meets the threshold: apply the
            // action first, so that a failing action leaves no trace.
            match self.apply_action_exec(action, membership) {
                Err(e) => {
                    return Err(e);
                },
                Ok(()) => {},
            }
            let p = PendingProposal { id, proposer, action, approvals, executed: true, expiry };
            self.proposals.insert(id, p);
            self.proposal_counter = id + 1;
            proof {
                let s = create_proposal_step(old(self)@, proposer, action, now, membership);
                assert(final(self)@ =~= s.1);
            }
            Ok(id)
        } else {
            let p = PendingProposal { id, proposer, action, approvals, executed: false, expiry };
            self.proposals.insert(id, p);
            self.proposal_counter = id + 1;
            proof {
                let s = create_proposal_step(old(self)@, proposer, action, now, membership);
                assert(final(self)@ =~= s.1);
            }
            Ok(id)
        }
    }

    /// Approve a proposal: the approver must be authorized, the proposal
    /// pending, within its validity window, and not yet approved by the same
    /// principal.  When the approval meets the multisig threshold, the
    /// proposal executes within this same call; if that execution fails, the
    /// whole call fails and the approval is not recorded.
    pub fn approve_proposal(
        &mut self,
        approver: Address,
        proposal_id: u64,
        now: u64,
        membership: BalanceQuery,
    ) -> (r: AccessControlResult<()>)
        ensures
            ({
                let s = approve_proposal_step(old(self)@, approver, proposal_id, now, membership);
                r == s.0 && final(self)@ == s.1
            }),
    {
        if !self.check_authorized(approver) {
            return Err(AccessControlError::AdminRequired);
        }
        let (stored_id, proposer, action, mut approvals, executed, expiry) = match self
            .proposals
            .get(&proposal_id) {
            None => {
                return Err(AccessControlError::InvalidAddress);
            },
            Some(p) => (p.id, p.proposer, p.action, copy_addr_vec(&p.approvals), p.executed, p.expiry),
        };
        if executed {
            return Err(AccessControlError::InvalidAddress);
        }
        if now > expiry {
            return Err(AccessControlError::InvalidAddress);
        }
        if vec_contains(&approvals, approver) {
            return Err(AccessControlError::InvalidAddress);
        }
        approvals.push(approver);
        let threshold_met = match &self.multisig {
            Some(ms) => approvals.len() >= ms.required_signatures as usize,
            None => false,
        };
        if threshold_met {
            // The threshold is now met: apply the action first, so that a
            // failing action leaves no trace, not even the approval.
            match self.apply_action_exec(action, membership) {
                Err(e) => {
                    return Err(e);
                },
                Ok(()) => {},
            }
            let p = PendingProposal {
                id: stored_id,
                proposer,
                action,
                approvals,
                executed: true,
                expiry,
            };
            self.proposals.insert(proposal_id, p);
            proof {
                let s = approve_proposal_step(old(self)@, approver, proposal_id, now, membership);
                assert(final(self)@ =~= s.1);
            }
            Ok(())
        } else {
            let p = PendingProposal {
                id: stored_id,
                proposer,
                action,
                approvals,
                executed: false,
                expiry,
            };
            self.proposals.insert(proposal_id, p);
            proof {
                let s = approve_proposal_step(old(self)@, approver, proposal_id, now, membership);
                assert(final(self)@ =~= s.1);
            }
            Ok(())
        }
    }

    /// Access evaluation keyed by a role name: "Admin" and "Member" select
    /// those roles, anything else selects `Guest`; an engine error is
    /// reported as a plain denial.
    pub fn check_access_legacy(
        &mut self,
        caller: Address,
        required_role: &str,
        membership: BalanceQuery,
    ) -> (r: bool)
        requires
            attempt_count(old(self)@, caller) < u32::MAX,
        ensures
            ({
                let s = check_access_legacy_step(old(self)@, caller, required_role@, membership);
                r == s.0 && final(self)@ == s.1
            }),
    {
        let role = if str_eq(required_role, "Admin") {
            UserRole::Admin
        } else if str_eq(required_role, "Member") {
            UserRole::Member
        } else {
            UserRole::Guest
        };
        match self.check_access(caller, role, membership) {
            Ok(granted) => granted,
            Err(_) => false,
        }
    }

    /// Number of proposals created so far — the next proposal's identifier.
    pub fn get_proposal_count(&self) -> (r: u64)
        ensures
            r == self@.proposal_counter,
    {
        self.proposal_counter
    }

    /// Look up a proposal by identifier.
    pub fn get_proposal(&self, proposal_id: u64) -> (r: Option<PendingProposal>)
        ensures
            match r {
                Some(p) => self@.proposals.contains_key(proposal_id) && self@.proposals[proposal_id]
                    == p@,
                None => !self@.proposals.contains_key(proposal_id),
            },
    {
        match self.proposals.get(&proposal_id) {
            Some(p) => Some(
                PendingProposal {
                    id: p.id,
                    proposer: p.proposer,
                    action: p.action,
                    approvals: copy_addr_vec(&p.approvals),
                    executed: p.executed,
                    expiry: p.expiry,
                },
            ),
            None => None,
        }
    }
}

} // verus!
