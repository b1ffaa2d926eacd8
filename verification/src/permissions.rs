//! Permission classes, default policies and risk tiers for agent actions.

use vstd::prelude::*;
use crate::text::own;

verus! {

/// Permission classes that agents may request.
#[derive(Debug, Clone, Copy, PartialEq, Eq, Hash, Structural)]
pub enum PermissionClass {
    /// Read workspace files.
    ReadWorkspace,
    /// Write workspace files.
    WriteWorkspace,
    /// Run a shell command.
    RunShellCommand,
    /// Run a browser MCP tool.
    RunBrowserMcpTool,
    /// Send data to a cloud AI provider.
    SendToCloudProvider,
    /// Upload a raw screenshot to the cloud.
    UploadRawScreenshot,
    /// Commit changes to git.
    CommitChanges,
    /// Push changes to remote.
    PushChanges,
}

/// The classes in declaration order.
pub open spec fn all_classes() -> Seq<PermissionClass> {
    seq![
        PermissionClass::ReadWorkspace,
        PermissionClass::WriteWorkspace,
        PermissionClass::RunShellCommand,
        PermissionClass::RunBrowserMcpTool,
        PermissionClass::SendToCloudProvider,
        PermissionClass::UploadRawScreenshot,
        PermissionClass::CommitChanges,
        PermissionClass::PushChanges,
    ]
}

/// Position of a class in [`all_classes`].
pub open spec fn class_index(c: PermissionClass) -> int {
    match c {
        PermissionClass::ReadWorkspace => 0,
        PermissionClass::WriteWorkspace => 1,
        PermissionClass::RunShellCommand => 2,
        PermissionClass::RunBrowserMcpTool => 3,
        PermissionClass::SendToCloudProvider => 4,
        PermissionClass::UploadRawScreenshot => 5,
        PermissionClass::CommitChanges => 6,
        PermissionClass::PushChanges => 7,
    }
}

impl PermissionClass {
    /// All permission class variants.
    pub fn all() -> (res: Vec<Self>)
        ensures
            res@ == all_classes(),
    {
        let v = vec![
            PermissionClass::ReadWorkspace,
            PermissionClass::WriteWorkspace,
            PermissionClass::RunShellCommand,
            PermissionClass::RunBrowserMcpTool,
            PermissionClass::SendToCloudProvider,
            PermissionClass::UploadRawScreenshot,
            PermissionClass::CommitChanges,
            PermissionClass::PushChanges,
        ];
        assert(v@ =~= all_classes());
        v
    }

    fn index(&self) -> (res: usize)
        ensures
            res == class_index(*self),
    {
        match self {
            PermissionClass::ReadWorkspace => 0,
            PermissionClass::WriteWorkspace => 1,
            PermissionClass::RunShellCommand => 2,
            PermissionClass::RunBrowserMcpTool => 3,
            PermissionClass::SendToCloudProvider => 4,
            PermissionClass::UploadRawScreenshot => 5,
            PermissionClass::CommitChanges => 6,
            PermissionClass::PushChanges => 7,
        }
    }
}

/// Whether a permission is allowed, denied, or requires user approval.
#[derive(Debug, Clone, Copy, PartialEq, Eq, Structural)]
pub enum PermissionPolicy {
    /// Allowed without prompting the user.
    Allowed,
    /// Denied outright; the action cannot proceed.
    Denied,
    /// Requires user review and explicit approval before proceeding.
    RequiresApproval,
}

/// Risk tier for a proposed agent action.
#[derive(Debug, Clone, Copy, PartialEq, Eq, Structural)]
pub enum RiskTier {
    /// Single-file edit, local context only.
    Low,
    /// Multi-file refactor, shell test commands.
    Medium,
    /// Deletions, dependency changes, git operations, external uploads.
    High,
}

/// The tier of an action: deletions, external uploads and git operations are
/// high risk; several files or a shell command are medium; the rest is low.
pub open spec fn risk_tier(
    file_count: usize,
    has_deletions: bool,
    has_shell: bool,
    has_external: bool,
    has_git: bool,
) -> RiskTier {
    if has_deletions || has_external || has_git {
        RiskTier::High
    } else if file_count > 1 || has_shell {
        RiskTier::Medium
    } else {
        RiskTier::Low
    }
}

impl RiskTier {
    /// Determine risk tier from action characteristics.
    pub fn from_action(
        file_count: usize,
        has_deletions: bool,
        has_shell: bool,
        has_external: bool,
        has_git: bool,
    ) -> (res: Self)
        ensures
            res == risk_tier(file_count, has_deletions, has_shell, has_external, has_git),
    {
        if has_deletions || has_external || has_git {
            return RiskTier::High;
        }
        if file_count > 1 || has_shell {
            return RiskTier::Medium;
        }
        RiskTier::Low
    }
}

/// The default policy of each class: reading is allowed, uploading a raw
/// screenshot is denied, everything else requires approval.
pub open spec fn default_policy(c: PermissionClass) -> PermissionPolicy {
    match c {
        PermissionClass::ReadWorkspace => PermissionPolicy::Allowed,
        PermissionClass::UploadRawScreenshot => PermissionPolicy::Denied,
        _ => PermissionPolicy::RequiresApproval,
    }
}

/// The default policy table.
pub open spec fn default_policies() -> Map<PermissionClass, PermissionPolicy> {
    Map::new(|c: PermissionClass| true, |c: PermissionClass| default_policy(c))
}

/// Manages permission policies for agent actions.
///
/// Every class has exactly one policy; the table is indexed by
/// [`class_index`].
pub struct PermissionManager {
    policies: Vec<PermissionPolicy>,
}

impl View for PermissionManager {
    type V = Map<PermissionClass, PermissionPolicy>;

    closed spec fn view(&self) -> Map<PermissionClass, PermissionPolicy> {
        Map::new(|c: PermissionClass| true, |c: PermissionClass| self.policies@[class_index(c)])
    }
}

impl PermissionManager {
    #[verifier::type_invariant]
    spec fn inv(self) -> bool {
        self.policies@.len() == 8
    }

    /// Create a new manager with the default policies: read allowed, raw
    /// screenshot upload denied, every other class requires approval.
    pub fn new() -> (res: Self)
        ensures
            res@ == default_policies(),
    {
        let policies = vec![
            PermissionPolicy::Allowed,
            PermissionPolicy::RequiresApproval,
            PermissionPolicy::RequiresApproval,
            PermissionPolicy::RequiresApproval,
            PermissionPolicy::RequiresApproval,
            PermissionPolicy::Denied,
            PermissionPolicy::RequiresApproval,
            PermissionPolicy::RequiresApproval,
        ];
        let res = PermissionManager { policies };
        assert(res@ =~= default_policies());
        res
    }

    /// Check whether a permission is allowed.
    pub fn check(&self, class: PermissionClass) -> (res: PermissionPolicy)
        ensures
            res == self@[class],
    {
        proof {
            use_type_invariant(self);
        }
        self.policies[class.index()]
    }

    /// Override a specific policy.
    pub fn set_policy(&mut self, class: PermissionClass, policy: PermissionPolicy)
        ensures
            final(self)@ == old(self)@.insert(class, policy),
    {
        proof {
            use_type_invariant(&*self);
        }
        let i = class.index();
        let mut table = self.policies.clone();
        table.set(i, policy);
        let ghost before = self@;
        *self = PermissionManager { policies: table };
        assert(self@ =~= before.insert(class, policy)) by {
            assert forall|c: PermissionClass| #[trigger] self@[c] == before.insert(class, policy)[c] by {
                if c != class {
                    assert(class_index(c) != class_index(class));
                }
            }
        }
    }

    /// Grant a permission (e.g. after user approval).
    pub fn grant(&mut self, class: PermissionClass)
        ensures
            final(self)@ == old(self)@.insert(class, PermissionPolicy::Allowed),
    {
        self.set_policy(class, PermissionPolicy::Allowed);
    }

    /// Deny a permission.
    pub fn deny(&mut self, class: PermissionClass)
        ensures
            final(self)@ == old(self)@.insert(class, PermissionPolicy::Denied),
    {
        self.set_policy(class, PermissionPolicy::Denied);
    }

    /// A copy of this manager with the same policies.
    pub fn duplicate(&self) -> (res: Self)
        ensures
            res@ == self@,
    {
        proof {
            use_type_invariant(self);
        }
        let policies = self.policies.clone();
        let res = PermissionManager { policies };
        assert(res@ =~= self@);
        res
    }

    /// Build a human-readable description of a proposed action for the UX:
    /// what action is proposed, why it is needed, and whether data leaves
    /// the machine.
    pub fn describe_action(
        class: PermissionClass,
        description: &str,
        reason: &str,
        data_leaves_machine: bool,
    ) -> (res: ActionDescription)
        ensures
            res.action@ == class_name(class),
            res.description@ == description@,
            res.reason@ == reason@,
            res.data_leaves_machine == data_leaves_machine,
    {
        ActionDescription {
            action: class_name_of(class),
            description: own(description),
            reason: own(reason),
            data_leaves_machine,
        }
    }
}

impl Default for PermissionManager {
    fn default() -> (res: Self)
        ensures
            res@ == default_policies(),
    {
        Self::new()
    }
}

/// The variant name of a class, as its `Debug` form prints it.
pub open spec fn class_name(c: PermissionClass) -> Seq<char> {
    match c {
        PermissionClass::ReadWorkspace => "ReadWorkspace"@,
        PermissionClass::WriteWorkspace => "WriteWorkspace"@,
        PermissionClass::RunShellCommand => "RunShellCommand"@,
        PermissionClass::RunBrowserMcpTool => "RunBrowserMcpTool"@,
        PermissionClass::SendToCloudProvider => "SendToCloudProvider"@,
        PermissionClass::UploadRawScreenshot => "UploadRawScreenshot"@,
        PermissionClass::CommitChanges => "CommitChanges"@,
        PermissionClass::PushChanges => "PushChanges"@,
    }
}

fn class_name_of(c: PermissionClass) -> (res: String)
    ensures
        res@ == class_name(c),
{
    match c {
        PermissionClass::ReadWorkspace => own("ReadWorkspace"),
        PermissionClass::WriteWorkspace => own("WriteWorkspace"),
        PermissionClass::RunShellCommand => own("RunShellCommand"),
        PermissionClass::RunBrowserMcpTool => own("RunBrowserMcpTool"),
        PermissionClass::SendToCloudProvider => own("SendToCloudProvider"),
        PermissionClass::UploadRawScreenshot => own("UploadRawScreenshot"),
        PermissionClass::CommitChanges => own("CommitChanges"),
        PermissionClass::PushChanges => own("PushChanges"),
    }
}

/// Human-readable description of a proposed agent action for the
/// permissions UX.
#[derive(Debug, Clone)]
pub struct ActionDescription {
    /// What action is proposed.
    pub action: String,
    /// Human-readable description.
    pub description: String,
    /// Why the action is needed.
    pub reason: String,
    /// Whether data will leave the machine.
    pub data_leaves_machine: bool,
}

/// After `grant(c)`, `check(c)` answers `Allowed` and every other class
/// keeps its policy; `deny` and `set_policy` behave alike with their
/// policy.
pub proof fn law_policy_update_is_read_back(
    m: Map<PermissionClass, PermissionPolicy>,
    c: PermissionClass,
    p: PermissionPolicy,
    other: PermissionClass,
)
    requires
        other != c,
    ensures
        m.insert(c, p)[c] == p,
        m.insert(c, p)[other] == m[other],
{
}

/// A fresh manager denies raw screenshot uploads, allows workspace reads,
/// and asks for approval for every other class.
pub proof fn law_default_policies()
    ensures
        default_policy(PermissionClass::UploadRawScreenshot) == PermissionPolicy::Denied,
        default_policy(PermissionClass::ReadWorkspace) == PermissionPolicy::Allowed,
        forall|c: PermissionClass|
            c != PermissionClass::UploadRawScreenshot && c != PermissionClass::ReadWorkspace
                ==> default_policy(c) == PermissionPolicy::RequiresApproval,
{
}

/// Risk tiers are ordered by the action's reach: any deletion, external
/// upload or git operation is high risk whatever else holds, and an action
/// on one file without shell, deletions, uploads or git is low risk.
pub proof fn law_risk_tiers(
    file_count: usize,
    has_deletions: bool,
    has_shell: bool,
    has_external: bool,
    has_git: bool,
)
    ensures
        (has_deletions || has_external || has_git) ==> risk_tier(
            file_count,
            has_deletions,
            has_shell,
            has_external,
            has_git,
        ) == RiskTier::High,
        (!has_deletions && !has_external && !has_git && !has_shell && file_count <= 1)
            ==> risk_tier(file_count, has_deletions, has_shell, has_external, has_git)
            == RiskTier::Low,
{
}


/// The policies after a sequence of updates, each a class and the policy
/// it is set to (`grant` sets `Allowed`, `deny` sets `Denied`, `set_policy`
/// sets the policy given), applied in order.
pub open spec fn after_updates(
    m: Map<PermissionClass, PermissionPolicy>,
    updates: Seq<(PermissionClass, PermissionPolicy)>,
) -> Map<PermissionClass, PermissionPolicy>
    decreases updates.len(),
{
    if updates.len() == 0 {
        m
    } else {
        after_updates(m, updates.drop_last()).insert(updates.last().0, updates.last().1)
    }
}

/// The policy the last update of `c` set, if any.
pub open spec fn last_update(updates: Seq<(PermissionClass, PermissionPolicy)>, c: PermissionClass) -> Option<
    PermissionPolicy,
>
    decreases updates.len(),
{
    if updates.len() == 0 {
        None
    } else if updates.last().0 == c {
        Some(updates.last().1)
    } else {
        last_update(updates.drop_last(), c)
    }
}

/// After any sequence of updates on a fresh manager, each class has the
/// policy its last update set, or its default when it was never updated;
/// so no class but `ReadWorkspace` is allowed unless it was granted (or set
/// to allowed).
pub proof fn law_policies_after_updates(
    updates: Seq<(PermissionClass, PermissionPolicy)>,
    c: PermissionClass,
)
    ensures
        after_updates(default_policies(), updates)[c] == match last_update(updates, c) {
            Some(p) => p,
            None => default_policy(c),
        },
        after_updates(default_policies(), updates)[c] == PermissionPolicy::Allowed ==> c
            == PermissionClass::ReadWorkspace || last_update(updates, c) == Some(
            PermissionPolicy::Allowed,
        ),
    decreases updates.len(),
{
    if updates.len() > 0 {
        law_policies_after_updates(updates.drop_last(), c);
    }
}


/// The tier follows the action's reach and nothing else: it is high exactly
/// when the action deletes, uploads or touches git; otherwise it is medium
/// exactly when it spans more than one file or runs a shell command, however
/// many files it spans, and low when it does neither.
pub proof fn law_tier_by_reach(
    file_count: usize,
    has_deletions: bool,
    has_shell: bool,
    has_external: bool,
    has_git: bool,
)
    ensures
        (risk_tier(file_count, has_deletions, has_shell, has_external, has_git) == RiskTier::High)
            <==> (has_deletions || has_external || has_git),
        !(has_deletions || has_external || has_git) ==> ((risk_tier(
            file_count,
            has_deletions,
            has_shell,
            has_external,
            has_git,
        ) == RiskTier::Medium) <==> (file_count > 1 || has_shell)),
        !(has_deletions || has_external || has_git || file_count > 1 || has_shell) ==> risk_tier(
            file_count,
            has_deletions,
            has_shell,
            has_external,
            has_git,
        ) == RiskTier::Low,
{
}

} // verus!
