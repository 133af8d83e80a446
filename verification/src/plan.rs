//! What an install or an uninstall has to do for one tool.

use crate::resolve::ResolutionVerdict;
use crate::text::{versioned_name, versioned_name_of};
use crate::version::SpecifiedVersion;
use vstd::prelude::*;

verus! {

/// An install of some tools at one version.
#[derive(Clone, Debug, PartialEq, Eq)]
pub struct InstallCommand {
    pub tool: Vec<String>,
    pub version: SpecifiedVersion,
    pub force: bool,
}

/// An uninstall of some tools at one version.
#[derive(Clone, Debug, PartialEq, Eq)]
pub struct UninstallCommand {
    pub tool: Vec<String>,
    pub version: SpecifiedVersion,
}

/// The terminal state of an install for one tool.
#[derive(Clone, Debug, PartialEq, Eq)]
pub enum InstallPlan {
    /// The version is no semantic version.
    Skipped,
    /// The executable at this path already satisfies the request.
    AlreadySatisfied(String),
    /// The tool is to be acquired at this major version, and a link to it
    /// made in the managed directory. `existing` is the executable that was
    /// found, where one was and the install is forced.
    NeedsInstall { major: u64, existing: Option<String> },
}

/// The terminal state of an uninstall for one tool.
#[derive(Clone, Debug, PartialEq, Eq)]
pub enum UninstallPlan {
    /// The version is no semantic version.
    Skipped,
    /// Nothing satisfies the request: there is nothing to remove.
    AlreadySatisfied,
    /// The link for this major version is to be removed from the managed
    /// directory, if it is there. `found` is the executable that satisfies
    /// the request.
    NeedsRemoval { major: u64, found: String },
}

/// The terminal state of an install.
pub open spec fn install_plan(
    version: SpecifiedVersion,
    verdict: ResolutionVerdict,
    force: bool,
) -> InstallPlan {
    match version.requested_major() {
        None => InstallPlan::Skipped,
        Some(major) => match verdict {
            ResolutionVerdict::Found(path, _) => if force {
                InstallPlan::NeedsInstall { major, existing: Some(path) }
            } else {
                InstallPlan::AlreadySatisfied(path)
            },
            ResolutionVerdict::NotFound => InstallPlan::NeedsInstall { major, existing: None },
        },
    }
}

/// The terminal state of an uninstall.
pub open spec fn uninstall_plan(
    version: SpecifiedVersion,
    verdict: ResolutionVerdict,
) -> UninstallPlan {
    match version.requested_major() {
        None => UninstallPlan::Skipped,
        Some(major) => match verdict {
            ResolutionVerdict::Found(path, _) => UninstallPlan::NeedsRemoval { major, found: path },
            ResolutionVerdict::NotFound => UninstallPlan::AlreadySatisfied,
        },
    }
}

/// Decides the terminal state of an install: skipped for an opaque version;
/// satisfied where an executable was found and the install is not forced;
/// else an install.
pub fn plan_install(version: &SpecifiedVersion, verdict: ResolutionVerdict, force: bool) -> (r:
    InstallPlan)
    ensures
        r == install_plan(*version, verdict, force),
{
    match version.major() {
        None => InstallPlan::Skipped,
        Some(major) => match verdict {
            ResolutionVerdict::Found(path, _) => if force {
                InstallPlan::NeedsInstall { major, existing: Some(path) }
            } else {
                InstallPlan::AlreadySatisfied(path)
            },
            ResolutionVerdict::NotFound => InstallPlan::NeedsInstall { major, existing: None },
        },
    }
}

/// Decides the terminal state of an uninstall: skipped for an opaque
/// version; a removal where an executable was found; else nothing.
pub fn plan_uninstall(version: &SpecifiedVersion, verdict: ResolutionVerdict) -> (r: UninstallPlan)
    ensures
        r == uninstall_plan(*version, verdict),
{
    match version.major() {
        None => UninstallPlan::Skipped,
        Some(major) => match verdict {
            ResolutionVerdict::Found(path, _) => UninstallPlan::NeedsRemoval { major, found: path },
            ResolutionVerdict::NotFound => UninstallPlan::AlreadySatisfied,
        },
    }
}

impl InstallPlan {
    /// True for the state in which the file system is changed.
    pub open spec fn mutates(self) -> bool {
        self is NeedsInstall
    }

    /// The name of the link that an install of `tool` makes, where it makes
    /// one: the tool's versioned name.
    pub open spec fn link_name_of(self, tool: Seq<char>) -> Option<Seq<char>> {
        match self {
            InstallPlan::NeedsInstall { major, .. } => Some(versioned_name_of(tool, major)),
            _ => None,
        }
    }

    /// The name of the link to make in the managed directory, if one is to
    /// be made.
    pub fn link_name(&self, tool: &str) -> (r: Option<String>)
        ensures
            r is Some == self.link_name_of(tool@) is Some,
            r matches Some(name) ==> Some(name@) == self.link_name_of(tool@),
    {
        match self {
            InstallPlan::NeedsInstall { major, .. } => Some(versioned_name(tool, *major)),
            _ => None,
        }
    }

    /// A copy of the plan.
    pub fn copy(&self) -> (r: InstallPlan)
        ensures
            r == *self,
    {
        match self {
            InstallPlan::Skipped => InstallPlan::Skipped,
            InstallPlan::AlreadySatisfied(path) => InstallPlan::AlreadySatisfied(path.clone()),
            InstallPlan::NeedsInstall { major, existing } => InstallPlan::NeedsInstall {
                major: *major,
                existing: match existing {
                    Some(path) => Some(path.clone()),
                    None => None,
                },
            },
        }
    }
}

impl UninstallPlan {
    /// True for the state in which the file system is changed.
    pub open spec fn mutates(self) -> bool {
        self is NeedsRemoval
    }

    /// The name of the link that an uninstall of `tool` removes, where it
    /// removes one: the tool's versioned name.
    pub open spec fn link_name_of(self, tool: Seq<char>) -> Option<Seq<char>> {
        match self {
            UninstallPlan::NeedsRemoval { major, .. } => Some(versioned_name_of(tool, major)),
            _ => None,
        }
    }

    /// The name of the link to remove from the managed directory, if one is
    /// to be removed.
    pub fn link_name(&self, tool: &str) -> (r: Option<String>)
        ensures
            r is Some == self.link_name_of(tool@) is Some,
            r matches Some(name) ==> Some(name@) == self.link_name_of(tool@),
    {
        match self {
            UninstallPlan::NeedsRemoval { major, .. } => Some(versioned_name(tool, *major)),
            _ => None,
        }
    }

    /// A copy of the plan.
    pub fn copy(&self) -> (r: UninstallPlan)
        ensures
            r == *self,
    {
        match self {
            UninstallPlan::Skipped => UninstallPlan::Skipped,
            UninstallPlan::AlreadySatisfied => UninstallPlan::AlreadySatisfied,
            UninstallPlan::NeedsRemoval { major, found } => UninstallPlan::NeedsRemoval {
                major: *major,
                found: found.clone(),
            },
        }
    }
}

impl InstallCommand {
    /// Decides the terminal state for one of the tools, given its verdict.
    pub fn plan(&self, verdict: ResolutionVerdict) -> (r: InstallPlan)
        ensures
            r == install_plan(self.version, verdict, self.force),
    {
        plan_install(&self.version, verdict, self.force)
    }
}

impl UninstallCommand {
    /// Decides the terminal state for one of the tools, given its verdict.
    pub fn plan(&self, verdict: ResolutionVerdict) -> (r: UninstallPlan)
        ensures
            r == uninstall_plan(self.version, verdict),
    {
        plan_uninstall(&self.version, verdict)
    }
}

/// An install that is not forced, run again on what the first run left,
/// ends as satisfied and changes nothing. What the second run finds is what
/// the first found where the first changed nothing, and some executable
/// where the first installed one.
pub proof fn install_twice_is_satisfied(
    version: SpecifiedVersion,
    first_verdict: ResolutionVerdict,
    second_verdict: ResolutionVerdict,
)
    requires
        version is Semantic,
        install_plan(version, first_verdict, false).mutates() ==> second_verdict is Found,
        !install_plan(version, first_verdict, false).mutates() ==> second_verdict == first_verdict,
    ensures
        install_plan(version, second_verdict, false) is AlreadySatisfied,
        !install_plan(version, second_verdict, false).mutates(),
        second_verdict matches ResolutionVerdict::Found(path, _) && install_plan(
            version,
            second_verdict,
            false,
        ) == InstallPlan::AlreadySatisfied(path),
{
}

/// Where an executable already satisfies the request, an install changes
/// the file system exactly where it is forced.
pub proof fn found_tool_is_overwritten_only_by_force(
    version: SpecifiedVersion,
    verdict: ResolutionVerdict,
    force: bool,
)
    requires
        version is Semantic,
        verdict is Found,
    ensures
        install_plan(version, verdict, force).mutates() == force,
{
}

/// An uninstall of a tool of which nothing was found changes nothing, and
/// is the state `AlreadySatisfied` where the version is semantic. No state
/// of an uninstall is an error.
pub proof fn uninstall_of_absent_changes_nothing(version: SpecifiedVersion)
    ensures
        !uninstall_plan(version, ResolutionVerdict::NotFound).mutates(),
        version is Semantic ==> uninstall_plan(version, ResolutionVerdict::NotFound)
            == UninstallPlan::AlreadySatisfied,
{
}

} // verus!
