//! One run of an install or an uninstall, step by step: the caller performs
//! each action and hands back the event.

use crate::directory::{
    check_directory, directory_outcome, DirectoryError, DirectoryFacts, ManagedDirectory,
};
use crate::plan::{
    install_plan, uninstall_plan, InstallCommand, InstallPlan, UninstallCommand, UninstallPlan,
};
use crate::resolve::{
    path_of, resolution, Observation, ResolutionVerdict, Resolver, ResolverAction, ResolverEvent,
    ResolverState,
};
use crate::version::SpecifiedVersion;
use vstd::prelude::*;

verus! {

/// How a run ends.
#[derive(Clone, Debug, PartialEq, Eq)]
pub enum Outcome {
    /// Every tool reached its terminal state.
    Completed,
    /// The directory precondition failed.
    Failed(DirectoryError),
}

/// What is run.
#[derive(Clone, Debug, PartialEq, Eq)]
pub enum Command {
    Install(InstallCommand),
    Uninstall(UninstallCommand),
}

/// The terminal state of one tool.
#[derive(Clone, Debug, PartialEq, Eq)]
pub enum ToolPlan {
    Install(InstallPlan),
    Uninstall(UninstallPlan),
}

/// What the run waits for.
#[derive(Clone, Debug, PartialEq, Eq)]
pub enum Stage {
    /// The facts about the directory.
    Checking,
    /// The resolution of the tool at `index`.
    Resolving { index: usize, resolver: Resolver },
    /// The caller to carry out the plan for `tool`, the tool at `index`.
    Performing { index: usize, tool: String, plan: ToolPlan },
    /// Nothing: the run is over, with this outcome.
    Finished(Outcome),
}

/// What the caller reports back.
#[derive(Clone, Debug, PartialEq, Eq)]
pub enum SessionEvent {
    /// What it found out about the directory.
    Directory(DirectoryFacts),
    /// The outcome of a lookup or of a launch.
    Resolver(ResolverEvent),
    /// It has carried out the plan.
    Performed,
}

/// What the caller is to do next.
#[derive(Clone, Debug, PartialEq, Eq)]
pub enum SessionAction {
    /// Find out whether the directory exists, its canonical form, and the
    /// executable search path.
    CheckDirectory,
    /// Look a name up or launch a candidate.
    Resolve(ResolverAction),
    /// Carry out the plan for this tool.
    Perform { tool: String, plan: ToolPlan },
    /// End the run with this outcome.
    Finish(Outcome),
}

/// A run and where it stands.
#[derive(Clone, Debug, PartialEq, Eq)]
pub struct Session {
    pub command: Command,
    /// The managed directory, once it was checked.
    pub directory: Option<ManagedDirectory>,
    pub stage: Stage,
}

impl ToolPlan {
    /// True for the states in which the file system is changed.
    pub open spec fn mutates(self) -> bool {
        match self {
            ToolPlan::Install(plan) => plan.mutates(),
            ToolPlan::Uninstall(plan) => plan.mutates(),
        }
    }

    /// A copy of the plan.
    pub fn copy(&self) -> (r: ToolPlan)
        ensures
            r == *self,
    {
        match self {
            ToolPlan::Install(plan) => ToolPlan::Install(plan.copy()),
            ToolPlan::Uninstall(plan) => ToolPlan::Uninstall(plan.copy()),
        }
    }
}

impl Command {
    /// The tools of the command, in their order.
    pub open spec fn tools(self) -> Seq<String> {
        match self {
            Command::Install(c) => c.tool@,
            Command::Uninstall(c) => c.tool@,
        }
    }

    /// The version that the command asks for.
    pub open spec fn version(self) -> SpecifiedVersion {
        match self {
            Command::Install(c) => c.version,
            Command::Uninstall(c) => c.version,
        }
    }

    /// The terminal state of a tool with this verdict.
    pub open spec fn plan_for(self, verdict: ResolutionVerdict) -> ToolPlan {
        match self {
            Command::Install(c) => ToolPlan::Install(install_plan(c.version, verdict, c.force)),
            Command::Uninstall(c) => ToolPlan::Uninstall(uninstall_plan(c.version, verdict)),
        }
    }

    /// The stage in which the tool at `index` is taken up: its resolution
    /// from the start, or the end of the run where no tool is left.
    pub open spec fn entering(self, index: int) -> Stage {
        if 0 <= index < self.tools().len() && self.version().requested_major() is Some {
            Stage::Resolving {
                index: index as usize,
                resolver: Resolver::initial(
                    self.tools()[index],
                    self.version().requested_major()->Some_0,
                ),
            }
        } else {
            Stage::Finished(Outcome::Completed)
        }
    }

    fn tool_list(&self) -> (r: &Vec<String>)
        ensures
            r@ == self.tools(),
    {
        match self {
            Command::Install(c) => &c.tool,
            Command::Uninstall(c) => &c.tool,
        }
    }

    fn requested(&self) -> (r: &SpecifiedVersion)
        ensures
            *r == self.version(),
    {
        match self {
            Command::Install(c) => &c.version,
            Command::Uninstall(c) => &c.version,
        }
    }

    fn plan(&self, verdict: ResolutionVerdict) -> (r: ToolPlan)
        ensures
            r == self.plan_for(verdict),
    {
        match self {
            Command::Install(c) => ToolPlan::Install(c.plan(verdict)),
            Command::Uninstall(c) => ToolPlan::Uninstall(c.plan(verdict)),
        }
    }

    fn enter(&self, index: usize) -> (r: Stage)
        ensures
            r == self.entering(index as int),
    {
        let tools = self.tool_list();
        match self.requested().major() {
            Some(major) => if index < tools.len() {
                Stage::Resolving { index, resolver: Resolver::start(tools[index].clone(), major) }
            } else {
                Stage::Finished(Outcome::Completed)
            },
            None => Stage::Finished(Outcome::Completed),
        }
    }
}

impl Session {
    /// The run at its start. With an opaque version it is over at once, and
    /// a success; else the directory is checked first.
    pub open spec fn initial(command: Command) -> Session {
        Session {
            command,
            directory: None,
            stage: if command.version().requested_major() is None {
                Stage::Finished(Outcome::Completed)
            } else {
                Stage::Checking
            },
        }
    }

    /// The run after an event. A directory that fails its precondition ends
    /// the run with the error; else the tools are taken up in their order,
    /// each resolved and then its plan carried out. An event that the stage
    /// does not wait for changes nothing.
    pub open spec fn next(self, event: SessionEvent) -> Session {
        match (self.stage, event) {
            (Stage::Checking, SessionEvent::Directory(facts)) => match directory_outcome(facts) {
                Err(error) => Session {
                    command: self.command,
                    directory: None,
                    stage: Stage::Finished(Outcome::Failed(error)),
                },
                Ok(directory) => Session {
                    command: self.command,
                    directory: Some(directory),
                    stage: self.command.entering(0),
                },
            },
            (Stage::Resolving { index, resolver }, SessionEvent::Resolver(event)) => {
                let resolver = resolver.next(event);
                Session {
                    command: self.command,
                    directory: self.directory,
                    stage: match resolver.state {
                        ResolverState::Done(verdict) => Stage::Performing {
                            index,
                            tool: resolver.tool,
                            plan: self.command.plan_for(verdict),
                        },
                        _ => Stage::Resolving { index, resolver },
                    },
                }
            },
            (Stage::Performing { index, .. }, SessionEvent::Performed) => Session {
                command: self.command,
                directory: self.directory,
                stage: self.command.entering(index + 1),
            },
            _ => self,
        }
    }

    /// The run after the lookup and, where something was found, the launch
    /// under one naming convention.
    pub open spec fn after_round(self, seen: Option<Observation>) -> Session {
        let located = self.next(SessionEvent::Resolver(ResolverEvent::Located(path_of(seen))));
        match seen {
            Some(o) => located.next(SessionEvent::Resolver(ResolverEvent::Probed(o.output))),
            None => located,
        }
    }

    /// The run after the versioned name was tried for the present tool
    /// and, where that gave no verdict, the bare name.
    pub open spec fn after_rounds(
        self,
        versioned: Option<Observation>,
        bare: Option<Observation>,
    ) -> Session {
        let first = self.after_round(versioned);
        if first.stage is Performing {
            first
        } else {
            first.after_round(bare)
        }
    }

    /// The run after each of the tools from the present one on was
    /// resolved from what was observed of it, and its plan carried out.
    pub open spec fn after_tools(
        self,
        observed: Seq<(Option<Observation>, Option<Observation>)>,
    ) -> Session
        decreases observed.len(),
    {
        if observed.len() == 0 {
            self
        } else {
            self.after_rounds(observed[0].0, observed[0].1).next(
                SessionEvent::Performed,
            ).after_tools(observed.drop_first())
        }
    }

    /// True where `action` is what the caller is to do at the present stage.
    pub open spec fn asks(self, action: SessionAction) -> bool {
        match self.stage {
            Stage::Checking => action == SessionAction::CheckDirectory,
            Stage::Resolving { resolver, .. } => action matches SessionAction::Resolve(inner)
                && resolver.asks(inner),
            Stage::Performing { tool, plan, .. } => action == (SessionAction::Perform {
                tool,
                plan,
            }),
            Stage::Finished(outcome) => action == SessionAction::Finish(outcome),
        }
    }

    /// Starts a run.
    pub fn start(command: Command) -> (r: Session)
        ensures
            r == Session::initial(command),
    {
        let stage = if command.requested().is_opaque() {
            Stage::Finished(Outcome::Completed)
        } else {
            Stage::Checking
        };
        Session { command, directory: None, stage }
    }

    /// What the caller is to do at the present stage.
    pub fn action(&self) -> (r: SessionAction)
        ensures
            self.asks(r),
    {
        match &self.stage {
            Stage::Checking => SessionAction::CheckDirectory,
            Stage::Resolving { resolver, .. } => SessionAction::Resolve(resolver.action()),
            Stage::Performing { tool, plan, .. } => SessionAction::Perform {
                tool: tool.clone(),
                plan: plan.copy(),
            },
            Stage::Finished(outcome) => SessionAction::Finish(
                match outcome {
                    Outcome::Completed => Outcome::Completed,
                    Outcome::Failed(error) => Outcome::Failed(copy_error(error)),
                },
            ),
        }
    }

    /// Takes an event and moves to the next stage.
    pub fn step(self, event: SessionEvent) -> (r: Session)
        ensures
            r == self.next(event),
    {
        let Session { command, directory, stage } = self;
        match (stage, event) {
            (Stage::Checking, SessionEvent::Directory(facts)) => match check_directory(facts) {
                Err(error) => Session { command, directory: None, stage: Stage::Finished(Outcome::Failed(error)) },
                Ok(checked) => {
                    let stage = command.enter(0);
                    Session { command, directory: Some(checked), stage }
                },
            },
            (Stage::Resolving { index, resolver }, SessionEvent::Resolver(event)) => {
                let Resolver { tool, major, state } = resolver.step(event);
                let stage = match state {
                    ResolverState::Done(verdict) => Stage::Performing {
                        index,
                        tool,
                        plan: command.plan(verdict),
                    },
                    state => Stage::Resolving { index, resolver: Resolver { tool, major, state } },
                };
                Session { command, directory, stage }
            },
            (Stage::Performing { index, .. }, SessionEvent::Performed) => {
                let stage = if index < command.tool_list().len() {
                    command.enter(index + 1)
                } else {
                    Stage::Finished(Outcome::Completed)
                };
                Session { command, directory, stage }
            },
            (stage, _) => Session { command, directory, stage },
        }
    }

    /// True once the run is over.
    pub fn is_finished(&self) -> (r: bool)
        ensures
            r == (self.stage is Finished),
    {
        match &self.stage {
            Stage::Finished(_) => true,
            _ => false,
        }
    }
}

/// A copy of an error.
fn copy_error(error: &DirectoryError) -> (r: DirectoryError)
    ensures
        r == *error,
{
    match error {
        DirectoryError::DoesNotExist(name) => DirectoryError::DoesNotExist(name.clone()),
        DirectoryError::NotCanonical(name) => DirectoryError::NotCanonical(name.clone()),
        DirectoryError::SearchPathUnreadable => DirectoryError::SearchPathUnreadable,
    }
}

/// A run with a semantic version starts by checking the directory, and
/// where the directory does not exist it ends there with that error: no
/// lookup and no launch is ever asked for.
pub proof fn missing_directory_ends_run(command: Command, facts: DirectoryFacts)
    requires
        command.version() is Semantic,
        !facts.exists,
    ensures
        Session::initial(command).stage == Stage::Checking,
        forall|action: SessionAction| #[trigger]
            Session::initial(command).asks(action) ==> action == SessionAction::CheckDirectory,
        Session::initial(command).next(SessionEvent::Directory(facts)).stage == Stage::Finished(
            Outcome::Failed(DirectoryError::DoesNotExist(facts.requested)),
        ),
        forall|event: SessionEvent|
            (#[trigger] Session::initial(command).next(SessionEvent::Directory(facts)).next(event))
                == Session::initial(command).next(SessionEvent::Directory(facts)),
{
}

/// A run with an opaque version is over before it starts, and a success,
/// whatever the directory.
pub proof fn opaque_version_ends_run(command: Command)
    requires
        command.version() is Path,
    ensures
        Session::initial(command).stage == Stage::Finished(Outcome::Completed),
        forall|event: SessionEvent| #[trigger]
            Session::initial(command).next(event) == Session::initial(command),
{
}

/// Each tool is resolved by itself: from the stage in which a tool is
/// taken up, what is observed of its two names leads to the plan that the
/// command makes of the verdict on those observations, whatever came before.
pub proof fn tool_reaches_its_plan(
    command: Command,
    directory: Option<ManagedDirectory>,
    index: usize,
    versioned: Option<Observation>,
    bare: Option<Observation>,
)
    requires
        index < command.tools().len(),
        command.version() is Semantic,
    ensures
        (Session { command, directory, stage: command.entering(index as int) }).after_rounds(
            versioned,
            bare,
        ) == (Session {
            command,
            directory,
            stage: Stage::Performing {
                index,
                tool: command.tools()[index as int],
                plan: command.plan_for(
                    resolution(command.version().requested_major()->Some_0, versioned, bare),
                ),
            },
        }),
{
}

/// A command's list of tools is no longer than a machine word can count.
proof fn tools_fit(command: Command)
    ensures
        command.tools().len() <= usize::MAX,
{
    match command {
        Command::Install(c) => {
            assert(c.tool@.len() == c.tool.len());
        },
        Command::Uninstall(c) => {
            assert(c.tool@.len() == c.tool.len());
        },
    }
}

/// From the stage in which the tool at `index` is taken up, resolving that
/// tool and each one after it, and carrying out their plans, ends the run
/// as completed, whatever was observed.
pub proof fn remaining_tools_complete_run(
    command: Command,
    directory: Option<ManagedDirectory>,
    index: usize,
    observed: Seq<(Option<Observation>, Option<Observation>)>,
)
    requires
        command.version() is Semantic,
        index + observed.len() == command.tools().len(),
    ensures
        (Session { command, directory, stage: command.entering(index as int) }).after_tools(
            observed,
        ) == (Session { command, directory, stage: Stage::Finished(Outcome::Completed) }),
    decreases observed.len(),
{
    if observed.len() > 0 {
        tools_fit(command);
        tool_reaches_its_plan(command, directory, index, observed[0].0, observed[0].1);
        remaining_tools_complete_run(
            command,
            directory,
            (index + 1) as usize,
            observed.drop_first(),
        );
    }
}

/// A run with a semantic version whose directory passes its precondition
/// ends as completed once every tool was resolved and its plan carried out:
/// no verdict and no plan makes a run fail.
pub proof fn run_completes(
    command: Command,
    facts: DirectoryFacts,
    observed: Seq<(Option<Observation>, Option<Observation>)>,
)
    requires
        command.version() is Semantic,
        directory_outcome(facts) is Ok,
        observed.len() == command.tools().len(),
    ensures
        Session::initial(command).next(SessionEvent::Directory(facts)).after_tools(observed).stage
            == Stage::Finished(Outcome::Completed),
{
    remaining_tools_complete_run(command, Some(directory_outcome(facts)->Ok_0), 0, observed);
}

/// The only outcome of a run that is an error is a failed directory
/// precondition: once a directory passed, no event leads to an error.
pub proof fn only_the_directory_fails(session: Session, event: SessionEvent)
    requires
        !(session.stage is Checking),
        !(session.stage matches Stage::Finished(Outcome::Failed(_))),
    ensures
        !(session.next(event).stage matches Stage::Finished(Outcome::Failed(_))),
        !(session.next(event).stage is Checking),
{
}

} // verus!
