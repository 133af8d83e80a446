//! The verdict on one tool: which executable, if any, satisfies the
//! requested major version.

use crate::probe::{
    accepts, reading, satisfies, CandidateExecutable, Convention, ProbedVersion,
};
use crate::text::{versioned_name, versioned_name_of};
use crate::version::Version;
use vstd::prelude::*;

verus! {

/// The answer for one tool.
#[derive(Clone, Debug, PartialEq, Eq)]
pub enum ResolutionVerdict {
    /// The executable at this path reports this version, whose major number
    /// is the requested one.
    Found(String, Version),
    NotFound,
}

/// What was observed of one naming convention: where the executable lies,
/// and what it printed when launched (`None` where the launch failed).
#[derive(Clone, Debug, PartialEq, Eq)]
pub struct Observation {
    pub path: String,
    pub output: Option<String>,
}

/// What the resolver waits for.
#[derive(Clone, Debug, PartialEq, Eq)]
pub enum ResolverState {
    /// The outcome of a search-path lookup under this convention.
    Locating(Convention),
    /// The output of this candidate.
    Probing(CandidateExecutable),
    /// Nothing: the verdict is reached.
    Done(ResolutionVerdict),
}

/// What the caller reports back.
#[derive(Clone, Debug, PartialEq, Eq)]
pub enum ResolverEvent {
    /// The lookup found this path, or nothing.
    Located(Option<String>),
    /// The candidate printed this, or could not be launched.
    Probed(Option<String>),
}

/// What the caller is to do next.
#[derive(Clone, Debug, PartialEq, Eq)]
pub enum ResolverAction {
    /// Look this name up on the executable search path.
    Locate(String),
    /// Launch the executable at this path, asking for its version.
    Probe(String),
    /// Take the verdict.
    Finish,
}

/// Resolves one tool step by step: the caller performs each action and
/// hands back the event.
#[derive(Clone, Debug, PartialEq, Eq)]
pub struct Resolver {
    pub tool: String,
    pub major: u64,
    pub state: ResolverState,
}

/// Where the resolver turns when a convention yields no match: from the
/// versioned name to the bare name, from the bare name to `NotFound`.
pub open spec fn after_miss(via: Convention) -> ResolverState {
    match via {
        Convention::VersionedName => ResolverState::Locating(Convention::BareName),
        Convention::BareName => ResolverState::Done(ResolutionVerdict::NotFound),
    }
}

/// The path of an observed executable, if there is one.
pub open spec fn path_of(seen: Option<Observation>) -> Option<String> {
    match seen {
        Some(o) => Some(o.path),
        None => None,
    }
}

/// The verdict that one observation supports for `major`, if it supports one.
pub open spec fn match_of(major: u64, seen: Option<Observation>) -> Option<ResolutionVerdict> {
    match seen {
        Some(o) => if satisfies(reading(o.output), major) {
            Some(ResolutionVerdict::Found(o.path, reading(o.output)->Some_0))
        } else {
            None
        },
        None => None,
    }
}

/// The verdict for `major`: the versioned name where it matches, else the
/// bare name where it matches, else `NotFound`.
pub open spec fn resolution(
    major: u64,
    versioned: Option<Observation>,
    bare: Option<Observation>,
) -> ResolutionVerdict {
    match match_of(major, versioned) {
        Some(verdict) => verdict,
        None => match match_of(major, bare) {
            Some(verdict) => verdict,
            None => ResolutionVerdict::NotFound,
        },
    }
}

impl Resolver {
    /// The resolver at its start for a tool and a major version.
    pub open spec fn initial(tool: String, major: u64) -> Resolver {
        Resolver { tool, major, state: ResolverState::Locating(Convention::VersionedName) }
    }

    /// The resolver after an event. An event that the state does not wait
    /// for changes nothing.
    pub open spec fn next(self, event: ResolverEvent) -> Resolver {
        let state = match (self.state, event) {
            (ResolverState::Locating(via), ResolverEvent::Located(Some(path))) => {
                ResolverState::Probing(
                    CandidateExecutable { tool_name: self.tool, path, discovered_via: via },
                )
            },
            (ResolverState::Locating(via), ResolverEvent::Located(None)) => after_miss(via),
            (ResolverState::Probing(candidate), ResolverEvent::Probed(output)) => {
                if satisfies(reading(output), self.major) {
                    ResolverState::Done(
                        ResolutionVerdict::Found(candidate.path, reading(output)->Some_0),
                    )
                } else {
                    after_miss(candidate.discovered_via)
                }
            },
            _ => self.state,
        };
        Resolver { tool: self.tool, major: self.major, state }
    }

    /// The resolver after the lookup and, where something was found, the
    /// launch under one naming convention.
    pub open spec fn after_round(self, seen: Option<Observation>) -> Resolver {
        let located = self.next(ResolverEvent::Located(path_of(seen)));
        match seen {
            Some(o) => located.next(ResolverEvent::Probed(o.output)),
            None => located,
        }
    }

    /// The resolver after the versioned name was tried and, where that gave
    /// no verdict, the bare name.
    pub open spec fn after_rounds(
        self,
        versioned: Option<Observation>,
        bare: Option<Observation>,
    ) -> Resolver {
        let first = self.after_round(versioned);
        if first.state is Done {
            first
        } else {
            first.after_round(bare)
        }
    }

    /// Starts the resolution of `tool` at `major`.
    pub fn start(tool: String, major: u64) -> (r: Resolver)
        ensures
            r == Resolver::initial(tool, major),
    {
        Resolver { tool, major, state: ResolverState::Locating(Convention::VersionedName) }
    }

    /// True where `action` is what the caller is to do in the present
    /// state: look up the versioned name, then the bare name; launch a
    /// candidate that was found; take the verdict at the end.
    pub open spec fn asks(self, action: ResolverAction) -> bool {
        match self.state {
            ResolverState::Locating(Convention::VersionedName) => action matches ResolverAction::Locate(
                name,
            ) && name@ == versioned_name_of(self.tool@, self.major),
            ResolverState::Locating(Convention::BareName) => action == ResolverAction::Locate(
                self.tool,
            ),
            ResolverState::Probing(candidate) => action == ResolverAction::Probe(candidate.path),
            ResolverState::Done(_) => action == ResolverAction::Finish,
        }
    }

    /// What the caller is to do in the present state.
    pub fn action(&self) -> (r: ResolverAction)
        ensures
            self.asks(r),
    {
        match &self.state {
            ResolverState::Locating(Convention::VersionedName) => ResolverAction::Locate(
                versioned_name(self.tool.as_str(), self.major),
            ),
            ResolverState::Locating(Convention::BareName) => ResolverAction::Locate(
                self.tool.clone(),
            ),
            ResolverState::Probing(candidate) => ResolverAction::Probe(candidate.path.clone()),
            ResolverState::Done(_) => ResolverAction::Finish,
        }
    }

    /// Takes an event and moves to the next state.
    pub fn step(self, event: ResolverEvent) -> (r: Resolver)
        ensures
            r == self.next(event),
    {
        let Resolver { tool, major, state } = self;
        let state = match (state, event) {
            (ResolverState::Locating(via), ResolverEvent::Located(Some(path))) => {
                ResolverState::Probing(
                    CandidateExecutable { tool_name: tool.clone(), path, discovered_via: via },
                )
            },
            (ResolverState::Locating(via), ResolverEvent::Located(None)) => turn(via),
            (ResolverState::Probing(candidate), ResolverEvent::Probed(output)) => {
                let via = candidate.discovered_via;
                match ProbedVersion::probe(candidate, output) {
                    Some(probed) => {
                        let version = probed.version();
                        if accepts(Some(version), major) {
                            ResolverState::Done(
                                ResolutionVerdict::Found(probed.candidate.path, version),
                            )
                        } else {
                            turn(via)
                        }
                    },
                    None => turn(via),
                }
            },
            (state, _) => state,
        };
        Resolver { tool, major, state }
    }

    /// True once the verdict is reached.
    pub fn is_done(&self) -> (r: bool)
        ensures
            r == (self.state is Done),
    {
        match &self.state {
            ResolverState::Done(_) => true,
            _ => false,
        }
    }

    /// The verdict, once it is reached.
    pub fn verdict(self) -> (r: Option<ResolutionVerdict>)
        ensures
            match self.state {
                ResolverState::Done(verdict) => r == Some(verdict),
                _ => r is None,
            },
    {
        match self.state {
            ResolverState::Done(verdict) => Some(verdict),
            _ => None,
        }
    }

    /// Runs the lookup and launch of one convention from what was observed.
    fn round(self, seen: Option<Observation>) -> (r: Resolver)
        ensures
            r == self.after_round(seen),
    {
        match seen {
            Some(o) => {
                let Observation { path, output } = o;
                self.step(ResolverEvent::Located(Some(path))).step(ResolverEvent::Probed(output))
            },
            None => self.step(ResolverEvent::Located(None)),
        }
    }
}

/// The state after a convention yields no match.
fn turn(via: Convention) -> (r: ResolverState)
    ensures
        r == after_miss(via),
{
    match via {
        Convention::VersionedName => ResolverState::Locating(Convention::BareName),
        Convention::BareName => ResolverState::Done(ResolutionVerdict::NotFound),
    }
}

/// Stepping a fresh resolver through what was observed of the two naming
/// conventions, versioned name first, ends in the verdict `resolution`.
pub proof fn rounds_reach_resolution(
    tool: String,
    major: u64,
    versioned: Option<Observation>,
    bare: Option<Observation>,
)
    ensures
        Resolver::initial(tool, major).after_rounds(versioned, bare).state
            == ResolverState::Done(resolution(major, versioned, bare)),
{
}

/// A candidate that cannot be launched, or whose output reports no version,
/// counts as no candidate at all, under either naming convention.
pub proof fn unreadable_counts_as_absent(
    major: u64,
    unreadable: Observation,
    other: Option<Observation>,
)
    requires
        reading(unreadable.output) is None,
    ensures
        resolution(major, Some(unreadable), other) == resolution(major, None, other),
        resolution(major, other, Some(unreadable)) == resolution(major, other, None),
{
}

/// A verdict `Found` always carries a version of the requested major number,
/// read from the output of the executable that it names.
pub proof fn found_has_requested_major(
    major: u64,
    versioned: Option<Observation>,
    bare: Option<Observation>,
)
    ensures
        match resolution(major, versioned, bare) {
            ResolutionVerdict::Found(path, version) => version.major == major && ((versioned
                matches Some(o) && o.path == path && reading(o.output) == Some(version)) || (bare
                matches Some(o) && o.path == path && reading(o.output) == Some(version))),
            ResolutionVerdict::NotFound => !satisfies(reading_of(versioned), major) && !satisfies(
                reading_of(bare),
                major,
            ),
        },
{
}

/// What an observed executable reports, if there is one and it reports
/// anything.
pub open spec fn reading_of(seen: Option<Observation>) -> Option<Version> {
    match seen {
        Some(o) => reading(o.output),
        None => None,
    }
}

/// Resolves a tool from what was observed of both naming conventions.
pub fn resolve(
    tool: String,
    major: u64,
    versioned: Option<Observation>,
    bare: Option<Observation>,
) -> (r: ResolutionVerdict)
    ensures
        r == resolution(major, versioned, bare),
{
    let first = Resolver::start(tool, major).round(versioned);
    let last = if first.is_done() {
        first
    } else {
        first.round(bare)
    };
    proof {
        rounds_reach_resolution(tool, major, versioned, bare);
    }
    match last.verdict() {
        Some(verdict) => verdict,
        None => ResolutionVerdict::NotFound,
    }
}

} // verus!
