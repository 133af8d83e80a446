//! The managed directory and what may be done to a link inside it.

use crate::text::{has_entry, is_entry};
use vstd::prelude::*;

verus! {

/// What the caller found out about the directory it was given.
#[derive(Clone, Debug, PartialEq, Eq)]
pub struct DirectoryFacts {
    /// The directory as the user wrote it.
    pub requested: String,
    /// Whether it exists on disk.
    pub exists: bool,
    /// Its canonical form, where that could be had.
    pub canonical: Option<String>,
    /// The entries of the executable search path of the process, in their
    /// order, where the path could be read.
    pub search_path: Option<Vec<String>>,
}

/// Why a run cannot go on.
#[derive(Clone, Debug, PartialEq, Eq)]
pub enum DirectoryError {
    /// The directory of this name does not exist.
    DoesNotExist(String),
    /// The directory of this name has no canonical form.
    NotCanonical(String),
    /// The executable search path cannot be read.
    SearchPathUnreadable,
}

/// The directory in which links are made and removed.
#[derive(Clone, Debug, PartialEq, Eq)]
pub struct ManagedDirectory {
    /// Its canonical path.
    pub path: String,
    /// Whether it is one of the entries of the search path. Where it is
    /// not, a link in the directory is not reachable by its bare name; that
    /// is worth a warning, no more.
    pub on_search_path: bool,
}

/// What lies at the place of a link.
#[derive(Clone, Copy, Debug, PartialEq, Eq, Structural)]
pub enum PathKind {
    Absent,
    Symlink,
    /// A regular file, a directory, or anything else that is no symlink.
    Other,
}

/// What an install does at the place of the link.
#[derive(Clone, Copy, Debug, PartialEq, Eq, Structural)]
pub enum LinkAction {
    /// Make the link: nothing is there.
    Create,
    /// Put the new link in place of the old one.
    Replace,
    /// Touch nothing: what is there is no link.
    Refuse,
}

/// What an uninstall does at the place of the link.
#[derive(Clone, Copy, Debug, PartialEq, Eq, Structural)]
pub enum RemovalAction {
    Remove,
    Nothing,
}

/// The outcome of the directory precondition on given facts.
pub open spec fn directory_outcome(facts: DirectoryFacts) -> Result<
    ManagedDirectory,
    DirectoryError,
> {
    if !facts.exists {
        Err(DirectoryError::DoesNotExist(facts.requested))
    } else if facts.canonical is None {
        Err(DirectoryError::NotCanonical(facts.requested))
    } else if facts.search_path is None {
        Err(DirectoryError::SearchPathUnreadable)
    } else {
        Ok(
            ManagedDirectory {
                path: facts.canonical->Some_0,
                on_search_path: is_entry(facts.canonical->Some_0@, facts.search_path->Some_0@),
            },
        )
    }
}

/// Checks the directory precondition: the directory must exist and have a
/// canonical form, and the search path must be readable. That the
/// directory is no entry of the search path is reported, not refused.
pub fn check_directory(facts: DirectoryFacts) -> (r: Result<ManagedDirectory, DirectoryError>)
    ensures
        r == directory_outcome(facts),
{
    let DirectoryFacts { requested, exists, canonical, search_path } = facts;
    if !exists {
        return Err(DirectoryError::DoesNotExist(requested));
    }
    match canonical {
        None => Err(DirectoryError::NotCanonical(requested)),
        Some(path) => match search_path {
            None => Err(DirectoryError::SearchPathUnreadable),
            Some(entries) => {
                let on_search_path = has_entry(&entries, &path);
                Ok(ManagedDirectory { path, on_search_path })
            },
        },
    }
}

/// What an install does at the place of the link.
pub open spec fn link_decision(existing: PathKind) -> LinkAction {
    match existing {
        PathKind::Absent => LinkAction::Create,
        PathKind::Symlink => LinkAction::Replace,
        PathKind::Other => LinkAction::Refuse,
    }
}

/// What an uninstall does at the place of the link.
pub open spec fn removal_decision(existing: PathKind) -> RemovalAction {
    match existing {
        PathKind::Symlink => RemovalAction::Remove,
        _ => RemovalAction::Nothing,
    }
}

impl LinkAction {
    /// True for the actions that change the file system.
    pub open spec fn mutates(self) -> bool {
        self == LinkAction::Create || self == LinkAction::Replace
    }
}

/// Decides what an install that is due does at the place of the link: it
/// makes the link where nothing is there, replaces an old link, and never
/// touches what is no link.
pub fn link_action(existing: PathKind) -> (r: LinkAction)
    ensures
        r == link_decision(existing),
{
    match existing {
        PathKind::Absent => LinkAction::Create,
        PathKind::Symlink => LinkAction::Replace,
        PathKind::Other => LinkAction::Refuse,
    }
}

/// Decides what an uninstall does at the place of the link: it removes a
/// link, and nothing else.
pub fn removal_action(existing: PathKind) -> (r: RemovalAction)
    ensures
        r == removal_decision(existing),
{
    match existing {
        PathKind::Symlink => RemovalAction::Remove,
        _ => RemovalAction::Nothing,
    }
}

/// An install replaces only what was a symlink, and an uninstall removes
/// only that; where something else lies at the place of the link, neither
/// changes anything.
pub proof fn overwrite_only_replaces_symlink(existing: PathKind)
    ensures
        link_decision(existing) == LinkAction::Replace <==> existing == PathKind::Symlink,
        existing == PathKind::Other ==> !link_decision(existing).mutates(),
        removal_decision(existing) == RemovalAction::Remove <==> existing == PathKind::Symlink,
{
}

} // verus!
