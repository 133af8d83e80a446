use clang_tools_installer::probe::{CandidateExecutable, Convention};
use clang_tools_installer::resolve::{
    resolve, Observation, ResolutionVerdict, Resolver, ResolverAction, ResolverEvent,
    ResolverState,
};
use clang_tools_installer::version::Version;

fn seen(path: &str, output: Option<&str>) -> Option<Observation> {
    Some(Observation { path: path.to_string(), output: output.map(|o| o.to_string()) })
}

fn tool() -> String {
    "clang-format".to_string()
}

#[test]
fn matching_binary_is_found() {
    let verdict = resolve(
        tool(),
        18,
        seen("/usr/bin/clang-format-18", Some("clang-format version 18.1.3")),
        None,
    );
    assert_eq!(
        verdict,
        ResolutionVerdict::Found("/usr/bin/clang-format-18".to_string(), Version::new(18, 1, 3))
    );
}

#[test]
fn other_major_is_not_found() {
    let verdict = resolve(
        tool(),
        17,
        None,
        seen("/usr/bin/clang-format", Some("clang-format version 18.1.3")),
    );
    assert_eq!(verdict, ResolutionVerdict::NotFound);
}

#[test]
fn bare_name_is_verified_too() {
    let verdict = resolve(
        tool(),
        18,
        None,
        seen("/usr/bin/clang-format", Some("clang-format version 18.1.3")),
    );
    assert_eq!(
        verdict,
        ResolutionVerdict::Found("/usr/bin/clang-format".to_string(), Version::new(18, 1, 3))
    );
}

#[test]
fn versioned_name_wins() {
    let verdict = resolve(
        tool(),
        18,
        seen("/usr/bin/clang-format-18", Some("clang-format version 18.1.8")),
        seen("/usr/bin/clang-format", Some("clang-format version 18.1.3")),
    );
    assert_eq!(
        verdict,
        ResolutionVerdict::Found("/usr/bin/clang-format-18".to_string(), Version::new(18, 1, 8))
    );
}

#[test]
fn mismatched_versioned_name_falls_back() {
    let verdict = resolve(
        tool(),
        14,
        seen("/usr/bin/clang-format-14", Some("clang-format version 15.0.0")),
        seen("/usr/bin/clang-format", Some("clang-format version 14.0.6")),
    );
    assert_eq!(
        verdict,
        ResolutionVerdict::Found("/usr/bin/clang-format".to_string(), Version::new(14, 0, 6))
    );
}

#[test]
fn nothing_on_the_path() {
    assert_eq!(resolve(tool(), 18, None, None), ResolutionVerdict::NotFound);
}

#[test]
fn unreadable_binary_counts_as_absent() {
    let other = seen("/usr/bin/clang-format", Some("clang-format version 18.1.3"));
    for output in [None, Some(""), Some("clang-format 18.1.3"), Some("version 18")] {
        let unreadable = seen("/usr/bin/clang-format-18", output);
        assert_eq!(
            resolve(tool(), 18, unreadable.clone(), other.clone()),
            resolve(tool(), 18, None, other.clone())
        );
        assert_eq!(
            resolve(tool(), 18, unreadable.clone(), None),
            ResolutionVerdict::NotFound
        );
        assert_eq!(resolve(tool(), 18, None, unreadable), ResolutionVerdict::NotFound);
    }
}

#[test]
fn majors_resolve_independently() {
    let v14 = seen("/usr/bin/clang-format-14", Some("clang-format version 14.0.6"));
    let v18 = seen("/usr/bin/clang-format-18", Some("clang-format version 18.1.3"));
    let bare = seen("/usr/bin/clang-format", Some("clang-format version 18.1.3"));
    assert_eq!(
        resolve(tool(), 14, v14, bare.clone()),
        ResolutionVerdict::Found("/usr/bin/clang-format-14".to_string(), Version::new(14, 0, 6))
    );
    assert_eq!(
        resolve(tool(), 18, v18, bare),
        ResolutionVerdict::Found("/usr/bin/clang-format-18".to_string(), Version::new(18, 1, 3))
    );
}

#[test]
fn resolver_asks_for_versioned_name_first() {
    let r = Resolver::start("clang-tidy".to_string(), 18);
    assert_eq!(r.state, ResolverState::Locating(Convention::VersionedName));
    assert_eq!(r.action(), ResolverAction::Locate("clang-tidy-18".to_string()));
    assert!(!r.is_done());
    assert_eq!(r.verdict(), None);
}

#[test]
fn resolver_walks_both_conventions() {
    let r = Resolver::start("clang-tidy".to_string(), 18);
    let r = r.step(ResolverEvent::Located(Some("/usr/bin/clang-tidy-18".to_string())));
    assert_eq!(
        r.state,
        ResolverState::Probing(CandidateExecutable {
            tool_name: "clang-tidy".to_string(),
            path: "/usr/bin/clang-tidy-18".to_string(),
            discovered_via: Convention::VersionedName,
        })
    );
    assert_eq!(r.action(), ResolverAction::Probe("/usr/bin/clang-tidy-18".to_string()));
    let r = r.step(ResolverEvent::Probed(Some("LLVM version 17.0.1".to_string())));
    assert_eq!(r.state, ResolverState::Locating(Convention::BareName));
    assert_eq!(r.action(), ResolverAction::Locate("clang-tidy".to_string()));
    let r = r.step(ResolverEvent::Located(Some("/usr/bin/clang-tidy".to_string())));
    assert_eq!(r.action(), ResolverAction::Probe("/usr/bin/clang-tidy".to_string()));
    let r = r.step(ResolverEvent::Probed(Some("LLVM version 18.1.3".to_string())));
    assert!(r.is_done());
    assert_eq!(r.action(), ResolverAction::Finish);
    assert_eq!(
        r.verdict(),
        Some(ResolutionVerdict::Found("/usr/bin/clang-tidy".to_string(), Version::new(18, 1, 3)))
    );
}

#[test]
fn resolver_stops_at_first_match() {
    let r = Resolver::start("clang-tidy".to_string(), 18)
        .step(ResolverEvent::Located(Some("/usr/bin/clang-tidy-18".to_string())))
        .step(ResolverEvent::Probed(Some("LLVM version 18.1.3".to_string())));
    assert!(r.is_done());
    assert_eq!(r.action(), ResolverAction::Finish);
}

#[test]
fn resolver_ends_not_found() {
    let r = Resolver::start("clang-tidy".to_string(), 18)
        .step(ResolverEvent::Located(None))
        .step(ResolverEvent::Located(None));
    assert_eq!(r.state, ResolverState::Done(ResolutionVerdict::NotFound));
    assert_eq!(r.verdict(), Some(ResolutionVerdict::NotFound));
}

#[test]
fn resolver_launch_failure_moves_on() {
    let r = Resolver::start("clang-tidy".to_string(), 18)
        .step(ResolverEvent::Located(None))
        .step(ResolverEvent::Located(Some("/usr/bin/clang-tidy".to_string())))
        .step(ResolverEvent::Probed(None));
    assert_eq!(r.verdict(), Some(ResolutionVerdict::NotFound));
}

#[test]
fn resolver_ignores_unexpected_events() {
    let start = Resolver::start("clang-tidy".to_string(), 18);
    let same = start.clone().step(ResolverEvent::Probed(Some("version 18.1.3".to_string())));
    assert_eq!(same, start);
    let probing = start.step(ResolverEvent::Located(Some("/bin/clang-tidy-18".to_string())));
    let same = probing.clone().step(ResolverEvent::Located(None));
    assert_eq!(same, probing);
    let done = probing.step(ResolverEvent::Probed(Some("version 18.1.3".to_string())));
    let same = done.clone().step(ResolverEvent::Located(None));
    assert_eq!(same, done);
    let same = done.clone().step(ResolverEvent::Probed(None));
    assert_eq!(same, done);
}

#[test]
fn same_binary_serves_its_own_major_only() {
    let binary = seen("/usr/bin/clang-format", Some("clang-format version 18.1.3"));
    assert_eq!(
        resolve(tool(), 18, None, binary.clone()),
        ResolutionVerdict::Found("/usr/bin/clang-format".to_string(), Version::new(18, 1, 3))
    );
    assert_eq!(resolve(tool(), 17, None, binary.clone()), ResolutionVerdict::NotFound);
    assert_eq!(resolve(tool(), 17, binary.clone(), binary), ResolutionVerdict::NotFound);
}
