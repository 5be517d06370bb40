use vstd::prelude::*;
use core::cmp::Ordering;
use crate::version::{Version, VersionView, precedes, prerelease_order};

verus! {

/// The outcome of comparing the installed and the published version.
#[derive(Clone, Copy, Debug, PartialEq, Eq, Structural)]
pub enum UpdateDecision {
    UpToDate,
    UpdateAvailable,
}

/// An update is due exactly when the installed version ranks strictly below
/// the published one; an equal or newer local version is up to date.
pub fn decide(installed: &Version, published: &Version) -> (r: UpdateDecision)
    ensures
        r == UpdateDecision::UpdateAvailable <==> precedes(installed@, published@),
{
    if installed.is_older_than(published) {
        UpdateDecision::UpdateAvailable
    } else {
        UpdateDecision::UpToDate
    }
}

/// `a < b` under semantic-version precedence is field-wise comparison:
/// major, then minor, then patch, then the pre-release tag.
pub proof fn lemma_precedence_fieldwise(a: VersionView, b: VersionView)
    ensures
        precedes(a, b) <==> {
            ||| a.major < b.major
            ||| a.major == b.major && a.minor < b.minor
            ||| a.major == b.major && a.minor == b.minor && a.patch < b.patch
            ||| a.major == b.major && a.minor == b.minor && a.patch == b.patch
                && prerelease_order(a.pre, b.pre) == Ordering::Less
        },
{
}

/// A working stage of a run.
#[derive(Clone, Copy, Debug, PartialEq, Eq, Structural)]
pub enum Phase {
    CheckingVersions,
    Downloading,
    Extracting,
    Materializing,
    Activating,
}

/// Where a run stands.
#[derive(Clone, Copy, Debug, PartialEq, Eq, Structural)]
pub enum Stage {
    Idle,
    Working(Phase),
    UpToDate,
    Done,
    Failed(Phase),
}

/// What the outside world reports to a run.
#[derive(Clone, Copy, Debug, PartialEq, Eq, Structural)]
pub enum Event {
    /// The run begins.
    Start,
    /// Both versions were resolved and compared.
    Decided(UpdateDecision),
    /// The current working stage finished.
    Succeeded,
    /// The current working stage failed.
    Failed,
}

/// The stage that follows a working stage that succeeded.
pub open spec fn after(p: Phase) -> Stage {
    match p {
        Phase::CheckingVersions => Stage::Working(Phase::CheckingVersions),
        Phase::Downloading => Stage::Working(Phase::Extracting),
        Phase::Extracting => Stage::Working(Phase::Materializing),
        Phase::Materializing => Stage::Working(Phase::Activating),
        Phase::Activating => Stage::Done,
    }
}

/// The transition table of a run. Checking the versions ends in `UpToDate`
/// or starts the download; each later stage hands over to the next in a
/// fixed order; any failure ends the run in the stage where it happened.
/// Events that do not fit the stage change nothing.
pub open spec fn next_stage(s: Stage, e: Event) -> Stage {
    match (s, e) {
        (Stage::Idle, Event::Start) => Stage::Working(Phase::CheckingVersions),
        (Stage::Working(Phase::CheckingVersions), Event::Decided(d)) => match d {
            UpdateDecision::UpToDate => Stage::UpToDate,
            UpdateDecision::UpdateAvailable => Stage::Working(Phase::Downloading),
        },
        (Stage::Working(p), Event::Succeeded) => after(p),
        (Stage::Working(p), Event::Failed) => Stage::Failed(p),
        _ => s,
    }
}

/// A stage that no event leaves.
pub open spec fn is_terminal(s: Stage) -> bool {
    s matches Stage::UpToDate || s matches Stage::Done || s matches Stage::Failed(_)
}

/// Moves a run on by one event.
pub fn advance(stage: Stage, event: Event) -> (r: Stage)
    ensures
        r == next_stage(stage, event),
        is_terminal(stage) ==> r == stage,
{
    match (stage, event) {
        (Stage::Idle, Event::Start) => Stage::Working(Phase::CheckingVersions),
        (Stage::Working(Phase::CheckingVersions), Event::Decided(d)) => match d {
            UpdateDecision::UpToDate => Stage::UpToDate,
            UpdateDecision::UpdateAvailable => Stage::Working(Phase::Downloading),
        },
        (Stage::Working(p), Event::Succeeded) => match p {
            Phase::CheckingVersions => Stage::Working(Phase::CheckingVersions),
            Phase::Downloading => Stage::Working(Phase::Extracting),
            Phase::Extracting => Stage::Working(Phase::Materializing),
            Phase::Materializing => Stage::Working(Phase::Activating),
            Phase::Activating => Stage::Done,
        },
        (Stage::Working(p), Event::Failed) => Stage::Failed(p),
        _ => stage,
    }
}

} // verus!
