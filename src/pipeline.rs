use vstd::prelude::*;
use crate::flags::FeatureFlags;
use vstd::string::{StrSliceExecFns, StringExecFns};

verus! {

/// Why a run stopped. Every error ends the run; none is retried.
#[derive(Debug, PartialEq, Eq)]
pub enum ScaffoldError {
    /// Creating, reading, writing or setting permissions failed.
    Io(String),
    /// `flake.nix` already exists in the destination.
    NixFileAlreadyExists,
    /// No template for the ecosystem, or the template catalogue is malformed.
    TemplateResolution,
    /// The formatter is not on the search path.
    NixFmtNotFound,
    /// The formatter ran and did not succeed.
    NixFmtFailed,
}

/// A file that a run can produce.
#[derive(Clone, Copy, Debug, PartialEq, Eq, Structural)]
pub enum Artifact {
    /// `flake.nix`, always produced, never overwritten.
    Flake,
    /// `.envrc`, created or appended to.
    Envrc,
    /// `.gitignore`, created or appended to.
    GitIgnore,
}

/// One step of a run, in the order the run performs them.
#[derive(Clone, Copy, Debug, PartialEq, Eq, Structural)]
pub enum Action {
    /// Render the flake and create `flake.nix` with mode 0644.
    WriteFlake,
    /// Run the formatter on `flake.nix`.
    FormatFlake,
    /// Create or append to `.envrc` with the activation line, mode 0644.
    AppendEnvrc,
    /// Create or append to `.gitignore` with the ignore pattern, mode 0644.
    AppendGitIgnore,
}

/// The steps of a run with the given flags, once the destination is known
/// to hold no `flake.nix`.
pub open spec fn planned_actions(flags: FeatureFlags) -> Seq<Action> {
    seq![Action::WriteFlake, Action::FormatFlake]
        + (if flags.dev { seq![Action::AppendEnvrc] } else { Seq::empty() })
        + (if flags.git { seq![Action::AppendGitIgnore] } else { Seq::empty() })
}

/// The file a step writes, if any.
pub open spec fn written_by(a: Action) -> Option<Artifact> {
    match a {
        Action::WriteFlake => Some(Artifact::Flake),
        Action::FormatFlake => None,
        Action::AppendEnvrc => Some(Artifact::Envrc),
        Action::AppendGitIgnore => Some(Artifact::GitIgnore),
    }
}

/// The files that a sequence of steps writes.
pub open spec fn artifacts_of(actions: Seq<Action>) -> Set<Artifact> {
    Set::new(|f: Artifact| exists|i: int| 0 <= i < actions.len() && written_by(actions[i]) == Some(f))
}

/// The outcome of the pre-write checks: the steps to perform, or the
/// conflict that stops the run before anything is written.
pub open spec fn plan_spec(flags: FeatureFlags, flake_exists: bool) -> Result<Seq<Action>, ScaffoldError> {
    if flake_exists {
        Err(ScaffoldError::NixFileAlreadyExists)
    } else {
        Ok(planned_actions(flags))
    }
}

/// Decides the steps of a run. All checks come before any write: when
/// `flake.nix` already exists the run is refused and nothing is written.
pub fn plan_run(flags: FeatureFlags, flake_exists: bool) -> (r: Result<Vec<Action>, ScaffoldError>)
    ensures
        match (r, plan_spec(flags, flake_exists)) {
            (Ok(v), Ok(s)) => v@ == s,
            (Err(e), Err(f)) => e == f,
            _ => false,
        },
{
    if flake_exists {
        return Err(ScaffoldError::NixFileAlreadyExists);
    }
    let mut v: Vec<Action> = Vec::new();
    v.push(Action::WriteFlake);
    v.push(Action::FormatFlake);
    if flags.dev {
        v.push(Action::AppendEnvrc);
    }
    if flags.git {
        v.push(Action::AppendGitIgnore);
    }
    assert(v@ =~= planned_actions(flags));
    Ok(v)
}

/// The destination a run works in: `None` for the current directory, which
/// is also what `.` names.
pub open spec fn destination_spec(path: Option<Seq<char>>) -> Option<Seq<char>> {
    match path {
        None => None,
        Some(p) => if p == seq!['.'] {
            None
        } else {
            Some(p)
        },
    }
}

/// Resolves the destination argument: absent or `.` both mean the current
/// directory, given back as `None`; any other path is kept as it is.
pub fn resolve_destination(path: Option<&str>) -> (r: Option<String>)
    ensures
        match (r, destination_spec(
            match path {
                Some(p) => Some(p@),
                None => None,
            },
        )) {
            (Some(a), Some(b)) => a@ == b,
            (None, None) => true,
            _ => false,
        },
{
    match path {
        None => None,
        Some(p) => {
            if p.unicode_len() == 1 && p.get_char(0) == '.' {
                assert(p@ =~= seq!['.']);
                None
            } else {
                Some(String::from_str(p))
            }
        },
    }
}

/// What the formatter step yields, from whether the formatter was found on
/// the search path and whether its run on the flake succeeded.
pub open spec fn format_outcome_spec(found: bool, succeeded: bool) -> Result<(), ScaffoldError> {
    if !found {
        Err(ScaffoldError::NixFmtNotFound)
    } else if !succeeded {
        Err(ScaffoldError::NixFmtFailed)
    } else {
        Ok(())
    }
}

/// Classifies the formatter step. `succeeded` is only looked at when the
/// formatter was found.
pub fn format_outcome(found: bool, succeeded: bool) -> (r: Result<(), ScaffoldError>)
    ensures
        r == format_outcome_spec(found, succeeded),
{
    if !found {
        Err(ScaffoldError::NixFmtNotFound)
    } else if !succeeded {
        Err(ScaffoldError::NixFmtFailed)
    } else {
        Ok(())
    }
}

/// With every toggle off a run writes `flake.nix` and nothing else.
pub proof fn lemma_no_flags_only_flake(flags: FeatureFlags)
    requires
        !flags.comments && !flags.package && !flags.dev && !flags.git,
    ensures
        plan_spec(flags, false) is Ok,
        artifacts_of(plan_spec(flags, false)->Ok_0) == set![Artifact::Flake],
{
    let s = planned_actions(flags);
    assert(s =~= seq![Action::WriteFlake, Action::FormatFlake]);
    assert(written_by(s[0]) == Some(Artifact::Flake));
    assert(artifacts_of(s) =~= set![Artifact::Flake]);
}

/// A run writes `.envrc` exactly when the dev toggle is on, `.gitignore`
/// exactly when the git toggle is on, and `flake.nix` always.
pub proof fn lemma_artifacts_follow_flags(flags: FeatureFlags)
    ensures
        plan_spec(flags, false) is Ok,
        artifacts_of(plan_spec(flags, false)->Ok_0).contains(Artifact::Flake),
        artifacts_of(plan_spec(flags, false)->Ok_0).contains(Artifact::Envrc) <==> flags.dev,
        artifacts_of(plan_spec(flags, false)->Ok_0).contains(Artifact::GitIgnore) <==> flags.git,
{
    let s = planned_actions(flags);
    assert(written_by(s[0]) == Some(Artifact::Flake));
    if flags.dev {
        assert(written_by(s[2]) == Some(Artifact::Envrc));
    }
    if flags.git {
        let k = if flags.dev { 3int } else { 2int };
        assert(written_by(s[k]) == Some(Artifact::GitIgnore));
    }
    if artifacts_of(s).contains(Artifact::Envrc) {
        let i = choose|i: int| 0 <= i < s.len() && written_by(s[i]) == Some(Artifact::Envrc);
        assert(flags.dev);
    }
    if artifacts_of(s).contains(Artifact::GitIgnore) {
        let i = choose|i: int| 0 <= i < s.len() && written_by(s[i]) == Some(Artifact::GitIgnore);
        assert(flags.git);
    }
}

/// An existing `flake.nix` refuses the run with a conflict, whatever the
/// toggles, so no step runs and the file is left as it was.
pub proof fn lemma_existing_flake_conflicts(flags: FeatureFlags)
    ensures
        plan_spec(flags, true) == Err::<Seq<Action>, ScaffoldError>(ScaffoldError::NixFileAlreadyExists),
{
}

/// A missing formatter and a failing formatter are told apart, and both
/// fail the run.
pub proof fn lemma_formatter_errors_distinct(failed_run: bool)
    ensures
        format_outcome_spec(false, failed_run) is Err,
        format_outcome_spec(true, false) is Err,
        format_outcome_spec(false, failed_run) != format_outcome_spec(true, false),
        format_outcome_spec(true, true) is Ok,
{
}

} // verus!
