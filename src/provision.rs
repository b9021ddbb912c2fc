use vstd::prelude::*;

use crate::error::WorkspaceError;
use crate::path::Place;

verus! {

/// Where provisioning a date workspace stands: which report it waits for.
#[derive(PartialEq, Eq, Structural, Clone, Copy, Debug)]
pub enum Stage {
    CheckingDate,
    CheckingTemplate,
    CreatingYear,
    Copying,
    Renaming,
    Finished,
}

/// What the caller reports after carrying out an action. A check answers
/// `Present` or `Absent`; an operation answers `Succeeded` or `Failed`.
#[derive(Debug)]
pub enum Outcome {
    Present,
    Absent,
    Succeeded,
    Failed(String),
}

/// What the caller is asked to do next.
#[derive(Debug)]
pub enum Action {
    /// Report whether anything exists at the place.
    CheckExists(Place),
    /// Create the directory and all its missing ancestors.
    CreateDirs(Place),
    /// Copy the directory `from`, with all its contents, into `into`, under
    /// its own base name.
    CopyInto { from: Place, into: Place },
    /// Move `from` to `to`.
    Rename { from: Place, to: Place },
    /// Provisioning is over, with this result.
    Finish(Result<(), WorkspaceError>),
}

/// The first action of provisioning: look whether the date directory exists.
pub open spec fn start_spec() -> (Stage, Action) {
    (Stage::CheckingDate, Action::CheckExists(Place::Date))
}

/// The next stage and action once `outcome` is reported in `stage`. A check
/// reads anything but `Present` as absence; an operation reads anything but
/// `Failed` as success.
pub open spec fn next_spec(stage: Stage, outcome: Outcome) -> (Stage, Action) {
    match stage {
        Stage::CheckingDate => match outcome {
            Outcome::Present => (Stage::Finished, Action::Finish(Ok(()))),
            _ => (Stage::CheckingTemplate, Action::CheckExists(Place::Template)),
        },
        Stage::CheckingTemplate => match outcome {
            Outcome::Present => (Stage::CreatingYear, Action::CreateDirs(Place::Year)),
            _ => (Stage::Finished, Action::Finish(Err(WorkspaceError::TemplateMissing))),
        },
        Stage::CreatingYear => match outcome {
            Outcome::Failed(m) => (
                Stage::Finished,
                Action::Finish(Err(WorkspaceError::DirectoryCreation(m))),
            ),
            _ => (Stage::Copying, Action::CopyInto { from: Place::Template, into: Place::Year }),
        },
        Stage::Copying => match outcome {
            Outcome::Failed(m) => (Stage::Finished, Action::Finish(Err(WorkspaceError::CopyFailed(m)))),
            _ => (Stage::Renaming, Action::Rename { from: Place::CopiedTemplate, to: Place::Date }),
        },
        Stage::Renaming => match outcome {
            Outcome::Failed(m) => (
                Stage::Finished,
                Action::Finish(Err(WorkspaceError::RenameFailed(m))),
            ),
            _ => (Stage::Finished, Action::Finish(Ok(()))),
        },
        Stage::Finished => (Stage::Finished, Action::Finish(Ok(()))),
    }
}

/// Begins provisioning the date workspace.
pub fn provision_start() -> (r: (Stage, Action))
    ensures
        r == start_spec(),
{
    (Stage::CheckingDate, Action::CheckExists(Place::Date))
}

/// Decides what follows once `outcome` is reported in `stage`.
pub fn provision_next(stage: Stage, outcome: Outcome) -> (r: (Stage, Action))
    requires
        stage != Stage::Finished,
    ensures
        r == next_spec(stage, outcome),
{
    match stage {
        Stage::CheckingDate => match outcome {
            Outcome::Present => (Stage::Finished, Action::Finish(Ok(()))),
            _ => (Stage::CheckingTemplate, Action::CheckExists(Place::Template)),
        },
        Stage::CheckingTemplate => match outcome {
            Outcome::Present => (Stage::CreatingYear, Action::CreateDirs(Place::Year)),
            _ => (Stage::Finished, Action::Finish(Err(WorkspaceError::TemplateMissing))),
        },
        Stage::CreatingYear => match outcome {
            Outcome::Failed(m) => (
                Stage::Finished,
                Action::Finish(Err(WorkspaceError::DirectoryCreation(m))),
            ),
            _ => (Stage::Copying, Action::CopyInto { from: Place::Template, into: Place::Year }),
        },
        Stage::Copying => match outcome {
            Outcome::Failed(m) => (Stage::Finished, Action::Finish(Err(WorkspaceError::CopyFailed(m)))),
            _ => (Stage::Renaming, Action::Rename { from: Place::CopiedTemplate, to: Place::Date }),
        },
        Stage::Renaming => match outcome {
            Outcome::Failed(m) => (
                Stage::Finished,
                Action::Finish(Err(WorkspaceError::RenameFailed(m))),
            ),
            _ => (Stage::Finished, Action::Finish(Ok(()))),
        },
        Stage::Finished => (Stage::Finished, Action::Finish(Ok(()))),
    }
}

/// A filesystem as provisioning sees it: the places that exist, and the
/// places where an operation aimed at them fails, with the cause it reports.
pub ghost struct World {
    pub present: Set<Place>,
    pub faults: Map<Place, String>,
}

/// The place that an action writes, if any.
pub open spec fn target_of(a: Action) -> Option<Place> {
    match a {
        Action::CreateDirs(p) => Some(p),
        Action::CopyInto { from, into } => Some(Place::CopiedTemplate),
        Action::Rename { from, to } => Some(to),
        _ => None,
    }
}

/// How `w` answers action `a`, and what it becomes.
pub open spec fn respond(w: World, a: Action) -> (World, Outcome) {
    match a {
        Action::CheckExists(p) => (
            w,
            if w.present.contains(p) {
                Outcome::Present
            } else {
                Outcome::Absent
            },
        ),
        Action::Finish(_) => (w, Outcome::Succeeded),
        _ => {
            let t = target_of(a)->Some_0;
            if w.faults.contains_key(t) {
                (w, Outcome::Failed(w.faults[t]))
            } else {
                match a {
                    Action::Rename { from, to } => (
                        World { present: w.present.remove(from).insert(to), faults: w.faults },
                        Outcome::Succeeded,
                    ),
                    _ => (World { present: w.present.insert(t), faults: w.faults }, Outcome::Succeeded),
                }
            }
        },
    }
}

/// Carries out `a` in `w` and every action that follows it, up to `fuel`
/// steps; gives the final world and every action issued, the last one
/// included.
pub open spec fn run_from(w: World, stage: Stage, a: Action, fuel: nat) -> (World, Seq<Action>)
    decreases fuel,
{
    if a is Finish || fuel == 0 {
        (w, seq![a])
    } else {
        let (w2, o) = respond(w, a);
        let (s2, a2) = next_spec(stage, o);
        let (w3, rest) = run_from(w2, s2, a2, (fuel - 1) as nat);
        (w3, seq![a].add(rest))
    }
}

/// Provisioning carried out against `w` from the start: the world it leaves
/// and the actions it issues, of which the last is always the `Finish`.
pub open spec fn provision_run(w: World) -> (World, Seq<Action>) {
    let (s, a) = start_spec();
    run_from(w, s, a, 6)
}

/// When the date directory exists, provisioning looks at it and at nothing
/// else, changes nothing, and succeeds: the template is never read or copied.
pub proof fn lemma_existing_date_left_alone(w: World)
    requires
        w.present.contains(Place::Date),
    ensures
        provision_run(w).0 == w,
        provision_run(w).1 == seq![Action::CheckExists(Place::Date), Action::Finish(Ok(()))],
{
    reveal_with_fuel(run_from, 3);
    assert(provision_run(w).1 =~= seq![
        Action::CheckExists(Place::Date),
        Action::Finish(Ok(())),
    ]);
}

/// When neither the date directory nor the template exists, provisioning
/// fails with `TemplateMissing` after the two checks and creates nothing.
pub proof fn lemma_missing_template_fails(w: World)
    requires
        !w.present.contains(Place::Date),
        !w.present.contains(Place::Template),
    ensures
        provision_run(w).0 == w,
        provision_run(w).1 == seq![
            Action::CheckExists(Place::Date),
            Action::CheckExists(Place::Template),
            Action::Finish(Err(WorkspaceError::TemplateMissing)),
        ],
{
    reveal_with_fuel(run_from, 4);
    assert(provision_run(w).1 =~= seq![
        Action::CheckExists(Place::Date),
        Action::CheckExists(Place::Template),
        Action::Finish(Err(WorkspaceError::TemplateMissing)),
    ]);
}

/// Provisioning is idempotent: once a run has succeeded, a second run on the
/// world it left looks only at the date directory, changes nothing and
/// succeeds.
pub proof fn lemma_second_run_is_no_op(w: World)
    requires
        provision_run(w).1.last() == Action::Finish(Ok(())),
    ensures
        provision_run(provision_run(w).0).0 == provision_run(w).0,
        provision_run(provision_run(w).0).1 == seq![
            Action::CheckExists(Place::Date),
            Action::Finish(Ok(())),
        ],
{
    reveal_with_fuel(run_from, 7);
    assert(provision_run(w).0.present.contains(Place::Date));
    lemma_existing_date_left_alone(provision_run(w).0);
}

} // verus!
