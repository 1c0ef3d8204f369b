use vstd::prelude::*;
use crate::plan::{ScaffoldError, Step, StepView};
use crate::family::{family_steps, lemma_family_paths};
use crate::kind::ContractType;
use crate::run::run_steps;

verus! {

/// What happened when the filesystem was asked to perform one step.
#[derive(Clone, Copy, Debug, PartialEq, Eq, Structural)]
pub enum Outcome {
    /// The directory or file was created.
    Created,
    /// The path was taken already.
    AlreadyExists,
    /// The template rejected the contract, so nothing was written.
    RenderFailed,
    /// Creation or writing failed for another reason.
    Failed,
}

/// Whether a run goes on after a step had the given outcome, and if not, why it stops.
pub open spec fn step_result_spec(step: StepView, outcome: Outcome) -> Result<(), ScaffoldError> {
    match step {
        StepView::MakeDir(_) => match outcome {
            Outcome::Created | Outcome::AlreadyExists => Ok(()),
            _ => Err(ScaffoldError::DirectoryCreateFailed),
        },
        StepView::WriteFile(_, _) => match outcome {
            Outcome::Created => Ok(()),
            Outcome::AlreadyExists => Err(ScaffoldError::PathExists),
            Outcome::RenderFailed => Err(ScaffoldError::RenderFailed),
            Outcome::Failed => Err(ScaffoldError::WriteFailed),
        },
    }
}

/// Decides whether a run goes on after a step: a directory may exist already,
/// a file may not; any other failure stops the run.
pub fn step_result(step: &Step, outcome: Outcome) -> (r: Result<(), ScaffoldError>)
    ensures
        r == step_result_spec(step@, outcome),
{
    match step {
        Step::MakeDir(_) => match outcome {
            Outcome::Created | Outcome::AlreadyExists => Ok(()),
            _ => Err(ScaffoldError::DirectoryCreateFailed),
        },
        Step::WriteFile(_, _) => match outcome {
            Outcome::Created => Ok(()),
            Outcome::AlreadyExists => Err(ScaffoldError::PathExists),
            Outcome::RenderFailed => Err(ScaffoldError::RenderFailed),
            Outcome::Failed => Err(ScaffoldError::WriteFailed),
        },
    }
}

/// The path that a step creates.
pub open spec fn step_path(step: StepView) -> Seq<char> {
    match step {
        StepView::MakeDir(d) => d,
        StepView::WriteFile(p, _) => p,
    }
}

/// Whether no two of the steps create the same path.
pub open spec fn paths_distinct(steps: Seq<StepView>) -> bool {
    forall|i: int, j: int|
        0 <= i < j < steps.len() ==> #[trigger] step_path(steps[i]) != #[trigger] step_path(steps[j])
}

/// The outcome of a step on a filesystem that fails only where a path is taken;
/// `fs` is the set of paths that exist.
pub open spec fn ideal_outcome(fs: Set<Seq<char>>, step: StepView) -> Outcome {
    if fs.contains(step_path(step)) {
        Outcome::AlreadyExists
    } else {
        Outcome::Created
    }
}

/// The steps performed in order on such a filesystem, stopping at the first
/// failure: the paths that exist afterwards, or why the run stopped.
pub open spec fn apply_steps(fs: Set<Seq<char>>, steps: Seq<StepView>) -> Result<
    Set<Seq<char>>,
    ScaffoldError,
>
    decreases steps.len(),
{
    if steps.len() == 0 {
        Ok(fs)
    } else {
        match step_result_spec(steps[0], ideal_outcome(fs, steps[0])) {
            Ok(_) => apply_steps(fs.insert(step_path(steps[0])), steps.drop_first()),
            Err(e) => Err(e),
        }
    }
}

/// After a successful run every path that it was to create exists, and nothing
/// that existed before is gone.
pub proof fn lemma_apply_creates_all(fs: Set<Seq<char>>, steps: Seq<StepView>)
    requires
        apply_steps(fs, steps) is Ok,
    ensures
        fs.subset_of(apply_steps(fs, steps)->Ok_0),
        forall|i: int|
            0 <= i < steps.len() ==> apply_steps(fs, steps)->Ok_0.contains(
                #[trigger] step_path(steps[i]),
            ),
    decreases steps.len(),
{
    if steps.len() > 0 {
        let next = fs.insert(step_path(steps[0]));
        lemma_apply_creates_all(next, steps.drop_first());
        assert forall|i: int| 0 <= i < steps.len() implies apply_steps(fs, steps)->Ok_0.contains(
            #[trigger] step_path(steps[i]),
        ) by {
            if i > 0 {
                assert(steps[i] == steps.drop_first()[i - 1]);
            }
        }
    }
}

/// Running the generator a second time where a first run succeeded stops with
/// `PathExists`: no file of the first run is overwritten.
pub proof fn rerun_fails_with_path_exists(
    solc: Seq<char>,
    nb_handlers: nat,
    nb_properties: nat,
    fs: Set<Seq<char>>,
)
    requires
        apply_steps(fs, run_steps(solc, nb_handlers, nb_properties)) is Ok,
    ensures
        apply_steps(
            apply_steps(fs, run_steps(solc, nb_handlers, nb_properties))->Ok_0,
            run_steps(solc, nb_handlers, nb_properties),
        ) == Err::<Set<Seq<char>>, ScaffoldError>(ScaffoldError::PathExists),
{
    let steps = run_steps(solc, nb_handlers, nb_properties);
    let after = apply_steps(fs, steps)->Ok_0;
    lemma_apply_creates_all(fs, steps);
    assert(steps[0] is MakeDir);
    assert(steps[1] is WriteFile);
    assert(after.contains(step_path(steps[1])));
    let rest = steps.drop_first();
    assert(rest[0] == steps[1]);
    assert(apply_steps(after, steps) == apply_steps(after.insert(step_path(steps[0])), rest));
}

/// Steps whose paths are distinct and absent all succeed.
pub proof fn lemma_apply_fresh(fs: Set<Seq<char>>, steps: Seq<StepView>)
    requires
        paths_distinct(steps),
        forall|i: int| 0 <= i < steps.len() ==> !fs.contains(#[trigger] step_path(steps[i])),
    ensures
        apply_steps(fs, steps) is Ok,
    decreases steps.len(),
{
    if steps.len() > 0 {
        let rest = steps.drop_first();
        let next = fs.insert(step_path(steps[0]));
        assert forall|i: int| 0 <= i < rest.len() implies !next.contains(
            #[trigger] step_path(rest[i]),
        ) by {
            assert(rest[i] == steps[i + 1]);
        }
        assert forall|i: int, j: int| 0 <= i < j < rest.len() implies #[trigger] step_path(rest[i])
            != #[trigger] step_path(rest[j]) by {
            assert(rest[i] == steps[i + 1]);
            assert(rest[j] == steps[j + 1]);
        }
        lemma_apply_fresh(next, rest);
    }
}

/// A run in an empty directory succeeds and creates every path of its steps,
/// no two of them alike: each file is written exactly once.
pub proof fn fresh_run_writes_each_file_once(solc: Seq<char>, nb_handlers: nat, nb_properties: nat)
    requires
        nb_handlers <= 26,
        nb_properties <= 26,
    ensures
        paths_distinct(run_steps(solc, nb_handlers, nb_properties)),
        apply_steps(Set::empty(), run_steps(solc, nb_handlers, nb_properties)) is Ok,
        forall|i: int|
            0 <= i < run_steps(solc, nb_handlers, nb_properties).len() ==> apply_steps(
                Set::empty(),
                run_steps(solc, nb_handlers, nb_properties),
            )->Ok_0.contains(#[trigger] step_path(run_steps(solc, nb_handlers, nb_properties)[i])),
{
    reveal_strlit("handlers");
    reveal_strlit("properties");
    reveal_strlit("FuzzTest");
    reveal_strlit("Setup");
    let h = family_steps(solc, ContractType::Handler, nb_handlers);
    let p = family_steps(solc, ContractType::Property, nb_properties);
    let steps = run_steps(solc, nb_handlers, nb_properties);
    lemma_family_paths(solc, ContractType::Handler, nb_handlers);
    lemma_family_paths(solc, ContractType::Property, nb_properties);
    let lh = h.len() as int;
    let lp = p.len() as int;
    assert forall|i: int| 0 <= i < steps.len() implies {
        let q = #[trigger] step_path(steps[i]);
        &&& q.len() > 0
        &&& q[0] == if i < lh {
            'h'
        } else if i < lh + lp {
            'p'
        } else if i == lh + lp {
            'F'
        } else {
            'S'
        }
    } by {
        if i < lh {
            assert(steps[i] == h[i]);
        } else if i < lh + lp {
            assert(steps[i] == p[i - lh]);
        }
    }
    assert forall|i: int, j: int| 0 <= i < j < steps.len() implies #[trigger] step_path(steps[i])
        != #[trigger] step_path(steps[j]) by {
        if j < lh {
            assert(steps[i] == h[i] && steps[j] == h[j]);
        } else if lh <= i && j < lh + lp {
            assert(steps[i] == p[i - lh] && steps[j] == p[j - lh]);
        } else {
            assert(step_path(steps[i])[0] != step_path(steps[j])[0]);
        }
    }
    lemma_apply_fresh(Set::empty(), steps);
    lemma_apply_creates_all(Set::empty(), steps);
}

} // verus!
