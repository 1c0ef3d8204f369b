use vstd::prelude::*;
use vstd::string::*;
use crate::contract::{import_block, import_line, import_statement, join_names, names_of, parse_child_imports, parse_parents, Contract, ContractView};
use crate::kind::ContractType;
use crate::naming::{letter, parent_name, parent_name_spec};
use crate::outcome::{paths_distinct, step_path};
use crate::plan::{file_path, file_path_spec, step_views, Params, ScaffoldError, Step, StepView};

verus! {

/// The largest number of parent-level contracts of one kind: one per letter.
pub const MAX_PARENTS: u8 = 26;

/// The `i`-th parent-level contract of a kind: it imports and inherits the kind's base.
pub open spec fn parent_record(solc: Seq<char>, kind: ContractType, i: int) -> ContractView {
    ContractView {
        licence: "MIT"@,
        solc: solc,
        imports: import_line(kind.base_spec()),
        name: parent_name_spec(kind, i),
        parents: kind.base_spec(),
    }
}

/// The names of the first `n` parent-level contracts of a kind.
pub open spec fn parent_names(kind: ContractType, n: nat) -> Seq<Seq<char>> {
    Seq::new(n, |i: int| parent_name_spec(kind, i))
}

/// The contract of a kind that imports and inherits its `n` parent-level contracts.
pub open spec fn child_record(solc: Seq<char>, kind: ContractType, n: nat) -> ContractView {
    ContractView {
        licence: "MIT"@,
        solc: solc,
        imports: import_block(parent_names(kind, n)),
        name: kind.child_spec(),
        parents: join_names(parent_names(kind, n)),
    }
}

/// The steps that create a kind's directory, its `n` parent-level files, then its
/// aggregating file.
pub open spec fn family_steps(solc: Seq<char>, kind: ContractType, n: nat) -> Seq<StepView> {
    seq![StepView::MakeDir(kind.dir_spec())] + Seq::new(
        n,
        |i: int|
            StepView::WriteFile(
                file_path_spec(kind.dir_spec(), parent_name_spec(kind, i)),
                parent_record(solc, kind, i),
            ),
    ) + seq![
        StepView::WriteFile(
            file_path_spec(kind.dir_spec(), kind.child_spec()),
            child_record(solc, kind, n),
        ),
    ]
}

/// Builds the `index`-th parent-level contract of a kind.
pub fn make_parent(solc: &String, kind: ContractType, index: usize) -> (r: Contract)
    requires
        index < 26,
    ensures
        r@ == parent_record(solc@, kind, index as int),
{
    let base = kind.import_name();
    Contract {
        licence: String::from_str("MIT"),
        solc: solc.clone(),
        imports: import_statement(base.as_str()),
        name: parent_name(kind, index),
        parents: base,
    }
}

/// The steps that generate one family: the kind's directory, one file per
/// parent-level contract, in letter order, and last the aggregating contract.
/// More than one parent-level contract per letter is refused.
pub fn generate_family(params: &Params, kind: ContractType) -> (r: Result<Vec<Step>, ScaffoldError>)
    ensures
        match r {
            Ok(steps) => params.count_spec(kind) <= 26 && step_views(steps@) == family_steps(
                params.solc@,
                kind,
                params.count_spec(kind),
            ),
            Err(e) => params.count_spec(kind) > 26 && e == ScaffoldError::TooManyContracts,
        },
{
    let n = params.count(kind);
    if n > MAX_PARENTS {
        return Err(ScaffoldError::TooManyContracts);
    }
    let n = n as usize;
    let ghost solc = params.solc@;
    let mut parents: Vec<Contract> = Vec::new();
    let mut i: usize = 0;
    while i < n
        invariant
            n <= 26,
            i <= n,
            solc == params.solc@,
            parents@.len() == i,
            forall|j: int| 0 <= j < i ==> #[trigger] parents@[j]@ == parent_record(solc, kind, j),
        decreases n - i,
    {
        parents.push(make_parent(&params.solc, kind, i));
        i = i + 1;
    }
    assert forall|j: int| 0 <= j < n implies names_of(parents@)[j] == parent_names(
        kind,
        n as nat,
    )[j] by {
        assert(parents@[j]@ == parent_record(solc, kind, j));
    }
    assert(names_of(parents@) =~= parent_names(kind, n as nat));
    let child = Contract {
        licence: String::from_str("MIT"),
        solc: params.solc.clone(),
        imports: parse_child_imports(&parents),
        name: kind.child_name(),
        parents: parse_parents(&parents),
    };
    let dir = kind.directory_name();
    let mut steps: Vec<Step> = Vec::new();
    steps.push(Step::MakeDir(kind.directory_name()));
    let ghost middle = Seq::new(
        n as nat,
        |j: int|
            StepView::WriteFile(
                file_path_spec(kind.dir_spec(), parent_name_spec(kind, j)),
                parent_record(solc, kind, j),
            ),
    );
    let mut i: usize = 0;
    while i < n
        invariant
            n <= 26,
            i <= n,
            dir@ == kind.dir_spec(),
            solc == params.solc@,
            middle.len() == n,
            forall|j: int|
                0 <= j < n ==> #[trigger] middle[j] == StepView::WriteFile(
                    file_path_spec(kind.dir_spec(), parent_name_spec(kind, j)),
                    parent_record(solc, kind, j),
                ),
            step_views(steps@) =~= seq![StepView::MakeDir(kind.dir_spec())] + middle.take(i as int),
        decreases n - i,
    {
        let name = parent_name(kind, i);
        let path = file_path(dir.as_str(), name.as_str());
        let step = Step::WriteFile(path, make_parent(&params.solc, kind, i));
        assert(step@ == middle[i as int]);
        let ghost before = steps@;
        steps.push(step);
        assert(step_views(steps@) =~= step_views(before).push(middle[i as int]));
        assert(middle.take(i + 1) =~= middle.take(i as int).push(middle[i as int]));
        i = i + 1;
    }
    assert(middle.take(n as int) =~= middle);
    let child_path = file_path(dir.as_str(), child.name.as_str());
    let ghost before = steps@;
    steps.push(Step::WriteFile(child_path, child));
    assert(step_views(steps@) =~= step_views(before).push(steps@.last()@));
    assert(step_views(steps@) =~= family_steps(solc, kind, n as nat));
    Ok(steps)
}

/// A family of `n` holds exactly `n` parent-level files, one per letter in
/// ascending order, and one aggregating file whose inheritance list names
/// exactly those `n` contracts in that order.
pub proof fn family_has_n_parents_and_one_child(solc: Seq<char>, kind: ContractType, n: nat)
    requires
        n <= 26,
    ensures
        family_steps(solc, kind, n).len() == n + 2,
        family_steps(solc, kind, n)[0] == StepView::MakeDir(kind.dir_spec()),
        forall|i: int|
            0 <= i < n ==> #[trigger] family_steps(solc, kind, n)[i + 1] == StepView::WriteFile(
                file_path_spec(kind.dir_spec(), parent_name_spec(kind, i)),
                parent_record(solc, kind, i),
            ),
        forall|i: int, j: int|
            0 <= i < j < n ==> (letter(i) as u32) < (#[trigger] letter(j) as u32) && #[trigger] letter(i)
                != letter(j),
        family_steps(solc, kind, n)[n as int + 1] == StepView::WriteFile(
            file_path_spec(kind.dir_spec(), kind.child_spec()),
            child_record(solc, kind, n),
        ),
        child_record(solc, kind, n).parents == join_names(parent_names(kind, n)),
        parent_names(kind, n).len() == n,
        forall|i: int| 0 <= i < n ==> #[trigger] parent_names(kind, n)[i] == parent_name_spec(kind, i),
{
}

/// The paths of a family's steps all start with the first letter of the kind's
/// directory, and no two of them are equal.
pub proof fn lemma_family_paths(solc: Seq<char>, kind: ContractType, n: nat)
    requires
        n <= 26,
    ensures
        forall|i: int|
            0 <= i < family_steps(solc, kind, n).len() ==> {
                let p = #[trigger] step_path(family_steps(solc, kind, n)[i]);
                p.len() > 0 && p[0] == kind.dir_spec()[0]
            },
        paths_distinct(family_steps(solc, kind, n)),
{
    reveal_strlit("handlers");
    reveal_strlit("properties");
    reveal_strlit("Handler");
    reveal_strlit("Property");
    reveal_strlit("HandlerParent");
    reveal_strlit("PropertiesParent");
    reveal_strlit("/");
    reveal_strlit(".t.sol");
    let s = family_steps(solc, kind, n);
    let d = kind.dir_spec().len() as int;
    let k = d + 1 + kind.prefix_spec().len() as int;
    assert forall|i: int| 1 <= i <= n implies {
        let p = #[trigger] step_path(s[i]);
        &&& p.len() == k + 7
        &&& p[k] == letter(i - 1)
        &&& p[0] == kind.dir_spec()[0]
    } by {
        let p = step_path(s[i]);
        assert(p == file_path_spec(kind.dir_spec(), parent_name_spec(kind, i - 1)));
        assert(p[k] == parent_name_spec(kind, i - 1)[k - d - 1]);
    }
    assert(step_path(s[n as int + 1]).len() == d + 1 + kind.child_spec().len() + 6);
    assert forall|i: int, j: int| 0 <= i < j < s.len() implies step_path(s[i]) != step_path(
        s[j],
    ) by {
        if 1 <= i && j <= n {
            assert(letter(i - 1) != letter(j - 1));
        }
    }
}

/// With no parent-level contracts the aggregating contract has neither imports
/// nor an inheritance list.
pub proof fn empty_family_has_bare_child(solc: Seq<char>, kind: ContractType)
    ensures
        import_block(Seq::empty()) == Seq::<char>::empty(),
        join_names(Seq::empty()) == Seq::<char>::empty(),
        child_record(solc, kind, 0).imports == Seq::<char>::empty(),
        child_record(solc, kind, 0).parents == Seq::<char>::empty(),
{
    assert(parent_names(kind, 0) =~= Seq::empty());
}

/// Every parent-level contract of a family inherits exactly the kind's base,
/// whatever the family's size and the contract's place in it.
pub proof fn parents_inherit_base(solc: Seq<char>, kind: ContractType, n: nat, i: int)
    requires
        0 <= i < n,
    ensures
        family_steps(solc, kind, n)[i + 1]->WriteFile_1.parents == kind.base_spec(),
{
}

} // verus!
