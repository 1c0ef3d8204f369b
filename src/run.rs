use vstd::prelude::*;
use vstd::string::*;
use crate::contract::{Contract, ContractView};
use crate::family::{family_steps, generate_family};
use crate::kind::ContractType;
use crate::plan::{step_views, top_path, top_path_spec, Params, ScaffoldError, Step, StepView};

verus! {

/// The entry point of the fuzzing campaign: it imports and inherits the
/// aggregate of the property contracts.
pub open spec fn fuzz_record(solc: Seq<char>) -> ContractView {
    ContractView {
        licence: "MIT"@,
        solc: solc,
        imports: "import {PropertiesParent} from './properties/PropertiesParent.t.sol';"@,
        name: "FuzzTest"@,
        parents: "PropertiesParent"@,
    }
}

/// The root of the dependency graph: no imports, no parents.
pub open spec fn setup_record(solc: Seq<char>) -> ContractView {
    ContractView {
        licence: "MIT"@,
        solc: solc,
        imports: Seq::empty(),
        name: "Setup"@,
        parents: Seq::empty(),
    }
}

/// Every step of a run, in order: the handler family, the property family,
/// then the two top-level files.
pub open spec fn run_steps(solc: Seq<char>, nb_handlers: nat, nb_properties: nat) -> Seq<StepView> {
    family_steps(solc, ContractType::Handler, nb_handlers) + family_steps(
        solc,
        ContractType::Property,
        nb_properties,
    ) + seq![
        StepView::WriteFile(top_path_spec("FuzzTest"@), fuzz_record(solc)),
        StepView::WriteFile(top_path_spec("Setup"@), setup_record(solc)),
    ]
}

/// Builds the entry-point contract of the campaign.
pub fn fuzz_contract(solc: &String) -> (r: Contract)
    ensures
        r@ == fuzz_record(solc@),
{
    Contract {
        licence: String::from_str("MIT"),
        solc: solc.clone(),
        imports: String::from_str(
            "import {PropertiesParent} from './properties/PropertiesParent.t.sol';",
        ),
        name: String::from_str("FuzzTest"),
        parents: String::from_str("PropertiesParent"),
    }
}

/// Builds the contract at the root of the dependency graph.
pub fn setup_contract(solc: &String) -> (r: Contract)
    ensures
        r@ == setup_record(solc@),
{
    Contract {
        licence: String::from_str("MIT"),
        solc: solc.clone(),
        imports: String::new(),
        name: String::from_str("Setup"),
        parents: String::new(),
    }
}

/// All the steps of one generation run, or `TooManyContracts` where either
/// count exceeds the number of letters.
pub fn plan_run(params: &Params) -> (r: Result<Vec<Step>, ScaffoldError>)
    ensures
        match r {
            Ok(steps) => params.nb_handlers <= 26 && params.nb_properties <= 26 && step_views(steps@)
                == run_steps(params.solc@, params.nb_handlers as nat, params.nb_properties as nat),
            Err(e) => (params.nb_handlers > 26 || params.nb_properties > 26) && e
                == ScaffoldError::TooManyContracts,
        },
{
    let mut steps = match generate_family(params, ContractType::Handler) {
        Ok(s) => s,
        Err(e) => return Err(e),
    };
    let mut properties = match generate_family(params, ContractType::Property) {
        Ok(s) => s,
        Err(e) => return Err(e),
    };
    let ghost first = steps@;
    let ghost second = properties@;
    steps.append(&mut properties);
    let fuzz = fuzz_contract(&params.solc);
    let fuzz_path = top_path(fuzz.name.as_str());
    steps.push(Step::WriteFile(fuzz_path, fuzz));
    let setup = setup_contract(&params.solc);
    let setup_path = top_path(setup.name.as_str());
    steps.push(Step::WriteFile(setup_path, setup));
    assert(steps@ =~= first + second + seq![steps@[steps@.len() - 2], steps@.last()]);
    assert(step_views(steps@) =~= run_steps(
        params.solc@,
        params.nb_handlers as nat,
        params.nb_properties as nat,
    ));
    Ok(steps)
}

} // verus!
