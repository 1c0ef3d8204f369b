use std::collections::HashSet;

use fuzz_scaffold::contract::{parse_child_imports, parse_parents, Contract};
use fuzz_scaffold::family::{generate_family, make_parent};
use fuzz_scaffold::kind::ContractType;
use fuzz_scaffold::naming::parent_name;
use fuzz_scaffold::outcome::{step_result, Outcome};
use fuzz_scaffold::plan::{file_path, top_path, Params, ScaffoldError, Step};
use fuzz_scaffold::run::{fuzz_contract, plan_run, setup_contract};

fn params(nb_handlers: u8, nb_properties: u8) -> Params {
    Params { solc: "0.8.23".to_string(), nb_handlers, nb_properties }
}

fn written(steps: &[Step]) -> Vec<(String, &Contract)> {
    steps
        .iter()
        .filter_map(|s| match s {
            Step::WriteFile(p, c) => Some((p.clone(), c)),
            Step::MakeDir(_) => None,
        })
        .collect()
}

/// Performs the steps on a set of existing paths, as a filesystem that only
/// refuses taken paths would.
fn perform(fs: &mut HashSet<String>, steps: &[Step]) -> Result<(), ScaffoldError> {
    for step in steps {
        let path = match step {
            Step::MakeDir(d) => d,
            Step::WriteFile(p, _) => p,
        };
        let outcome = if fs.contains(path) { Outcome::AlreadyExists } else { Outcome::Created };
        step_result(step, outcome)?;
        fs.insert(path.clone());
    }
    Ok(())
}

#[test]
fn policy_per_kind() {
    assert_eq!(ContractType::Handler.directory_name(), "handlers");
    assert_eq!(ContractType::Property.directory_name(), "properties");
    assert_eq!(ContractType::Handler.parents_name(), "Handler");
    assert_eq!(ContractType::Property.parents_name(), "Property");
    assert_eq!(ContractType::Handler.import_name(), "Setup");
    assert_eq!(ContractType::Property.import_name(), "HandlersParent");
    assert_eq!(ContractType::Handler.child_name(), "HandlerParent");
    assert_eq!(ContractType::Property.child_name(), "PropertiesParent");
}

#[test]
fn parent_names_by_letter() {
    assert_eq!(parent_name(ContractType::Handler, 0), "HandlerA");
    assert_eq!(parent_name(ContractType::Property, 2), "PropertyC");
    assert_eq!(parent_name(ContractType::Property, 25), "PropertyZ");
}

#[test]
fn empty_lists_compose_to_empty_strings() {
    let none: Vec<Contract> = Vec::new();
    assert_eq!(parse_child_imports(&none), "");
    assert_eq!(parse_parents(&none), "");
}

#[test]
fn two_property_imports() {
    let solc = "0.8.23".to_string();
    let parents = vec![
        make_parent(&solc, ContractType::Property, 0),
        make_parent(&solc, ContractType::Property, 1),
    ];
    assert_eq!(
        parse_child_imports(&parents),
        "import { PropertyA } from './PropertyA.t.sol';\nimport { PropertyB } from './PropertyB.t.sol';\n"
    );
    assert_eq!(parse_parents(&parents), "PropertyA, PropertyB");
}

#[test]
fn parent_record_fields() {
    let c = make_parent(&"0.8.20".to_string(), ContractType::Handler, 1);
    assert_eq!(c.licence, "MIT");
    assert_eq!(c.solc, "0.8.20");
    assert_eq!(c.imports, "import { Setup } from './Setup.t.sol';\n");
    assert_eq!(c.name, "HandlerB");
    assert_eq!(c.parents, "Setup");
}

#[test]
fn paths() {
    assert_eq!(file_path("handlers", "HandlerA"), "handlers/HandlerA.t.sol");
    assert_eq!(top_path("Setup"), "Setup.t.sol");
}

#[test]
fn family_of_three_handlers() {
    let steps = generate_family(&params(3, 0), ContractType::Handler).unwrap();
    assert_eq!(steps.len(), 5);
    assert!(matches!(&steps[0], Step::MakeDir(d) if d == "handlers"));
    let files = written(&steps);
    let paths: Vec<&str> = files.iter().map(|(p, _)| p.as_str()).collect();
    assert_eq!(
        paths,
        vec![
            "handlers/HandlerA.t.sol",
            "handlers/HandlerB.t.sol",
            "handlers/HandlerC.t.sol",
            "handlers/HandlerParent.t.sol",
        ]
    );
    let child = files[3].1;
    assert_eq!(child.name, "HandlerParent");
    assert_eq!(child.parents, "HandlerA, HandlerB, HandlerC");
}

#[test]
fn family_sizes_up_to_the_alphabet() {
    for n in 0..26u8 {
        let steps = generate_family(&params(0, n), ContractType::Property).unwrap();
        let files = written(&steps);
        assert_eq!(files.len(), n as usize + 1);
        let child = files[n as usize].1;
        let expected: Vec<String> =
            (0..n).map(|i| format!("Property{}", (b'A' + i) as char)).collect();
        assert_eq!(child.parents, expected.join(", "));
        for (_, parent) in &files[..n as usize] {
            assert_eq!(parent.parents, "HandlersParent");
        }
    }
}

#[test]
fn empty_family_child_is_bare() {
    let steps = generate_family(&params(0, 0), ContractType::Handler).unwrap();
    let files = written(&steps);
    assert_eq!(files.len(), 1);
    assert_eq!(files[0].0, "handlers/HandlerParent.t.sol");
    assert_eq!(files[0].1.imports, "");
    assert_eq!(files[0].1.parents, "");
}

#[test]
fn too_many_parents_refused() {
    assert_eq!(
        generate_family(&params(27, 0), ContractType::Handler).err(),
        Some(ScaffoldError::TooManyContracts)
    );
    assert_eq!(plan_run(&params(2, 255)).err(), Some(ScaffoldError::TooManyContracts));
    assert!(generate_family(&params(26, 0), ContractType::Handler).is_ok());
}

#[test]
fn run_with_one_of_each_writes_six_files() {
    let steps = plan_run(&params(1, 1)).unwrap();
    let paths: Vec<String> = written(&steps).into_iter().map(|(p, _)| p).collect();
    assert_eq!(
        paths,
        vec![
            "handlers/HandlerA.t.sol",
            "handlers/HandlerParent.t.sol",
            "properties/PropertyA.t.sol",
            "properties/PropertiesParent.t.sol",
            "FuzzTest.t.sol",
            "Setup.t.sol",
        ]
    );
}

#[test]
fn top_level_contracts() {
    let fuzz = fuzz_contract(&"0.8.23".to_string());
    assert_eq!(fuzz.name, "FuzzTest");
    assert_eq!(fuzz.parents, "PropertiesParent");
    assert_eq!(
        fuzz.imports,
        "import {PropertiesParent} from './properties/PropertiesParent.t.sol';"
    );
    let setup = setup_contract(&"0.8.23".to_string());
    assert_eq!(setup.name, "Setup");
    assert_eq!(setup.imports, "");
    assert_eq!(setup.parents, "");
}

#[test]
fn second_run_stops_on_existing_path() {
    let steps = plan_run(&params(2, 2)).unwrap();
    let mut fs = HashSet::new();
    assert_eq!(perform(&mut fs, &steps), Ok(()));
    assert_eq!(fs.len(), 2 + 2 + 2 + 2 + 2);
    let before = fs.clone();
    assert_eq!(perform(&mut fs, &steps), Err(ScaffoldError::PathExists));
    assert_eq!(fs, before);
}

#[test]
fn step_outcomes() {
    let dir = Step::MakeDir("handlers".to_string());
    let file = Step::WriteFile("Setup.t.sol".to_string(), setup_contract(&"0.8.23".to_string()));
    assert_eq!(step_result(&dir, Outcome::Created), Ok(()));
    assert_eq!(step_result(&dir, Outcome::AlreadyExists), Ok(()));
    assert_eq!(step_result(&dir, Outcome::Failed), Err(ScaffoldError::DirectoryCreateFailed));
    assert_eq!(step_result(&file, Outcome::Created), Ok(()));
    assert_eq!(step_result(&file, Outcome::AlreadyExists), Err(ScaffoldError::PathExists));
    assert_eq!(step_result(&file, Outcome::RenderFailed), Err(ScaffoldError::RenderFailed));
    assert_eq!(step_result(&file, Outcome::Failed), Err(ScaffoldError::WriteFailed));
}
