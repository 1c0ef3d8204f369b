use vstd::prelude::*;
use vstd::string::*;
use crate::contract::{Contract, ContractView};
use crate::kind::ContractType;

verus! {

/// What one generation run is asked to produce.
pub struct Params {
    pub solc: String,
    pub nb_handlers: u8,
    pub nb_properties: u8,
}

impl Params {
    /// How many parent-level contracts of a kind are asked for.
    pub open spec fn count_spec(&self, kind: ContractType) -> nat {
        match kind {
            ContractType::Handler => self.nb_handlers as nat,
            ContractType::Property => self.nb_properties as nat,
        }
    }

    pub fn count(&self, kind: ContractType) -> (r: u8)
        ensures
            r as nat == self.count_spec(kind),
    {
        match kind {
            ContractType::Handler => self.nb_handlers,
            ContractType::Property => self.nb_properties,
        }
    }
}

/// Why a run stops.
#[derive(Clone, Copy, Debug, PartialEq, Eq, Structural)]
pub enum ScaffoldError {
    /// More parent-level contracts were asked for than there are letters to name them.
    TooManyContracts,
    /// A file to be created already exists.
    PathExists,
    /// A directory could not be created, for a reason other than that it exists.
    DirectoryCreateFailed,
    /// The template rejected a contract.
    RenderFailed,
    /// A file could not be created or written.
    WriteFailed,
}

/// One thing that a run does to the filesystem.
pub enum Step {
    /// Create a directory and its ancestors; one that exists already is fine.
    MakeDir(String),
    /// Create a new file at the path, holding the rendered contract; fail if it exists.
    WriteFile(String, Contract),
}

/// The mathematical value of a [`Step`].
pub enum StepView {
    MakeDir(Seq<char>),
    WriteFile(Seq<char>, ContractView),
}

impl View for Step {
    type V = StepView;

    open spec fn view(&self) -> StepView {
        match self {
            Step::MakeDir(d) => StepView::MakeDir(d@),
            Step::WriteFile(p, c) => StepView::WriteFile(p@, c@),
        }
    }
}

/// The values of a sequence of steps.
pub open spec fn step_views(s: Seq<Step>) -> Seq<StepView> {
    s.map_values(|x: Step| x@)
}

/// The path of the file that holds contract `name` in directory `dir`.
pub open spec fn file_path_spec(dir: Seq<char>, name: Seq<char>) -> Seq<char> {
    dir + "/"@ + name + ".t.sol"@
}

/// The path of the file that holds contract `name` in the working directory.
pub open spec fn top_path_spec(name: Seq<char>) -> Seq<char> {
    name + ".t.sol"@
}

/// Builds the path of the file that holds contract `name` in directory `dir`.
pub fn file_path(dir: &str, name: &str) -> (r: String)
    ensures
        r@ == file_path_spec(dir@, name@),
{
    let mut r = String::from_str(dir);
    r.append("/");
    r.append(name);
    r.append(".t.sol");
    r
}

/// Builds the path of the file that holds contract `name` in the working directory.
pub fn top_path(name: &str) -> (r: String)
    ensures
        r@ == top_path_spec(name@),
{
    let mut r = String::from_str(name);
    r.append(".t.sol");
    r
}

} // verus!
