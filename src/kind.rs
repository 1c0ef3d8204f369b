use vstd::prelude::*;
use vstd::string::*;

verus! {

/// The two families of contracts that the scaffold holds.
#[derive(Clone, Copy, Debug, PartialEq, Eq, Structural)]
pub enum ContractType {
    Handler,
    Property,
}

impl ContractType {
    /// The directory, relative to the working directory, of the kind's files.
    pub open spec fn dir_spec(self) -> Seq<char> {
        match self {
            ContractType::Handler => "handlers"@,
            ContractType::Property => "properties"@,
        }
    }

    /// The prefix of the names of the kind's parent-level contracts.
    pub open spec fn prefix_spec(self) -> Seq<char> {
        match self {
            ContractType::Handler => "Handler"@,
            ContractType::Property => "Property"@,
        }
    }

    /// The contract that every parent-level contract of the kind imports and inherits.
    pub open spec fn base_spec(self) -> Seq<char> {
        match self {
            ContractType::Handler => "Setup"@,
            ContractType::Property => "HandlersParent"@,
        }
    }

    /// The name of the kind's aggregating contract.
    pub open spec fn child_spec(self) -> Seq<char> {
        match self {
            ContractType::Handler => "HandlerParent"@,
            ContractType::Property => "PropertiesParent"@,
        }
    }

    pub fn directory_name(&self) -> (r: String)
        ensures
            r@ == self.dir_spec(),
    {
        match self {
            ContractType::Handler => String::from_str("handlers"),
            ContractType::Property => String::from_str("properties"),
        }
    }

    pub fn parents_name(&self) -> (r: String)
        ensures
            r@ == self.prefix_spec(),
    {
        match self {
            ContractType::Handler => String::from_str("Handler"),
            ContractType::Property => String::from_str("Property"),
        }
    }

    pub fn import_name(&self) -> (r: String)
        ensures
            r@ == self.base_spec(),
    {
        match self {
            ContractType::Handler => String::from_str("Setup"),
            ContractType::Property => String::from_str("HandlersParent"),
        }
    }

    pub fn child_name(&self) -> (r: String)
        ensures
            r@ == self.child_spec(),
    {
        match self {
            ContractType::Handler => String::from_str("HandlerParent"),
            ContractType::Property => String::from_str("PropertiesParent"),
        }
    }
}

} // verus!
