use vstd::prelude::*;
use vstd::string::*;

verus! {

/// One emittable source file: what the template turns into text.
pub struct Contract {
    pub licence: String,
    pub solc: String,
    pub imports: String,
    pub name: String,
    pub parents: String,
}

/// The mathematical value of a [`Contract`].
pub struct ContractView {
    pub licence: Seq<char>,
    pub solc: Seq<char>,
    pub imports: Seq<char>,
    pub name: Seq<char>,
    pub parents: Seq<char>,
}

impl View for Contract {
    type V = ContractView;

    open spec fn view(&self) -> ContractView {
        ContractView {
            licence: self.licence@,
            solc: self.solc@,
            imports: self.imports@,
            name: self.name@,
            parents: self.parents@,
        }
    }
}

/// The line that imports contract `name` from its own file beside the importer.
pub open spec fn import_line(name: Seq<char>) -> Seq<char> {
    "import { "@ + name + " } from './"@ + name + ".t.sol';\n"@
}

/// One import line per name, in order.
pub open spec fn import_block(names: Seq<Seq<char>>) -> Seq<char>
    decreases names.len(),
{
    if names.len() == 0 {
        Seq::empty()
    } else {
        import_block(names.drop_last()) + import_line(names.last())
    }
}

/// The names joined by ", ", with no separator before the first or after the last.
pub open spec fn join_names(names: Seq<Seq<char>>) -> Seq<char>
    decreases names.len(),
{
    if names.len() == 0 {
        Seq::empty()
    } else if names.len() == 1 {
        names[0]
    } else {
        join_names(names.drop_last()) + ", "@ + names.last()
    }
}

/// The names of a sequence of contracts, in order.
pub open spec fn names_of(cs: Seq<Contract>) -> Seq<Seq<char>> {
    cs.map_values(|c: Contract| c.name@)
}

/// Builds the import line of contract `name`.
pub fn import_statement(name: &str) -> (r: String)
    ensures
        r@ == import_line(name@),
{
    let mut r = String::from_str("import { ");
    r.append(name);
    r.append(" } from './");
    r.append(name);
    r.append(".t.sol';\n");
    r
}

/// One import line for each contract, in the order given.
pub fn parse_child_imports(parents: &Vec<Contract>) -> (r: String)
    ensures
        r@ == import_block(names_of(parents@)),
{
    let mut r = String::new();
    let mut i: usize = 0;
    while i < parents.len()
        invariant
            i <= parents.len(),
            r@ == import_block(names_of(parents@.take(i as int))),
        decreases parents.len() - i,
    {
        let line = import_statement(parents[i].name.as_str());
        r.append(line.as_str());
        assert(names_of(parents@.take(i + 1)).drop_last() =~= names_of(parents@.take(i as int)));
        i = i + 1;
    }
    assert(parents@.take(i as int) =~= parents@);
    r
}

/// The names of the contracts, joined by ", ".
pub fn parse_parents(parents: &Vec<Contract>) -> (r: String)
    ensures
        r@ == join_names(names_of(parents@)),
{
    let mut r = String::new();
    let mut i: usize = 0;
    while i < parents.len()
        invariant
            i <= parents.len(),
            r@ == join_names(names_of(parents@.take(i as int))),
        decreases parents.len() - i,
    {
        if i > 0 {
            r.append(", ");
        }
        r.append(parents[i].name.as_str());
        assert(names_of(parents@.take(i + 1)).drop_last() =~= names_of(parents@.take(i as int)));
        i = i + 1;
    }
    assert(parents@.take(i as int) =~= parents@);
    r
}

} // verus!
