use vstd::prelude::*;
use vstd::string::*;
use crate::kind::ContractType;

verus! {

/// The `i`-th upper-case letter, counted from 'A' at zero.
pub open spec fn letter(i: int) -> char {
    ((65 + i) as u8) as char
}

/// The name of the `i`-th parent-level contract of a kind.
pub open spec fn parent_name_spec(kind: ContractType, i: int) -> Seq<char> {
    kind.prefix_spec().push(letter(i))
}

/// The letter suffix of the `index`-th parent-level contract, as a one-letter string.
fn letter_str(index: usize) -> (r: &'static str)
    requires
        index < 26,
    ensures
        r@ == seq![letter(index as int)],
{
    let letters = "ABCDEFGHIJKLMNOPQRSTUVWXYZ";
    proof {
        reveal_strlit("ABCDEFGHIJKLMNOPQRSTUVWXYZ");
    }
    let r = letters.substring_char(index, index + 1);
    assert(r@ =~= seq![letter(index as int)]);
    r
}

/// The name of the `index`-th parent-level contract of a kind: its prefix and a letter.
pub fn parent_name(kind: ContractType, index: usize) -> (r: String)
    requires
        index < 26,
    ensures
        r@ == parent_name_spec(kind, index as int),
{
    let mut r = kind.parents_name();
    r.append(letter_str(index));
    r
}

} // verus!
