//! Derivation paths: where in the tree of keys a child wallet sits.

use vstd::prelude::*;
use crate::text::{decimal_string, decimal_text, lemma_decimal_text_injective};

verus! {

/// Indices below this limit can be written as a hardened path level.
pub const HARDENED_LIMIT: u64 = 0x8000_0000;

/// The path of the child wallet `index`: purpose 44, the coin type
/// 1179993420, the index as the hardened account level, then change 0 and
/// address index 0.
pub open spec fn child_path(index: nat) -> Seq<char> {
    "m/44'/1179993420'/"@ + decimal_text(index) + "'/0/0"@
}

/// A path that `child_path` gives for an index that can be hardened.
pub open spec fn is_child_path(path: Seq<char>) -> bool {
    exists|index: nat| index < HARDENED_LIMIT && path == #[trigger] child_path(index)
}

/// Different indices have different paths.
pub proof fn law_child_paths_are_distinct(i: nat, j: nat)
    requires
        i != j,
    ensures
        child_path(i) != child_path(j),
{
    if child_path(i) == child_path(j) {
        let head = "m/44'/1179993420'/"@;
        let tail = "'/0/0"@;
        let a = decimal_text(i);
        let b = decimal_text(j);
        let p = child_path(i);
        assert(p.len() == head.len() + a.len() + tail.len());
        assert(p.len() == head.len() + b.len() + tail.len());
        assert(p.subrange(head.len() as int, (head.len() + a.len()) as int) =~= a);
        assert(p.subrange(head.len() as int, (head.len() + b.len()) as int) =~= b);
        lemma_decimal_text_injective(i, j);
    }
}

/// The path of the first child, written out.
pub proof fn lemma_first_child_path()
    ensures
        child_path(0) == "m/44'/1179993420'/0'/0/0"@,
{
    reveal_strlit("m/44'/1179993420'/");
    reveal_strlit("'/0/0");
    reveal_strlit("m/44'/1179993420'/0'/0/0");
    assert(decimal_text(0) =~= seq!['0']);
    assert(child_path(0) =~= "m/44'/1179993420'/0'/0/0"@);
}

/// Writes the derivation path of the child wallet `index`.
pub fn derivation_path(index: usize) -> (path: String)
    ensures
        path@ == child_path(index as nat),
{
    let mut path = String::from_str("m/44'/1179993420'/");
    let level = decimal_string(index as u64);
    path.append(level.as_str());
    path.append("'/0/0");
    path
}

} // verus!
