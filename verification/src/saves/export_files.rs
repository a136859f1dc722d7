//! Export files: the first export of a directory is `kanban_export.json`,
//! and the exports after it carry a number, `kanban_export_1.json` and so on.

use crate::saves::digits::{append_numeral, lemma_numeral, number, numeral};
use vstd::prelude::*;
use vstd::string::StringExecFns;

verus! {

/// The name of the export file with number `n`; number 0 is the file without
/// a number.
pub open spec fn export_name(n: nat) -> Seq<char> {
    if n == 0 {
        "kanban_export.json"@
    } else {
        "kanban_export_"@ + numeral(n) + ".json"@
    }
}

/// Different numbers give different names, so that counting up always
/// reaches a name that no file has yet.
pub proof fn lemma_export_names_differ(a: nat, b: nat)
    requires
        a != b,
    ensures
        export_name(a) != export_name(b),
{
    reveal_strlit("kanban_export.json");
    reveal_strlit("kanban_export_");
    reveal_strlit(".json");
    lemma_numeral(a);
    lemma_numeral(b);
    let name_a = export_name(a);
    let name_b = export_name(b);
    if a == 0 {
        assert(name_a[13] == '.');
        assert(name_b[13] == '_');
    } else if b == 0 {
        assert(name_b[13] == '.');
        assert(name_a[13] == '_');
    } else if name_a == name_b {
        assert(name_a.subrange(14, name_a.len() - 5) =~= numeral(a));
        assert(name_b.subrange(14, name_b.len() - 5) =~= numeral(b));
        assert(number(numeral(a)) == number(numeral(b)));
    }
}

/// The name of the export file with number `n`.
pub fn export_file_name(n: u32) -> (r: String)
    ensures
        r@ == export_name(n as nat),
{
    if n == 0 {
        "kanban_export.json".to_owned()
    } else {
        let mut name: String = "kanban_export_".to_owned();
        append_numeral(&mut name, n);
        name.append(".json");
        name
    }
}

} // verus!
