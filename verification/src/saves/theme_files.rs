//! Theme files: a theme is saved as `kanban_theme_` followed by the name of
//! the theme and `.json`.

use crate::text::chars_of;
use vstd::prelude::*;
use vstd::string::StringExecFns;

verus! {

/// The length of what the name of a theme file starts with.
pub const THEME_PREFIX_LEN: usize = 13;

/// The length of what the name of a theme file ends with.
pub const THEME_SUFFIX_LEN: usize = 5;

/// Whether `s` is the name of a theme file: it starts with `kanban_theme_`,
/// ends with `.json`, the two not overlapping, and holds no line break in
/// between.
pub open spec fn is_theme_name(s: Seq<char>) -> bool {
    &&& s.len() >= THEME_PREFIX_LEN + THEME_SUFFIX_LEN
    &&& s.take(THEME_PREFIX_LEN as int) == "kanban_theme_"@
    &&& s.skip(s.len() - THEME_SUFFIX_LEN) == ".json"@
    &&& forall|i: int| THEME_PREFIX_LEN <= i < s.len() - THEME_SUFFIX_LEN ==> s[i] != '\n'
}

/// The name of the file of the theme `name`.
pub open spec fn theme_name(name: Seq<char>) -> Seq<char> {
    "kanban_theme_"@ + name + ".json"@
}

/// The file of a theme is found again as a theme file, unless the name of
/// the theme holds a line break.
pub proof fn lemma_theme_name(name: Seq<char>)
    requires
        forall|i: int| 0 <= i < name.len() ==> name[i] != '\n',
    ensures
        is_theme_name(theme_name(name)),
{
    reveal_strlit("kanban_theme_");
    reveal_strlit(".json");
    let s = theme_name(name);
    assert(s.take(THEME_PREFIX_LEN as int) =~= "kanban_theme_"@);
    assert(s.skip(s.len() - THEME_SUFFIX_LEN) =~= ".json"@);
    assert forall|i: int| THEME_PREFIX_LEN <= i < s.len() - THEME_SUFFIX_LEN implies s[i] != '\n' by {
        assert(s[i] == name[i - THEME_PREFIX_LEN]);
    }
}

/// Whether `name`, a file name, is the name of a theme file.
pub fn is_theme_file_name(name: &str) -> (r: bool)
    ensures
        r == is_theme_name(name@),
{
    let chars = chars_of(name);
    let n = chars.len();
    proof {
        reveal_strlit("kanban_theme_");
        reveal_strlit(".json");
    }
    if n < THEME_PREFIX_LEN + THEME_SUFFIX_LEN {
        return false;
    }
    let ghost s = chars@;
    let ghost head = s.take(THEME_PREFIX_LEN as int);
    let ghost tail = s.skip(s.len() - THEME_SUFFIX_LEN);
    proof {
        assert(head[0] == s[0] && head[1] == s[1] && head[2] == s[2] && head[3] == s[3] && head[4] == s[4]
            && head[5] == s[5] && head[6] == s[6] && head[7] == s[7] && head[8] == s[8] && head[9]
            == s[9] && head[10] == s[10] && head[11] == s[11] && head[12] == s[12]);
        assert(tail[0] == s[n - 5] && tail[1] == s[n - 4] && tail[2] == s[n - 3] && tail[3] == s[n - 2]
            && tail[4] == s[n - 1]);
    }
    if !(chars[0] == 'k' && chars[1] == 'a' && chars[2] == 'n' && chars[3] == 'b' && chars[4] == 'a'
        && chars[5] == 'n' && chars[6] == '_' && chars[7] == 't' && chars[8] == 'h' && chars[9] == 'e'
        && chars[10] == 'm' && chars[11] == 'e' && chars[12] == '_') {
        return false;
    }
    assert(head =~= "kanban_theme_"@);
    if !(chars[n - 5] == '.' && chars[n - 4] == 'j' && chars[n - 3] == 's' && chars[n - 2] == 'o'
        && chars[n - 1] == 'n') {
        return false;
    }
    assert(tail =~= ".json"@);
    let mut i: usize = THEME_PREFIX_LEN;
    while i < n - THEME_SUFFIX_LEN
        invariant
            THEME_PREFIX_LEN <= i <= n - THEME_SUFFIX_LEN,
            n == chars.len(),
            chars@ == name@,
            forall|j: int| THEME_PREFIX_LEN <= j < i ==> chars@[j] != '\n',
        decreases n - i,
    {
        if chars[i] == '\n' {
            assert(name@[i as int] == '\n');
            return false;
        }
        i += 1;
    }
    true
}

/// The name of the file of the theme `name`.
pub fn theme_file_name(name: &str) -> (r: String)
    ensures
        r@ == theme_name(name@),
{
    let mut file: String = "kanban_theme_".to_owned();
    file.append(name);
    file.append(".json");
    file
}

} // verus!
