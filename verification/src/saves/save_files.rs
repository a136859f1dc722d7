//! Save files: how they are named, how a directory's save files are listed,
//! and which version the next save of a day gets.
//!
//! A save file is named `kanban_DD-MM-YYYY_vN`: the day, month and year of
//! the save with two, two and four digits, and the version `N` of that day
//! in one or more digits. A directory is listed by this pattern alone, so
//! that every file that carries it is shown. A name is read back as a date
//! and a version only where its date is a day of the calendar and its
//! version fits into 32 bits.

use crate::saves::calendar::{is_calendar_date, SaveDate};
use crate::saves::digits::{
    all_digits, append_numeral, append_padded, digits_between, lemma_digits_below, lemma_numeral,
    lemma_padded, number, number_between, number_is_larger, numeral, padded, pow10,
};
use crate::text::{chars_of, texts};
use vstd::prelude::*;
use vstd::string::StringExecFns;

verus! {

/// The date and the version that the name of a save file states.
#[derive(Debug, Clone, Copy, PartialEq, Eq, Hash, Structural)]
pub struct SaveStamp {
    pub date: SaveDate,
    pub version: u32,
}

/// The number of characters before the version's digits.
pub const VERSION_START: usize = 19;

/// Whether `s` has the pattern of the name of a save file: the fixed parts
/// in their places and digits everywhere else, at least one for the version.
/// The digits may write any number.
pub open spec fn has_save_shape(s: Seq<char>) -> bool {
    &&& s.len() > VERSION_START
    &&& s.take(7) == "kanban_"@
    &&& all_digits(s.subrange(7, 9))
    &&& s[9] == '-'
    &&& all_digits(s.subrange(10, 12))
    &&& s[12] == '-'
    &&& all_digits(s.subrange(13, 17))
    &&& s.subrange(17, 19) == "_v"@
    &&& all_digits(s.skip(19))
}

/// The day that a name of that shape states.
pub open spec fn day_in(s: Seq<char>) -> int {
    number(s.subrange(7, 9))
}

/// The month that a name of that shape states.
pub open spec fn month_in(s: Seq<char>) -> int {
    number(s.subrange(10, 12))
}

/// The year that a name of that shape states.
pub open spec fn year_in(s: Seq<char>) -> int {
    number(s.subrange(13, 17))
}

/// The version that a name of that shape states.
pub open spec fn version_in(s: Seq<char>) -> int {
    number(s.skip(19))
}

/// Whether `s` is the name of a save that can be read back: it has the
/// pattern, its date is a day of the calendar, and its version fits into 32
/// bits.
pub open spec fn is_save_name(s: Seq<char>) -> bool {
    &&& has_save_shape(s)
    &&& is_calendar_date(year_in(s), month_in(s), day_in(s))
    &&& version_in(s) <= u32::MAX
}

/// Whether the save file `s` is of the day `date`.
pub open spec fn is_save_of(s: Seq<char>, date: SaveDate) -> bool {
    &&& is_save_name(s)
    &&& day_in(s) == date.day_of()
    &&& month_in(s) == date.month_of()
    &&& year_in(s) == date.year_of()
}

/// Whether the name `a` comes after the name `b`, both of the pattern: it
/// states a later year, or the same year and a later month, or the same
/// month and a later day, or the same day and a higher version. The numbers
/// count as they are written, whether or not the calendar has the day.
pub open spec fn is_later(a: Seq<char>, b: Seq<char>) -> bool {
    ||| year_in(a) > year_in(b)
    ||| year_in(a) == year_in(b) && month_in(a) > month_in(b)
    ||| year_in(a) == year_in(b) && month_in(a) == month_in(b) && day_in(a) > day_in(b)
    ||| year_in(a) == year_in(b) && month_in(a) == month_in(b) && day_in(a) == day_in(b)
        && version_in(a) > version_in(b)
}

/// The name of the save file of version `version` of the day `date`.
pub open spec fn save_name(date: SaveDate, version: nat) -> Seq<char> {
    "kanban_"@ + padded(date.day_of() as nat, 2) + seq!['-'] + padded(date.month_of() as nat, 2)
        + seq!['-'] + padded(date.year_of() as nat, 4) + "_v"@ + numeral(version)
}

impl SaveStamp {
    /// Whether this stamp is what the name `s` states.
    pub open spec fn is_read_from(self, s: Seq<char>) -> bool {
        &&& self.date.is_valid()
        &&& self.date.day_of() == day_in(s)
        &&& self.date.month_of() == month_in(s)
        &&& self.date.year_of() == year_in(s)
        &&& self.version == version_in(s)
    }
}

/// A name of the pattern taken apart: its characters, and the day, month
/// and year that it states.
struct NameParts {
    chars: Vec<char>,
    day: u32,
    month: u32,
    year: u32,
}

impl NameParts {
    /// Whether these are the parts of the name `s`, which has the pattern.
    spec fn is_of(self, s: Seq<char>) -> bool {
        &&& self.chars@ == s
        &&& has_save_shape(s)
        &&& self.day == day_in(s)
        &&& self.month == month_in(s)
        &&& self.year == year_in(s)
    }

    /// Whether the name of these parts comes after the name of `other`.
    fn comes_after(&self, other: &NameParts) -> (r: bool)
        requires
            self.is_of(self.chars@),
            other.is_of(other.chars@),
        ensures
            r == is_later(self.chars@, other.chars@),
    {
        if self.year != other.year {
            self.year > other.year
        } else if self.month != other.month {
            self.month > other.month
        } else if self.day != other.day {
            self.day > other.day
        } else {
            number_is_larger(&self.chars, VERSION_START, &other.chars, VERSION_START)
        }
    }
}

/// Takes a name of the pattern apart; `None` for every other string.
fn read_parts(name: &str) -> (r: Option<NameParts>)
    ensures
        r is Some <==> has_save_shape(name@),
        r matches Some(parts) ==> parts.is_of(name@),
{
    let chars = chars_of(name);
    let n = chars.len();
    proof {
        reveal_strlit("kanban_");
        reveal_strlit("_v");
    }
    if n <= VERSION_START {
        return None;
    }
    let ghost s = chars@;
    if !(chars[0] == 'k' && chars[1] == 'a' && chars[2] == 'n' && chars[3] == 'b' && chars[4] == 'a'
        && chars[5] == 'n' && chars[6] == '_') {
        proof {
            let head = s.take(7);
            assert(head[0] == s[0] && head[1] == s[1] && head[2] == s[2] && head[3] == s[3] && head[4]
                == s[4] && head[5] == s[5] && head[6] == s[6]);
        }
        return None;
    }
    assert(s.take(7) =~= "kanban_"@);
    if !(chars[9] == '-' && chars[12] == '-' && chars[17] == '_' && chars[18] == 'v') {
        proof {
            let mark = s.subrange(17, 19);
            assert(mark[0] == s[17] && mark[1] == s[18]);
        }
        return None;
    }
    assert(s.subrange(17, 19) =~= "_v"@);
    assert(s.skip(19) =~= s.subrange(19, n as int));
    if !(digits_between(&chars, 7, 9) && digits_between(&chars, 10, 12) && digits_between(
        &chars,
        13,
        17,
    ) && digits_between(&chars, 19, n)) {
        return None;
    }
    let day = number_between(&chars, 7, 9);
    let month = number_between(&chars, 10, 12);
    let year = number_between(&chars, 13, 17);
    proof {
        lemma_few_digits(s.subrange(7, 9));
        lemma_few_digits(s.subrange(10, 12));
        lemma_few_digits(s.subrange(13, 17));
    }
    match (day, month, year) {
        (Some(day), Some(month), Some(year)) => Some(NameParts { chars, day, month, year }),
        _ => None,
    }
}

/// Reads the date and the version from the name of a save file; `None` for
/// every string that is not the name of a save that can be read back.
pub fn parse_save_name(name: &str) -> (r: Option<SaveStamp>)
    ensures
        r is Some <==> is_save_name(name@),
        r matches Some(stamp) ==> stamp.is_read_from(name@),
{
    match read_parts(name) {
        Some(parts) => {
            proof {
                lemma_few_digits(name@.subrange(13, 17));
                assert(name@.skip(19) =~= name@.subrange(19, name@.len() as int));
            }
            let version = number_between(&parts.chars, VERSION_START, parts.chars.len());
            match (version, SaveDate::new(parts.day, parts.month, parts.year as i32)) {
                (Some(version), Some(date)) => Some(SaveStamp { date, version }),
                _ => None,
            }
        },
        None => None,
    }
}

/// Up to four digits write a number below ten thousand.
proof fn lemma_few_digits(s: Seq<char>)
    requires
        all_digits(s),
        s.len() <= 4,
    ensures
        0 <= number(s) <= 9999,
{
    reveal_with_fuel(pow10, 5);
    lemma_digits_below(s, pow10(s.len()));
}

/// The name of the save file of version `version` of the day `date`.
pub fn save_file_name(date: &SaveDate, version: u32) -> (r: String)
    ensures
        r@ == save_name(*date, version as nat),
{
    let mut name: String = "kanban_".to_owned();
    append_padded(&mut name, date.day() as u32, 2);
    name.append("-");
    append_padded(&mut name, date.month() as u32, 2);
    name.append("-");
    append_padded(&mut name, date.year() as u32, 4);
    name.append("_v");
    append_numeral(&mut name, version);
    proof {
        reveal_strlit("-");
        assert("-"@ =~= seq!['-']);
    }
    name
}

/// The name written for a day and a version is the name of a save file,
/// and it states that day and that version.
pub proof fn lemma_save_name(date: SaveDate, version: nat)
    requires
        date.is_valid(),
        version <= u32::MAX,
    ensures
        is_save_of(save_name(date, version), date),
        version_in(save_name(date, version)) == version,
{
    let day = padded(date.day_of() as nat, 2);
    let month = padded(date.month_of() as nat, 2);
    let year = padded(date.year_of() as nat, 4);
    let digits = numeral(version);
    let s = save_name(date, version);
    reveal_strlit("kanban_");
    reveal_strlit("_v");
    reveal_with_fuel(pow10, 5);
    lemma_padded(date.day_of() as nat, 2, 100);
    lemma_padded(date.month_of() as nat, 2, 100);
    lemma_padded(date.year_of() as nat, 4, 10000);
    lemma_numeral(version);
    assert(s.len() == 19 + digits.len());
    assert(s.take(7) =~= "kanban_"@);
    assert(s.subrange(7, 9) =~= day);
    assert(s.subrange(10, 12) =~= month);
    assert(s.subrange(13, 17) =~= year);
    assert(s.subrange(17, 19) =~= "_v"@);
    assert(s.skip(19) =~= digits);
    assert(s[9] == '-');
    assert(s[12] == '-');
}

/// The names of the pattern among `names`, in the order of `names`.
pub open spec fn save_names_of(names: Seq<Seq<char>>) -> Seq<Seq<char>> {
    names.filter(|s: Seq<char>| has_save_shape(s))
}

/// Whether no entry of `list` comes after an entry further on.
pub open spec fn is_sorted(list: Seq<Seq<char>>) -> bool {
    forall|i: int, j: int| 0 <= i < j < list.len() ==> !is_later(list[i], list[j])
}

/// Where `name` goes in the sorted list `sorted`: behind the last entry that
/// does not come after it.
pub open spec fn insert_place(sorted: Seq<Seq<char>>, name: Seq<char>) -> int
    decreases sorted.len(),
{
    if sorted.len() == 0 {
        0
    } else if is_later(sorted.last(), name) {
        insert_place(sorted.drop_last(), name)
    } else {
        sorted.len() as int
    }
}

/// The listing of the first `n` of `names`: those of the pattern, by day
/// and version, names of the same day and version in the order of `names`.
pub open spec fn listing_upto(names: Seq<Seq<char>>, n: int) -> Seq<Seq<char>>
    decreases n,
{
    if n <= 0 {
        Seq::empty()
    } else if has_save_shape(names[n - 1]) {
        let before = listing_upto(names, n - 1);
        before.insert(insert_place(before, names[n - 1]), names[n - 1])
    } else {
        listing_upto(names, n - 1)
    }
}

/// The listing of `names`: every name of the pattern among them, ordered by
/// the year, the month, the day and then the version that it states, from
/// the earliest on. Names of the same day and version keep the order that
/// they have in `names`.
pub open spec fn listing(names: Seq<Seq<char>>) -> Seq<Seq<char>> {
    listing_upto(names, names.len() as int)
}

proof fn lemma_insert_place(sorted: Seq<Seq<char>>, name: Seq<char>)
    requires
        is_sorted(sorted),
    ensures
        0 <= insert_place(sorted, name) <= sorted.len(),
        forall|i: int| 0 <= i < insert_place(sorted, name) ==> !is_later(#[trigger] sorted[i], name),
        forall|i: int|
            insert_place(sorted, name) <= i < sorted.len() ==> is_later(#[trigger] sorted[i], name),
        is_sorted(sorted.insert(insert_place(sorted, name), name)),
    decreases sorted.len(),
{
    let p = insert_place(sorted, name);
    if sorted.len() > 0 {
        if is_later(sorted.last(), name) {
            let shorter = sorted.drop_last();
            assert(is_sorted(shorter)) by {
                assert forall|i: int, j: int| 0 <= i < j < shorter.len() implies !is_later(
                    shorter[i],
                    shorter[j],
                ) by {
                    assert(shorter[i] == sorted[i] && shorter[j] == sorted[j]);
                }
            }
            lemma_insert_place(shorter, name);
            assert forall|i: int| 0 <= i < p implies !is_later(#[trigger] sorted[i], name) by {
                assert(shorter[i] == sorted[i]);
            }
            assert forall|i: int| p <= i < sorted.len() implies is_later(#[trigger] sorted[i], name) by {
                if i < shorter.len() {
                    assert(shorter[i] == sorted[i]);
                }
            }
        } else {
            assert forall|i: int| 0 <= i < p implies !is_later(#[trigger] sorted[i], name) by {
                if i < sorted.len() - 1 {
                    assert(!is_later(sorted[i], sorted[sorted.len() - 1]));
                }
            }
        }
    }
    let longer = sorted.insert(p, name);
    assert forall|i: int, j: int| 0 <= i < j < longer.len() implies !is_later(longer[i], longer[j]) by {
        if j < p {
            assert(longer[i] == sorted[i] && longer[j] == sorted[j]);
        } else if j == p {
            assert(longer[i] == sorted[i]);
        } else if i < p {
            assert(longer[i] == sorted[i] && longer[j] == sorted[j - 1]);
        } else if i == p {
            assert(longer[j] == sorted[j - 1]);
            assert(is_later(sorted[j - 1], name));
        } else {
            assert(longer[i] == sorted[i - 1] && longer[j] == sorted[j - 1]);
        }
    }
}

proof fn lemma_listing_upto(names: Seq<Seq<char>>, n: int)
    requires
        0 <= n <= names.len(),
    ensures
        is_sorted(listing_upto(names, n)),
        listing_upto(names, n).to_multiset() == save_names_of(names.take(n)).to_multiset(),
    decreases n,
{
    broadcast use vstd::seq_lib::group_to_multiset_ensures;

    if n > 0 {
        lemma_listing_upto(names, n - 1);
        let before = listing_upto(names, n - 1);
        let name = names[n - 1];
        let pred = |s: Seq<char>| has_save_shape(s);
        assert(names.take(n) =~= names.take(n - 1).push(name));
        names.take(n - 1).lemma_filter_push(name, pred);
        lemma_insert_place(before, name);
        if has_save_shape(name) {
            vstd::seq_lib::to_multiset_insert(before, insert_place(before, name), name);
        }
    } else {
        assert(names.take(0) =~= Seq::<Seq<char>>::empty());
        assert(save_names_of(names.take(0)) =~= Seq::<Seq<char>>::empty());
    }
}

/// The listing holds exactly the names of the pattern, each as often as the
/// names hold it, and no name in it comes after a name further on.
pub proof fn lemma_listing(names: Seq<Seq<char>>)
    ensures
        is_sorted(listing(names)),
        listing(names).to_multiset() == save_names_of(names).to_multiset(),
        listing(names).len() == save_names_of(names).len(),
        forall|s: Seq<char>| #[trigger] listing(names).contains(s) <==> names.contains(s) && has_save_shape(s),
{
    lemma_listing_upto(names, names.len() as int);
    assert(names.take(names.len() as int) =~= names);
    let kept = save_names_of(names);
    let listed = listing(names);
    kept.to_multiset_ensures();
    listed.to_multiset_ensures();
    assert forall|s: Seq<char>| #[trigger] listed.contains(s) <==> names.contains(s) && has_save_shape(s) by {
        lemma_save_names_of(names, s);
        assert(listed.contains(s) <==> listed.to_multiset().count(s) > 0);
        assert(kept.contains(s) <==> kept.to_multiset().count(s) > 0);
    }
}

/// The names of the pattern among the names are the names that have the
/// pattern.
pub proof fn lemma_save_names_of(names: Seq<Seq<char>>, s: Seq<char>)
    ensures
        save_names_of(names).contains(s) <==> names.contains(s) && has_save_shape(s),
{
    let pred = |s: Seq<char>| has_save_shape(s);
    let kept = save_names_of(names);
    if kept.contains(s) {
        let i = choose|i: int| 0 <= i < kept.len() && kept[i] == s;
        names.lemma_filter_pred(pred, i);
        names.lemma_filter_contains_rev(pred, s);
    }
    if names.contains(s) && has_save_shape(s) {
        let i = choose|i: int| 0 <= i < names.len() && names[i] == s;
        names.lemma_filter_contains(pred, i);
    }
}

/// Lists the save files among `names`, a directory's file names: every name
/// of the pattern, ordered by the year, the month, the day and then the
/// version that it states, from the earliest on. Names of another pattern
/// are left out. The numbers count as they are written: a name is listed
/// whether or not the calendar has its day, and however long its version is.
pub fn list_save_files(names: &Vec<String>) -> (r: Vec<String>)
    ensures
        texts(r@) == listing(texts(names@)),
{
    let mut listed: Vec<String> = Vec::new();
    let mut parts: Vec<NameParts> = Vec::new();
    let mut i: usize = 0;
    assert(texts(listed@) =~= listing_upto(texts(names@), 0));
    while i < names.len()
        invariant
            i <= names.len(),
            texts(listed@) == listing_upto(texts(names@), i as int),
            parts.len() == listed.len(),
            forall|k: int| 0 <= k < parts.len() ==> (#[trigger] parts[k]).is_of(listed[k]@),
        decreases names.len() - i,
    {
        let ghost name = names[i as int]@;
        let ghost before = texts(listed@);
        assert(texts(names@)[i as int] == name);
        match read_parts(names[i].as_str()) {
            Some(found) => {
                let mut p: usize = listed.len();
                assert(before.take(p as int) =~= before);
                while p > 0 && parts[p - 1].comes_after(&found)
                    invariant
                        p <= listed.len(),
                        parts.len() == listed.len(),
                        before == texts(listed@),
                        found.is_of(name),
                        forall|k: int|
                            0 <= k < parts.len() ==> (#[trigger] parts[k]).is_of(listed[k]@),
                        insert_place(before, name) == insert_place(before.take(p as int), name),
                    decreases p,
                {
                    proof {
                        let part = before.take(p as int);
                        assert(part.last() == listed[p - 1]@);
                        assert(parts[p - 1].is_of(listed[p - 1]@));
                        assert(part.drop_last() =~= before.take(p - 1));
                    }
                    p -= 1;
                }
                proof {
                    let part = before.take(p as int);
                    if p > 0 {
                        assert(part.last() == listed[p - 1]@);
                        assert(parts[p - 1].is_of(listed[p - 1]@));
                    }
                }
                listed.insert(p, names[i].clone());
                parts.insert(p, found);
                proof {
                    assert(texts(listed@) =~= before.insert(p as int, name));
                }
            },
            None => {},
        }
        i += 1;
    }
    listed
}

/// The highest version among the saves of the day `date` in the first `n`
/// of `names`; 0 where there is none.
pub open spec fn latest_version(names: Seq<Seq<char>>, date: SaveDate, n: int) -> int
    decreases n,
{
    if n <= 0 {
        0
    } else {
        let before = latest_version(names, date, n - 1);
        if is_save_of(names[n - 1], date) && version_in(names[n - 1]) > before {
            version_in(names[n - 1])
        } else {
            before
        }
    }
}

/// The version that the next save of the day `date` gets, beside the files
/// `names`: one more than the highest version of that day, and 1 for the
/// first save of the day.
pub open spec fn next_version(names: Seq<Seq<char>>, date: SaveDate) -> int {
    latest_version(names, date, names.len() as int) + 1
}

proof fn lemma_latest_version(names: Seq<Seq<char>>, date: SaveDate, n: int)
    requires
        0 <= n <= names.len(),
    ensures
        0 <= latest_version(names, date, n) <= u32::MAX,
        forall|i: int|
            0 <= i < n && is_save_of(#[trigger] names[i], date) ==> version_in(names[i])
                <= latest_version(names, date, n),
        latest_version(names, date, n) == 0 || exists|i: int|
            0 <= i < n && is_save_of(#[trigger] names[i], date) && version_in(names[i])
                == latest_version(names, date, n),
    decreases n,
{
    if n > 0 {
        lemma_latest_version(names, date, n - 1);
        let before = latest_version(names, date, n - 1);
        if is_save_of(names[n - 1], date) && version_in(names[n - 1]) > before {
        } else if before != 0 {
            let i = choose|i: int|
                0 <= i < n - 1 && is_save_of(#[trigger] names[i], date) && version_in(names[i]) == before;
            assert(0 <= i < n && is_save_of(names[i], date) && version_in(names[i]) == before);
        }
    }
}

/// The next version of a day is above every version of that day among the
/// names, and directly above one of them unless it is 1.
pub proof fn lemma_next_version(names: Seq<Seq<char>>, date: SaveDate)
    ensures
        1 <= next_version(names, date) <= u32::MAX + 1,
        forall|i: int|
            0 <= i < names.len() && is_save_of(#[trigger] names[i], date) ==> version_in(names[i])
                < next_version(names, date),
        next_version(names, date) == 1 || exists|i: int|
            0 <= i < names.len() && is_save_of(#[trigger] names[i], date) && version_in(names[i]) + 1
                == next_version(names, date),
{
    lemma_latest_version(names, date, names.len() as int);
}

/// The first save of a day gets version 1.
pub proof fn lemma_first_save_of_day(names: Seq<Seq<char>>, date: SaveDate)
    requires
        forall|i: int| 0 <= i < names.len() ==> !is_save_of(#[trigger] names[i], date),
    ensures
        next_version(names, date) == 1,
{
    lemma_next_version(names, date);
}

/// Only the saves of the day count: two lists of names that hold the same
/// saves of a day give that day the same next version, whatever else they
/// hold and in whatever order.
pub proof fn lemma_only_the_day_counts(a: Seq<Seq<char>>, b: Seq<Seq<char>>, date: SaveDate)
    requires
        forall|s: Seq<char>| is_save_of(s, date) ==> (a.contains(s) <==> b.contains(s)),
    ensures
        next_version(a, date) == next_version(b, date),
{
    lemma_next_version(a, date);
    lemma_next_version(b, date);
    let va = next_version(a, date);
    let vb = next_version(b, date);
    if va != 1 {
        let i = choose|i: int|
            0 <= i < a.len() && is_save_of(#[trigger] a[i], date) && version_in(a[i]) + 1 == va;
        assert(a.contains(a[i]));
        assert(b.contains(a[i]));
        let j = choose|j: int| 0 <= j < b.len() && b[j] == a[i];
        assert(is_save_of(b[j], date));
        assert(va <= vb);
    }
    if vb != 1 {
        let i = choose|i: int|
            0 <= i < b.len() && is_save_of(#[trigger] b[i], date) && version_in(b[i]) + 1 == vb;
        assert(b.contains(b[i]));
        assert(a.contains(b[i]));
        let j = choose|j: int| 0 <= j < a.len() && a[j] == b[i];
        assert(is_save_of(a[j], date));
        assert(vb <= va);
    }
}

/// A file that is not a save of the day leaves the day's next version as it
/// was.
pub proof fn lemma_other_file_does_not_count(names: Seq<Seq<char>>, other: Seq<char>, date: SaveDate)
    requires
        !is_save_of(other, date),
    ensures
        next_version(names.push(other), date) == next_version(names, date),
{
    let longer = names.push(other);
    assert forall|s: Seq<char>| is_save_of(s, date) implies (names.contains(s) <==> longer.contains(s)) by {
        if names.contains(s) {
            let i = choose|i: int| 0 <= i < names.len() && names[i] == s;
            assert(longer[i] == s);
        }
        if longer.contains(s) {
            let i = choose|i: int| 0 <= i < longer.len() && longer[i] == s;
            assert(i < names.len());
            assert(names[i] == s);
        }
    }
    lemma_only_the_day_counts(names, longer, date);
}

/// Once the next save of a day has been written under its name, the save
/// after it gets the version that follows.
pub proof fn lemma_save_advances_version(names: Seq<Seq<char>>, date: SaveDate)
    requires
        date.is_valid(),
        next_version(names, date) <= u32::MAX,
    ensures
        next_version(
            names.push(save_name(date, next_version(names, date) as nat)),
            date,
        ) == next_version(names, date) + 1,
{
    lemma_next_version(names, date);
    let v = next_version(names, date);
    let written = save_name(date, v as nat);
    lemma_save_name(date, v as nat);
    let longer = names.push(written);
    assert(longer.take(names.len() as int) =~= names);
    assert(latest_version(longer, date, names.len() as int) == latest_version(
        names,
        date,
        names.len() as int,
    )) by {
        lemma_latest_version_of_prefix(longer, names, date, names.len() as int);
    }
}

proof fn lemma_latest_version_of_prefix(a: Seq<Seq<char>>, b: Seq<Seq<char>>, date: SaveDate, n: int)
    requires
        0 <= n <= a.len(),
        n <= b.len(),
        forall|i: int| 0 <= i < n ==> a[i] == b[i],
    ensures
        latest_version(a, date, n) == latest_version(b, date, n),
    decreases n,
{
    if n > 0 {
        lemma_latest_version_of_prefix(a, b, date, n - 1);
    }
}

/// The version that the next save of the day `date` gets, beside the files
/// `names` of the save directory: one more than the highest version that a
/// save file of that day has, and 1 where the day has no save file yet.
/// Only names that can be read back count, so a version too long for 32
/// bits is passed over. `None` where the next version would not fit into 32
/// bits.
pub fn next_save_version(names: &Vec<String>, date: &SaveDate) -> (r: Option<u32>)
    ensures
        r is Some <==> next_version(texts(names@), *date) <= u32::MAX,
        r matches Some(version) ==> version == next_version(texts(names@), *date),
{
    let mut latest: u32 = 0;
    let mut i: usize = 0;
    while i < names.len()
        invariant
            i <= names.len(),
            latest == latest_version(texts(names@), *date, i as int),
        decreases names.len() - i,
    {
        assert(texts(names@)[i as int] == names[i as int]@);
        match parse_save_name(names[i].as_str()) {
            Some(stamp) => {
                proof {
                    stamp.date.lemma_same_date(*date);
                }
                if stamp.date == *date && stamp.version > latest {
                    latest = stamp.version;
                }
            },
            None => {},
        }
        i += 1;
    }
    latest.checked_add(1)
}

} // verus!
