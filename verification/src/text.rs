//! Text building blocks: decimal numerals, identifiers, ordering and paths.

use vstd::prelude::*;
use vstd::string::*;

verus! {

/// The character that stands for the decimal digit `d`.
pub open spec fn digit_char(d: nat) -> char
    recommends
        d < 10,
{
    (('0' as u8) + d as u8) as char
}

/// The decimal numeral of `n`, without sign or leading zeros.
pub open spec fn decimal_of(n: nat) -> Seq<char>
    decreases n,
{
    if n < 10 {
        seq![digit_char(n)]
    } else {
        decimal_of(n / 10).push(digit_char(n % 10))
    }
}

/// The decimal digit `d` as text.
pub(crate) fn digit(d: u8) -> (s: &'static str)
    requires
        d < 10,
    ensures
        s@ == seq![digit_char(d as nat)],
{
    proof {
        reveal_strlit("0");
        reveal_strlit("1");
        reveal_strlit("2");
        reveal_strlit("3");
        reveal_strlit("4");
        reveal_strlit("5");
        reveal_strlit("6");
        reveal_strlit("7");
        reveal_strlit("8");
        reveal_strlit("9");
    }
    let s = match d {
        0 => "0",
        1 => "1",
        2 => "2",
        3 => "3",
        4 => "4",
        5 => "5",
        6 => "6",
        7 => "7",
        8 => "8",
        _ => "9",
    };
    assert(s@ =~= seq![digit_char(d as nat)]);
    s
}

/// Writes `n` as a decimal numeral.
pub fn decimal(n: u128) -> (s: String)
    ensures
        s@ == decimal_of(n as nat),
    decreases n,
{
    if n < 10 {
        String::from_str(digit(n as u8))
    } else {
        let mut s = decimal(n / 10);
        s.append(digit((n % 10) as u8));
        s
    }
}

/// The numeral of `hundredths / 100` with two decimal places.
pub open spec fn two_places_of(hundredths: nat) -> Seq<char> {
    decimal_of(hundredths / 100) + "."@ + seq![
        digit_char(hundredths / 10 % 10),
        digit_char(hundredths % 10),
    ]
}

/// The numeral of `tenths / 10` with one decimal place.
pub open spec fn one_place_of(tenths: nat) -> Seq<char> {
    decimal_of(tenths / 10) + "."@ + seq![digit_char(tenths % 10)]
}

/// Writes `hundredths / 100` with two decimal places.
pub fn two_places(hundredths: u128) -> (s: String)
    ensures
        s@ == two_places_of(hundredths as nat),
{
    let mut s = decimal(hundredths / 100);
    s.append(".");
    s.append(digit((hundredths / 10 % 10) as u8));
    s.append(digit((hundredths % 10) as u8));
    assert(s@ =~= two_places_of(hundredths as nat));
    s
}

/// Writes `tenths / 10` with one decimal place.
pub fn one_place(tenths: u128) -> (s: String)
    ensures
        s@ == one_place_of(tenths as nat),
{
    let mut s = decimal(tenths / 10);
    s.append(".");
    s.append(digit((tenths % 10) as u8));
    s
}

/// The lower-case form of an ASCII capital letter; any other character unchanged.
pub open spec fn lower_char(c: char) -> char {
    if 'A' <= c && c <= 'Z' {
        ((c as u8) + 32) as char
    } else {
        c
    }
}

/// The text with each ASCII capital letter replaced by its lower-case form.
pub open spec fn ascii_lower(s: Seq<char>) -> Seq<char> {
    Seq::new(s.len(), |i: int| lower_char(s[i]))
}

fn to_lower(c: char) -> (l: char)
    ensures
        l == lower_char(c),
{
    if 'A' <= c && c <= 'Z' {
        ((c as u8) + 32) as char
    } else {
        c
    }
}

/// Whether `s`, with its ASCII capital letters in lower case, reads `word`.
pub fn lowercase_is(s: &str, word: &str) -> (same: bool)
    ensures
        same == (ascii_lower(s@) == word@),
{
    let n = s.unicode_len();
    if word.unicode_len() != n {
        return false;
    }
    let mut i: usize = 0;
    while i < n
        invariant
            n == s@.len(),
            n == word@.len(),
            i <= n,
            forall|k: int| 0 <= k < i ==> lower_char(s@[k]) == word@[k],
        decreases n - i,
    {
        if to_lower(s.get_char(i)) != word.get_char(i) {
            assert(ascii_lower(s@)[i as int] != word@[i as int]);
            return false;
        }
        i = i + 1;
    }
    assert(ascii_lower(s@) =~= word@);
    true
}

/// The text with an underscore in the place of each hyphen.
pub open spec fn underscored_of(s: Seq<char>) -> Seq<char> {
    Seq::new(s.len(), |i: int| if s[i] == '-' { '_' } else { s[i] })
}

/// Puts an underscore in the place of each hyphen.
pub fn underscored(name: &str) -> (s: String)
    ensures
        s@ == underscored_of(name@),
{
    let n = name.unicode_len();
    let mut s = String::new();
    let mut i: usize = 0;
    proof {
        reveal_strlit("_");
    }
    while i < n
        invariant
            n == name@.len(),
            i <= n,
            "_"@ == seq!['_'],
            s@ == underscored_of(name@).take(i as int),
        decreases n - i,
    {
        if name.get_char(i) == '-' {
            s.append("_");
        } else {
            s.append(name.substring_char(i, i + 1));
        }
        assert(s@ =~= underscored_of(name@).take(i + 1));
        i = i + 1;
    }
    s
}

/// The path that comes of adding `component` to `base`: an absolute component
/// takes the place of the base; any other follows it, after a `/` where the base
/// is not empty and does not end in one.
pub open spec fn pushed(base: Seq<char>, component: Seq<char>) -> Seq<char> {
    if component.len() > 0 && component[0] == '/' {
        component
    } else if base.len() == 0 || base.last() == '/' {
        base + component
    } else {
        base + "/"@ + component
    }
}

/// Adds `component` to the path `base`.
pub fn path_push(base: &str, component: &str) -> (path: String)
    ensures
        path@ == pushed(base@, component@),
{
    if component.unicode_len() > 0 && component.get_char(0) == '/' {
        return String::from_str(component);
    }
    let n = base.unicode_len();
    let mut path = String::from_str(base);
    if n > 0 && base.get_char(n - 1) != '/' {
        path.append("/");
    }
    path.append(component);
    path
}

/// The text with `to` in the place of each occurrence of `from`, the
/// occurrences taken from the left and not overlapping. An empty `from` occurs
/// nowhere.
pub open spec fn replaced(s: Seq<char>, from: Seq<char>, to: Seq<char>) -> Seq<char>
    decreases s.len(),
{
    if from.len() == 0 || s.len() < from.len() {
        s
    } else if s.take(from.len() as int) == from {
        to + replaced(s.skip(from.len() as int), from, to)
    } else {
        s.take(1) + replaced(s.skip(1), from, to)
    }
}

/// Puts `to` in the place of each occurrence of `from` in `s`.
pub fn replace(s: &str, from: &str, to: &str) -> (out: String)
    ensures
        out@ == replaced(s@, from@, to@),
{
    let n = s.unicode_len();
    let m = from.unicode_len();
    if m == 0 || n < m {
        return String::from_str(s);
    }
    let pattern = String::from_str(from);
    let mut out = String::new();
    let mut i: usize = 0;
    assert(s@.skip(0) =~= s@);
    while i <= n - m
        invariant
            n == s@.len(),
            m == from@.len(),
            0 < m <= n,
            i <= n,
            pattern@ == from@,
            out@ + replaced(s@.skip(i as int), from@, to@) == replaced(s@, from@, to@),
        decreases n - i,
    {
        let ghost rest = s@.skip(i as int);
        let ghost before = out@;
        if String::from_str(s.substring_char(i, i + m)) == pattern {
            assert(rest.take(m as int) =~= s@.subrange(i as int, i + m));
            assert(rest.skip(m as int) =~= s@.skip(i + m));
            out.append(to);
            assert(out@ + replaced(s@.skip(i + m), from@, to@) =~= before + replaced(
                rest,
                from@,
                to@,
            ));
            i = i + m;
        } else {
            assert(rest.take(m as int) =~= s@.subrange(i as int, i + m));
            assert(rest.take(1) =~= s@.subrange(i as int, i + 1));
            assert(rest.skip(1) =~= s@.skip(i + 1));
            out.append(s.substring_char(i, i + 1));
            assert(out@ + replaced(s@.skip(i + 1), from@, to@) =~= before + replaced(
                rest,
                from@,
                to@,
            ));
            i = i + 1;
        }
    }
    let ghost before = out@;
    out.append(s.substring_char(i, n));
    assert(s@.subrange(i as int, n as int) =~= s@.skip(i as int));
    assert(out@ =~= before + replaced(s@.skip(i as int), from@, to@));
    out
}

/// Whether two texts part at `k`: up to there they read the same, and there
/// the first ends while the second goes on, or the first has the character that
/// comes earlier.
pub open spec fn parts_at(a: Seq<char>, b: Seq<char>, k: int) -> bool {
    &&& 0 <= k <= a.len()
    &&& k < b.len()
    &&& forall|i: int| 0 <= i < k ==> a[i] == b[i]
    &&& k < a.len() ==> (a[k] as u32) < (b[k] as u32)
}

/// Whether `a` comes before `b` in the order of a dictionary, characters taken
/// by their code points.
pub open spec fn precedes(a: Seq<char>, b: Seq<char>) -> bool {
    exists|k: int| parts_at(a, b, k)
}

/// Whether each text of the list comes before those that follow it. No text
/// occurs twice in such a list.
pub open spec fn ascending(list: Seq<Seq<char>>) -> bool {
    forall|i: int, j: int| 0 <= i < j < list.len() ==> precedes(list[i], list[j])
}

/// Of two different texts one comes before the other, never both.
pub proof fn lemma_precedes_one_way(a: Seq<char>, b: Seq<char>)
    requires
        precedes(a, b),
    ensures
        !precedes(b, a),
        a != b,
{
    let k = choose|k: int| parts_at(a, b, k);
    if precedes(b, a) {
        let m = choose|m: int| parts_at(b, a, m);
        if k < m {
            assert(b[k] == a[k]);
        } else if m < k {
            assert(a[m] == b[m]);
        }
    }
}

/// What comes before a text comes before everything after that text.
pub proof fn lemma_precedes_transitive(a: Seq<char>, b: Seq<char>, c: Seq<char>)
    requires
        precedes(a, b),
        precedes(b, c),
    ensures
        precedes(a, c),
{
    let k = choose|k: int| parts_at(a, b, k);
    let m = choose|m: int| parts_at(b, c, m);
    if k <= m {
        assert(parts_at(a, c, k));
    } else {
        assert(a[m] == b[m]);
        assert(parts_at(a, c, m));
    }
}

/// How one text stands to another in the order of a dictionary.
#[derive(Clone, Copy, Debug, PartialEq, Eq, Structural)]
pub enum Place {
    Before,
    Same,
    After,
}

/// Finds how `a` stands to `b` in the order of a dictionary.
pub fn place(a: &str, b: &str) -> (found: Place)
    ensures
        found == Place::Before <==> precedes(a@, b@),
        found == Place::Same <==> a@ == b@,
        found == Place::After <==> precedes(b@, a@),
{
    let n = a.unicode_len();
    let m = b.unicode_len();
    let mut i: usize = 0;
    while i < n && i < m
        invariant
            n == a@.len(),
            m == b@.len(),
            i <= n,
            i <= m,
            forall|j: int| 0 <= j < i ==> a@[j] == b@[j],
        decreases n - i,
    {
        let x = a.get_char(i);
        let y = b.get_char(i);
        if x < y {
            assert(parts_at(a@, b@, i as int));
            proof {
                lemma_precedes_one_way(a@, b@);
            }
            return Place::Before;
        }
        if y < x {
            assert(parts_at(b@, a@, i as int));
            proof {
                lemma_precedes_one_way(b@, a@);
            }
            return Place::After;
        }
        i = i + 1;
    }
    if n < m {
        assert(parts_at(a@, b@, i as int));
        proof {
            lemma_precedes_one_way(a@, b@);
        }
        Place::Before
    } else if m < n {
        assert(parts_at(b@, a@, i as int));
        proof {
            lemma_precedes_one_way(b@, a@);
        }
        Place::After
    } else {
        assert(a@ =~= b@);
        assert(!precedes(a@, b@)) by {
            if precedes(a@, b@) {
                lemma_precedes_one_way(a@, b@);
            }
        }
        Place::Same
    }
}

/// Puts `item` into an ascending list, at its place, unless the list holds it.
pub(crate) fn insert_ascending(list: &mut Vec<String>, item: &str)
    requires
        ascending(old(list).deep_view()),
    ensures
        final(list)@.len() <= old(list)@.len() + 1,
        ascending(final(list).deep_view()),
        forall|s: Seq<char>|
            final(list).deep_view().contains(s) <==> old(list).deep_view().contains(s) || s
                == item@,
{
    let ghost before = list.deep_view();
    let n = list.len();
    let mut i: usize = 0;
    while i < n
        invariant
            n == list@.len(),
            i <= n,
            list.deep_view() == before,
            ascending(before),
            forall|j: int| 0 <= j < i ==> precedes(#[trigger] before[j], item@),
        ensures
            i <= n,
            i < n ==> precedes(item@, before[i as int]),
        decreases n - i,
    {
        let found = place(list[i].as_str(), item);
        assert(list[i as int]@ == before[i as int]);
        match found {
            Place::Before => {},
            Place::Same => {
                assert(before.contains(item@));
                return ;
            },
            Place::After => {
                break ;
            },
        }
        i = i + 1;
    }
    list.insert(i, String::from_str(item));
    let ghost after = list.deep_view();
    assert(after =~= before.insert(i as int, item@));
    assert forall|x: int, y: int| 0 <= x < y < after.len() implies precedes(
        after[x],
        after[y],
    ) by {
        if y == i {
            assert(after[x] == before[x]);
        } else if x == i {
            assert(after[y] == before[y - 1]);
            if y - 1 > i {
                lemma_precedes_transitive(item@, before[i as int], before[y - 1]);
            }
        } else {
            let ox = if x < i { x } else { x - 1 };
            let oy = if y < i { y } else { y - 1 };
            assert(after[x] == before[ox] && after[y] == before[oy]);
        }
    }
    assert forall|s: Seq<char>| after.contains(s) <==> before.contains(s) || s == item@ by {
        if after.contains(s) {
            let x = choose|x: int| 0 <= x < after.len() && after[x] == s;
            if x < i {
                assert(before[x] == s);
            } else if x > i {
                assert(before[x - 1] == s);
            }
        }
        if before.contains(s) {
            let x = choose|x: int| 0 <= x < before.len() && before[x] == s;
            if x < i {
                assert(after[x] == s);
            } else {
                assert(after[x + 1] == s);
            }
        }
        if s == item@ {
            assert(after[i as int] == s);
        }
    }
}

} // verus!
