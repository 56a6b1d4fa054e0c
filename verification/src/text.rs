//! Searching, comparing and splitting of character sequences.
//!
//! Strings are modelled by their view, a `Seq<char>`. The executable
//! functions work on the characters of a string collected into a `Vec<char>`,
//! so that every index in a contract is a character index.

use vstd::prelude::*;
use vstd::string::{StrSliceExecFns, StringExecFns};

verus! {

/// Whether `pat` occurs in `s` starting at index `i`.
pub open spec fn occurs_at(s: Seq<char>, pat: Seq<char>, i: int) -> bool {
    0 <= i && i + pat.len() <= s.len() && s.subrange(i, i + pat.len()) == pat
}

/// Whether `i` is the first index at or after `from` where `pat` occurs in `s`.
pub open spec fn is_first_at(s: Seq<char>, pat: Seq<char>, from: int, i: int) -> bool {
    from <= i && occurs_at(s, pat, i) && forall|j: int| from <= j < i ==> !occurs_at(s, pat, j)
}

/// The first index at or after `from` where `pat` occurs in `s`, if there is one.
pub open spec fn find_from(s: Seq<char>, pat: Seq<char>, from: int) -> Option<int> {
    if exists|i: int| is_first_at(s, pat, from, i) {
        Some(choose|i: int| is_first_at(s, pat, from, i))
    } else {
        None
    }
}

/// The pieces of `s` from index `from` on, cut at every occurrence of `sep`.
/// There is always at least one piece; a piece may be empty.
pub open spec fn split_from(s: Seq<char>, sep: char, from: int) -> Seq<Seq<char>>
    decreases s.len() - from,
{
    match find_from(s, seq![sep], from) {
        Some(i) => seq![s.subrange(from, i)] + split_from(s, sep, i + 1),
        None => seq![s.subrange(from, s.len() as int)],
    }
}

/// The character sequences of a sequence of string slices.
pub open spec fn slice_views(v: Seq<&str>) -> Seq<Seq<char>> {
    Seq::new(v.len(), |i: int| v[i]@)
}

/// The pieces of `s`, cut at every occurrence of `sep`.
pub open spec fn split(s: Seq<char>, sep: char) -> Seq<Seq<char>> {
    split_from(s, sep, 0)
}

/// An index that is a first occurrence is the one that `find_from` gives.
pub proof fn lemma_find_from_is(s: Seq<char>, pat: Seq<char>, from: int, i: int)
    requires
        is_first_at(s, pat, from, i),
    ensures
        find_from(s, pat, from) == Some(i),
{
    let k = choose|k: int| is_first_at(s, pat, from, k);
    assert(!(k < i) && !(i < k)) by {
        if k < i {
            assert(!occurs_at(s, pat, k));
        } else if i < k {
            assert(!occurs_at(s, pat, i));
        }
    }
}

/// The characters of a string slice, in order.
pub fn chars_of(s: &str) -> (v: Vec<char>)
    ensures
        v@ == s@,
{
    let mut v: Vec<char> = Vec::new();
    for c in it: s.chars()
        invariant
            it.seq() == s@,
            v@ == s@.take(it.index()),
    {
        v.push(c);
    }
    v
}

/// Whether `pat` occurs in `s` at index `i`.
pub fn matches_at(s: &Vec<char>, pat: &Vec<char>, i: usize) -> (r: bool)
    ensures
        r == occurs_at(s@, pat@, i as int),
{
    if i > s.len() || pat.len() > s.len() - i {
        return false;
    }
    let mut k: usize = 0;
    while k < pat.len()
        invariant
            k <= pat.len(),
            i + pat.len() <= s.len(),
            forall|j: int| 0 <= j < k ==> s@[i + j] == pat@[j],
        decreases pat.len() - k,
    {
        if s[i + k] != pat[k] {
            return false;
        }
        k += 1;
    }
    assert(s@.subrange(i as int, i + pat.len()) =~= pat@);
    true
}

/// The first index at or after `from` where `pat` occurs in `s`.
pub fn find(s: &Vec<char>, pat: &Vec<char>, from: usize) -> (r: Option<usize>)
    ensures
        match r {
            Some(i) => find_from(s@, pat@, from as int) == Some(i as int) && is_first_at(
                s@,
                pat@,
                from as int,
                i as int,
            ),
            None => find_from(s@, pat@, from as int) is None,
        },
{
    let mut i: usize = from;
    while i < s.len()
        invariant
            from <= i,
            forall|j: int| from <= j < i ==> !occurs_at(s@, pat@, j),
        decreases s.len() - i,
    {
        if matches_at(s, pat, i) {
            proof {
                lemma_find_from_is(s@, pat@, from as int, i as int);
            }
            return Some(i);
        }
        i += 1;
    }
    if matches_at(s, pat, i) {
        proof {
            lemma_find_from_is(s@, pat@, from as int, i as int);
        }
        return Some(i);
    }
    None
}

/// Whether two string slices hold the same characters.
pub fn same_text(a: &str, b: &str) -> (r: bool)
    ensures
        r == (a@ == b@),
{
    let x = chars_of(a);
    let y = chars_of(b);
    if x.len() != y.len() {
        return false;
    }
    let r = matches_at(&x, &y, 0);
    assert(x@.subrange(0, x@.len() as int) == x@);
    r
}

/// The pieces of `s`, cut at every occurrence of `sep`: one more than
/// there are occurrences.
pub fn split_text<'a>(s: &'a str, sep: char) -> (r: Vec<&'a str>)
    ensures
        slice_views(r@) == split(s@, sep),
        r@.len() >= 1,
{
    let chars = chars_of(s);
    let pat: Vec<char> = vec![sep];
    let n: usize = chars.len();
    let mut out: Vec<&'a str> = Vec::new();
    let mut from: usize = 0;
    loop
        invariant
            chars@ == s@,
            pat@ == seq![sep],
            n == chars@.len(),
            from <= n,
            split(s@, sep) == slice_views(out@) + split_from(
                s@,
                sep,
                from as int,
            ),
        decreases n - from,
    {
        let ghost done = slice_views(out@);
        match find(&chars, &pat, from) {
            Some(i) => {
                let piece = s.substring_char(from, i);
                out.push(piece);
                assert(done.push(piece@) + split_from(s@, sep, i + 1) == done + (seq![piece@]
                    + split_from(s@, sep, i + 1)));
                from = i + 1;
            },
            None => {
                let piece = s.substring_char(from, n);
                out.push(piece);
                return out;
            },
        }
    }
}

/// The characters of a string slice that may be absent.
pub open spec fn slice_view(s: Option<&str>) -> Option<Seq<char>> {
    match s {
        Some(s) => Some(s@),
        None => None,
    }
}

/// The characters of a string that may be absent.
pub open spec fn string_view(s: Option<String>) -> Option<Seq<char>> {
    match s {
        Some(s) => Some(s@),
        None => None,
    }
}

/// The character sequences of a sequence of strings.
pub open spec fn views(v: Seq<String>) -> Seq<Seq<char>> {
    Seq::new(v.len(), |i: int| v[i]@)
}

/// The parts one after another, with `sep` between each two of them.
pub open spec fn join(parts: Seq<Seq<char>>, sep: Seq<char>) -> Seq<char>
    decreases parts.len(),
{
    if parts.len() == 0 {
        Seq::empty()
    } else if parts.len() == 1 {
        parts[0]
    } else {
        join(parts.drop_last(), sep) + sep + parts.last()
    }
}

/// The views of a vector that got one more string.
pub proof fn lemma_views_push(v: Seq<String>, s: String)
    ensures
        views(v.push(s)) == views(v).push(s@),
{
}

/// Calls `String::push`, which appends one character to the string.
#[verifier::external_body]
pub(crate) fn push_char(s: &mut String, c: char)
    ensures
        final(s)@ == old(s)@.push(c),
{
    s.push(c)
}

/// The two texts, one after the other, in a new string.
pub fn joined(a: &str, b: &str) -> (r: String)
    ensures
        r@ == a@ + b@,
{
    String::from_str(a).concat(b)
}

/// The strings one after another, with `sep` between each two of them.
pub fn join_strings(parts: &Vec<String>, sep: &str) -> (r: String)
    ensures
        r@ == join(views(parts@), sep@),
{
    let mut out = String::new();
    let mut k: usize = 0;
    while k < parts.len()
        invariant
            k <= parts.len(),
            out@ == join(views(parts@).take(k as int), sep@),
        decreases parts.len() - k,
    {
        assert(views(parts@).take(k + 1).drop_last() == views(parts@).take(k as int));
        if k > 0 {
            out.append(sep);
        }
        out.append(parts[k].as_str());
        k += 1;
    }
    assert(views(parts@).take(k as int) == views(parts@));
    out
}

/// `s` with every pair of backslashes made one, pairs taken from the left.
pub open spec fn halve_backslashes(s: Seq<char>) -> Seq<char>
    decreases s.len(),
{
    if s.len() == 0 {
        s
    } else if s.len() >= 2 && s[0] == '\\' && s[1] == '\\' {
        seq!['\\'] + halve_backslashes(s.skip(2))
    } else {
        seq![s[0]] + halve_backslashes(s.skip(1))
    }
}

/// Makes every pair of backslashes in `s` one.
pub fn single_backslashes(s: &str) -> (r: String)
    ensures
        r@ == halve_backslashes(s@),
{
    let chars = chars_of(s);
    let n: usize = chars.len();
    let mut out = String::new();
    let mut k: usize = 0;
    assert(chars@.skip(0) == chars@);
    while k < n
        invariant
            k <= n,
            n == chars@.len(),
            chars@ == s@,
            out@ + halve_backslashes(chars@.skip(k as int)) == halve_backslashes(chars@),
        decreases n - k,
    {
        let ghost rest = chars@.skip(k as int);
        let ghost before = out@;
        if chars[k] == '\\' && k + 1 < n && chars[k + 1] == '\\' {
            assert(rest.skip(2) == chars@.skip(k + 2));
            push_char(&mut out, '\\');
            assert(out@ + halve_backslashes(chars@.skip(k + 2)) == before + (seq!['\\']
                + halve_backslashes(rest.skip(2))));
            k += 2;
        } else {
            assert(rest.skip(1) == chars@.skip(k + 1));
            push_char(&mut out, chars[k]);
            assert(out@ + halve_backslashes(chars@.skip(k + 1)) == before + (seq![rest[0]]
                + halve_backslashes(rest.skip(1))));
            k += 1;
        }
    }
    out
}

/// The character of a decimal digit.
pub open spec fn digit_char(d: int) -> char {
    if d == 0 {
        '0'
    } else if d == 1 {
        '1'
    } else if d == 2 {
        '2'
    } else if d == 3 {
        '3'
    } else if d == 4 {
        '4'
    } else if d == 5 {
        '5'
    } else if d == 6 {
        '6'
    } else if d == 7 {
        '7'
    } else if d == 8 {
        '8'
    } else {
        '9'
    }
}

/// The decimal digits of a natural number, without leading zeros.
pub open spec fn natural_digits(n: nat) -> Seq<char>
    decreases n,
{
    if n < 10 {
        seq![digit_char(n as int)]
    } else {
        natural_digits(n / 10).push(digit_char((n % 10) as int))
    }
}

/// A whole number written in decimal, with `-` before a negative one.
pub open spec fn spec_decimal(n: int) -> Seq<char> {
    if n < 0 {
        seq!['-'] + natural_digits((-n) as nat)
    } else {
        natural_digits(n as nat)
    }
}

/// The character of the decimal digit `d`.
fn digit(d: u32) -> (c: char)
    requires
        d < 10,
    ensures
        c == digit_char(d as int),
{
    if d == 0 {
        '0'
    } else if d == 1 {
        '1'
    } else if d == 2 {
        '2'
    } else if d == 3 {
        '3'
    } else if d == 4 {
        '4'
    } else if d == 5 {
        '5'
    } else if d == 6 {
        '6'
    } else if d == 7 {
        '7'
    } else if d == 8 {
        '8'
    } else {
        '9'
    }
}

/// Appends the decimal digits of `n` to `out`.
fn push_natural(out: &mut String, n: u32)
    ensures
        final(out)@ == old(out)@ + natural_digits(n as nat),
    decreases n,
{
    if n >= 10 {
        push_natural(out, n / 10);
    }
    push_char(out, digit(n % 10));
}

/// Writes a whole number in decimal.
pub fn decimal(n: i32) -> (r: String)
    ensures
        r@ == spec_decimal(n as int),
{
    let mut out = String::new();
    if n < 0 {
        push_char(&mut out, '-');
        let m: u32 = (0 - (n as i64)) as u32;
        push_natural(&mut out, m);
    } else {
        push_natural(&mut out, n as u32);
    }
    out
}

/// Below any occurrence at or after `from` there is a first one.
proof fn lemma_first_exists(s: Seq<char>, pat: Seq<char>, from: int, j: int)
    requires
        from <= j,
        occurs_at(s, pat, j),
    ensures
        exists|i: int| is_first_at(s, pat, from, i),
    decreases j - from,
{
    if exists|k: int| from <= k < j && occurs_at(s, pat, k) {
        let k = choose|k: int| from <= k < j && occurs_at(s, pat, k);
        lemma_first_exists(s, pat, from, k);
    } else {
        assert(is_first_at(s, pat, from, j));
    }
}

/// What `find_from` gives is a first occurrence, and where it gives
/// nothing there is no occurrence.
pub proof fn lemma_find_from(s: Seq<char>, pat: Seq<char>, from: int)
    ensures
        find_from(s, pat, from) matches Some(i) ==> is_first_at(s, pat, from, i),
        find_from(s, pat, from) is None ==> forall|j: int|
            from <= j ==> !#[trigger] occurs_at(s, pat, j),
{
    if find_from(s, pat, from) is None {
        assert forall|j: int| from <= j implies !#[trigger] occurs_at(s, pat, j) by {
            if occurs_at(s, pat, j) {
                lemma_first_exists(s, pat, from, j);
            }
        }
    }
}

/// Whether `c` stands nowhere in `s`.
pub open spec fn free_of(s: Seq<char>, c: char) -> bool {
    forall|i: int| 0 <= i < s.len() ==> #[trigger] s[i] != c
}

/// In `head`, `c` and `tail` put together, a pattern without `c` occurs
/// at a place of `head` exactly where it occurs in `head` alone.
pub proof fn lemma_occurs_in_head(
    head: Seq<char>,
    c: char,
    tail: Seq<char>,
    pat: Seq<char>,
    j: int,
)
    requires
        pat.len() > 0,
        free_of(pat, c),
        0 <= j <= head.len(),
    ensures
        occurs_at(head + seq![c] + tail, pat, j) <==> occurs_at(head, pat, j),
{
    let s = head + seq![c] + tail;
    if j + pat.len() <= head.len() {
        assert(s.subrange(j, j + pat.len()) =~= head.subrange(j, j + pat.len()));
    } else if occurs_at(s, pat, j) {
        assert(s.subrange(j, j + pat.len())[head.len() - j] == s[head.len() as int]);
        assert(pat[head.len() - j] == c);
    }
}

/// In `head`, `c` and `tail` put together, the search for a pattern
/// without `c` from a place of `head` finds what it finds in `head` alone;
/// what it finds beside lies behind `c`.
pub proof fn lemma_find_in_head(
    head: Seq<char>,
    c: char,
    tail: Seq<char>,
    pat: Seq<char>,
    from: int,
)
    requires
        pat.len() > 0,
        free_of(pat, c),
        0 <= from <= head.len(),
    ensures
        find_from(head, pat, from) is Some ==> find_from(head + seq![c] + tail, pat, from)
            == find_from(head, pat, from),
        find_from(head, pat, from) is None ==> (find_from(head + seq![c] + tail, pat, from)
            matches Some(k) ==> k > head.len()),
{
    let s = head + seq![c] + tail;
    lemma_find_from(head, pat, from);
    lemma_find_from(s, pat, from);
    match find_from(head, pat, from) {
        Some(i) => {
            lemma_occurs_in_head(head, c, tail, pat, i);
            assert forall|j: int| from <= j < i implies !occurs_at(s, pat, j) by {
                lemma_occurs_in_head(head, c, tail, pat, j);
            }
            lemma_find_from_is(s, pat, from, i);
        },
        None => {
            if let Some(k) = find_from(s, pat, from) {
                if k <= head.len() {
                    lemma_occurs_in_head(head, c, tail, pat, k);
                    assert(!occurs_at(head, pat, k));
                }
            }
        },
    }
}

/// In `head`, `c` and `tail` put together, the search for `c` from a
/// place of a `head` without `c` finds the `c` between the two.
pub proof fn lemma_find_separator(head: Seq<char>, c: char, tail: Seq<char>, from: int)
    requires
        free_of(head, c),
        0 <= from <= head.len(),
    ensures
        find_from(head + seq![c] + tail, seq![c], from) == Some(head.len() as int),
{
    let s = head + seq![c] + tail;
    let n = head.len() as int;
    assert(s.subrange(n, n + 1) =~= seq![c]);
    assert forall|j: int| from <= j < n implies !occurs_at(s, seq![c], j) by {
        if occurs_at(s, seq![c], j) {
            assert(s.subrange(j, j + 1)[0] == s[j]);
            assert(head[j] == c);
        }
    }
    lemma_find_from_is(s, seq![c], from, n);
}

/// Whether one of the pieces holds `c`.
pub open spec fn some_piece_holds(pieces: Seq<Seq<char>>, c: char) -> bool {
    exists|p: int| 0 <= p < pieces.len() && (#[trigger] pieces[p]).contains(c)
}

/// A character other than the separator stands in one of the pieces
/// exactly when it stands in what was cut.
pub proof fn lemma_split_holds(s: Seq<char>, sep: char, from: int, c: char)
    requires
        0 <= from <= s.len(),
        c != sep,
    ensures
        some_piece_holds(split_from(s, sep, from), c) <==> exists|m: int|
            from <= m < s.len() && s[m] == c,
    decreases s.len() - from,
{
    let pieces = split_from(s, sep, from);
    lemma_find_from(s, seq![sep], from);
    match find_from(s, seq![sep], from) {
        Some(i) => {
            assert(s.subrange(i, i + 1)[0] == s[i]);
            let first = s.subrange(from, i);
            let rest = split_from(s, sep, i + 1);
            lemma_split_holds(s, sep, i + 1, c);
            assert(pieces == seq![first] + rest);
            if some_piece_holds(pieces, c) {
                let p = choose|p: int| 0 <= p < pieces.len() && (#[trigger] pieces[p]).contains(c);
                if p == 0 {
                    let k = choose|k: int| 0 <= k < first.len() && first[k] == c;
                    assert(s[from + k] == c);
                } else {
                    assert(rest[p - 1] == pieces[p]);
                    assert(some_piece_holds(rest, c));
                }
            }
            if exists|m: int| from <= m < s.len() && s[m] == c {
                let m = choose|m: int| from <= m < s.len() && s[m] == c;
                if m < i {
                    assert(first[m - from] == c);
                    assert(pieces[0].contains(c));
                } else {
                    assert(some_piece_holds(rest, c));
                    let p = choose|p: int| 0 <= p < rest.len() && (#[trigger] rest[p]).contains(c);
                    assert(pieces[p + 1] == rest[p]);
                }
            }
        },
        None => {
            let only = s.subrange(from, s.len() as int);
            assert(pieces == seq![only]);
            if some_piece_holds(pieces, c) {
                let p = choose|p: int| 0 <= p < pieces.len() && (#[trigger] pieces[p]).contains(c);
                let k = choose|k: int| 0 <= k < only.len() && only[k] == c;
                assert(s[from + k] == c);
            }
            if exists|m: int| from <= m < s.len() && s[m] == c {
                let m = choose|m: int| from <= m < s.len() && s[m] == c;
                assert(only[m - from] == c);
                assert(pieces[0].contains(c));
            }
        },
    }
}

} // verus!
