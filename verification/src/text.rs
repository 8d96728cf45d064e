//! Searching, splitting and trimming of character sequences.
//!
//! The protocol's frames are line-oriented text. The functions here give the
//! few string operations that the codec needs a mathematical meaning, over
//! `Seq<char>`, and an executable form over `&[char]`.

use vstd::prelude::*;
use vstd::slice::*;
use vstd::string::*;
use vstd::utf8::*;

verus! {

/// `pat` stands in `s` at offset `i`.
pub open spec fn occurs_at(s: Seq<char>, pat: Seq<char>, i: int) -> bool {
    0 <= i && i + pat.len() <= s.len() && s.subrange(i, i + pat.len()) == pat
}

/// `s` begins with `pat`.
pub open spec fn starts_with(s: Seq<char>, pat: Seq<char>) -> bool {
    occurs_at(s, pat, 0)
}

/// `s` ends with `pat`.
pub open spec fn ends_with(s: Seq<char>, pat: Seq<char>) -> bool {
    occurs_at(s, pat, s.len() - pat.len())
}

/// The offset of the leftmost occurrence of `pat` in `s`, if there is one.
pub open spec fn find(s: Seq<char>, pat: Seq<char>) -> Option<int>
    decreases s.len(),
{
    if pat.len() == 0 {
        Some(0)
    } else if s.len() < pat.len() {
        None
    } else if s.take(pat.len() as int) == pat {
        Some(0)
    } else {
        shift(find(s.drop_first(), pat), 1)
    }
}

/// An offset moved right by `k`.
pub open spec fn shift(found: Option<int>, k: int) -> Option<int> {
    match found {
        Some(i) => Some(i + k),
        None => None,
    }
}

/// The pieces of `s` between the non-overlapping occurrences of `pat`, taken
/// from the left. There is always at least one piece.
pub open spec fn split(s: Seq<char>, pat: Seq<char>) -> Seq<Seq<char>>
    decreases s.len(),
{
    let found = find(s, pat);
    if pat.len() > 0 && found is Some && 0 <= found.unwrap() && found.unwrap() + pat.len()
        <= s.len() {
        seq![s.take(found.unwrap())] + split(s.skip(found.unwrap() + pat.len()), pat)
    } else {
        seq![s]
    }
}

/// The pieces with `sep` between each two of them.
pub open spec fn join(pieces: Seq<Seq<char>>, sep: Seq<char>) -> Seq<char>
    decreases pieces.len(),
{
    if pieces.len() == 0 {
        Seq::empty()
    } else if pieces.len() == 1 {
        pieces[0]
    } else {
        pieces[0] + sep + join(pieces.drop_first(), sep)
    }
}

/// No character of `s` is one of `sep`.
pub open spec fn free_of(s: Seq<char>, sep: Seq<char>) -> bool {
    forall|i: int, k: int| 0 <= i < s.len() && 0 <= k < sep.len() ==> s[i] != sep[k]
}

/// The characters with the Unicode property `White_Space`.
pub open spec fn is_whitespace(c: char) -> bool {
    ||| '\u{9}' <= c <= '\u{d}'
    ||| c == ' '
    ||| c == '\u{85}'
    ||| c == '\u{a0}'
    ||| c == '\u{1680}'
    ||| '\u{2000}' <= c <= '\u{200a}'
    ||| c == '\u{2028}'
    ||| c == '\u{2029}'
    ||| c == '\u{202f}'
    ||| c == '\u{205f}'
    ||| c == '\u{3000}'
}

/// `s` without its leading white space.
pub open spec fn trim_start(s: Seq<char>) -> Seq<char>
    decreases s.len(),
{
    if s.len() > 0 && is_whitespace(s[0]) {
        trim_start(s.drop_first())
    } else {
        s
    }
}

/// `s` without its trailing white space.
pub open spec fn trim_end(s: Seq<char>) -> Seq<char>
    decreases s.len(),
{
    if s.len() > 0 && is_whitespace(s.last()) {
        trim_end(s.drop_last())
    } else {
        s
    }
}

/// `s` without leading and trailing white space.
pub open spec fn trim(s: Seq<char>) -> Seq<char> {
    trim_end(trim_start(s))
}

/// Where `find` answers `Some(i)`, `pat` stands at `i` and nowhere before it;
/// where it answers `None`, `pat` stands nowhere in `s`.
pub proof fn lemma_find_is_leftmost(s: Seq<char>, pat: Seq<char>)
    ensures
        match find(s, pat) {
            Some(i) => occurs_at(s, pat, i) && forall|j: int| 0 <= j < i ==> !occurs_at(s, pat, j),
            None => forall|j: int| !occurs_at(s, pat, j),
        },
    decreases s.len(),
{
    if pat.len() == 0 {
        assert(s.subrange(0, 0) =~= pat);
    } else if s.len() < pat.len() {
    } else if s.take(pat.len() as int) == pat {
        assert(s.subrange(0, pat.len() as int) =~= s.take(pat.len() as int));
    } else {
        let rest = s.drop_first();
        lemma_find_is_leftmost(rest, pat);
        assert(s.subrange(0, pat.len() as int) =~= s.take(pat.len() as int));
        assert forall|j: int| occurs_at(s, pat, j + 1) <==> occurs_at(rest, pat, j) by {
            if 0 <= j && j + pat.len() <= rest.len() {
                assert(s.subrange(j + 1, j + 1 + pat.len()) =~= rest.subrange(j, j + pat.len()));
            }
        }
        match find(rest, pat) {
            Some(i) => {
                assert(occurs_at(s, pat, i + 1));
                assert forall|j: int| 0 <= j < i + 1 implies !occurs_at(s, pat, j) by {
                    if j > 0 {
                        assert(occurs_at(s, pat, (j - 1) + 1) <==> occurs_at(rest, pat, j - 1));
                    }
                }
            },
            None => {
                assert forall|j: int| !occurs_at(s, pat, j) by {
                    if j > 0 {
                        assert(occurs_at(s, pat, (j - 1) + 1) <==> occurs_at(rest, pat, j - 1));
                    }
                }
            },
        }
    }
}

/// Where `pat` stands at `i` and nowhere before it, `find` answers `i`.
pub proof fn lemma_find_at(s: Seq<char>, pat: Seq<char>, i: int)
    requires
        occurs_at(s, pat, i),
        forall|j: int| 0 <= j < i ==> !occurs_at(s, pat, j),
    ensures
        find(s, pat) == Some(i),
{
    lemma_find_is_leftmost(s, pat);
}

/// Where `pat` stands nowhere in `s`, `find` answers `None`, and `s` is its
/// own single piece.
pub proof fn lemma_find_nowhere(s: Seq<char>, pat: Seq<char>)
    requires
        forall|j: int| !occurs_at(s, pat, j),
    ensures
        find(s, pat) is None,
        split(s, pat) == seq![s],
{
    lemma_find_is_leftmost(s, pat);
}

/// Splitting undoes joining: pieces that hold no character of the separator
/// are the pieces of what they are joined to.
pub proof fn lemma_split_join(pieces: Seq<Seq<char>>, sep: Seq<char>)
    requires
        pieces.len() > 0,
        sep.len() > 0,
        forall|i: int| 0 <= i < pieces.len() ==> free_of(#[trigger] pieces[i], sep),
    ensures
        split(join(pieces, sep), sep) == pieces,
    decreases pieces.len(),
{
    let first = pieces[0];
    let joined = join(pieces, sep);
    assert(free_of(first, sep));
    if pieces.len() == 1 {
        assert forall|j: int| !occurs_at(first, sep, j) by {
            if occurs_at(first, sep, j) {
                assert(first.subrange(j, j + sep.len())[0] == sep[0]);
            }
        }
        lemma_find_nowhere(first, sep);
        assert(seq![first] =~= pieces);
    } else {
        let rest = pieces.drop_first();
        let at = first.len() as int;
        assert(occurs_at(joined, sep, at)) by {
            assert(joined.subrange(at, at + sep.len()) =~= sep);
        }
        assert forall|j: int| 0 <= j < at implies !occurs_at(joined, sep, j) by {
            if occurs_at(joined, sep, j) {
                assert(joined.subrange(j, j + sep.len())[0] == sep[0]);
                assert(joined[j] == first[j]);
            }
        }
        lemma_find_at(joined, sep, at);
        assert forall|i: int| 0 <= i < rest.len() implies free_of(#[trigger] rest[i], sep) by {
            assert(rest[i] == pieces[i + 1]);
        }
        lemma_split_join(rest, sep);
        assert(joined.take(at) =~= first);
        assert(joined.skip(at + sep.len()) =~= join(rest, sep));
        assert(seq![first] + rest =~= pieces);
    }
}

/// A sequence that neither begins nor ends with white space is its own trim.
pub proof fn lemma_trim_is_identity(s: Seq<char>)
    requires
        s.len() > 0 ==> !is_whitespace(s[0]) && !is_whitespace(s.last()),
    ensures
        trim(s) == s,
{
}

/// The characters of an optional string.
pub open spec fn opt_chars(text: Option<String>) -> Option<Seq<char>> {
    match text {
        Some(t) => Some(t@),
        None => None,
    }
}

/// The characters of `s`, one by one.
pub fn to_chars(s: &str) -> (chars: Vec<char>)
    ensures
        chars@ == s@,
{
    broadcast use vstd::string::group_string_axioms;

    let mut chars: Vec<char> = Vec::new();
    for c in it: s.chars()
        invariant
            it.seq() == s@,
            chars@ == it.seq().take(it.index()),
    {
        chars.push(c);
    }
    chars
}

/// Whether two slices hold the same characters.
pub fn chars_eq(a: &[char], b: &[char]) -> (same: bool)
    ensures
        same == (a@ == b@),
{
    if a.len() != b.len() {
        return false;
    }
    let mut i: usize = 0;
    while i < a.len()
        invariant
            a@.len() == b@.len(),
            i <= a@.len(),
            a@.take(i as int) == b@.take(i as int),
        decreases a@.len() - i,
    {
        if a[i] != b[i] {
            return false;
        }
        assert(a@.take(i + 1) =~= a@.take(i as int).push(a@[i as int]));
        assert(b@.take(i + 1) =~= b@.take(i as int).push(b@[i as int]));
        i += 1;
    }
    assert(a@ =~= a@.take(i as int));
    assert(b@ =~= b@.take(i as int));
    true
}

/// Whether `pat` stands in `s` at offset `i`.
pub fn has_at(s: &[char], i: usize, pat: &[char]) -> (found: bool)
    ensures
        found == occurs_at(s@, pat@, i as int),
{
    if pat.len() > s.len() || i > s.len() - pat.len() {
        return false;
    }
    chars_eq(slice_subrange(s, i, i + pat.len()), pat)
}

/// Whether `s` begins with `pat`.
pub fn has_prefix(s: &[char], pat: &[char]) -> (found: bool)
    ensures
        found == starts_with(s@, pat@),
{
    has_at(s, 0, pat)
}

/// Whether `s` ends with `pat`.
pub fn has_suffix(s: &[char], pat: &[char]) -> (found: bool)
    ensures
        found == ends_with(s@, pat@),
{
    if pat.len() > s.len() {
        return false;
    }
    has_at(s, s.len() - pat.len(), pat)
}

/// The offset of the leftmost occurrence of `pat` in `s` at or after `from`.
pub fn find_from(s: &[char], from: usize, pat: &[char]) -> (found: Option<usize>)
    requires
        from <= s@.len(),
    ensures
        match found {
            Some(i) => from <= i && i + pat@.len() <= s@.len() && find(s@.skip(from as int), pat@)
                == Some(i - from),
            None => find(s@.skip(from as int), pat@) is None,
        },
{
    let n = s.len();
    let m = pat.len();
    if m == 0 {
        return Some(from);
    }
    if m > n {
        return None;
    }
    let mut i: usize = from;
    while i <= n - m
        invariant
            n == s@.len(),
            m == pat@.len(),
            0 < m <= n,
            from <= i <= n,
            find(s@.skip(from as int), pat@) == shift(find(s@.skip(i as int), pat@), i - from),
        decreases n - i,
    {
        let here = has_at(s, i, pat);
        proof {
            let tail = s@.skip(i as int);
            assert(tail.take(m as int) =~= s@.subrange(i as int, i + m));
            assert(tail.drop_first() =~= s@.skip(i + 1));
        }
        if here {
            return Some(i);
        }
        i += 1;
    }
    None
}

/// The pieces of `s` between the occurrences of `pat`.
pub fn split_on(s: &[char], pat: &[char]) -> (pieces: Vec<Vec<char>>)
    requires
        pat@.len() > 0,
    ensures
        pieces@.len() == split(s@, pat@).len(),
        forall|k: int| 0 <= k < pieces@.len() ==> (#[trigger] pieces@[k])@ == split(s@, pat@)[k],
{
    let n = s.len();
    let mut pieces: Vec<Vec<char>> = Vec::new();
    let ghost mut done: Seq<Seq<char>> = Seq::empty();
    let mut pos: usize = 0;
    assert(s@.skip(0) =~= s@);
    loop
        invariant_except_break
            split(s@, pat@) == done + split(s@.skip(pos as int), pat@),
        invariant
            n == s@.len(),
            pat@.len() > 0,
            pos <= n,
            pieces@.len() == done.len(),
            forall|k: int| 0 <= k < pieces@.len() ==> (#[trigger] pieces@[k])@ == done[k],
        ensures
            pieces@.len() == split(s@, pat@).len(),
            forall|k: int|
                0 <= k < pieces@.len() ==> (#[trigger] pieces@[k])@ == split(s@, pat@)[k],
        decreases n - pos,
    {
        let ghost tail = s@.skip(pos as int);
        match find_from(s, pos, pat) {
            Some(i) => {
                let piece = slice_to_vec(slice_subrange(s, pos, i));
                proof {
                    assert(tail.take(i - pos) =~= s@.subrange(pos as int, i as int));
                    assert(tail.skip(i - pos + pat@.len()) =~= s@.skip(i + pat@.len()));
                    assert(done + (seq![tail.take(i - pos)] + split(
                        s@.skip(i + pat@.len()),
                        pat@,
                    )) =~= done.push(piece@) + split(s@.skip(i + pat@.len()), pat@));
                    done = done.push(piece@);
                }
                pieces.push(piece);
                pos = i + pat.len();
            },
            None => {
                let piece = slice_to_vec(slice_subrange(s, pos, n));
                proof {
                    assert(s@.subrange(pos as int, n as int) =~= tail);
                    done = done.push(piece@);
                    assert(split(s@, pat@) =~= done);
                }
                pieces.push(piece);
                break ;
            },
        }
    }
    pieces
}

/// Whether `c` is white space.
pub fn is_whitespace_char(c: char) -> (white: bool)
    ensures
        white == is_whitespace(c),
{
    ('\u{9}' <= c && c <= '\u{d}') || c == ' ' || c == '\u{85}' || c == '\u{a0}' || c
        == '\u{1680}' || ('\u{2000}' <= c && c <= '\u{200a}') || c == '\u{2028}' || c
        == '\u{2029}' || c == '\u{202f}' || c == '\u{205f}' || c == '\u{3000}'
}

/// The bounds of `s` without its leading and trailing white space.
pub fn trim_bounds(s: &[char]) -> (bounds: (usize, usize))
    ensures
        bounds.0 <= bounds.1 <= s@.len(),
        s@.subrange(bounds.0 as int, bounds.1 as int) == trim(s@),
{
    let n = s.len();
    let mut start: usize = 0;
    assert(s@.skip(0) =~= s@);
    while start < n && is_whitespace_char(s[start])
        invariant
            n == s@.len(),
            start <= n,
            trim_start(s@) == trim_start(s@.skip(start as int)),
        decreases n - start,
    {
        assert(s@.skip(start as int).drop_first() =~= s@.skip(start + 1));
        start += 1;
    }
    let mut end: usize = n;
    assert(s@.subrange(start as int, n as int) =~= s@.skip(start as int));
    while end > start && is_whitespace_char(s[end - 1])
        invariant
            n == s@.len(),
            start <= end <= n,
            trim(s@) == trim_end(s@.subrange(start as int, end as int)),
        decreases end - start,
    {
        assert(s@.subrange(start as int, end as int).drop_last() =~= s@.subrange(
            start as int,
            end - 1,
        ));
        end -= 1;
    }
    (start, end)
}

/// Whether two strings hold the same characters.
pub fn str_eq(a: &str, b: &str) -> (same: bool)
    ensures
        same == (a@ == b@),
{
    let a_bytes = a.as_bytes();
    let b_bytes = b.as_bytes();
    let same = bytes_eq(a_bytes, b_bytes);
    proof {
        encode_utf8_decode_utf8(a@);
        encode_utf8_decode_utf8(b@);
    }
    same
}

/// Whether two slices hold the same bytes.
pub fn bytes_eq(a: &[u8], b: &[u8]) -> (same: bool)
    ensures
        same == (a@ == b@),
{
    if a.len() != b.len() {
        return false;
    }
    let mut i: usize = 0;
    while i < a.len()
        invariant
            a@.len() == b@.len(),
            i <= a@.len(),
            a@.take(i as int) == b@.take(i as int),
        decreases a@.len() - i,
    {
        if a[i] != b[i] {
            return false;
        }
        assert(a@.take(i + 1) =~= a@.take(i as int).push(a@[i as int]));
        assert(b@.take(i + 1) =~= b@.take(i as int).push(b@[i as int]));
        i += 1;
    }
    assert(a@ =~= a@.take(i as int));
    assert(b@ =~= b@.take(i as int));
    true
}

/// The decimal digit that stands for `d`.
pub open spec fn digit(d: int) -> char {
    if d == 0 {
        '0'
    } else if d == 1 {
        '1'
    } else if d == 2 {
        '2'
    } else if d == 3 {
        '3'
    } else if d == 4 {
        '4'
    } else if d == 5 {
        '5'
    } else if d == 6 {
        '6'
    } else if d == 7 {
        '7'
    } else if d == 8 {
        '8'
    } else {
        '9'
    }
}

/// `n` in decimal, without leading zeros.
pub open spec fn decimal(n: nat) -> Seq<char>
    decreases n,
{
    if n < 10 {
        seq![digit(n as int)]
    } else {
        decimal(n / 10).push(digit((n % 10) as int))
    }
}

/// `i` in decimal, with a minus sign where it is negative.
pub open spec fn signed_decimal(i: int) -> Seq<char> {
    if i < 0 {
        seq!['-'] + decimal((-i) as nat)
    } else {
        decimal(i as nat)
    }
}

fn digit_str(d: u64) -> (s: &'static str)
    requires
        d < 10,
    ensures
        s@ == seq![digit(d as int)],
{
    proof {
        reveal_strlit("0");
        reveal_strlit("1");
        reveal_strlit("2");
        reveal_strlit("3");
        reveal_strlit("4");
        reveal_strlit("5");
        reveal_strlit("6");
        reveal_strlit("7");
        reveal_strlit("8");
        reveal_strlit("9");
    }
    let s = if d == 0 {
        "0"
    } else if d == 1 {
        "1"
    } else if d == 2 {
        "2"
    } else if d == 3 {
        "3"
    } else if d == 4 {
        "4"
    } else if d == 5 {
        "5"
    } else if d == 6 {
        "6"
    } else if d == 7 {
        "7"
    } else if d == 8 {
        "8"
    } else {
        "9"
    };
    assert(s@ =~= seq![digit(d as int)]);
    s
}

/// Appends `n` in decimal to `out`.
pub fn push_decimal(out: &mut String, n: u64)
    ensures
        final(out)@ == old(out)@ + decimal(n as nat),
    decreases n,
{
    if n < 10 {
        out.append(digit_str(n));
    } else {
        push_decimal(out, n / 10);
        out.append(digit_str(n % 10));
        assert(old(out)@ + decimal((n / 10) as nat) + seq![digit((n % 10) as int)] =~= old(out)@
            + decimal(n as nat));
    }
}

/// Appends `i` in decimal to `out`, with a minus sign where it is negative.
pub fn push_signed_decimal(out: &mut String, i: i32)
    ensures
        final(out)@ == old(out)@ + signed_decimal(i as int),
{
    if i < 0 {
        proof {
            reveal_strlit("-");
        }
        out.append("-");
        assert("-"@ =~= seq!['-']);
        let magnitude: i64 = -(i as i64);
        push_decimal(out, magnitude as u64);
        assert(old(out)@ + seq!['-'] + decimal((-i) as nat) =~= old(out)@ + (seq!['-'] + decimal(
            (-i) as nat,
        )));
    } else {
        push_decimal(out, i as u64);
    }
}

} // verus!
