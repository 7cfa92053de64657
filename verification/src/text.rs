//! Text as sequences of characters: the vocabulary in which the rest of the
//! crate states what it reads from and writes into strings.

use vstd::prelude::*;
use vstd::string::StringExecFns;

verus! {

/// `String::push` appends one character and changes nothing else.
pub assume_specification[ String::push ](s: &mut String, c: char)
    ensures
        final(s)@ == old(s)@.push(c),
;

/// White space in the sense of the Unicode property `White_Space`.
pub open spec fn is_space(c: char) -> bool {
    ||| '\u{9}' <= c <= '\u{D}'
    ||| c == ' '
    ||| c == '\u{85}'
    ||| c == '\u{A0}'
    ||| c == '\u{1680}'
    ||| '\u{2000}' <= c <= '\u{200A}'
    ||| c == '\u{2028}'
    ||| c == '\u{2029}'
    ||| c == '\u{202F}'
    ||| c == '\u{205F}'
    ||| c == '\u{3000}'
}

/// `s` without its leading white space.
pub open spec fn trim_start(s: Seq<char>) -> Seq<char>
    decreases s.len(),
{
    if s.len() > 0 && is_space(s.first()) {
        trim_start(s.drop_first())
    } else {
        s
    }
}

/// `s` without its trailing white space.
pub open spec fn trim_end(s: Seq<char>) -> Seq<char>
    decreases s.len(),
{
    if s.len() > 0 && is_space(s.last()) {
        trim_end(s.drop_last())
    } else {
        s
    }
}

/// `s` without leading and trailing white space.
pub open spec fn trim(s: Seq<char>) -> Seq<char> {
    trim_end(trim_start(s))
}

/// Whether `s` holds nothing but white space.
pub open spec fn is_blank(s: Seq<char>) -> bool {
    trim(s).len() == 0
}

/// Whether `pattern` occurs in `s` at position `at`.
pub open spec fn occurs_at(s: Seq<char>, pattern: Seq<char>, at: int) -> bool {
    &&& 0 <= at
    &&& at + pattern.len() <= s.len()
    &&& s.subrange(at, at + pattern.len()) == pattern
}

/// Whether `pattern` occurs somewhere in `s`.
pub open spec fn has_infix(s: Seq<char>, pattern: Seq<char>) -> bool {
    exists|at: int| occurs_at(s, pattern, at)
}

/// Whether `s` begins with `pattern`.
pub open spec fn has_prefix(s: Seq<char>, pattern: Seq<char>) -> bool {
    occurs_at(s, pattern, 0)
}

/// The characters of `s`, in order.
pub fn chars_of(s: &str) -> (v: Vec<char>)
    ensures
        v@ == s@,
{
    let mut v: Vec<char> = Vec::new();
    for c in it: s.chars()
        invariant
            v@ == it.seq().take(it.index() as int),
            it.seq() == s@,
    {
        v.push(c);
    }
    v
}

/// The string made of `v[from..to]`.
pub(crate) fn string_of(v: &Vec<char>, from: usize, to: usize) -> (s: String)
    requires
        from <= to <= v.len(),
    ensures
        s@ == v@.subrange(from as int, to as int),
{
    let mut s = String::new();
    let mut i: usize = from;
    while i < to
        invariant
            from <= i <= to <= v.len(),
            s@ == v@.subrange(from as int, i as int),
        decreases to - i,
    {
        s.push(v[i]);
        i += 1;
    }
    s
}

/// Tests a character for white space.
pub fn space(c: char) -> (b: bool)
    ensures
        b == is_space(c),
{
    ('\u{9}' <= c && c <= '\u{D}') || c == ' ' || c == '\u{85}' || c == '\u{A0}' || c == '\u{1680}'
        || ('\u{2000}' <= c && c <= '\u{200A}') || c == '\u{2028}' || c == '\u{2029}' || c
        == '\u{202F}' || c == '\u{205F}' || c == '\u{3000}'
}

/// `trim_start` drops exactly the leading run of white space.
pub proof fn lemma_trim_start(s: Seq<char>, k: int)
    requires
        0 <= k <= s.len(),
        forall|i: int| 0 <= i < k ==> is_space(#[trigger] s[i]),
        k < s.len() ==> !is_space(s[k]),
    ensures
        trim_start(s) == s.subrange(k, s.len() as int),
    decreases k,
{
    if k == 0 {
        assert(s.subrange(0, s.len() as int) == s);
    } else {
        let t = s.drop_first();
        assert forall|i: int| 0 <= i < k - 1 implies is_space(#[trigger] t[i]) by {
            assert(t[i] == s[i + 1]);
        }
        lemma_trim_start(t, k - 1);
        assert(t.subrange(k - 1, t.len() as int) == s.subrange(k, s.len() as int));
    }
}

/// `trim_end` drops exactly the trailing run of white space.
pub proof fn lemma_trim_end(s: Seq<char>, k: int)
    requires
        0 <= k <= s.len(),
        forall|i: int| k <= i < s.len() ==> is_space(#[trigger] s[i]),
        k > 0 ==> !is_space(s[k - 1]),
    ensures
        trim_end(s) == s.subrange(0, k),
    decreases s.len() - k,
{
    if k == s.len() {
        assert(s.subrange(0, s.len() as int) == s);
    } else {
        let t = s.drop_last();
        lemma_trim_end(t, k);
        assert(t.subrange(0, k) == s.subrange(0, k));
    }
}

/// The characters of `v` without leading and trailing white space, as
/// the bounds of the part that stays.
pub fn trim_bounds(v: &Vec<char>) -> (r: (usize, usize))
    ensures
        r.0 <= r.1 <= v.len(),
        v@.subrange(r.0 as int, r.1 as int) == trim(v@),
{
    let mut from: usize = 0;
    while from < v.len() && space(v[from])
        invariant
            from <= v.len(),
            forall|i: int| 0 <= i < from ==> is_space(#[trigger] v@[i]),
        decreases v.len() - from,
    {
        from += 1;
    }
    let mut to: usize = v.len();
    while to > from && space(v[to - 1])
        invariant
            from <= to <= v.len(),
            forall|i: int| to <= i < v.len() ==> is_space(#[trigger] v@[i]),
        decreases to,
    {
        to -= 1;
    }
    proof {
        lemma_trim_start(v@, from as int);
        let rest = v@.subrange(from as int, v.len() as int);
        assert forall|i: int| to - from <= i < rest.len() implies is_space(#[trigger] rest[i]) by {
            assert(rest[i] == v@[i + from]);
        }
        if to > from {
            assert(rest[to - from - 1] == v@[to - 1]);
        }
        lemma_trim_end(rest, to - from);
        assert(rest.subrange(0, to - from) == v@.subrange(from as int, to as int));
    }
    (from, to)
}

/// `s` without leading and trailing white space.
pub fn trimmed(s: &str) -> (r: String)
    ensures
        r@ == trim(s@),
{
    let v = chars_of(s);
    let (from, to) = trim_bounds(&v);
    string_of(&v, from, to)
}

/// Tests whether `pattern` stands in `v` at position `at`.
pub fn matches_at(v: &Vec<char>, pattern: &Vec<char>, at: usize) -> (b: bool)
    ensures
        b == occurs_at(v@, pattern@, at as int),
{
    if pattern.len() > v.len() || at > v.len() - pattern.len() {
        return false;
    }
    let mut j: usize = 0;
    while j < pattern.len()
        invariant
            at + pattern.len() <= v.len(),
            j <= pattern.len(),
            forall|k: int| 0 <= k < j ==> v@[at + k] == pattern@[k],
        decreases pattern.len() - j,
    {
        if v[at + j] != pattern[j] {
            proof {
                let part = v@.subrange(at as int, at + pattern.len());
                assert(part[j as int] == v@[at + j]);
            }
            return false;
        }
        j += 1;
    }
    assert(v@.subrange(at as int, at + pattern.len()) =~= pattern@);
    true
}

/// Tests whether `pattern` occurs somewhere in `v`.
pub fn holds(v: &Vec<char>, pattern: &Vec<char>) -> (b: bool)
    ensures
        b == has_infix(v@, pattern@),
{
    if pattern.len() > v.len() {
        return false;
    }
    let last: usize = v.len() - pattern.len();
    let mut at: usize = 0;
    loop
        invariant
            last == v.len() - pattern.len(),
            at <= last,
            forall|k: int| 0 <= k < at ==> !occurs_at(v@, pattern@, k),
        decreases last - at,
    {
        if matches_at(v, pattern, at) {
            return true;
        }
        if at == last {
            return false;
        }
        at += 1;
    }
}

/// Tests whether `pattern` occurs somewhere in `s`.
pub fn has(s: &str, pattern: &str) -> (b: bool)
    ensures
        b == has_infix(s@, pattern@),
{
    let v = chars_of(s);
    let p = chars_of(pattern);
    holds(&v, &p)
}

/// Tests whether `s` begins with `pattern`.
pub fn begins_with(s: &str, pattern: &str) -> (b: bool)
    ensures
        b == has_prefix(s@, pattern@),
{
    let v = chars_of(s);
    let p = chars_of(pattern);
    matches_at(&v, &p, 0)
}

/// Tests whether two strings hold the same characters.
pub fn same_text(a: &str, b: &str) -> (same: bool)
    ensures
        same == (a@ == b@),
{
    let v = chars_of(a);
    let w = chars_of(b);
    if v.len() != w.len() {
        return false;
    }
    let same = matches_at(&v, &w, 0);
    proof {
        assert(v@.subrange(0, v@.len() as int) == v@);
    }
    same
}

/// Tests whether `s` holds nothing but white space.
pub fn blank(s: &str) -> (b: bool)
    ensures
        b == is_blank(s@),
{
    let v = chars_of(s);
    let (from, to) = trim_bounds(&v);
    from == to
}

/// The parts of `s` between the occurrences of `sep`: one more part than
/// there are separators, each possibly empty.
pub open spec fn pieces(s: Seq<char>, sep: char) -> Seq<Seq<char>>
    decreases s.len(),
{
    if s.len() == 0 {
        seq![Seq::<char>::empty()]
    } else {
        let before = pieces(s.drop_last(), sep);
        if s.last() == sep {
            before.push(Seq::<char>::empty())
        } else {
            before.drop_last().push(before.last().push(s.last()))
        }
    }
}

/// `parts` written one after the other with `sep` between neighbours.
pub open spec fn joined(parts: Seq<Seq<char>>, sep: Seq<char>) -> Seq<char>
    decreases parts.len(),
{
    if parts.len() == 0 {
        Seq::<char>::empty()
    } else if parts.len() == 1 {
        parts[0]
    } else {
        joined(parts.drop_last(), sep) + sep + parts.last()
    }
}

/// The character that writes the digit `d`.
pub open spec fn digit_char(d: nat) -> char {
    if d == 0 {
        '0'
    } else if d == 1 {
        '1'
    } else if d == 2 {
        '2'
    } else if d == 3 {
        '3'
    } else if d == 4 {
        '4'
    } else if d == 5 {
        '5'
    } else if d == 6 {
        '6'
    } else if d == 7 {
        '7'
    } else if d == 8 {
        '8'
    } else {
        '9'
    }
}

/// The decimal numeral of `n`: no sign, no leading zero but for `0` itself.
pub open spec fn decimal(n: nat) -> Seq<char>
    decreases n,
{
    if n < 10 {
        seq![digit_char(n)]
    } else {
        decimal(n / 10).push(digit_char(n % 10))
    }
}

/// The decimal numeral of `i`, with a minus sign where `i` is negative.
pub open spec fn signed_decimal(i: int) -> Seq<char> {
    if i < 0 {
        seq!['-'] + decimal((-i) as nat)
    } else {
        decimal(i as nat)
    }
}

/// `s` with every single quote written twice.
pub open spec fn quotes_doubled(s: Seq<char>) -> Seq<char>
    decreases s.len(),
{
    if s.len() == 0 {
        Seq::<char>::empty()
    } else if s.last() == '\'' {
        quotes_doubled(s.drop_last()).push('\'').push('\'')
    } else {
        quotes_doubled(s.drop_last()).push(s.last())
    }
}

/// Splits `s` at every occurrence of `sep`.
pub fn split_on(s: &str, sep: char) -> (parts: Vec<String>)
    ensures
        parts.deep_view() == pieces(s@, sep),
{
    let v = chars_of(s);
    let mut parts: Vec<String> = Vec::new();
    let mut current = String::new();
    let mut i: usize = 0;
    while i < v.len()
        invariant
            i <= v.len(),
            parts.deep_view().push(current@) == pieces(v@.take(i as int), sep),
        decreases v.len() - i,
    {
        let c = v[i];
        let ghost done = parts.deep_view();
        let ghost open = current@;
        let ghost upto = v@.take(i + 1);
        proof {
            assert(upto.drop_last() == v@.take(i as int));
            assert(upto.last() == c);
        }
        if c == sep {
            parts.push(current);
            current = String::new();
            proof {
                assert(parts.deep_view() == done.push(open));
                assert(parts.deep_view().push(current@) == pieces(upto, sep));
            }
        } else {
            current.push(c);
            proof {
                assert(done.push(open).drop_last() == done);
                assert(parts.deep_view().push(current@) == pieces(upto, sep));
            }
        }
        i += 1;
    }
    proof {
        assert(v@.take(v.len() as int) == v@);
    }
    let ghost done = parts.deep_view();
    parts.push(current);
    assert(parts.deep_view() == done.push(current@));
    parts
}

/// Writes `parts` one after the other with `sep` between neighbours.
pub fn join_with(parts: &Vec<String>, sep: &str) -> (r: String)
    ensures
        r@ == joined(parts.deep_view(), sep@),
{
    let mut r = String::new();
    let mut i: usize = 0;
    while i < parts.len()
        invariant
            i <= parts.len(),
            r@ == joined(parts.deep_view().take(i as int), sep@),
        decreases parts.len() - i,
    {
        let ghost upto = parts.deep_view().take(i + 1);
        proof {
            assert(upto.drop_last() == parts.deep_view().take(i as int));
            assert(upto.last() == parts[i as int]@);
        }
        if i > 0 {
            r.append(sep);
        }
        r.append(parts[i].as_str());
        i += 1;
    }
    proof {
        assert(parts.deep_view().take(parts.len() as int) == parts.deep_view());
    }
    r
}

/// The character that writes the digit `d`.
pub(crate) fn digit_of(d: u8) -> (c: char)
    requires
        d < 10,
    ensures
        c == digit_char(d as nat),
{
    match d {
        0 => '0',
        1 => '1',
        2 => '2',
        3 => '3',
        4 => '4',
        5 => '5',
        6 => '6',
        7 => '7',
        8 => '8',
        _ => '9',
    }
}

/// Appends the decimal numeral of `n` to `out`.
pub fn push_decimal(out: &mut String, n: u64)
    ensures
        final(out)@ == old(out)@ + decimal(n as nat),
    decreases n,
{
    if n >= 10 {
        push_decimal(out, n / 10);
    }
    let d: u8 = (n % 10) as u8;
    out.push(digit_of(d));
}

/// The decimal numeral of `n`.
pub fn decimal_string(n: u64) -> (r: String)
    ensures
        r@ == decimal(n as nat),
{
    let mut r = String::new();
    push_decimal(&mut r, n);
    r
}

/// The decimal numeral of `i`, with its sign where it is negative.
pub fn signed_decimal_string(i: i32) -> (r: String)
    ensures
        r@ == signed_decimal(i as int),
{
    let mut r = String::new();
    if i < 0 {
        r.push('-');
        let magnitude: u64 = (-(i as i64)) as u64;
        push_decimal(&mut r, magnitude);
    } else {
        push_decimal(&mut r, i as u64);
    }
    r
}

/// Appends `s` to `out` with every single quote written twice.
pub fn push_quoted(out: &mut String, s: &str)
    ensures
        final(out)@ == old(out)@ + quotes_doubled(s@),
{
    let v = chars_of(s);
    let mut i: usize = 0;
    while i < v.len()
        invariant
            i <= v.len(),
            out@ == old(out)@ + quotes_doubled(v@.take(i as int)),
        decreases v.len() - i,
    {
        let ghost upto = v@.take(i + 1);
        proof {
            assert(upto.drop_last() == v@.take(i as int));
            assert(upto.last() == v@[i as int]);
        }
        if v[i] == '\'' {
            out.push('\'');
        }
        out.push(v[i]);
        i += 1;
    }
    proof {
        assert(v@.take(v.len() as int) == v@);
    }
}

/// `parts` written one after the other.
pub open spec fn concat(parts: Seq<Seq<char>>) -> Seq<char>
    decreases parts.len(),
{
    if parts.len() == 0 {
        Seq::<char>::empty()
    } else {
        concat(parts.drop_last()) + parts.last()
    }
}

/// Writes `parts` one after the other.
pub fn glue(parts: &Vec<&str>) -> (r: String)
    ensures
        r@ == concat(parts.deep_view()),
{
    let mut r = String::new();
    let mut i: usize = 0;
    while i < parts.len()
        invariant
            i <= parts.len(),
            r@ == concat(parts.deep_view().take(i as int)),
        decreases parts.len() - i,
    {
        let ghost upto = parts.deep_view().take(i + 1);
        proof {
            assert(upto.drop_last() == parts.deep_view().take(i as int));
            assert(upto.last() == parts[i as int]@);
        }
        r.append(parts[i]);
        i += 1;
    }
    proof {
        assert(parts.deep_view().take(parts.len() as int) == parts.deep_view());
    }
    r
}

/// `s` with every single quote written twice.
pub fn quoted(s: &str) -> (r: String)
    ensures
        r@ == quotes_doubled(s@),
{
    let mut r = String::new();
    push_quoted(&mut r, s);
    r
}

/// Each of `parts` without the white space around it.
pub open spec fn each_trimmed(parts: Seq<Seq<char>>) -> Seq<Seq<char>> {
    Seq::new(parts.len(), |i: int| trim(parts[i]))
}

/// Splits `s` at every occurrence of `sep` and takes the white space
/// from around each part.
pub fn split_trimmed(s: &str, sep: char) -> (r: Vec<String>)
    ensures
        r.deep_view() == each_trimmed(pieces(s@, sep)),
{
    let parts = split_on(s, sep);
    let mut r: Vec<String> = Vec::new();
    let mut i: usize = 0;
    while i < parts.len()
        invariant
            i <= parts.len(),
            r.len() == i,
            forall|k: int| 0 <= k < i ==> r[k]@ == trim(parts[k]@),
        decreases parts.len() - i,
    {
        r.push(trimmed(parts[i].as_str()));
        i += 1;
    }
    proof {
        assert(r.deep_view() =~= each_trimmed(parts.deep_view()));
    }
    r
}

/// `s` with every occurrence of `pattern` replaced by `with`, from the
/// left, an occurrence beginning only where the one before has ended.
/// Where `pattern` is empty nothing is replaced.
pub open spec fn replaced(s: Seq<char>, pattern: Seq<char>, with: Seq<char>) -> Seq<char>
    decreases s.len(),
{
    if s.len() == 0 || pattern.len() == 0 {
        s
    } else if occurs_at(s, pattern, 0) {
        with + replaced(s.subrange(pattern.len() as int, s.len() as int), pattern, with)
    } else {
        seq![s.first()] + replaced(s.drop_first(), pattern, with)
    }
}

/// Replaces every occurrence of `pattern` in `s` by `with`.
pub fn replace_all(s: &str, pattern: &str, with: &str) -> (r: String)
    ensures
        r@ == replaced(s@, pattern@, with@),
{
    let v = chars_of(s);
    let p = chars_of(pattern);
    if p.len() == 0 {
        return s.to_owned();
    }
    let mut r = String::new();
    let mut i: usize = 0;
    proof {
        assert(v@.subrange(0, v.len() as int) == v@);
    }
    while i < v.len()
        invariant
            i <= v.len(),
            p@ == pattern@,
            p.len() > 0,
            r@ + replaced(v@.subrange(i as int, v.len() as int), pattern@, with@) == replaced(
                v@,
                pattern@,
                with@,
            ),
        decreases v.len() - i,
    {
        let ghost rest = v@.subrange(i as int, v.len() as int);
        let ghost done = r@;
        if matches_at(&v, &p, i) {
            proof {
                assert(rest.subrange(0, p.len() as int) == v@.subrange(i as int, i + p.len()));
                assert(occurs_at(rest, pattern@, 0));
                assert(rest.subrange(p.len() as int, rest.len() as int) == v@.subrange(
                    i + p.len(),
                    v.len() as int,
                ));
            }
            r.append(with);
            i += p.len();
            proof {
                let tail = replaced(v@.subrange(i as int, v.len() as int), pattern@, with@);
                assert(done + (with@ + tail) == (done + with@) + tail);
            }
        } else {
            proof {
                if occurs_at(rest, pattern@, 0) {
                    assert(rest.subrange(0, p.len() as int) == v@.subrange(
                        i as int,
                        i + p.len(),
                    ));
                }
                assert(rest.first() == v@[i as int]);
                assert(rest.drop_first() == v@.subrange(i + 1, v.len() as int));
            }
            r.push(v[i]);
            i += 1;
            proof {
                let tail = replaced(v@.subrange(i as int, v.len() as int), pattern@, with@);
                assert(done + (seq![v@[i - 1]] + tail) == done.push(v@[i - 1]) + tail);
            }
        }
    }
    proof {
        assert(r@ + Seq::<char>::empty() == r@);
    }
    r
}

/// A copy of a list of texts.
pub fn copy_texts(list: &Vec<String>) -> (r: Vec<String>)
    ensures
        r.deep_view() == list.deep_view(),
{
    let mut r: Vec<String> = Vec::new();
    let mut i: usize = 0;
    while i < list.len()
        invariant
            i <= list.len(),
            r.len() == i,
            forall|k: int| 0 <= k < i ==> r[k]@ == list[k]@,
        decreases list.len() - i,
    {
        r.push(list[i].clone());
        i += 1;
    }
    assert(r.deep_view() =~= list.deep_view());
    r
}

/// A copy of a text that may be missing.
pub fn copy_text(text: &Option<String>) -> (r: Option<String>)
    ensures
        r == *text,
{
    match text {
        Some(text) => Some(text.clone()),
        None => None,
    }
}

} // verus!
