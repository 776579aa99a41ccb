//! Small text utilities on characters and bytes: comparison with literals,
//! splitting at a separator, C string termination, decimal numbers and
//! UTF-8 decoding.
use vstd::prelude::*;
use vstd::utf8::*;

verus! {

/// Whether the characters `cs` spell the string `lit`.
pub fn chars_eq_str(cs: &[char], lit: &str) -> (r: bool)
    ensures
        r == (cs@ == lit@),
{
    let n = lit.unicode_len();
    if cs.len() != n {
        return false;
    }
    let mut i: usize = 0;
    while i < n
        invariant
            n == lit@.len(),
            cs@.len() == n,
            i <= n,
            forall|k: int| 0 <= k < i ==> cs@[k] == lit@[k],
        decreases n - i,
    {
        if cs[i] != lit.get_char(i) {
            return false;
        }
        i = i + 1;
    }
    assert(cs@ =~= lit@);
    true
}

/// Whether two strings hold the same characters.
pub fn str_eq(a: &str, b: &str) -> (r: bool)
    ensures
        r == (a@ == b@),
{
    let n = a.unicode_len();
    if b.unicode_len() != n {
        return false;
    }
    let mut i: usize = 0;
    while i < n
        invariant
            n == a@.len(),
            b@.len() == n,
            i <= n,
            forall|k: int| 0 <= k < i ==> a@[k] == b@[k],
        decreases n - i,
    {
        if a.get_char(i) != b.get_char(i) {
            return false;
        }
        i = i + 1;
    }
    assert(a@ =~= b@);
    true
}

/// The pieces of `s` between the occurrences of `sep`, empty pieces
/// included: a string without `sep` is one piece, and each `sep` starts a
/// new one.
pub open spec fn split_chars(s: Seq<char>, sep: char) -> Seq<Seq<char>>
    decreases s.len(),
{
    if s.len() == 0 {
        seq![Seq::<char>::empty()]
    } else {
        let init = split_chars(s.drop_last(), sep);
        if s.last() == sep {
            init.push(Seq::<char>::empty())
        } else {
            init.update(init.len() - 1, init.last().push(s.last()))
        }
    }
}

/// There is always at least one piece.
pub proof fn lemma_split_chars_nonempty(s: Seq<char>, sep: char)
    ensures
        split_chars(s, sep).len() >= 1,
    decreases s.len(),
{
    if s.len() > 0 {
        lemma_split_chars_nonempty(s.drop_last(), sep);
    }
}

/// The pieces of a sequence of character vectors, as sequences.
pub open spec fn pieces_view(v: Seq<Vec<char>>) -> Seq<Seq<char>> {
    v.map_values(|p: Vec<char>| p@)
}

/// Splits `cs` at every `sep`, as `str::split` with a character pattern
/// does.
pub fn split_at_char(cs: &[char], sep: char) -> (parts: Vec<Vec<char>>)
    ensures
        pieces_view(parts@) == split_chars(cs@, sep),
{
    let mut parts: Vec<Vec<char>> = Vec::new();
    let mut cur: Vec<char> = Vec::new();
    let n = cs.len();
    let mut i: usize = 0;
    assert(cs@.take(0) =~= Seq::<char>::empty());
    assert(pieces_view(parts@).push(cur@) =~= seq![Seq::<char>::empty()]);
    while i < n
        invariant
            n == cs@.len(),
            i <= n,
            pieces_view(parts@).push(cur@) == split_chars(cs@.take(i as int), sep),
        decreases n - i,
    {
        let c = cs[i];
        let ghost before = cs@.take(i as int);
        assert(cs@.take(i + 1).drop_last() =~= before);
        assert(cs@.take(i + 1).last() == c);
        proof {
            lemma_split_chars_nonempty(before, sep);
        }
        if c == sep {
            let done = cur;
            parts.push(done);
            cur = Vec::new();
            assert(pieces_view(parts@).push(cur@) =~= split_chars(before, sep).push(Seq::empty()));
        } else {
            let ghost old_parts = pieces_view(parts@);
            let ghost old_cur = cur@;
            cur.push(c);
            assert(pieces_view(parts@).push(cur@) =~= old_parts.push(old_cur).update(
                old_parts.len() as int,
                old_cur.push(c),
            ));
        }
        i = i + 1;
    }
    assert(cs@.take(n as int) =~= cs@);
    let ghost last = cur@;
    parts.push(cur);
    assert(pieces_view(parts@) =~= pieces_view(parts@.drop_last()).push(last));
    parts
}

/// Whether `s` does not contain `sep`.
pub open spec fn free_of(s: Seq<char>, sep: char) -> bool {
    forall|k: int| 0 <= k < s.len() ==> s[k] != sep
}

/// Appending characters other than the separator extends the last piece.
pub proof fn lemma_split_chars_extend(s: Seq<char>, t: Seq<char>, sep: char)
    requires
        free_of(t, sep),
    ensures
        split_chars(s + t, sep) == split_chars(s, sep).update(
            split_chars(s, sep).len() - 1,
            split_chars(s, sep).last() + t,
        ),
    decreases t.len(),
{
    lemma_split_chars_nonempty(s, sep);
    let p = split_chars(s, sep);
    if t.len() == 0 {
        assert(s + t =~= s);
        assert(p.last() + t =~= p.last());
        assert(p.update(p.len() - 1, p.last()) =~= p);
    } else {
        let u = t.drop_last();
        lemma_split_chars_extend(s, u, sep);
        assert((s + t).drop_last() =~= s + u);
        assert((s + t).last() == t.last());
        assert(t.last() == t[t.len() - 1]);
        let q = p.update(p.len() - 1, p.last() + u);
        assert(q.last() == p.last() + u);
        assert(q.update(q.len() - 1, q.last().push(t.last())) =~= p.update(
            p.len() - 1,
            p.last() + t,
        )) by {
            assert((p.last() + u).push(t.last()) =~= p.last() + t);
        }
    }
}

/// Law of splitting: joining pieces that do not contain the separator with
/// it, and splitting the result, gives the pieces back.
pub proof fn lemma_split_after_separator(s: Seq<char>, t: Seq<char>, sep: char)
    requires
        free_of(t, sep),
    ensures
        split_chars(s + seq![sep] + t, sep) == split_chars(s, sep).push(t),
{
    let a = s + seq![sep];
    assert(a.drop_last() =~= s);
    assert(a.last() == sep);
    lemma_split_chars_extend(a, t, sep);
    let p = split_chars(s, sep).push(Seq::<char>::empty());
    assert(Seq::<char>::empty() + t =~= t);
    assert(p.update(p.len() - 1, p.last() + t) =~= split_chars(s, sep).push(t));
}

/// A piece without the separator splits into itself.
pub proof fn lemma_split_single(t: Seq<char>, sep: char)
    requires
        free_of(t, sep),
    ensures
        split_chars(t, sep) == seq![t],
{
    lemma_split_chars_extend(Seq::<char>::empty(), t, sep);
    assert(Seq::<char>::empty() + t =~= t);
    assert(seq![Seq::<char>::empty()].update(0, Seq::<char>::empty() + t) =~= seq![t]);
}

/// The bytes of a C string stored in `s`: those before the first NUL, or
/// nothing when `s` holds no NUL.
pub open spec fn until_nul(s: Seq<u8>) -> Option<Seq<u8>>
    decreases s.len(),
{
    if s.len() == 0 {
        None
    } else if s[0] == 0 {
        Some(Seq::<u8>::empty())
    } else {
        match until_nul(s.drop_first()) {
            Some(r) => Some(seq![s[0]] + r),
            None => None,
        }
    }
}

/// `until_nul` finds the first NUL.
pub proof fn lemma_until_nul(s: Seq<u8>, n: int)
    requires
        0 <= n <= s.len(),
        forall|k: int| 0 <= k < n ==> s[k] != 0,
    ensures
        n < s.len() && s[n] == 0 ==> until_nul(s) == Some(s.take(n)),
        n == s.len() ==> until_nul(s) is None,
    decreases n,
{
    if n > 0 {
        lemma_until_nul(s.drop_first(), n - 1);
        assert(seq![s[0]] + s.drop_first().take(n - 1) =~= s.take(n));
    } else {
        assert(s.take(0) =~= Seq::<u8>::empty());
    }
}

/// The bytes of `s` before its first NUL, as `CStr::from_bytes_until_nul`
/// finds them; `None` when `s` holds no NUL.
pub fn bytes_until_nul(s: &[u8]) -> (r: Option<Vec<u8>>)
    ensures
        match r {
            Some(v) => until_nul(s@) == Some(v@),
            None => until_nul(s@) is None,
        },
{
    let n = s.len();
    let mut i: usize = 0;
    while i < n
        invariant
            n == s@.len(),
            i <= n,
            forall|k: int| 0 <= k < i ==> s@[k] != 0,
        decreases n - i,
    {
        if s[i] == 0 {
            let mut out: Vec<u8> = Vec::new();
            let mut j: usize = 0;
            while j < i
                invariant
                    i < n == s@.len(),
                    j <= i,
                    out@ == s@.take(j as int),
                decreases i - j,
            {
                out.push(s[j]);
                j = j + 1;
                assert(out@ =~= s@.take(j as int));
            }
            proof {
                lemma_until_nul(s@, i as int);
            }
            return Some(out);
        }
        i = i + 1;
    }
    proof {
        lemma_until_nul(s@, n as int);
    }
    None
}

/// Whether `c` is an ASCII decimal digit.
pub open spec fn is_digit(c: char) -> bool {
    48 <= (c as u32) <= 57
}

/// The value of a string of decimal digits, most significant first.
pub open spec fn digits_value(s: Seq<char>) -> nat
    decreases s.len(),
{
    if s.len() == 0 {
        0
    } else {
        digits_value(s.drop_last()) * 10 + ((s.last() as u32) - 48) as nat
    }
}

/// The digits of a decimal number: `s` without a leading `+`.
pub open spec fn unsigned_digits(s: Seq<char>) -> Seq<char> {
    if s.len() > 0 && s[0] == '+' {
        s.drop_first()
    } else {
        s
    }
}

/// What `u32::from_str` gives: an optional `+` followed by at least one
/// decimal digit and nothing else, whose value fits in a `u32`.
pub open spec fn parse_u32(s: Seq<char>) -> Option<u32> {
    let d = unsigned_digits(s);
    if d.len() > 0 && (forall|k: int| 0 <= k < d.len() ==> is_digit(#[trigger] d[k]))
        && digits_value(d) <= u32::MAX {
        Some(digits_value(d) as u32)
    } else {
        None
    }
}

/// A prefix of a string of digits has no greater value than the string.
pub proof fn lemma_digits_value_prefix(s: Seq<char>, i: int)
    requires
        0 <= i <= s.len(),
        forall|k: int| 0 <= k < s.len() ==> is_digit(#[trigger] s[k]),
    ensures
        digits_value(s.take(i)) <= digits_value(s),
    decreases s.len() - i,
{
    if i < s.len() {
        assert(s.take(i + 1).drop_last() =~= s.take(i));
        lemma_digits_value_prefix(s, i + 1);
    } else {
        assert(s.take(i) =~= s);
    }
}

/// Reads a decimal `u32` as `u32::from_str` does; `None` where it fails.
pub fn parse_decimal_u32(s: &[char]) -> (r: Option<u32>)
    ensures
        r == parse_u32(s@),
{
    let n = s.len();
    let start: usize = if n > 0 && s[0] == '+' { 1 } else { 0 };
    let ghost d = unsigned_digits(s@);
    assert(d =~= s@.skip(start as int));
    if start == n {
        return None;
    }
    let mut i: usize = start;
    while i < n
        invariant
            start <= i <= n,
            n == s@.len(),
            d == s@.skip(start as int),
            d == unsigned_digits(s@),
            forall|k: int| start <= k < i ==> is_digit(#[trigger] s@[k]),
        decreases n - i,
    {
        let c = s[i];
        let code = c as u32;
        assert(d[i - start] == c);
        if code < 48 || code > 57 {
            assert(!is_digit(d[i - start]));
            assert(!(forall|k: int| 0 <= k < d.len() ==> is_digit(#[trigger] d[k])));
            assert(parse_u32(s@) is None);
            return None;
        }
        i = i + 1;
    }
    assert forall|k: int| 0 <= k < d.len() implies is_digit(#[trigger] d[k]) by {
        assert(d[k] == s@[k + start]);
    }
    let mut value: u32 = 0;
    let mut j: usize = start;
    assert(d.take(0) =~= Seq::<char>::empty());
    while j < n
        invariant
            start <= j <= n,
            n == s@.len(),
            d == s@.skip(start as int),
            d == unsigned_digits(s@),
            forall|k: int| 0 <= k < d.len() ==> is_digit(#[trigger] d[k]),
            value == digits_value(d.take(j - start)),
        decreases n - j,
    {
        let c = s[j];
        assert(d[j - start] == c);
        assert(is_digit(d[j - start]));
        let digit: u32 = (c as u32) - 48;
        assert(d.take(j + 1 - start).drop_last() =~= d.take(j - start));
        assert(d.take(j + 1 - start).last() == c);
        assert(digits_value(d.take(j + 1 - start)) == value * 10 + digit);
        match value.checked_mul(10) {
            Some(m) => match m.checked_add(digit) {
                Some(v) => {
                    value = v;
                },
                None => {
                    proof {
                        lemma_digits_value_prefix(d, j + 1 - start);
                    }
                    assert(digits_value(d) > u32::MAX);
                    assert(parse_u32(s@) is None);
                    return None;
                },
            },
            None => {
                proof {
                    lemma_digits_value_prefix(d, j + 1 - start);
                }
                assert(digits_value(d) > u32::MAX);
                assert(parse_u32(s@) is None);
                return None;
            },
        }
        j = j + 1;
    }
    assert(d.take(n - start) =~= d);
    Some(value)
}

/// The characters of `bytes` when they are valid UTF-8.
///
/// Trusted: calls `std::str::from_utf8`, which the standard library
/// documents to succeed exactly on valid UTF-8 and then to hold the string
/// that the bytes encode; the characters are collected one for one.
#[verifier::external_body]
pub(crate) fn decode_utf8_chars(bytes: &[u8]) -> (r: Option<Vec<char>>)
    ensures
        r is Some <==> valid_utf8(bytes@),
        r is Some ==> r->0@ == decode_utf8(bytes@),
{
    match std::str::from_utf8(bytes) {
        Ok(s) => Some(s.chars().collect()),
        Err(_) => None,
    }
}

} // verus!
