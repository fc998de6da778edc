//! Verified text utilities: equality, prefix/suffix/substring matching and
//! searching, trimming, line handling, and decimal parsing and formatting
//! over `&str` values whose mathematical content is their `Seq<char>` view.

use vstd::prelude::*;
use vstd::string::*;

verus! {

/// A character-for-character match of `p` inside `s` starting at index `i`.
pub open spec fn match_at(s: Seq<char>, p: Seq<char>, i: int) -> bool {
    0 <= i && i + p.len() <= s.len() && s.subrange(i, i + p.len() as int) == p
}

/// `p` occurs somewhere inside `s`.
pub open spec fn contains_seq(s: Seq<char>, p: Seq<char>) -> bool {
    exists|i: int| match_at(s, p, i)
}

/// `s` begins with `p`.
pub open spec fn starts_with_seq(s: Seq<char>, p: Seq<char>) -> bool {
    p.len() <= s.len() && s.subrange(0, p.len() as int) == p
}

/// `s` ends with `p`.
pub open spec fn ends_with_seq(s: Seq<char>, p: Seq<char>) -> bool {
    p.len() <= s.len() && s.subrange(s.len() - p.len(), s.len() as int) == p
}

/// `c` occurs in `s`.
pub open spec fn has_char(s: Seq<char>, c: char) -> bool {
    exists|i: int| 0 <= i < s.len() && s[i] == c
}

/// The index of the first occurrence of `p` in `s` at or after `from`.
pub open spec fn find_seq_from(s: Seq<char>, p: Seq<char>, from: nat) -> Option<nat>
    decreases s.len() + 1 - from,
{
    if from + p.len() > s.len() {
        None
    } else if s.subrange(from as int, from + p.len() as int) == p {
        Some(from)
    } else {
        find_seq_from(s, p, (from + 1) as nat)
    }
}

/// The index of the first occurrence of `c` in `s` at or after `from`.
pub open spec fn find_char_from(s: Seq<char>, c: char, from: nat) -> Option<nat>
    decreases s.len() - from,
{
    if from >= s.len() {
        None
    } else if s[from as int] == c {
        Some(from)
    } else {
        find_char_from(s, c, (from + 1) as nat)
    }
}

/// The index of the last occurrence of `c` in `s`.
pub open spec fn rfind_char(s: Seq<char>, c: char) -> Option<nat>
    decreases s.len(),
{
    if s.len() == 0 {
        None
    } else if s.last() == c {
        Some((s.len() - 1) as nat)
    } else {
        rfind_char(s.drop_last(), c)
    }
}

/// `find_seq_from` finds exactly the first match at or after `from`.
pub proof fn lemma_find_seq_from(s: Seq<char>, p: Seq<char>, from: nat)
    ensures
        match find_seq_from(s, p, from) {
            Some(i) => from <= i && match_at(s, p, i as int) && forall|j: int|
                from <= j < i ==> !match_at(s, p, j),
            None => forall|j: int| from <= j ==> !match_at(s, p, j),
        },
    decreases s.len() + 1 - from,
{
    if from + p.len() > s.len() {
        assert forall|j: int| from <= j implies !match_at(s, p, j) by {
            if match_at(s, p, j) {
                assert(j + p.len() <= s.len());
            }
        }
    } else if s.subrange(from as int, from + p.len() as int) == p {
    } else {
        lemma_find_seq_from(s, p, (from + 1) as nat);
        assert(!match_at(s, p, from as int));
    }
}

/// `find_char_from` finds exactly the first occurrence at or after `from`.
pub proof fn lemma_find_char_from(s: Seq<char>, c: char, from: nat)
    ensures
        match find_char_from(s, c, from) {
            Some(i) => from <= i < s.len() && s[i as int] == c && forall|j: int|
                from <= j < i ==> s[j] != c,
            None => forall|j: int| from <= j < s.len() ==> s[j] != c,
        },
    decreases s.len() - from,
{
    if from >= s.len() {
    } else if s[from as int] == c {
    } else {
        lemma_find_char_from(s, c, (from + 1) as nat);
    }
}

/// `rfind_char` finds exactly the last occurrence.
pub proof fn lemma_rfind_char(s: Seq<char>, c: char)
    ensures
        match rfind_char(s, c) {
            Some(i) => i < s.len() && s[i as int] == c && forall|j: int|
                i < j < s.len() ==> s[j] != c,
            None => forall|j: int| 0 <= j < s.len() ==> s[j] != c,
        },
    decreases s.len(),
{
    if s.len() == 0 {
    } else if s.last() == c {
    } else {
        lemma_rfind_char(s.drop_last(), c);
        assert forall|j: int| 0 <= j < s.len() - 1 implies s[j] == s.drop_last()[j] by {}
    }
}

/// Whether the views of two string slices are equal, decided character by
/// character.
pub fn str_eq(a: &str, b: &str) -> (r: bool)
    ensures
        r == (a@ == b@),
{
    let alen = a.unicode_len();
    let blen = b.unicode_len();
    if alen != blen {
        return false;
    }
    let mut i: usize = 0;
    while i < alen
        invariant
            0 <= i <= alen,
            forall|j: int| 0 <= j < i ==> a@[j] == b@[j],
        decreases alen - i,
    {
        if a.get_char(i) != b.get_char(i) {
            return false;
        }
        i += 1;
    }
    proof {
        assert(a@ =~= b@);
    }
    true
}

/// Whether `s` starts with `p`.
pub fn starts_with(s: &str, p: &str) -> (r: bool)
    ensures
        r == starts_with_seq(s@, p@),
{
    let slen = s.unicode_len();
    let plen = p.unicode_len();
    if plen > slen {
        return false;
    }
    let mut i: usize = 0;
    while i < plen
        invariant
            0 <= i <= plen,
            plen <= slen,
            forall|j: int| 0 <= j < i ==> s@[j] == p@[j],
        decreases plen - i,
    {
        if s.get_char(i) != p.get_char(i) {
            proof {
                if starts_with_seq(s@, p@) {
                    assert(s@.subrange(0, p@.len() as int)[i as int] == p@[i as int]);
                }
            }
            return false;
        }
        i += 1;
    }
    proof {
        assert(s@.subrange(0, p@.len() as int) =~= p@);
    }
    true
}

/// Whether `s` ends with `p`.
pub fn ends_with(s: &str, p: &str) -> (r: bool)
    ensures
        r == ends_with_seq(s@, p@),
{
    let slen = s.unicode_len();
    let plen = p.unicode_len();
    if plen > slen {
        return false;
    }
    let off = slen - plen;
    let mut i: usize = 0;
    while i < plen
        invariant
            0 <= i <= plen,
            plen <= slen,
            off == slen - plen,
            forall|j: int| 0 <= j < i ==> s@[off + j] == p@[j],
        decreases plen - i,
    {
        if s.get_char(off + i) != p.get_char(i) {
            proof {
                if ends_with_seq(s@, p@) {
                    assert(s@.subrange(s@.len() - p@.len(), s@.len() as int)[i as int]
                        == p@[i as int]);
                }
            }
            return false;
        }
        i += 1;
    }
    proof {
        assert(s@.subrange(s@.len() - p@.len(), s@.len() as int) =~= p@);
    }
    true
}

/// Whether `i` is a valid match position of `p` in `s`, decided character by
/// character.
fn match_at_exec(s: &str, p: &str, i: usize) -> (r: bool)
    requires
        i + p@.len() <= s@.len(),
    ensures
        r == match_at(s@, p@, i as int),
{
    let _slen = s.unicode_len();
    let plen = p.unicode_len();
    let mut j: usize = 0;
    while j < plen
        invariant
            0 <= j <= plen,
            forall|k: int| 0 <= k < j ==> s@[i + k] == p@[k],
        decreases plen - j,
    {
        if s.get_char(i + j) != p.get_char(j) {
            proof {
                if match_at(s@, p@, i as int) {
                    assert(s@.subrange(i as int, i + p@.len() as int)[j as int] == p@[j as int]);
                }
            }
            return false;
        }
        j += 1;
    }
    proof {
        assert(s@.subrange(i as int, i + p@.len() as int) =~= p@);
    }
    true
}

/// The first occurrence of `p` in `s` at or after `from`, if any.
pub fn find_sub_from(s: &str, p: &str, from: usize) -> (r: Option<usize>)
    ensures
        match r {
            Some(i) => find_seq_from(s@, p@, from as nat) == Some(i as nat),
            None => find_seq_from(s@, p@, from as nat) is None,
        },
{
    let slen = s.unicode_len();
    let plen = p.unicode_len();
    if plen == 0 {
        if from <= slen {
            proof {
                assert(s@.subrange(from as int, from as int) =~= p@);
            }
            return Some(from);
        } else {
            return None;
        }
    }
    if plen > slen || from > slen - plen {
        proof {
            lemma_find_seq_from(s@, p@, from as nat);
            if find_seq_from(s@, p@, from as nat) is Some {
                let i = find_seq_from(s@, p@, from as nat)->Some_0;
                assert(match_at(s@, p@, i as int));
            }
        }
        return None;
    }
    let bound = slen - plen;
    let mut i = from;
    while i <= bound
        invariant
            from <= i,
            1 <= plen <= slen,
            bound == slen - plen,
            i <= bound + 1,
            find_seq_from(s@, p@, from as nat) == find_seq_from(s@, p@, i as nat),
        decreases bound + 1 - i,
    {
        if match_at_exec(s, p, i) {
            return Some(i);
        }
        proof {
            assert(find_seq_from(s@, p@, i as nat) == find_seq_from(s@, p@, (i + 1) as nat));
        }
        i += 1;
    }
    None
}

/// Whether `p` occurs inside `s`.
pub fn contains_sub(s: &str, p: &str) -> (r: bool)
    ensures
        r == contains_seq(s@, p@),
{
    let r = find_sub_from(s, p, 0);
    proof {
        lemma_find_seq_from(s@, p@, 0);
    }
    r.is_some()
}

/// The first occurrence of the character `c` in `s` at or after `from`.
pub fn find_char(s: &str, c: char, from: usize) -> (r: Option<usize>)
    ensures
        match r {
            Some(i) => find_char_from(s@, c, from as nat) == Some(i as nat),
            None => find_char_from(s@, c, from as nat) is None,
        },
{
    let slen = s.unicode_len();
    let mut i = from;
    while i < slen
        invariant
            from <= i,
            find_char_from(s@, c, from as nat) == find_char_from(s@, c, i as nat),
        decreases slen - i,
    {
        if s.get_char(i) == c {
            return Some(i);
        }
        i += 1;
    }
    None
}

/// The last occurrence of the character `c` in `s`.
pub fn rfind_char_in(s: &str, c: char) -> (r: Option<usize>)
    ensures
        match r {
            Some(i) => rfind_char(s@, c) == Some(i as nat),
            None => rfind_char(s@, c) is None,
        },
{
    let slen = s.unicode_len();
    let mut i = slen;
    proof {
        assert(s@.take(slen as int) =~= s@);
    }
    while i > 0
        invariant
            0 <= i <= slen,
            rfind_char(s@, c) == rfind_char(s@.take(i as int), c),
        decreases i,
    {
        i -= 1;
        if s.get_char(i) == c {
            proof {
                assert(s@.take((i + 1) as int).last() == s@[i as int]);
            }
            return Some(i);
        }
        proof {
            assert(s@.take((i + 1) as int).drop_last() =~= s@.take(i as int));
        }
    }
    None
}

/// A whitespace character, in the ASCII range.
pub open spec fn is_space(c: char) -> bool {
    c == ' ' || c == '\t' || c == '\n' || c == '\r' || c == '\u{b}' || c == '\u{c}'
}

/// `s` with leading whitespace removed.
pub open spec fn trim_front(s: Seq<char>) -> Seq<char>
    decreases s.len(),
{
    if s.len() > 0 && is_space(s[0]) {
        trim_front(s.subrange(1, s.len() as int))
    } else {
        s
    }
}

/// `s` with trailing whitespace removed.
pub open spec fn trim_back(s: Seq<char>) -> Seq<char>
    decreases s.len(),
{
    if s.len() > 0 && is_space(s.last()) {
        trim_back(s.drop_last())
    } else {
        s
    }
}

/// `s` with leading and trailing whitespace removed.
pub open spec fn trim_spec(s: Seq<char>) -> Seq<char> {
    trim_back(trim_front(s))
}

proof fn lemma_trim_front_idx(s: Seq<char>, k: int)
    requires
        0 <= k <= s.len(),
        forall|j: int| 0 <= j < k ==> is_space(s[j]),
        k == s.len() || !is_space(s[k]),
    ensures
        trim_front(s) == s.subrange(k, s.len() as int),
    decreases k,
{
    if k == 0 {
        assert(s.subrange(0, s.len() as int) =~= s);
    } else {
        let t = s.subrange(1, s.len() as int);
        lemma_trim_front_idx(t, k - 1);
        assert(t.subrange(k - 1, t.len() as int) =~= s.subrange(k, s.len() as int));
    }
}

proof fn lemma_trim_back_idx(s: Seq<char>, b: int)
    requires
        0 <= b <= s.len(),
        forall|j: int| b <= j < s.len() ==> is_space(s[j]),
        b == 0 || !is_space(s[b - 1]),
    ensures
        trim_back(s) == s.subrange(0, b),
    decreases s.len(),
{
    if b == s.len() {
        if s.len() > 0 && is_space(s.last()) {
            assert(false);
        }
        assert(s.subrange(0, b) =~= s);
    } else {
        lemma_trim_back_idx(s.drop_last(), b);
        assert(s.drop_last().subrange(0, b) =~= s.subrange(0, b));
    }
}

/// Whether `c` is whitespace.
pub fn is_space_char(c: char) -> (r: bool)
    ensures
        r == is_space(c),
{
    c == ' ' || c == '\t' || c == '\n' || c == '\r' || c == '\u{b}' || c == '\u{c}'
}

/// `s` with leading and trailing whitespace removed.
pub fn trim(s: &str) -> (r: &str)
    ensures
        r@ == trim_spec(s@),
{
    let len = s.unicode_len();
    let mut a: usize = 0;
    while a < len && is_space_char(s.get_char(a))
        invariant
            0 <= a <= len,
            forall|j: int| 0 <= j < a ==> is_space(s@[j]),
        decreases len - a,
    {
        a += 1;
    }
    let mut b: usize = len;
    while b > a && is_space_char(s.get_char(b - 1))
        invariant
            a <= b <= len,
            forall|j: int| b <= j < len ==> is_space(s@[j]),
        decreases b,
    {
        b -= 1;
    }
    let r = s.substring_char(a, b);
    proof {
        lemma_trim_front_idx(s@, a as int);
        let t = s@.subrange(a as int, s@.len() as int);
        lemma_trim_back_idx(t, b - a);
        assert(t.subrange(0, b - a) =~= s@.subrange(a as int, b as int));
    }
    r
}

/// The concatenation of two string slices as an owned string.
pub fn concat2(a: &str, b: &str) -> (r: String)
    ensures
        r@ == a@ + b@,
{
    let mut r = String::from_str(a);
    r.append(b);
    r
}

/// The concatenation of three string slices as an owned string.
pub fn concat3(a: &str, b: &str, c: &str) -> (r: String)
    ensures
        r@ == a@ + b@ + c@,
{
    let mut r = String::from_str(a);
    r.append(b);
    r.append(c);
    r
}

/// A decimal digit.
pub open spec fn is_digit(c: char) -> bool {
    48 <= (c as int) && (c as int) <= 57
}

/// The numeric value of a decimal digit.
pub open spec fn digit_val(c: char) -> nat {
    ((c as int) - 48) as nat
}

/// The digit character for a value below ten.
pub open spec fn digit_char(d: nat) -> char {
    if d == 0 {
        '0'
    } else if d == 1 {
        '1'
    } else if d == 2 {
        '2'
    } else if d == 3 {
        '3'
    } else if d == 4 {
        '4'
    } else if d == 5 {
        '5'
    } else if d == 6 {
        '6'
    } else if d == 7 {
        '7'
    } else if d == 8 {
        '8'
    } else {
        '9'
    }
}

/// The decimal rendering of `n`, most significant digit first.
pub open spec fn dec_spec(n: nat) -> Seq<char>
    decreases n,
{
    if n < 10 {
        seq![digit_char(n)]
    } else {
        dec_spec(n / 10).push(digit_char(n % 10))
    }
}

/// The value of a sequence of decimal digits.
pub open spec fn digits_val(s: Seq<char>) -> nat
    decreases s.len(),
{
    if s.len() == 0 {
        0
    } else {
        digits_val(s.drop_last()) * 10 + digit_val(s.last())
    }
}

/// Every character of `s` is a decimal digit.
pub open spec fn all_digits(s: Seq<char>) -> bool {
    forall|i: int| 0 <= i < s.len() ==> is_digit(s[i])
}

/// What `str::parse::<u16>` accepts: an optional leading plus sign followed
/// by one or more decimal digits whose value fits in sixteen bits.
pub open spec fn parse_u16_spec(s: Seq<char>) -> Option<u16> {
    let t = if s.len() > 0 && s[0] == '+' {
        s.subrange(1, s.len() as int)
    } else {
        s
    };
    if t.len() > 0 && all_digits(t) && digits_val(t) <= 65535 {
        Some(digits_val(t) as u16)
    } else {
        None
    }
}

/// The decimal rendering consists of digits and is never empty.
pub proof fn lemma_dec_spec_digits(n: nat)
    ensures
        all_digits(dec_spec(n)),
        dec_spec(n).len() >= 1,
    decreases n,
{
    if n < 10 {
    } else {
        lemma_dec_spec_digits(n / 10);
    }
}

/// Parsing the decimal rendering of `n` yields `n` again.
pub proof fn lemma_dec_val_roundtrip(n: nat)
    ensures
        digits_val(dec_spec(n)) == n,
    decreases n,
{
    if n < 10 {
        let s = dec_spec(n);
        assert(s.len() == 1);
        assert(s.last() == digit_char(n));
        assert(s.drop_last() =~= Seq::<char>::empty());
        assert(digits_val(s) == digits_val(s.drop_last()) * 10 + digit_val(s.last()));
        assert(digit_val(digit_char(n)) == n);
    } else {
        lemma_dec_val_roundtrip(n / 10);
        let s = dec_spec(n);
        assert(s == dec_spec(n / 10).push(digit_char(n % 10)));
        assert(s.len() >= 1) by {
            lemma_dec_spec_digits(n / 10);
        }
        assert(s.drop_last() =~= dec_spec(n / 10));
        assert(s.last() == digit_char(n % 10));
        assert(digits_val(s) == digits_val(s.drop_last()) * 10 + digit_val(s.last()));
        assert(digit_val(digit_char(n % 10)) == n % 10);
        assert(digits_val(s) == (n / 10) * 10 + (n % 10));
    }
}

/// A digit is not whitespace, so a digit string trims to itself.
pub proof fn lemma_trim_digits(s: Seq<char>)
    requires
        all_digits(s),
    ensures
        trim_spec(s) == s,
{
    if s.len() == 0 {
    } else {
        assert(is_digit(s[0]));
        assert(!is_space(s[0]));
        assert(trim_front(s) == s);
        assert(is_digit(s.last()));
        assert(!is_space(s.last()));
        assert(trim_back(s) == s);
    }
}

/// Parse a sixteen-bit unsigned decimal number as `str::parse::<u16>` does.
pub fn parse_u16(s: &str) -> (r: Option<u16>)
    ensures
        r == parse_u16_spec(s@),
{
    let len = s.unicode_len();
    let start: usize = if len > 0 && s.get_char(0) == '+' {
        1
    } else {
        0
    };
    let ghost t = if s@.len() > 0 && s@[0] == '+' {
        s@.subrange(1, s@.len() as int)
    } else {
        s@
    };
    proof {
        assert(t =~= s@.subrange(start as int, s@.len() as int));
    }
    if start == len {
        return None;
    }
    let mut acc: u32 = 0;
    let mut over: bool = false;
    let mut i = start;
    while i < len
        invariant
            start <= i <= len,
            len == s@.len(),
            t == s@.subrange(start as int, s@.len() as int),
            all_digits(t.take(i - start)),
            !over ==> acc == digits_val(t.take(i - start)) && acc <= 65535,
            over ==> digits_val(t.take(i - start)) > 65535,
        decreases len - i,
    {
        let c = s.get_char(i);
        if c < '0' || c > '9' {
            proof {
                assert(t[i - start] == s@[i as int]);
                assert(!is_digit(t[i - start]));
            }
            return None;
        }
        let d: u32 = (c as u32) - 48;
        proof {
            assert(t.take(i + 1 - start).drop_last() =~= t.take(i - start));
            assert(t.take(i + 1 - start).last() == s@[i as int]);
        }
        if over {
            proof {
                assert(digits_val(t.take(i + 1 - start)) >= 10 * digits_val(t.take(i - start)));
            }
        } else {
            let next = acc * 10 + d;
            if next > 65535 {
                over = true;
                proof {
                    assert(digits_val(t.take(i + 1 - start)) == acc * 10 + d);
                }
            } else {
                acc = next;
            }
        }
        i += 1;
    }
    proof {
        assert(t.take(len - start) =~= t);
    }
    if over {
        None
    } else {
        Some(acc as u16)
    }
}

/// One digit as a string slice.
fn digit_str(d: u16) -> (r: &'static str)
    requires
        d < 10,
    ensures
        r@ =~= seq![digit_char(d as nat)],
{
    proof {
        reveal_strlit("0");
        reveal_strlit("1");
        reveal_strlit("2");
        reveal_strlit("3");
        reveal_strlit("4");
        reveal_strlit("5");
        reveal_strlit("6");
        reveal_strlit("7");
        reveal_strlit("8");
        reveal_strlit("9");
    }
    match d {
        0 => "0",
        1 => "1",
        2 => "2",
        3 => "3",
        4 => "4",
        5 => "5",
        6 => "6",
        7 => "7",
        8 => "8",
        _ => "9",
    }
}

/// Append the decimal rendering of `n` to `out`.
pub fn push_u16(out: &mut String, n: u16)
    ensures
        final(out)@ == old(out)@ + dec_spec(n as nat),
    decreases n,
{
    if n >= 10 {
        push_u16(out, n / 10);
    }
    out.append(digit_str(n % 10));
    proof {
        if n >= 10 {
            assert(old(out)@ + dec_spec((n / 10) as nat) + seq![digit_char((n % 10) as nat)]
                =~= old(out)@ + dec_spec(n as nat));
        } else {
            assert(old(out)@ + seq![digit_char(n as nat)] =~= old(out)@ + dec_spec(n as nat));
        }
    }
}

/// Append the decimal rendering of `n` to `out`.
pub fn push_u64(out: &mut String, n: u64)
    ensures
        final(out)@ == old(out)@ + dec_spec(n as nat),
    decreases n,
{
    if n >= 10 {
        push_u64(out, n / 10);
    }
    out.append(digit_str((n % 10) as u16));
    proof {
        if n >= 10 {
            assert(old(out)@ + dec_spec((n / 10) as nat) + seq![digit_char((n % 10) as nat)]
                =~= old(out)@ + dec_spec(n as nat));
        } else {
            assert(old(out)@ + seq![digit_char(n as nat)] =~= old(out)@ + dec_spec(n as nat));
        }
    }
}


/// `s` with every copy of the nonempty prefix `p` removed from the front.
pub open spec fn strip_prefix_all(s: Seq<char>, p: Seq<char>) -> Seq<char>
    decreases s.len(),
{
    if p.len() > 0 && starts_with_seq(s, p) {
        strip_prefix_all(s.subrange(p.len() as int, s.len() as int), p)
    } else {
        s
    }
}

/// `s` with every copy of the nonempty suffix `p` removed from the back.
pub open spec fn strip_suffix_all(s: Seq<char>, p: Seq<char>) -> Seq<char>
    decreases s.len(),
{
    if p.len() > 0 && ends_with_seq(s, p) {
        strip_suffix_all(s.subrange(0, s.len() - p.len()), p)
    } else {
        s
    }
}

/// Remove every copy of the prefix `p` from the front of `s`.
pub fn strip_prefix_repeated<'a>(s: &'a str, p: &str) -> (r: &'a str)
    requires
        p@.len() > 0,
    ensures
        r@ == strip_prefix_all(s@, p@),
{
    let mut t = s;
    while starts_with(t, p)
        invariant
            strip_prefix_all(t@, p@) == strip_prefix_all(s@, p@),
            p@.len() > 0,
        decreases t@.len(),
    {
        let tlen = t.unicode_len();
        let plen = p.unicode_len();
        t = t.substring_char(plen, tlen);
    }
    t
}

/// Remove every copy of the suffix `p` from the back of `s`.
pub fn strip_suffix_repeated<'a>(s: &'a str, p: &str) -> (r: &'a str)
    requires
        p@.len() > 0,
    ensures
        r@ == strip_suffix_all(s@, p@),
{
    let mut t = s;
    while ends_with(t, p)
        invariant
            strip_suffix_all(t@, p@) == strip_suffix_all(s@, p@),
            p@.len() > 0,
        decreases t@.len(),
    {
        let tlen = t.unicode_len();
        let plen = p.unicode_len();
        t = t.substring_char(0, tlen - plen);
    }
    t
}

/// A line with one trailing carriage return removed, as `str::lines` does.
pub open spec fn chop_cr(l: Seq<char>) -> Seq<char> {
    if l.len() > 0 && l.last() == '\r' {
        l.drop_last()
    } else {
        l
    }
}

/// The first line of `s`: the text before the first newline, without a
/// trailing carriage return.
pub open spec fn first_line_spec(s: Seq<char>) -> Seq<char> {
    match find_char_from(s, '\n', 0) {
        Some(i) => chop_cr(s.subrange(0, i as int)),
        None => chop_cr(s),
    }
}

/// A line with one trailing carriage return removed.
fn chop_cr_exec(l: &str) -> (r: &str)
    ensures
        r@ == chop_cr(l@),
{
    let len = l.unicode_len();
    if len > 0 && l.get_char(len - 1) == '\r' {
        let r = l.substring_char(0, len - 1);
        proof {
            assert(l@.subrange(0, l@.len() - 1) =~= l@.drop_last());
        }
        r
    } else {
        l
    }
}

/// The first line of `s`.
pub fn first_line(s: &str) -> (r: &str)
    ensures
        r@ == first_line_spec(s@),
{
    match find_char(s, '\n', 0) {
        Some(i) => {
            proof {
                lemma_find_char_from(s@, '\n', 0);
            }
            chop_cr_exec(s.substring_char(0, i))
        },
        None => chop_cr_exec(s),
    }
}

/// The last line of `s` that is not empty, the empty sequence when every
/// line is empty.
pub open spec fn last_nonempty_line_spec(s: Seq<char>) -> Seq<char>
    decreases s.len(),
{
    match rfind_char(s, '\n') {
        Some(i) => if i < s.len() {
            if chop_cr(s.subrange(i + 1 as int, s.len() as int)).len() > 0 {
                chop_cr(s.subrange(i + 1 as int, s.len() as int))
            } else {
                last_nonempty_line_spec(s.subrange(0, i as int))
            }
        } else {
            chop_cr(s)
        },
        None => chop_cr(s),
    }
}

/// The last non-empty line of `s`.
pub fn last_nonempty_line(s: &str) -> (r: &str)
    ensures
        r@ == last_nonempty_line_spec(s@),
    decreases s@.len(),
{
    let len = s.unicode_len();
    match rfind_char_in(s, '\n') {
        Some(i) => {
            proof {
                lemma_rfind_char(s@, '\n');
            }
            let tail = chop_cr_exec(s.substring_char(i + 1, len));
            if tail.unicode_len() > 0 {
                tail
            } else {
                last_nonempty_line(s.substring_char(0, i))
            }
        },
        None => chop_cr_exec(s),
    }
}

} // verus!
