//! The port-mapping decoder and the port allocator.
//!
//! The decoder extracts the externally bound port from a runtime
//! port-mapping string such as `"0.0.0.0:8050->8000/tcp, [::]:8050->8000/tcp"`.
//! The allocator picks the first offset, in steps of ten, at which a pair of
//! default ports is free; probing whether a port can actually be bound is
//! done by the caller, which hands the observed answers in.

use vstd::prelude::*;
use vstd::string::*;
use crate::text::{
    contains_seq, dec_spec, find_char, find_char_from, find_seq_from, find_sub_from, has_char,
    is_digit, lemma_dec_spec_digits, lemma_dec_val_roundtrip, lemma_find_char_from,
    lemma_find_seq_from, lemma_rfind_char, lemma_trim_digits, match_at, parse_u16, parse_u16_spec,
    rfind_char, rfind_char_in, trim, trim_spec,
};

verus! {

/// The two-character mapping separator of the runtime's ports syntax.
pub open spec fn arrow() -> Seq<char> {
    seq!['-', '>']
}

/// `s` cut at the first occurrence of `p`; all of `s` when `p` does not
/// occur.
pub open spec fn cut_at_first(s: Seq<char>, p: Seq<char>) -> Seq<char> {
    match find_seq_from(s, p, 0) {
        Some(i) => if i <= s.len() {
            s.subrange(0, i as int)
        } else {
            s
        },
        None => s,
    }
}

/// The text of `s` after its last colon; all of `s` when there is none.
pub open spec fn after_last_colon(s: Seq<char>) -> Seq<char> {
    match rfind_char(s, ':') {
        Some(i) => if i < s.len() {
            s.subrange(i + 1 as int, s.len() as int)
        } else {
            s
        },
        None => s,
    }
}

/// The externally bound port of one comma-segment: the text before the
/// first `->`, then the text after the last colon, trimmed and parsed as a
/// sixteen-bit number.
pub open spec fn segment_port(seg: Seq<char>) -> Option<u16> {
    parse_u16_spec(trim_spec(after_last_colon(cut_at_first(seg, arrow()))))
}

/// The decoded port of a whole port-mapping string: the first comma-segment
/// that yields a port wins, later segments are ignored.
pub open spec fn extract_port_spec(s: Seq<char>) -> Option<u16>
    decreases s.len(),
{
    match find_char_from(s, ',', 0) {
        None => segment_port(s),
        Some(i) => if i < s.len() {
            match segment_port(s.subrange(0, i as int)) {
                Some(p) => Some(p),
                None => extract_port_spec(s.subrange(i + 1 as int, s.len() as int)),
            }
        } else {
            segment_port(s)
        },
    }
}

/// The port of one comma-segment.
fn segment_port_exec(seg: &str) -> (r: Option<u16>)
    ensures
        r == segment_port(seg@),
{
    proof {
        reveal_strlit("->");
        assert("->"@ =~= arrow());
    }
    let left = match find_sub_from(seg, "->", 0) {
        Some(i) => {
            proof {
                lemma_find_seq_from(seg@, arrow(), 0);
            }
            seg.substring_char(0, i)
        },
        None => seg,
    };
    let piece = match rfind_char_in(left, ':') {
        Some(i) => {
            proof {
                lemma_rfind_char(left@, ':');
            }
            let llen = left.unicode_len();
            left.substring_char(i + 1, llen)
        },
        None => left,
    };
    parse_u16(trim(piece))
}

/// Decode the externally bound port from a runtime port-mapping string.
/// Splits on commas and returns the first segment that parses; `None` when
/// no segment does.
pub fn extract_port(ports_str: &str) -> (r: Option<u16>)
    ensures
        r == extract_port_spec(ports_str@),
    decreases ports_str@.len(),
{
    match find_char(ports_str, ',', 0) {
        None => segment_port_exec(ports_str),
        Some(i) => {
            proof {
                lemma_find_char_from(ports_str@, ',', 0);
            }
            let len = ports_str.unicode_len();
            let seg = ports_str.substring_char(0, i);
            match segment_port_exec(seg) {
                Some(p) => Some(p),
                None => extract_port(ports_str.substring_char(i + 1, len)),
            }
        },
    }
}

/// The index of the first `true` in `s` at or after `from`.
pub open spec fn find_true_from(s: Seq<bool>, from: nat) -> Option<nat>
    decreases s.len() - from,
{
    if from >= s.len() {
        None
    } else if s[from as int] {
        Some(from)
    } else {
        find_true_from(s, (from + 1) as nat)
    }
}

/// Find the first offset, in steps of ten, at which both ports of a pair
/// are free, and return the pair at that offset; the unmodified defaults
/// when no probed offset is free.
///
/// `pair_free[k]` reports whether both `default_backend + 10 * k` and
/// `default_webui + 10 * k` could be bound; entry zero stands for the
/// defaults themselves and the probe gives up past offset one thousand.
pub fn find_available_ports(default_backend: u16, default_webui: u16, pair_free: &Vec<bool>) -> (r:
    (u16, u16))
    requires
        pair_free@.len() == 101,
        default_backend + 1000 <= u16::MAX,
        default_webui + 1000 <= u16::MAX,
    ensures
        match find_true_from(pair_free@, 0) {
            Some(k) => r.0 == default_backend + 10 * k && r.1 == default_webui + 10 * k,
            None => (r.0 == default_backend && r.1 == default_webui),
        },
{
    let mut k: usize = 0;
    while k < 101
        invariant
            0 <= k <= 101,
            find_true_from(pair_free@, 0) == find_true_from(pair_free@, k as nat),
        decreases 101 - k,
    {
        if pair_free[k] {
            let off: u16 = 10 * (k as u16);
            return (default_backend + off, default_webui + off);
        }
        k += 1;
    }
    (default_backend, default_webui)
}

/// Report whether the default backend and web ports are free, and the first
/// non-zero offset, in steps of ten, at which both ports of the pair are
/// free when they are not.
///
/// `backend_free` and `webui_free` report the defaults themselves;
/// `pair_free[k]` reports the pair at offset `10 * (k + 1)`.  When the
/// defaults are both free the offset is zero; when no probed offset is free
/// the offset falls back to zero as well.
pub fn check_ports(backend_free: bool, webui_free: bool, pair_free: &Vec<bool>) -> (r: (
    bool,
    bool,
    u16,
))
    requires
        pair_free@.len() == 100,
    ensures
        backend_free && webui_free ==> r == (true, true, 0u16),
        !(backend_free && webui_free) ==> match find_true_from(pair_free@, 0) {
            Some(k) => r == (backend_free, webui_free, (10 * (k + 1)) as u16),
            None => r == (backend_free, webui_free, 0u16),
        },
{
    if backend_free && webui_free {
        return (true, true, 0);
    }
    let mut k: usize = 0;
    while k < 100
        invariant
            0 <= k <= 100,
            find_true_from(pair_free@, 0) == find_true_from(pair_free@, k as nat),
        decreases 100 - k,
    {
        if pair_free[k] {
            let off: u16 = 10 * (k as u16 + 1);
            return (backend_free, webui_free, off);
        }
        k += 1;
    }
    (backend_free, webui_free, 0)
}

/// The companion web port of a backend port: five thousand below it when
/// the backend port is at least eight thousand, absent otherwise.
pub fn webui_port_for(backend_port: u16) -> (r: Option<u16>)
    ensures
        backend_port >= 8000 ==> r == Some((backend_port - 5000) as u16),
        backend_port < 8000 ==> r is None,
{
    if backend_port >= 8000 {
        Some(backend_port - 5000)
    } else {
        None
    }
}

/// Law: the first comma-segment wins.  Whenever the first segment of a
/// port-mapping string yields a port, the whole string decodes to that
/// port, whatever the remaining segments hold.
pub proof fn lemma_first_segment_wins(seg: Seq<char>, rest: Seq<char>)
    requires
        !has_char(seg, ','),
        segment_port(seg) is Some,
    ensures
        extract_port_spec(seg + seq![','] + rest) == segment_port(seg),
{
    let s = seg + seq![','] + rest;
    lemma_find_char_from(s, ',', 0);
    assert(s[seg.len() as int] == ',');
    match find_char_from(s, ',', 0) {
        None => {
            assert(false);
        },
        Some(i) => {
            if i < seg.len() {
                assert(s[i as int] == seg[i as int]);
                assert(false);
            }
            if i > seg.len() {
                assert(false);
            }
            assert(s.subrange(0, i as int) =~= seg);
        },
    }
}

/// Law: text without a mapping arrow decodes to nothing.  A single
/// segment that holds no `->` is read whole, so it yields a port only
/// when the text after its last colon is itself a port number; any other
/// arrowless segment decodes to none.  (A bare number such as a lone
/// port is that one exception, which is why the law must leave those
/// inputs out.)
pub proof fn lemma_arrowless_text_decodes_to_none(s: Seq<char>)
    requires
        !has_char(s, ','),
        !contains_seq(s, arrow()),
        parse_u16_spec(trim_spec(after_last_colon(s))) is None,
    ensures
        extract_port_spec(s) is None,
{
    lemma_find_char_from(s, ',', 0);
    match find_char_from(s, ',', 0) {
        Some(i) => {
            assert(false);
        },
        None => {},
    }
    lemma_find_seq_from(s, arrow(), 0);
    match find_seq_from(s, arrow(), 0) {
        Some(i) => {
            assert(match_at(s, arrow(), i as int));
            assert(false);
        },
        None => {},
    }
    assert(cut_at_first(s, arrow()) == s);
}

/// Law: every valid single mapping decodes to its bound port.  A mapping
/// written as a host part, a colon, the port in decimal, the `->`
/// separator, and arbitrary trailing text decodes to exactly that port,
/// provided the host part holds no comma and no `->` and the trailing
/// text holds no comma (so that the whole string is one segment).
pub proof fn lemma_single_mapping(host: Seq<char>, port: u16, rest: Seq<char>)
    requires
        !has_char(host, ','),
        !contains_seq(host, arrow()),
        !has_char(rest, ','),
    ensures
        extract_port_spec(host + seq![':'] + dec_spec(port as nat) + arrow() + rest) == Some(port),
{
    let d = dec_spec(port as nat);
    let s = host + seq![':'] + d + arrow() + rest;
    let hl = host.len() as int;
    let q = hl + 1 + d.len() as int;
    lemma_dec_spec_digits(port as nat);
    assert forall|i: int| 0 <= i < d.len() implies is_digit(d[i]) by {}

    // The whole string is one comma-segment.
    assert forall|j: int| 0 <= j < s.len() implies s[j] != ',' by {
        if j < hl {
            assert(s[j] == host[j]);
        } else if j == hl {
            assert(s[j] == ':');
        } else if j < q {
            assert(s[j] == d[j - hl - 1]);
            assert(is_digit(s[j]));
        } else if j < q + 2 {
            assert(s[j] == arrow()[j - q]);
        } else {
            assert(s[j] == rest[j - q - 2]);
        }
    }
    lemma_find_char_from(s, ',', 0);
    match find_char_from(s, ',', 0) {
        Some(i) => {
            assert(false);
        },
        None => {},
    }
    assert(extract_port_spec(s) == segment_port(s));

    // The first arrow stands right after the digits.
    assert(s[q] == '-');
    assert(s[q + 1] == '>');
    assert(s.subrange(q, q + 2) =~= arrow());
    assert(match_at(s, arrow(), q));
    assert forall|j: int| 0 <= j < q implies !match_at(s, arrow(), j) by {
        if match_at(s, arrow(), j) {
            assert(s.subrange(j, j + 2)[0] == arrow()[0]);
            assert(s.subrange(j, j + 2)[1] == arrow()[1]);
            assert(s[j] == '-');
            assert(s[j + 1] == '>');
            if j + 1 < hl {
                assert(s[j] == host[j]);
                assert(s[j + 1] == host[j + 1]);
                assert(host.subrange(j, j + 2) =~= arrow());
                assert(match_at(host, arrow(), j));
                assert(contains_seq(host, arrow()));
            } else if j + 1 == hl {
                assert(s[j + 1] == ':');
            } else if j == hl {
                assert(s[j] == ':');
            } else {
                assert(s[j] == d[j - hl - 1]);
                assert(is_digit(s[j]));
            }
        }
    }
    lemma_find_seq_from(s, arrow(), 0);
    match find_seq_from(s, arrow(), 0) {
        None => {
            assert(false);
        },
        Some(i) => {
            if i < q {
                assert(match_at(s, arrow(), i as int));
                assert(false);
            }
            if i > q {
                assert(!match_at(s, arrow(), q));
                assert(false);
            }
            assert(i == q);
        },
    }
    let left = cut_at_first(s, arrow());
    assert(left =~= host + seq![':'] + d);

    // The last colon of the left side stands right before the digits.
    assert(left[hl] == ':');
    assert forall|j: int| hl < j < left.len() implies left[j] != ':' by {
        assert(left[j] == d[j - hl - 1]);
        assert(is_digit(left[j]));
    }
    lemma_rfind_char(left, ':');
    match rfind_char(left, ':') {
        None => {
            assert(false);
        },
        Some(i) => {
            if i < hl {
                assert(left[hl] == ':');
                assert(false);
            }
            if i > hl {
                assert(false);
            }
            assert(i == hl);
        },
    }
    assert(after_last_colon(left) =~= d);

    // The digits trim to themselves and parse back to the port.
    lemma_trim_digits(d);
    lemma_dec_val_roundtrip(port as nat);
    assert(is_digit(d[0]));
    assert(d[0] != '+');
    assert(parse_u16_spec(d) == Some(port));
}

} // verus!
