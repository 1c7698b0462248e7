//! Journal-attachment detection.
//!
//! A journal collector advertises the identity of its ingestion pipe in an
//! environment variable holding `"<device>:<inode>"`, two base-10 integers
//! separated by a colon. The process is journal-connected exactly when that
//! pair parses and equals the device/inode identity of its own standard
//! error descriptor. Any failure along the way — missing variable,
//! malformed integers, unavailable descriptor identity — means "not
//! journal-connected", never an error. The two fields are unsigned digit
//! runs: device and inode numbers carry no sign, so a leading sign
//! character makes the hint malformed.

use vstd::prelude::*;
use vstd::string::StrSliceExecFns;

verus! {

/// Every character of `s` is a decimal digit.
pub open spec fn all_digits(s: Seq<char>) -> bool {
    forall|i: int| 0 <= i < s.len() ==> '0' <= #[trigger] s[i] <= '9'
}

/// The number denoted by a sequence of decimal digits, most significant
/// first.
pub open spec fn digits_value(s: Seq<char>) -> int
    decreases s.len(),
{
    if s.len() == 0 {
        0
    } else {
        digits_value(s.drop_last()) * 10 + (s.last() as int - '0' as int)
    }
}

/// What a decimal field of the hint parses to: a nonempty run of digits
/// whose value fits in 64 bits, and nothing else.
pub open spec fn spec_parse_u64(s: Seq<char>) -> Option<u64> {
    if s.len() > 0 && all_digits(s) && digits_value(s) <= u64::MAX {
        Some(digits_value(s) as u64)
    } else {
        None
    }
}

proof fn lemma_digits_value_nonneg(s: Seq<char>)
    requires
        all_digits(s),
    ensures
        digits_value(s) >= 0,
    decreases s.len(),
{
    if s.len() > 0 {
        assert(all_digits(s.drop_last()));
        lemma_digits_value_nonneg(s.drop_last());
        assert('0' <= s[s.len() - 1] <= '9');
    }
}

/// A digit string denotes at least as much as any of its prefixes.
proof fn lemma_digits_value_prefix_le(s: Seq<char>, n: int)
    requires
        all_digits(s),
        0 <= n <= s.len(),
    ensures
        digits_value(s.subrange(0, n)) <= digits_value(s),
    decreases s.len() - n,
{
    if n < s.len() {
        assert(all_digits(s.drop_last()));
        assert(s.drop_last().subrange(0, n) =~= s.subrange(0, n));
        lemma_digits_value_prefix_le(s.drop_last(), n);
        lemma_digits_value_nonneg(s.drop_last());
        assert('0' <= s[s.len() - 1] <= '9');
    } else {
        assert(s.subrange(0, n) =~= s);
    }
}

/// Parse the characters of `s` between `start` and `end` as a base-10
/// `u64`: digits only, at least one, value within range.
fn parse_u64_range(s: &str, start: usize, end: usize) -> (r: Option<u64>)
    requires
        start <= end,
        end <= s@.len(),
    ensures
        r == spec_parse_u64(s@.subrange(start as int, end as int)),
{
    let ghost t = s@.subrange(start as int, end as int);
    if start == end {
        return None;
    }
    let mut val: u64 = 0;
    let mut i: usize = start;
    while i < end
        invariant
            start <= i <= end,
            end <= s@.len(),
            t == s@.subrange(start as int, end as int),
            all_digits(s@.subrange(start as int, i as int)),
            val == digits_value(s@.subrange(start as int, i as int)),
        decreases end - i,
    {
        let c = s.get_char(i);
        let ghost prev = s@.subrange(start as int, i as int);
        let ghost cur = s@.subrange(start as int, i as int + 1);
        proof {
            assert(cur.drop_last() =~= prev);
            assert(cur.last() == s@[i as int]);
        }
        if c < '0' || c > '9' {
            proof {
                assert(t[i - start] == s@[i as int]);
                assert(!all_digits(t));
            }
            return None;
        }
        proof {
            assert forall|j: int| 0 <= j < cur.len() implies '0' <= #[trigger] cur[j] <= '9' by {
                if j < cur.len() - 1 {
                    assert(cur[j] == prev[j]);
                } else {
                    assert(cur[j] == s@[i as int]);
                }
            }
        }
        let d: u64 = (c as u32 - 48) as u64;
        let wide: u128 = (val as u128) * 10 + (d as u128);
        if wide > u64::MAX as u128 {
            proof {
                assert(digits_value(cur) == digits_value(prev) * 10 + (s@[i as int] as int
                    - '0' as int));
                if all_digits(t) {
                    assert(cur =~= t.subrange(0, i - start + 1));
                    lemma_digits_value_prefix_le(t, i - start + 1);
                }
            }
            return None;
        }
        val = wide as u64;
        i = i + 1;
    }
    proof {
        assert(t =~= s@.subrange(start as int, i as int));
        assert(t.len() > 0);
    }
    Some(val)
}

/// `i` is the position of the first colon in `h`.
pub open spec fn is_first_colon(h: Seq<char>, i: int) -> bool {
    &&& 0 <= i < h.len()
    &&& h[i] == ':'
    &&& forall|j: int| 0 <= j < i ==> #[trigger] h[j] != ':'
}

/// What a journal hint string parses to: the text before the first colon
/// and the text after it must each be a decimal `u64`; anything else —
/// no colon, empty fields, stray characters, further colons, overflow —
/// parses to nothing.
pub open spec fn spec_parse_hint(h: Seq<char>) -> Option<(u64, u64)> {
    if exists|i: int| is_first_colon(h, i) {
        let i = choose|i: int| is_first_colon(h, i);
        match (spec_parse_u64(h.subrange(0, i)), spec_parse_u64(h.subrange(i + 1, h.len() as int))) {
            (Some(dev), Some(ino)) => Some((dev, ino)),
            _ => None,
        }
    } else {
        None
    }
}

/// Position of the first colon of `s`, if any.
fn find_colon(s: &str) -> (r: Option<usize>)
    ensures
        match r {
            Some(i) => is_first_colon(s@, i as int),
            None => forall|j: int| 0 <= j < s@.len() ==> #[trigger] s@[j] != ':',
        },
{
    let n = s.unicode_len();
    let mut i: usize = 0;
    while i < n
        invariant
            i <= n,
            n == s@.len(),
            forall|j: int| 0 <= j < i ==> #[trigger] s@[j] != ':',
        decreases n - i,
    {
        let c = s.get_char(i);
        if c == ':' {
            return Some(i);
        }
        i = i + 1;
    }
    None
}

/// Parse a journal hint of the shape `"<device>:<inode>"` into its
/// device/inode pair.
pub fn parse_journal_stream(s: &str) -> (r: Option<(u64, u64)>)
    ensures
        r == spec_parse_hint(s@),
{
    let n = s.unicode_len();
    match find_colon(s) {
        None => {
            proof {
                assert forall|k: int| !is_first_colon(s@, k) by {
                    if 0 <= k < s@.len() {
                        assert(s@[k] != ':');
                    }
                }
            }
            None
        },
        Some(i) => {
            proof {
                let h = s@;
                assert(is_first_colon(h, i as int));
                let k = choose|k: int| is_first_colon(h, k);
                assert(is_first_colon(h, k));
                if k < i {
                    assert(h[k] != ':');
                } else if k > i {
                    assert(h[i as int] != ':');
                }
                assert(k == i);
            }
            let dev = parse_u64_range(s, 0, i);
            let ino = parse_u64_range(s, i + 1, n);
            match (dev, ino) {
                (Some(d), Some(x)) => Some((d, x)),
                _ => None,
            }
        },
    }
}

/// The view of an optional borrowed string.
pub open spec fn opt_str_view(s: Option<&str>) -> Option<Seq<char>> {
    match s {
        Some(v) => Some(v@),
        None => None,
    }
}

/// The process is journal-connected exactly when the hint is present,
/// parses, and names the very device/inode pair that standard error has.
pub open spec fn spec_journal_connected(
    hint: Option<Seq<char>>,
    stderr_id: Option<(u64, u64)>,
) -> bool {
    match (hint, stderr_id) {
        (Some(h), Some(id)) => spec_parse_hint(h) == Some(id),
        _ => false,
    }
}

/// Decide whether standard error feeds a journal collector, from the hint
/// variable's value and the descriptor's device/inode identity. Either
/// signal may be missing; a malformed hint counts as absent.
pub fn is_connected_to_journald(hint: Option<&str>, stderr_id: Option<(u64, u64)>) -> (r: bool)
    ensures
        r == spec_journal_connected(opt_str_view(hint), stderr_id),
{
    match (hint, stderr_id) {
        (Some(h), Some(id)) => match parse_journal_stream(h) {
            Some(p) => p.0 == id.0 && p.1 == id.1,
            None => false,
        },
        _ => false,
    }
}

/// A hint that does not parse is indistinguishable from an absent hint:
/// neither makes the process journal-connected.
pub proof fn lemma_malformed_hint_like_absent(h: Seq<char>, stderr_id: Option<(u64, u64)>)
    requires
        spec_parse_hint(h) is None,
    ensures
        spec_journal_connected(Some(h), stderr_id) == spec_journal_connected(
            None,
            stderr_id,
        ),
        !spec_journal_connected(Some(h), stderr_id),
{
}

/// A hint that parses to exactly the descriptor's identity makes the
/// process journal-connected.
pub proof fn lemma_matching_hint_is_journal(h: Seq<char>, id: (u64, u64))
    requires
        spec_parse_hint(h) == Some(id),
    ensures
        spec_journal_connected(Some(h), Some(id)),
{
}

/// A hint that parses to a different pair than the descriptor's identity
/// leaves the process not journal-connected.
pub proof fn lemma_mismatched_hint_not_journal(h: Seq<char>, hinted: (u64, u64), actual: (u64, u64))
    requires
        spec_parse_hint(h) == Some(hinted),
        hinted != actual,
    ensures
        !spec_journal_connected(Some(h), Some(actual)),
{
}

} // verus!
