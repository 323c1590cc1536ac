use vstd::prelude::*;

verus! {

pub open spec fn is_digit(c: char) -> bool {
    '0' <= c && c <= '9'
}

pub open spec fn all_digits(s: Seq<char>) -> bool {
    forall|i: int| 0 <= i < s.len() ==> is_digit(#[trigger] s[i])
}

/// The number that the decimal digits `s` spell, most significant first.
pub open spec fn decimal_value(s: Seq<char>) -> int
    decreases s.len(),
{
    if s.len() == 0 {
        0
    } else {
        decimal_value(s.drop_last()) * 10 + (s.last() as int - '0' as int)
    }
}

/// `s` without one leading plus sign, if it has one.
pub open spec fn unsigned_digits(s: Seq<char>) -> Seq<char> {
    if s.len() > 0 && s[0] == '+' {
        s.drop_first()
    } else {
        s
    }
}

/// The identifier that a path segment names: an optional `+` and then one or
/// more decimal digits, whose value fits in `usize`.
pub open spec fn id_value(s: Seq<char>) -> Option<usize> {
    let d = unsigned_digits(s);
    if d.len() > 0 && all_digits(d) && decimal_value(d) <= usize::MAX {
        Some(decimal_value(d) as usize)
    } else {
        None
    }
}

/// Appending digits never makes the value smaller.
proof fn lemma_prefix_value(s: Seq<char>, k: int)
    requires
        all_digits(s),
        0 <= k <= s.len(),
    ensures
        0 <= decimal_value(s.subrange(0, k)) <= decimal_value(s),
    decreases s.len(),
{
    if s.len() > 0 {
        let t = s.drop_last();
        assert(all_digits(t)) by {
            assert forall|i: int| 0 <= i < t.len() implies is_digit(#[trigger] t[i]) by {
                assert(t[i] == s[i]);
            }
        }
        assert(is_digit(s[s.len() - 1]));
        if k < s.len() {
            lemma_prefix_value(t, k);
            assert(t.subrange(0, k) =~= s.subrange(0, k));
        } else {
            lemma_prefix_value(t, k - 1);
            assert(t.subrange(0, k - 1) =~= t);
            assert(s.subrange(0, k) =~= s);
        }
    } else {
        assert(s.subrange(0, k) =~= s);
    }
}

/// Reads a path segment as an identifier, as `usize`'s `FromStr` does.
pub fn parse_id(segment: &str) -> (r: Option<usize>)
    ensures
        r == id_value(segment@),
{
    let n = segment.unicode_len();
    let mut start: usize = 0;
    if n > 0 && segment.get_char(0) == '+' {
        start = 1;
    }
    let ghost d = unsigned_digits(segment@);
    assert(d =~= segment@.subrange(start as int, n as int));
    if start == n {
        return None;
    }
    let mut acc: usize = 0;
    let mut i: usize = start;
    while i < n
        invariant
            n == segment@.len(),
            start < n,
            start <= i <= n,
            d == segment@.subrange(start as int, n as int),
            d == unsigned_digits(segment@),
            all_digits(d.subrange(0, i - start)),
            acc as int == decimal_value(d.subrange(0, i - start)),
        decreases n - i,
    {
        let c = segment.get_char(i);
        assert(d[i - start] == c);
        if !('0' <= c && c <= '9') {
            assert(!is_digit(d[i - start]));
            return None;
        }
        let ghost next = d.subrange(0, i + 1 - start);
        assert(next.drop_last() =~= d.subrange(0, i - start));
        assert(all_digits(next)) by {
            assert forall|j: int| 0 <= j < next.len() implies is_digit(#[trigger] next[j]) by {
                if j < next.len() - 1 {
                    assert(next[j] == d.subrange(0, i - start)[j]);
                }
            }
        }
        let dv = (c as u32 - '0' as u32) as usize;
        assert(decimal_value(next) == acc * 10 + dv);
        match acc.checked_mul(10) {
            None => {
                proof { overflow_is_final(segment@, d, i + 1 - start); }
                return None;
            },
            Some(m) => match m.checked_add(dv) {
                None => {
                    proof { overflow_is_final(segment@, d, i + 1 - start); }
                    return None;
                },
                Some(v) => {
                    acc = v;
                },
            },
        }
        i = i + 1;
    }
    assert(d.subrange(0, n - start) =~= d);
    Some(acc)
}

/// A digit prefix whose value is past `usize::MAX` leaves the segment without an
/// identifier.
proof fn overflow_is_final(s: Seq<char>, d: Seq<char>, k: int)
    requires
        d == unsigned_digits(s),
        0 <= k <= d.len(),
        all_digits(d.subrange(0, k)),
        decimal_value(d.subrange(0, k)) > usize::MAX,
    ensures
        id_value(s) is None,
{
    if all_digits(d) {
        lemma_prefix_value(d, k);
    }
}

} // verus!
