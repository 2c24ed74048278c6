//! Parsing the `major.minor.micro` version text that an interpreter
//! reports: three dot-separated decimal components, each a byte.

use vstd::prelude::*;
use vstd::string::StrSliceExecFns;

verus! {

/// A decimal digit.
pub open spec fn is_digit(c: char) -> bool {
    48 <= c as u32 <= 57
}

/// The value of one digit.
pub open spec fn digit_value(c: char) -> int
    recommends
        is_digit(c),
{
    c as u32 - 48
}

/// Every character is a digit.
pub open spec fn all_digits(s: Seq<char>) -> bool {
    forall|i: int| 0 <= i < s.len() ==> is_digit(#[trigger] s[i])
}

/// The value of a digit text, most significant first.
pub open spec fn digits_value(s: Seq<char>) -> int
    decreases s.len(),
{
    if s.len() == 0 {
        0
    } else {
        digits_value(s.drop_last()) * 10 + digit_value(s.last())
    }
}

/// A well-formed version component: nonempty, digits only, and small
/// enough for a byte.
pub open spec fn valid_component(s: Seq<char>) -> bool {
    s.len() > 0 && all_digits(s) && digits_value(s) <= 255
}

/// The index of the first `.` in a text, or its length when it has none.
pub open spec fn first_dot(s: Seq<char>) -> int
    decreases s.len(),
{
    if s.len() == 0 {
        0
    } else if s[0] == '.' {
        0
    } else {
        1 + first_dot(s.drop_first())
    }
}

/// The parsed version: the texts before the first dot, between the first
/// and second dots, and from the second dot to the third dot or the end,
/// each a valid component. Anything after a third dot is ignored.
pub open spec fn spec_parse_version(s: Seq<char>) -> Option<(u8, u8, u8)> {
    let i = first_dot(s);
    if i >= s.len() {
        None
    } else {
        let t1 = s.subrange(i + 1, s.len() as int);
        let j = first_dot(t1);
        if j >= t1.len() {
            None
        } else {
            let t2 = t1.subrange(j + 1, t1.len() as int);
            let c1 = s.subrange(0, i);
            let c2 = t1.subrange(0, j);
            let c3 = t2.subrange(0, first_dot(t2));
            if valid_component(c1) && valid_component(c2) && valid_component(c3) {
                Some(
                    (
                        digits_value(c1) as u8,
                        digits_value(c2) as u8,
                        digits_value(c3) as u8,
                    ),
                )
            } else {
                None
            }
        }
    }
}

proof fn lemma_first_dot_at(s: Seq<char>, k: int)
    requires
        0 <= k <= s.len(),
        forall|i: int| 0 <= i < k ==> s[i] != '.',
        k < s.len() ==> s[k] == '.',
    ensures
        first_dot(s) == k,
    decreases s.len(),
{
    if s.len() > 0 && k > 0 {
        assert(s.drop_first() =~= s.subrange(1, s.len() as int));
        lemma_first_dot_at(s.drop_first(), k - 1);
    }
}

proof fn lemma_digits_value_nonneg(s: Seq<char>)
    requires
        all_digits(s),
    ensures
        digits_value(s) >= 0,
    decreases s.len(),
{
    if s.len() > 0 {
        assert(s.drop_last() =~= s.subrange(0, s.len() - 1));
        lemma_digits_value_nonneg(s.drop_last());
    }
}

proof fn lemma_digits_value_prefix_bound(s: Seq<char>, k: int)
    requires
        all_digits(s),
        0 <= k <= s.len(),
    ensures
        digits_value(s) >= digits_value(s.subrange(0, k)),
    decreases s.len() - k,
{
    if k == s.len() {
        assert(s.subrange(0, k) =~= s);
    } else {
        let p = s.subrange(0, k);
        let t = s.subrange(0, k + 1);
        assert(t.drop_last() =~= p);
        assert(t.last() == s[k]);
        assert forall|i: int| 0 <= i < p.len() implies is_digit(#[trigger] p[i]) by {
            assert(p[i] == s[i]);
        }
        lemma_digits_value_nonneg(p);
        assert(is_digit(s[k]));
        assert(digits_value(t) == digits_value(p) * 10 + digit_value(s[k]));
        lemma_digits_value_prefix_bound(s, k + 1);
    }
}

/// The position of the first `.` at or after `from`, or the text's length
/// when there is none.
fn find_dot(s: &str, from: usize) -> (r: usize)
    requires
        from <= s@.len(),
    ensures
        from <= r <= s@.len(),
        r - from == first_dot(s@.subrange(from as int, s@.len() as int)),
{
    let n = s.unicode_len();
    let mut i = from;
    while i < n
        invariant
            from <= i <= n,
            n == s@.len(),
            forall|j: int| from <= j < i ==> s@[j] != '.',
        decreases n - i,
    {
        if s.get_char(i) == '.' {
            proof {
                let suffix = s@.subrange(from as int, s@.len() as int);
                assert forall|j: int| 0 <= j < i - from implies suffix[j] != '.' by {
                    assert(suffix[j] == s@[from + j]);
                }
                lemma_first_dot_at(suffix, i - from);
            }
            return i;
        }
        i += 1;
    }
    proof {
        let suffix = s@.subrange(from as int, s@.len() as int);
        assert forall|j: int| 0 <= j < n - from implies suffix[j] != '.' by {
            assert(suffix[j] == s@[from + j]);
        }
        lemma_first_dot_at(suffix, n - from);
    }
    n
}

/// Parses one component: `Some` exactly when the text between `from` and
/// `to` is nonempty, all digits, and fits in a byte.
fn parse_component(s: &str, from: usize, to: usize) -> (r: Option<u8>)
    requires
        from <= to <= s@.len(),
    ensures
        r is Some <==> valid_component(s@.subrange(from as int, to as int)),
        r matches Some(v) ==> v as int == digits_value(s@.subrange(from as int, to as int)),
{
    let ghost comp = s@.subrange(from as int, to as int);
    if from == to {
        return None;
    }
    let mut value: u32 = 0;
    let mut i = from;
    while i < to
        invariant
            from <= i <= to <= s@.len(),
            comp == s@.subrange(from as int, to as int),
            forall|j: int| 0 <= j < i - from ==> is_digit(#[trigger] comp[j]),
            value <= 255,
            value as int == digits_value(s@.subrange(from as int, i as int)),
        decreases to - i,
    {
        let c = s.get_char(i);
        let u = c as u32;
        proof {
            assert(comp[i - from] == s@[i as int]);
        }
        if u < 48 || u > 57 {
            return None;
        }
        proof {
            let prefix = s@.subrange(from as int, i + 1);
            assert(prefix.drop_last() =~= s@.subrange(from as int, i as int));
            assert(prefix.last() == s@[i as int]);
        }
        value = value * 10 + (u - 48);
        if value > 255 {
            proof {
                if all_digits(comp) {
                    let prefix = comp.subrange(0, i + 1 - from);
                    assert(prefix =~= s@.subrange(from as int, i + 1));
                    lemma_digits_value_prefix_bound(comp, i + 1 - from);
                }
            }
            return None;
        }
        i += 1;
    }
    proof {
        assert(all_digits(comp));
    }
    Some(value as u8)
}

/// Parses an interpreter's reported version.
pub fn parse_version(s: &str) -> (r: Option<(u8, u8, u8)>)
    ensures
        r == spec_parse_version(s@),
{
    let n = s.unicode_len();
    proof {
        assert(s@.subrange(0, s@.len() as int) =~= s@);
    }
    let i = find_dot(s, 0);
    if i == n {
        return None;
    }
    let ghost t1 = s@.subrange(i + 1, s@.len() as int);
    let j = find_dot(s, i + 1);
    proof {
        assert(s@.subrange(i + 1, s@.len() as int) =~= t1);
    }
    if j == n {
        return None;
    }
    let ghost t2 = t1.subrange(j - i, t1.len() as int);
    let k = find_dot(s, j + 1);
    proof {
        assert(t2 =~= s@.subrange(j + 1, s@.len() as int));
        assert(t1.subrange(0, j - i - 1) =~= s@.subrange(i + 1, j as int));
        assert(t2.subrange(0, first_dot(t2)) =~= s@.subrange(j + 1, k as int));
    }
    let a = parse_component(s, 0, i);
    let b = parse_component(s, i + 1, j);
    let c = parse_component(s, j + 1, k);
    match (a, b, c) {
        (Some(major), Some(minor), Some(micro)) => Some((major, minor, micro)),
        _ => None,
    }
}

} // verus!
