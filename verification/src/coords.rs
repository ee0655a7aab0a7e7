//! Reading a coordinate pair such as `"20,15"`.

use vstd::prelude::*;
use vstd::string::*;
use crate::error::CoordError;

verus! {

/// The characters that count as white space around a number.
pub open spec fn is_space(c: char) -> bool {
    let n = c as u32;
    (0x09 <= n <= 0x0D) || n == 0x20 || n == 0x85 || n == 0xA0 || n == 0x1680 || (0x2000 <= n
        <= 0x200A) || n == 0x2028 || n == 0x2029 || n == 0x202F || n == 0x205F || n == 0x3000
}

/// A decimal digit.
pub open spec fn is_digit(c: char) -> bool {
    0x30 <= c as u32 <= 0x39
}

/// The number that a decimal digit stands for.
pub open spec fn digit_value(c: char) -> nat {
    if is_digit(c) {
        (c as u32 - 0x30) as nat
    } else {
        0
    }
}

/// Every character is a decimal digit.
pub open spec fn all_digits(s: Seq<char>) -> bool {
    forall|i: int| 0 <= i < s.len() ==> is_digit(#[trigger] s[i])
}

/// The number that a run of decimal digits stands for.
pub open spec fn digits_value(s: Seq<char>) -> nat
    decreases s.len(),
{
    if s.len() == 0 {
        0
    } else {
        digits_value(s.drop_last()) * 10 + digit_value(s.last())
    }
}

/// The text without its leading white space.
pub open spec fn trim_front(s: Seq<char>) -> Seq<char>
    decreases s.len(),
{
    if s.len() > 0 && is_space(s[0]) {
        trim_front(s.drop_first())
    } else {
        s
    }
}

/// The text without its trailing white space.
pub open spec fn trim_back(s: Seq<char>) -> Seq<char>
    decreases s.len(),
{
    if s.len() > 0 && is_space(s.last()) {
        trim_back(s.drop_last())
    } else {
        s
    }
}

/// The text without the white space on either side.
pub open spec fn trimmed(s: Seq<char>) -> Seq<char> {
    trim_back(trim_front(s))
}

/// The digits of a number's text: the trimmed text without one leading `+`.
pub open spec fn number_digits(s: Seq<char>) -> Seq<char> {
    let t = trimmed(s);
    if t.len() > 0 && t[0] == '+' {
        t.drop_first()
    } else {
        t
    }
}

/// The unsigned 32-bit integer that a text stands for: optional white space,
/// an optional `+`, at least one decimal digit, optional white space, and a
/// value that fits 32 bits.
pub open spec fn parse_u32(s: Seq<char>) -> Option<u32> {
    let d = number_digits(s);
    if d.len() > 0 && all_digits(d) && digits_value(d) <= u32::MAX {
        Some(digits_value(d) as u32)
    } else {
        None
    }
}

/// The text holds exactly one comma, at position `i`.
pub open spec fn single_comma_at(s: Seq<char>, i: int) -> bool {
    &&& 0 <= i < s.len()
    &&& s[i] == ','
    &&& forall|j: int| 0 <= j < s.len() && j != i ==> #[trigger] s[j] != ','
}

/// The text holds exactly one comma.
pub open spec fn has_single_comma(s: Seq<char>) -> bool {
    exists|i: int| single_comma_at(s, i)
}

/// Where the text's only comma stands.
pub open spec fn comma_index(s: Seq<char>) -> int {
    choose|i: int| single_comma_at(s, i)
}

/// The pair that a text `"x,y"` stands for, or why it stands for none.
pub open spec fn parse_pair(s: Seq<char>) -> Result<(u32, u32), CoordError> {
    if !has_single_comma(s) {
        Err(CoordError::NotAPair)
    } else {
        let i = comma_index(s);
        match parse_u32(s.subrange(0, i)) {
            None => Err(CoordError::BadX),
            Some(x) => match parse_u32(s.subrange(i + 1, s.len() as int)) {
                None => Err(CoordError::BadY),
                Some(y) => Ok((x, y)),
            },
        }
    }
}

/// The value of a run of digits does not shrink when the run grows.
proof fn lemma_digits_value_grows(s: Seq<char>, k: int)
    requires
        0 <= k <= s.len(),
    ensures
        digits_value(s.subrange(0, k)) <= digits_value(s),
    decreases s.len(),
{
    if k == s.len() {
        assert(s.subrange(0, k) =~= s);
    } else {
        lemma_digits_value_grows(s.drop_last(), k);
        assert(s.drop_last().subrange(0, k) =~= s.subrange(0, k));
    }
}

fn space_char(c: char) -> (r: bool)
    ensures
        r == is_space(c),
{
    let n: u32 = c as u32;
    (0x09 <= n && n <= 0x0D) || n == 0x20 || n == 0x85 || n == 0xA0 || n == 0x1680 || (0x2000
        <= n && n <= 0x200A) || n == 0x2028 || n == 0x2029 || n == 0x202F || n == 0x205F || n
        == 0x3000
}

/// The characters of a string, one by one.
fn chars_of(s: &str) -> (v: Vec<char>)
    ensures
        v@ == s@,
{
    let n: usize = s.unicode_len();
    let mut v: Vec<char> = Vec::new();
    let mut i: usize = 0;
    while i < n
        invariant
            n == s@.len(),
            i <= n,
            v@ == s@.subrange(0, i as int),
        decreases n - i,
    {
        v.push(s.get_char(i));
        assert(v@ =~= s@.subrange(0, i + 1));
        i += 1;
    }
    assert(s@.subrange(0, n as int) =~= s@);
    v
}

/// Reads the unsigned 32-bit integer that stands between `lo` and `hi`.
fn parse_number(v: &Vec<char>, lo: usize, hi: usize) -> (r: Option<u32>)
    requires
        lo <= hi <= v.len(),
    ensures
        r == parse_u32(v@.subrange(lo as int, hi as int)),
{
    let ghost s = v@.subrange(lo as int, hi as int);
    let mut a: usize = lo;
    while a < hi && space_char(v[a])
        invariant
            lo <= a <= hi <= v.len(),
            trim_front(s) == trim_front(v@.subrange(a as int, hi as int)),
        decreases hi - a,
    {
        assert(v@.subrange(a as int, hi as int).drop_first() =~= v@.subrange(a + 1, hi as int));
        a += 1;
    }
    assert(trim_front(s) == v@.subrange(a as int, hi as int));
    let mut b: usize = hi;
    while a < b && space_char(v[b - 1])
        invariant
            a <= b <= hi <= v.len(),
            trimmed(s) == trim_back(v@.subrange(a as int, b as int)),
        decreases b - a,
    {
        assert(v@.subrange(a as int, b as int).drop_last() =~= v@.subrange(a as int, b - 1));
        b -= 1;
    }
    assert(trimmed(s) == v@.subrange(a as int, b as int));
    let ghost t = v@.subrange(a as int, b as int);
    let start: usize = if a < b && v[a] == '+' {
        assert(t.drop_first() =~= v@.subrange(a + 1, b as int));
        a + 1
    } else {
        a
    };
    let ghost d = v@.subrange(start as int, b as int);
    assert(d == number_digits(s));
    if start == b {
        return None;
    }
    let mut acc: u64 = 0;
    let mut i: usize = start;
    while i < b
        invariant
            start <= i <= b <= v.len(),
            start < b,
            lo <= hi <= v.len(),
            s == v@.subrange(lo as int, hi as int),
            d == v@.subrange(start as int, b as int),
            d == number_digits(s),
            all_digits(d.subrange(0, i - start)),
            acc == digits_value(d.subrange(0, i - start)),
            acc <= u32::MAX,
        decreases b - i,
    {
        let c: char = v[i];
        let n: u32 = c as u32;
        assert(d[i - start] == c);
        if n < 0x30 || n > 0x39 {
            return None;
        }
        let ghost prefix = d.subrange(0, i - start + 1);
        proof {
            assert(prefix.drop_last() =~= d.subrange(0, i - start));
            assert(prefix.last() == c);
            assert forall|j: int| 0 <= j < prefix.len() implies is_digit(#[trigger] prefix[j]) by {
                if j < i - start {
                    assert(prefix[j] == d.subrange(0, i - start)[j]);
                }
            }
        }
        let next: u64 = acc * 10 + (n - 0x30) as u64;
        assert(next == digits_value(prefix));
        if next > 0xFFFF_FFFF {
            proof {
                lemma_digits_value_grows(d, i - start + 1);
            }
            return None;
        }
        acc = next;
        i += 1;
    }
    assert(d.subrange(0, b - start) =~= d);
    Some(acc as u32)
}

/// Reads a coordinate pair `"x,y"`: two unsigned 32-bit integers around one
/// comma, each with optional white space around it and an optional `+`
/// before it. Anything else is rejected, with the reason.
pub fn string_to_tuples(s: &str) -> (r: Result<(u32, u32), CoordError>)
    ensures
        r == parse_pair(s@),
{
    let v = chars_of(s);
    let n: usize = v.len();
    let mut first: usize = n;
    let mut count: usize = 0;
    let mut i: usize = 0;
    while i < n
        invariant
            n == v.len(),
            i <= n,
            count <= i,
            count == 0 ==> first == n && forall|j: int| 0 <= j < i ==> #[trigger] v@[j] != ',',
            count >= 1 ==> first < i && v@[first as int] == ',',
            count == 1 ==> forall|j: int| 0 <= j < i && j != first ==> #[trigger] v@[j] != ',',
            count >= 2 ==> exists|j: int| 0 <= j < i && j != first && #[trigger] v@[j] == ',',
        decreases n - i,
    {
        if v[i] == ',' {
            if count == 0 {
                first = i;
            }
            count += 1;
        }
        i += 1;
    }
    if count != 1 {
        proof {
            if has_single_comma(v@) {
                let k = comma_index(v@);
                assert(single_comma_at(v@, k));
                if count >= 2 {
                    let j = choose|j: int| 0 <= j < n && j != first && #[trigger] v@[j] == ',';
                    assert(v@[j] == ',');
                    assert(v@[first as int] == ',');
                } else {
                    assert(v@[k] == ',');
                }
            }
        }
        return Err(CoordError::NotAPair);
    }
    proof {
        assert(single_comma_at(v@, first as int));
        let k = comma_index(v@);
        assert(single_comma_at(v@, k));
        assert(v@[first as int] == ',');
        assert(k == first);
    }
    match parse_number(&v, 0, first) {
        None => Err(CoordError::BadX),
        Some(x) => match parse_number(&v, first + 1, n) {
            None => Err(CoordError::BadY),
            Some(y) => Ok((x, y)),
        },
    }
}

} // verus!
