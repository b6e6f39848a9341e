//! Host side of the serial link: cutting the received bytes into lines and
//! splitting a line into its two fields.
use vstd::prelude::*;
use vstd::string::StrSliceExecFns;

verus! {

/// The first newline of `s` is at `p`.
pub open spec fn first_newline_at(s: Seq<u8>, p: int) -> bool {
    &&& 0 <= p < s.len()
    &&& s[p] == 10u8
    &&& forall|j: int| 0 <= j < p ==> s[j] != 10u8
}

/// Removes the first complete line, newline included, from the front of
/// `buffer` and returns it; leaves the buffer as it is when no newline has
/// arrived yet.
pub fn take_line(buffer: &mut Vec<u8>) -> (r: Option<Vec<u8>>)
    ensures
        match r {
            Some(line) => exists|p: int| {
                &&& first_newline_at(old(buffer)@, p)
                &&& line@ == old(buffer)@.subrange(0, p + 1)
                &&& final(buffer)@ == old(buffer)@.subrange(p + 1, old(buffer)@.len() as int)
            },
            None => {
                &&& final(buffer)@ == old(buffer)@
                &&& forall|j: int| 0 <= j < old(buffer)@.len() ==> old(buffer)@[j] != 10u8
            },
        },
{
    let mut i: usize = 0;
    while i < buffer.len()
        invariant
            i <= buffer@.len(),
            buffer@ == old(buffer)@,
            forall|j: int| 0 <= j < i ==> buffer@[j] != 10u8,
        decreases buffer@.len() - i,
    {
        if buffer[i] == 10u8 {
            let mut rest = buffer.split_off(i + 1);
            core::mem::swap(buffer, &mut rest);
            assert(first_newline_at(old(buffer)@, i as int));
            return Some(rest);
        }
        i += 1;
    }
    None
}

/// Characters with the Unicode `White_Space` property.
pub open spec fn is_white_space(c: char) -> bool {
    let u = c as u32;
    (0x09 <= u <= 0x0d) || u == 0x20 || u == 0x85 || u == 0xa0 || u == 0x1680
        || (0x2000 <= u <= 0x200a) || u == 0x2028 || u == 0x2029 || u == 0x202f
        || u == 0x205f || u == 0x3000
}

/// Relies on `char::is_whitespace`: true exactly for the characters with the
/// Unicode `White_Space` property.
#[verifier::external_body]
fn white_space(c: char) -> (r: bool)
    ensures
        r == is_white_space(c),
{
    c.is_whitespace()
}

/// `s` without its leading white space.
pub open spec fn trim_start(s: Seq<char>) -> Seq<char>
    decreases s.len(),
{
    if s.len() > 0 && is_white_space(s[0]) {
        trim_start(s.drop_first())
    } else {
        s
    }
}

/// `s` without its trailing white space.
pub open spec fn trim_end(s: Seq<char>) -> Seq<char>
    decreases s.len(),
{
    if s.len() > 0 && is_white_space(s.last()) {
        trim_end(s.drop_last())
    } else {
        s
    }
}

/// `s` without white space at either end.
pub open spec fn trimmed(s: Seq<char>) -> Seq<char> {
    trim_end(trim_start(s))
}

/// `t` holds a comma at `c` and nowhere else.
pub open spec fn single_comma_at(t: Seq<char>, c: int) -> bool {
    &&& 0 <= c < t.len()
    &&& t[c] == ','
    &&& forall|j: int| 0 <= j < t.len() && j != c ==> t[j] != ','
}

proof fn lemma_trim_start(s: Seq<char>, a: int)
    requires
        0 <= a <= s.len(),
        forall|i: int| 0 <= i < a ==> is_white_space(s[i]),
        a < s.len() ==> !is_white_space(s[a]),
    ensures
        trim_start(s) == s.subrange(a, s.len() as int),
    decreases a,
{
    if a == 0 {
        assert(s.subrange(0, s.len() as int) =~= s);
    } else {
        let t = s.drop_first();
        lemma_trim_start(t, a - 1);
        assert(t.subrange(a - 1, t.len() as int) =~= s.subrange(a, s.len() as int));
    }
}

proof fn lemma_trim_end(s: Seq<char>, b: int)
    requires
        0 <= b <= s.len(),
        forall|i: int| b <= i < s.len() ==> is_white_space(s[i]),
        b > 0 ==> !is_white_space(s[b - 1]),
    ensures
        trim_end(s) == s.subrange(0, b),
    decreases s.len() - b,
{
    if b == s.len() {
        assert(s.subrange(0, b) =~= s);
    } else {
        let t = s.drop_last();
        lemma_trim_end(t, b);
        assert(t.subrange(0, b) =~= s.subrange(0, b));
    }
}

/// Splits a received line into its timestamp and temperature fields: white
/// space at both ends is dropped, and the rest must hold exactly one comma,
/// which separates the two fields.
pub fn parse_data(line: &str) -> (r: Option<(String, String)>)
    ensures
        match r {
            Some((timestamp, temperature)) => exists|c: int| {
                &&& single_comma_at(trimmed(line@), c)
                &&& timestamp@ == trimmed(line@).subrange(0, c)
                &&& temperature@ == trimmed(line@).subrange(c + 1, trimmed(line@).len() as int)
            },
            None => forall|c: int| !single_comma_at(trimmed(line@), c),
        },
{
    let ghost s = line@;
    let n = line.unicode_len();
    let mut a: usize = 0;
    while a < n && white_space(line.get_char(a))
        invariant
            a <= n,
            n == s.len(),
            s == line@,
            forall|i: int| 0 <= i < a ==> is_white_space(s[i]),
        decreases n - a,
    {
        a += 1;
    }
    proof {
        lemma_trim_start(s, a as int);
    }
    let ghost ts = s.subrange(a as int, n as int);
    let mut b: usize = n;
    while b > a && white_space(line.get_char(b - 1))
        invariant
            a <= b <= n,
            n == s.len(),
            s == line@,
            forall|i: int| b <= i < n ==> is_white_space(s[i]),
        decreases b,
    {
        b -= 1;
    }
    let ghost t = s.subrange(a as int, b as int);
    proof {
        lemma_trim_end(ts, b - a);
        assert(ts.subrange(0, b - a) =~= t);
        assert(trimmed(s) == t);
    }
    let mut first: Option<usize> = None;
    let mut i: usize = a;
    while i < b
        invariant
            a <= i <= b,
            b <= n,
            n == s.len(),
            s == line@,
            t == s.subrange(a as int, b as int),
            trimmed(s) == t,
            first is None ==> forall|j: int| a <= j < i ==> s[j] != ',',
            first matches Some(c) ==> {
                &&& a <= c < i
                &&& s[c as int] == ','
                &&& forall|j: int| a <= j < i && j != c ==> s[j] != ','
            },
        decreases b - i,
    {
        if line.get_char(i) == ',' {
            match first {
                None => {
                    first = Some(i);
                },
                Some(c) => {
                    assert(s[i as int] == ',');
                    assert forall|k: int| !single_comma_at(t, k) by {
                        if single_comma_at(t, k) {
                            assert(t[(i - a) as int] == ',');
                            assert(t[(c - a) as int] == ',');
                        }
                    }
                    return None;
                },
            }
        }
        i += 1;
    }
    match first {
        None => {
            assert forall|k: int| !single_comma_at(t, k) by {
                if single_comma_at(t, k) {
                    assert(s[a + k] == ',');
                }
            }
            None
        },
        Some(c) => {
            let timestamp = line.substring_char(a, c).to_owned();
            let temperature = line.substring_char(c + 1, b).to_owned();
            let ghost k = (c - a) as int;
            assert(single_comma_at(t, k));
            assert(timestamp@ =~= t.subrange(0, k));
            assert(temperature@ =~= t.subrange(k + 1, t.len() as int));
            Some((timestamp, temperature))
        },
    }
}

} // verus!
