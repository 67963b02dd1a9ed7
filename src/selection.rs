use vstd::prelude::*;

verus! {

/// White space as `char::is_whitespace` defines it (the Unicode
/// `White_Space` property).
pub open spec fn is_space(c: char) -> bool {
    let u = c as u32;
    (9 <= u && u <= 13) || u == 32 || u == 0x85 || u == 0xA0 || u == 0x1680 || (0x2000 <= u && u
        <= 0x200A) || u == 0x2028 || u == 0x2029 || u == 0x202F || u == 0x205F || u == 0x3000
}

/// `s` without its leading white space.
pub open spec fn trim_start(s: Seq<char>) -> Seq<char>
    decreases s.len(),
{
    if s.len() > 0 && is_space(s[0]) {
        trim_start(s.drop_first())
    } else {
        s
    }
}

/// `s` without its trailing white space.
pub open spec fn trim_end(s: Seq<char>) -> Seq<char>
    decreases s.len(),
{
    if s.len() > 0 && is_space(s.last()) {
        trim_end(s.drop_last())
    } else {
        s
    }
}

pub open spec fn is_digit(c: char) -> bool {
    48 <= (c as u32) && (c as u32) <= 57
}

pub open spec fn digit_value(c: char) -> nat {
    if is_digit(c) {
        (c as u32 - 48) as nat
    } else {
        0
    }
}

/// The number that the digits `d` write in base ten.
pub open spec fn digits_value(d: Seq<char>) -> nat
    decreases d.len(),
{
    if d.len() == 0 {
        0
    } else {
        digits_value(d.drop_last()) * 10 + digit_value(d.last())
    }
}

/// `t` without a leading `+`, if it has one.
pub open spec fn unsigned_digits(t: Seq<char>) -> Seq<char> {
    if t.len() > 0 && t[0] == '+' {
        t.drop_first()
    } else {
        t
    }
}

pub open spec fn all_digits(d: Seq<char>) -> bool {
    forall|i: int| 0 <= i < d.len() ==> #[trigger] is_digit(d[i])
}

/// The unsigned number that `t` writes: an optional `+`, then one or more
/// decimal digits and nothing else.
pub open spec fn unsigned_text(t: Seq<char>) -> Option<nat> {
    if unsigned_digits(t).len() > 0 && all_digits(unsigned_digits(t)) {
        Some(digits_value(unsigned_digits(t)))
    } else {
        None
    }
}

/// The index that a line of input gives: the line without surrounding
/// white space must be an unsigned number that fits in `usize`.
pub open spec fn index_of_line(s: Seq<char>) -> Option<nat> {
    match unsigned_text(trim_end(trim_start(s))) {
        Some(v) => if v <= usize::MAX {
            Some(v)
        } else {
            None
        },
        None => None,
    }
}

fn char_is_space(c: char) -> (r: bool)
    ensures
        r == is_space(c),
{
    let u = c as u32;
    (9 <= u && u <= 13) || u == 32 || u == 0x85 || u == 0xA0 || u == 0x1680 || (0x2000 <= u && u
        <= 0x200A) || u == 0x2028 || u == 0x2029 || u == 0x202F || u == 0x205F || u == 0x3000
}

proof fn lemma_digits_value_prefix(d: Seq<char>, k: int)
    requires
        0 <= k <= d.len(),
    ensures
        digits_value(d.take(k)) <= digits_value(d),
    decreases d.len() - k,
{
    if k < d.len() {
        lemma_digits_value_prefix(d, k + 1);
        assert(d.take(k + 1).drop_last() =~= d.take(k));
    } else {
        assert(d.take(k) =~= d);
    }
}

/// Reads a line of input as an index, as `str::trim` followed by
/// `str::parse::<usize>` does.
pub fn parse_index(line: &str) -> (r: Option<usize>)
    ensures
        r matches Some(i) ==> index_of_line(line@) == Some(i as nat),
        r is None ==> index_of_line(line@) is None,
{
    let n = line.unicode_len();
    let mut lo: usize = 0;
    assert(line@.subrange(0, n as int) =~= line@);
    while lo < n && char_is_space(line.get_char(lo))
        invariant
            n == line@.len(),
            lo <= n,
            trim_start(line@) == trim_start(line@.subrange(lo as int, n as int)),
        decreases n - lo,
    {
        assert(line@.subrange(lo as int, n as int).drop_first() =~= line@.subrange(
            lo + 1,
            n as int,
        ));
        lo = lo + 1;
    }
    let ghost t = line@.subrange(lo as int, n as int);
    assert(trim_start(line@) == t);
    let mut hi: usize = n;
    while hi > lo && char_is_space(line.get_char(hi - 1))
        invariant
            n == line@.len(),
            lo <= hi <= n,
            t == line@.subrange(lo as int, n as int),
            trim_end(t) == trim_end(line@.subrange(lo as int, hi as int)),
        decreases hi,
    {
        assert(line@.subrange(lo as int, hi as int).drop_last() =~= line@.subrange(
            lo as int,
            hi - 1,
        ));
        hi = hi - 1;
    }
    let ghost body = line@.subrange(lo as int, hi as int);
    assert(trim_end(trim_start(line@)) == body);
    let mut start: usize = lo;
    if lo < hi && line.get_char(lo) == '+' {
        start = lo + 1;
    }
    let ghost d = line@.subrange(start as int, hi as int);
    assert(d =~= unsigned_digits(body));
    if start == hi {
        return None;
    }
    let mut acc: usize = 0;
    let mut i: usize = start;
    while i < hi
        invariant
            n == line@.len(),
            start <= i <= hi <= n,
            d == line@.subrange(start as int, hi as int),
            d == unsigned_digits(body),
            body == trim_end(trim_start(line@)),
            forall|j: int| 0 <= j < i - start ==> #[trigger] is_digit(d[j]),
            acc as nat == digits_value(d.take(i - start)),
        decreases hi - i,
    {
        let c = line.get_char(i);
        let u = c as u32;
        if u < 48 || u > 57 {
            assert(d[i - start] == c);
            assert(!is_digit(d[i - start]));
            assert(unsigned_text(body) is None);
            return None;
        }
        let dig: usize = (u - 48) as usize;
        let ghost k = i - start;
        assert(d.take(k + 1).drop_last() =~= d.take(k));
        assert(d.take(k + 1).last() == c);
        assert(digit_value(c) == dig);
        assert(digits_value(d.take(k + 1)) == digits_value(d.take(k)) * 10 + dig);
        if acc > (usize::MAX - dig) / 10 {
            proof {
                let m = usize::MAX - dig;
                assert(acc * 10 + dig > usize::MAX) by (nonlinear_arith)
                    requires
                        acc > m / 10,
                        m == usize::MAX - dig,
                        0 <= dig,
                ;
                lemma_digits_value_prefix(d, k + 1);
                assert(digits_value(d) > usize::MAX);
                assert(unsigned_text(body) is None || unsigned_text(body) == Some(digits_value(d)));
            }
            return None;
        }
        proof {
            let m = usize::MAX - dig;
            assert(acc * 10 + dig <= usize::MAX) by (nonlinear_arith)
                requires
                    acc <= m / 10,
                    m == usize::MAX - dig,
                    0 <= dig,
            ;
        }
        acc = acc * 10 + dig;
        i = i + 1;
    }
    assert(d.take(hi - start) =~= d);
    Some(acc)
}

} // verus!
