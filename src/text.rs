use vstd::prelude::*;

verus! {

/// Copies the characters of `s` into a vector, one element per character.
pub fn chars_of(s: &str) -> (r: Vec<char>)
    ensures
        r@ == s@,
{
    let mut out: Vec<char> = Vec::new();
    for c in it: s.chars()
        invariant
            it.seq() == s@,
            out@ == it.seq().take(it.index() as int),
    {
        out.push(c);
    }
    out
}


pub open spec fn is_digit(c: char) -> bool {
    '0' <= c && c <= '9'
}

pub open spec fn digit_value(c: char) -> nat {
    (c as nat - '0' as nat) as nat
}

pub open spec fn all_digits(t: Seq<char>) -> bool {
    forall|i: int| 0 <= i < t.len() ==> is_digit(#[trigger] t[i])
}

/// The value of a run of decimal digits, most significant first.
pub open spec fn digits_value(t: Seq<char>) -> nat
    decreases t.len(),
{
    if t.len() == 0 {
        0
    } else {
        digits_value(t.drop_last()) * 10 + digit_value(t.last())
    }
}

/// A number written as one or more ASCII digits whose value fits in a `u32`.
pub open spec fn parse_digits(t: Seq<char>) -> Option<u32> {
    if t.len() > 0 && all_digits(t) && digits_value(t) <= u32::MAX {
        Some(digits_value(t) as u32)
    } else {
        None
    }
}

/// A number as `u32`'s `from_str` reads it: an optional `+`, then one or more ASCII
/// digits whose value fits.
pub open spec fn parse_u32(t: Seq<char>) -> Option<u32> {
    if t.len() > 0 && t[0] == '+' {
        parse_digits(t.skip(1))
    } else {
        parse_digits(t)
    }
}

pub open spec fn digit_char(d: nat) -> char {
    seq!['0', '1', '2', '3', '4', '5', '6', '7', '8', '9'][d as int]
}

/// The decimal writing of `n`, without leading zeros.
pub open spec fn decimal(n: nat) -> Seq<char>
    decreases n,
{
    if n < 10 {
        seq![digit_char(n)]
    } else {
        decimal(n / 10).push(digit_char(n % 10))
    }
}

proof fn lemma_digits_value_prefix(t: Seq<char>, j: int)
    requires
        0 <= j <= t.len(),
    ensures
        digits_value(t.take(j)) <= digits_value(t),
    decreases t.len(),
{
    if j < t.len() {
        assert(t.drop_last().take(j) == t.take(j));
        lemma_digits_value_prefix(t.drop_last(), j);
        assert(digits_value(t) >= digits_value(t.drop_last())) by (nonlinear_arith)
            requires
                digits_value(t) == digits_value(t.drop_last()) * 10 + digit_value(t.last()),
        ;
    } else {
        assert(t.take(j) == t);
    }
}

/// Reads `chars[start..end]` as a number, with an optional leading `+`.
pub fn parse_u32_at(chars: &Vec<char>, start: usize, end: usize) -> (r: Option<u32>)
    requires
        start <= end <= chars.len(),
    ensures
        r == parse_u32(chars@.subrange(start as int, end as int)),
{
    if start < end && chars[start] == '+' {
        assert(chars@.subrange(start as int, end as int).skip(1) =~= chars@.subrange(
            start + 1,
            end as int,
        ));
        parse_digits_at(chars, start + 1, end)
    } else {
        parse_digits_at(chars, start, end)
    }
}

/// Reads `chars[start..end]` as a run of decimal digits.
fn parse_digits_at(chars: &Vec<char>, start: usize, end: usize) -> (r: Option<u32>)
    requires
        start <= end <= chars.len(),
    ensures
        r == parse_digits(chars@.subrange(start as int, end as int)),
{
    let ghost t = chars@.subrange(start as int, end as int);
    if start == end {
        return None;
    }
    let mut acc: u32 = 0;
    let mut i: usize = start;
    while i < end
        invariant
            start <= i <= end <= chars.len(),
            t == chars@.subrange(start as int, end as int),
            all_digits(t.take(i - start)),
            acc as nat == digits_value(t.take(i - start)),
        decreases end - i,
    {
        let c = chars[i];
        if !('0' <= c && c <= '9') {
            assert(!is_digit(t[i - start]));
            return None;
        }
        let d: u32 = (c as u32) - ('0' as u32);
        assert(t.take(i - start + 1).drop_last() == t.take(i - start));
        if acc > (u32::MAX - d) / 10 {
            proof {
                let v = digits_value(t.take(i - start + 1));
                assert(v == acc * 10 + d);
                assert(acc * 10 + d > u32::MAX) by (nonlinear_arith)
                    requires
                        acc > (u32::MAX - d) / 10,
                        d <= 9,
                ;
                if all_digits(t) {
                    lemma_digits_value_prefix(t, i - start + 1);
                }
            }
            return None;
        }
        assert(acc * 10 + d <= u32::MAX) by (nonlinear_arith)
            requires
                acc <= (u32::MAX - d) / 10,
                d <= 9,
        ;
        acc = acc * 10 + d;
        i = i + 1;
    }
    assert(t.take(i - start) == t);
    Some(acc)
}

fn digit_str(d: u32) -> (r: &'static str)
    requires
        d < 10,
    ensures
        r@ == seq![digit_char(d as nat)],
{
    proof {
        reveal_strlit("0");
        reveal_strlit("1");
        reveal_strlit("2");
        reveal_strlit("3");
        reveal_strlit("4");
        reveal_strlit("5");
        reveal_strlit("6");
        reveal_strlit("7");
        reveal_strlit("8");
        reveal_strlit("9");
    }
    if d == 0 {
        "0"
    } else if d == 1 {
        "1"
    } else if d == 2 {
        "2"
    } else if d == 3 {
        "3"
    } else if d == 4 {
        "4"
    } else if d == 5 {
        "5"
    } else if d == 6 {
        "6"
    } else if d == 7 {
        "7"
    } else if d == 8 {
        "8"
    } else {
        "9"
    }
}

/// Appends the decimal writing of `n` to `out`.
pub fn push_decimal(out: &mut String, n: u32)
    ensures
        final(out)@ == old(out)@ + decimal(n as nat),
    decreases n,
{
    if n >= 10 {
        push_decimal(out, n / 10);
    }
    out.append(digit_str(n % 10));
}

/// `q` occurs in `t` as a run of consecutive characters.
pub open spec fn contains(t: Seq<char>, q: Seq<char>) -> bool {
    exists|i: int| 0 <= i && i + q.len() <= t.len() && #[trigger] t.subrange(i, i + q.len()) == q
}

fn occurs_at(t: &Vec<char>, q: &Vec<char>, i: usize) -> (r: bool)
    requires
        i + q.len() <= t.len(),
    ensures
        r == (t@.subrange(i as int, i + q.len()) == q@),
{
    let mut j: usize = 0;
    while j < q.len()
        invariant
            i + q.len() <= t.len(),
            j <= q.len(),
            forall|k: int| 0 <= k < j ==> t@[i + k] == q@[k],
        decreases q.len() - j,
    {
        if t[i + j] != q[j] {
            assert(t@.subrange(i as int, i + q.len())[j as int] != q@[j as int]);
            return false;
        }
        j = j + 1;
    }
    assert(t@.subrange(i as int, i + q.len()) =~= q@);
    true
}

/// Whether `q` occurs in `t`.
pub fn str_contains(t: &str, q: &str) -> (r: bool)
    ensures
        r == contains(t@, q@),
{
    let tc = chars_of(t);
    let qc = chars_of(q);
    if qc.len() > tc.len() {
        return false;
    }
    let last = tc.len() - qc.len();
    let mut i: usize = 0;
    loop
        invariant
            tc@ == t@,
            qc@ == q@,
            last == tc.len() - qc.len(),
            i <= last,
            forall|k: int| 0 <= k < i ==> #[trigger] tc@.subrange(k, k + qc.len()) != qc@,
        decreases last - i,
    {
        if occurs_at(&tc, &qc, i) {
            return true;
        }
        if i == last {
            return false;
        }
        i = i + 1;
    }
}

} // verus!
