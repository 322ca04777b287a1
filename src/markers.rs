use vstd::prelude::*;
use crate::outline::{has_prefix, has_suffix, heading, separator_from, Heading};

verus! {

/// Whether the line `chars[start..end]` begins with `pat`.
pub fn starts_with_at(chars: &Vec<char>, start: usize, end: usize, pat: &str) -> (r: bool)
    requires
        start <= end <= chars.len(),
    ensures
        r == has_prefix(chars@.subrange(start as int, end as int), pat@),
{
    let ghost line = chars@.subrange(start as int, end as int);
    let n = pat.unicode_len();
    if n > end - start {
        return false;
    }
    let mut j: usize = 0;
    while j < n
        invariant
            n == pat@.len(),
            start + n <= end <= chars.len(),
            line == chars@.subrange(start as int, end as int),
            j <= n,
            forall|k: int| 0 <= k < j ==> line[k] == pat@[k],
        decreases n - j,
    {
        if chars[start + j] != pat.get_char(j) {
            assert(line.take(n as int)[j as int] != pat@[j as int]);
            return false;
        }
        j = j + 1;
    }
    assert(line.take(n as int) =~= pat@);
    true
}

/// Whether the line `chars[start..end]` ends with `pat`.
pub fn ends_with_at(chars: &Vec<char>, start: usize, end: usize, pat: &str) -> (r: bool)
    requires
        start <= end <= chars.len(),
    ensures
        r == has_suffix(chars@.subrange(start as int, end as int), pat@),
{
    let n = pat.unicode_len();
    if n > end - start {
        return false;
    }
    let r = starts_with_at(chars, end - n, end, pat);
    let ghost line = chars@.subrange(start as int, end as int);
    assert(line.skip(line.len() - n) =~= chars@.subrange(end - n, end as int));
    assert(chars@.subrange(end - n, end as int).take(n as int) =~= chars@.subrange(
        end - n,
        end as int,
    ));
    r
}

/// The position of the first `": "` in `chars[from..end]`, as `separator_from` finds it.
fn separator_at(chars: &Vec<char>, from: usize, end: usize) -> (r: Option<usize>)
    requires
        from <= end <= chars.len(),
    ensures
        ({
            let j = separator_from(chars@.subrange(from as int, end as int), 0);
            match r {
                Some(p) => j >= 0 && p == from + j && p + 1 < end,
                None => j < 0,
            }
        }),
{
    let ghost t = chars@.subrange(from as int, end as int);
    let mut k: usize = from;
    while k < end && end - k > 1
        invariant
            from <= k <= end <= chars.len(),
            t == chars@.subrange(from as int, end as int),
            separator_from(t, 0) == separator_from(t, k - from),
        decreases end - k,
    {
        if chars[k] == ':' && chars[k + 1] == ' ' {
            return Some(k);
        }
        k = k + 1;
    }
    None
}

/// Reads a heading line `chars[start..end]` that begins with `prefix`: where its token
/// starts and ends. Its text starts two characters after the token.
pub fn heading_at(chars: &Vec<char>, start: usize, end: usize, prefix: &str) -> (r: Option<
    (usize, usize),
>)
    requires
        start <= end <= chars.len(),
    ensures
        ({
            let h = heading(chars@.subrange(start as int, end as int), prefix@);
            match r {
                Some((tok_start, tok_end)) => h is Some && tok_start == start + prefix@.len()
                    && tok_start <= tok_end && tok_end + 2 <= end && h->0.token
                    == chars@.subrange(tok_start as int, tok_end as int) && h->0.text
                    == chars@.subrange(tok_end + 2, end as int),
                None => h is None,
            }
        }),
{
    if !starts_with_at(chars, start, end, prefix) {
        return None;
    }
    let n = prefix.unicode_len();
    let ghost line = chars@.subrange(start as int, end as int);
    let ghost rest = line.skip(n as int);
    assert(rest =~= chars@.subrange(start + n, end as int));
    match separator_at(chars, start + n, end) {
        Some(p) => {
            assert(rest.take(p - start - n) =~= chars@.subrange(start + n, p as int));
            assert(rest.skip(p - start - n + 2) =~= chars@.subrange(p + 2, end as int));
            Some((start + n, p))
        },
        None => None,
    }
}

} // verus!
