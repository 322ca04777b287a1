use vstd::prelude::*;
use crate::text::{decimal, parse_u32};

verus! {

/// The lines of `s`: the pieces between newline characters, in order.
/// There is always at least one piece; every piece but the last was ended by a newline.
pub open spec fn split_lines(s: Seq<char>) -> Seq<Seq<char>>
    decreases s.len(),
{
    if s.len() == 0 {
        seq![Seq::empty()]
    } else {
        let prev = split_lines(s.drop_last());
        if s.last() == '\n' {
            prev.push(Seq::empty())
        } else {
            prev.update(prev.len() - 1, prev.last().push(s.last()))
        }
    }
}

pub open spec fn has_prefix(line: Seq<char>, p: Seq<char>) -> bool {
    p.len() <= line.len() && line.take(p.len() as int) == p
}

pub open spec fn has_suffix(line: Seq<char>, p: Seq<char>) -> bool {
    p.len() <= line.len() && line.skip(line.len() - p.len()) == p
}

/// The position of the first `": "` in `t` at or after `j`, or -1 when there is none.
pub open spec fn separator_from(t: Seq<char>, j: int) -> int
    decreases t.len() - j,
{
    if j < 0 || j + 1 >= t.len() {
        -1
    } else if t[j] == ':' && t[j + 1] == ' ' {
        j
    } else {
        separator_from(t, j + 1)
    }
}

/// The two parts of a heading line `<prefix><token>: <text>`.
pub struct Heading {
    pub token: Seq<char>,
    pub text: Seq<char>,
}

/// Reads `line` as a heading that begins with `prefix`: the token is what stands between
/// the prefix and the first `": "` after it, the text is the rest of the line.
pub open spec fn heading(line: Seq<char>, prefix: Seq<char>) -> Option<Heading> {
    if has_prefix(line, prefix) {
        let rest = line.skip(prefix.len() as int);
        let j = separator_from(rest, 0);
        if j >= 0 {
            Some(Heading { token: rest.take(j), text: rest.skip(j + 2) })
        } else {
            None
        }
    } else {
        None
    }
}

pub open spec fn day_marker() -> Seq<char> {
    "### Day "@
}

pub open spec fn place_marker() -> Seq<char> {
    "#### Place "@
}

pub open spec fn duration_marker() -> Seq<char> {
    "**Estimated Duration:** "@
}

pub open spec fn minutes_suffix() -> Seq<char> {
    " minutes"@
}

pub open spec fn bullet_marker() -> Seq<char> {
    "* "@
}

/// A number token, or `default` when the token is not a number.
pub open spec fn number_or(t: Seq<char>, default: u32) -> u32 {
    match parse_u32(t) {
        Some(v) => v,
        None => default,
    }
}

/// The minutes of a duration line `**Estimated Duration:** <n> minutes`; 0 when the
/// line does not have that shape or `<n>` is not a number.
pub open spec fn duration_value(line: Seq<char>) -> u32 {
    let rest = line.skip(duration_marker().len() as int);
    if has_suffix(rest, minutes_suffix()) {
        number_or(rest.take(rest.len() - minutes_suffix().len()), 0)
    } else {
        0
    }
}

pub struct DayModel {
    pub number: u32,
    pub title: Seq<char>,
}

/// One place section of an outline, with the day it belongs to.
pub struct PlaceModel {
    pub day_number: u32,
    pub day_title: Seq<char>,
    pub place_number: u32,
    pub place_name: Seq<char>,
    pub duration: u32,
    pub bullets: Seq<Seq<char>>,
}

/// Where a line-by-line reading of an outline stands.
pub struct ScanState {
    /// The open day section.
    pub day: Option<DayModel>,
    /// The open place section.
    pub place: Option<PlaceModel>,
    /// The previous line opened the place section, so this one may give its duration.
    pub awaiting_duration: bool,
    /// The place sections already closed, in document order.
    pub done: Seq<PlaceModel>,
}

pub open spec fn initial_state() -> ScanState {
    ScanState { day: None, place: None, awaiting_duration: false, done: Seq::empty() }
}

/// The closed place sections followed by the open one, if any.
pub open spec fn flushed(st: ScanState) -> Seq<PlaceModel> {
    match st.place {
        Some(p) => st.done.push(p),
        None => st.done,
    }
}

/// Reads one line. A marker line counts only when a newline ends it.
pub open spec fn step(st: ScanState, line: Seq<char>, terminated: bool) -> ScanState {
    let day = heading(line, day_marker());
    let place = heading(line, place_marker());
    if terminated && day is Some {
        ScanState {
            day: Some(DayModel { number: number_or(day->0.token, 1), title: day->0.text }),
            place: None,
            awaiting_duration: false,
            done: flushed(st),
        }
    } else if terminated && st.day is Some && place is Some {
        ScanState {
            day: st.day,
            place: Some(
                PlaceModel {
                    day_number: st.day->0.number,
                    day_title: st.day->0.title,
                    place_number: number_or(place->0.token, 1),
                    place_name: place->0.text,
                    duration: 0,
                    bullets: Seq::empty(),
                },
            ),
            awaiting_duration: true,
            done: flushed(st),
        }
    } else if st.place is Some && st.awaiting_duration && has_prefix(line, duration_marker()) {
        ScanState {
            day: st.day,
            place: Some(PlaceModel { duration: duration_value(line), ..st.place->0 }),
            awaiting_duration: false,
            done: st.done,
        }
    } else if st.place is Some && has_prefix(line, bullet_marker()) {
        ScanState {
            day: st.day,
            place: Some(PlaceModel { bullets: st.place->0.bullets.push(line), ..st.place->0 }),
            awaiting_duration: false,
            done: st.done,
        }
    } else {
        ScanState { day: st.day, place: st.place, awaiting_duration: false, done: st.done }
    }
}

/// Reads `lines` in order, each ended by a newline, starting from `st`.
pub open spec fn scan(st: ScanState, lines: Seq<Seq<char>>) -> ScanState
    decreases lines.len(),
{
    if lines.len() == 0 {
        st
    } else {
        step(scan(st, lines.drop_last()), lines.last(), true)
    }
}

/// The place sections of an outline, in document order: day by day, and within a day
/// place by place.
pub open spec fn outline_places(s: Seq<char>) -> Seq<PlaceModel> {
    let lines = split_lines(s);
    flushed(step(scan(initial_state(), lines.drop_last()), lines.last(), false))
}

/// The bullet lines joined by newline characters.
pub open spec fn join_lines(lines: Seq<Seq<char>>) -> Seq<char>
    decreases lines.len(),
{
    if lines.len() == 0 {
        Seq::empty()
    } else if lines.len() == 1 {
        lines[0]
    } else {
        join_lines(lines.drop_last()) + seq!['\n'] + lines.last()
    }
}

/// `Day <n> - <day title>`
pub open spec fn day_heading(number: u32, title: Seq<char>) -> Seq<char> {
    "Day "@ + decimal(number as nat) + " - "@ + title
}

/// `Place <n>: <name>` and a newline.
pub open spec fn place_heading(number: u32, name: Seq<char>) -> Seq<char> {
    "Place "@ + decimal(number as nat) + ": "@ + name + "\n"@
}

pub open spec fn place_title(p: PlaceModel) -> Seq<char> {
    day_heading(p.day_number, p.day_title)
}

pub open spec fn place_content(p: PlaceModel) -> Seq<char> {
    place_heading(p.place_number, p.place_name) + join_lines(p.bullets)
}

/// `st` with `pre` put before its closed place sections.
spec fn shifted(st: ScanState, pre: Seq<PlaceModel>) -> ScanState {
    ScanState { day: st.day, place: st.place, awaiting_duration: st.awaiting_duration, done: pre + st.done }
}

proof fn lemma_split_lines_len(s: Seq<char>)
    ensures
        split_lines(s).len() >= 1,
    decreases s.len(),
{
    if s.len() > 0 {
        lemma_split_lines_len(s.drop_last());
    }
}

/// After a newline, the lines of what follows are lines of their own.
proof fn lemma_split_lines_concat(a: Seq<char>, b: Seq<char>)
    requires
        a.len() == 0 || a.last() == '\n',
    ensures
        split_lines(a + b) == split_lines(a).drop_last() + split_lines(b),
    decreases b.len(),
{
    lemma_split_lines_len(a);
    if b.len() == 0 {
        assert(a + b =~= a);
        if a.len() == 0 {
            assert(split_lines(a).drop_last() + split_lines(b) =~= split_lines(a));
        } else {
            assert(split_lines(a).drop_last() + split_lines(b) =~= split_lines(a));
        }
    } else {
        let ab = a + b;
        assert(ab.drop_last() =~= a + b.drop_last());
        assert(ab.last() == b.last());
        lemma_split_lines_concat(a, b.drop_last());
        lemma_split_lines_len(b.drop_last());
        let front = split_lines(a).drop_last();
        let p = split_lines(b.drop_last());
        if b.last() == '\n' {
            assert((front + p).push(Seq::empty()) =~= front + p.push(Seq::empty()));
        } else {
            assert((front + p).update((front + p).len() - 1, (front + p).last().push(b.last()))
                =~= front + p.update(p.len() - 1, p.last().push(b.last())));
        }
    }
}

/// Reading two runs of lines one after the other is reading them joined.
proof fn lemma_scan_concat(st: ScanState, l1: Seq<Seq<char>>, l2: Seq<Seq<char>>)
    ensures
        scan(st, l1 + l2) == scan(scan(st, l1), l2),
    decreases l2.len(),
{
    if l2.len() == 0 {
        assert(l1 + l2 =~= l1);
    } else {
        assert((l1 + l2).drop_last() =~= l1 + l2.drop_last());
        assert((l1 + l2).last() == l2.last());
        lemma_scan_concat(st, l1, l2.drop_last());
    }
}

/// Sections closed earlier only stand in front of those closed later.
proof fn lemma_step_shifted(
    st: ScanState,
    pre: Seq<PlaceModel>,
    line: Seq<char>,
    terminated: bool,
)
    ensures
        step(shifted(st, pre), line, terminated) == shifted(step(st, line, terminated), pre),
{
    assert(flushed(shifted(st, pre)) =~= pre + flushed(st));
}

proof fn lemma_scan_shifted(st: ScanState, pre: Seq<PlaceModel>, lines: Seq<Seq<char>>)
    ensures
        scan(shifted(st, pre), lines) == shifted(scan(st, lines), pre),
    decreases lines.len(),
{
    if lines.len() > 0 {
        lemma_scan_shifted(st, pre, lines.drop_last());
        lemma_step_shifted(scan(st, lines.drop_last()), pre, lines.last(), true);
    }
}

/// Place sections keep document order across days: a text that ends with a newline,
/// followed by a text whose first line is a day marker, gives the place sections of the
/// first text and then those of the second.
pub proof fn lemma_days_keep_order(a: Seq<char>, b: Seq<char>)
    requires
        a.len() == 0 || a.last() == '\n',
        split_lines(b).len() >= 2,
        heading(split_lines(b)[0], day_marker()) is Some,
    ensures
        outline_places(a + b) == outline_places(a) + outline_places(b),
{
    reveal_strlit("**Estimated Duration:** ");
    reveal_strlit("* ");
    let init = initial_state();
    let la = split_lines(a);
    let lb = split_lines(b);
    lemma_split_lines_concat(a, b);
    lemma_split_lines_len(a);
    if a.len() > 0 {
        lemma_split_lines_len(a.drop_last());
    }
    assert(la.last() == Seq::<char>::empty());
    let lab = split_lines(a + b);
    assert(lab.drop_last() =~= la.drop_last() + lb.drop_last());
    assert(lab.last() == lb.last());
    let st_a = scan(init, la.drop_last());
    let pre = flushed(st_a);
    lemma_scan_concat(init, la.drop_last(), lb.drop_last());
    let lb1 = lb.drop_last();
    let d = lb1[0];
    let rest = lb1.skip(1);
    assert(lb1 =~= seq![d] + rest);
    assert(seq![d].drop_last() =~= Seq::<Seq<char>>::empty());
    lemma_scan_concat(st_a, seq![d], rest);
    lemma_scan_concat(init, seq![d], rest);
    let first = step(init, d, true);
    assert(step(st_a, d, true) == shifted(first, pre)) by {
        assert(pre + first.done =~= pre);
    }
    assert(seq![d].last() == d);
    assert(scan(st_a, seq![d].drop_last()) == st_a);
    assert(scan(init, seq![d].drop_last()) == init);
    assert(scan(st_a, seq![d]) == step(st_a, d, true));
    assert(scan(init, seq![d]) == first);
    assert(scan(init, lab.drop_last()) == scan(shifted(first, pre), rest));
    assert(scan(init, lb1) == scan(first, rest));
    assert(outline_places(a) == pre) by {
        let e = la.last();
        assert(!has_prefix(e, duration_marker()));
        assert(!has_prefix(e, bullet_marker()));
        assert(flushed(step(st_a, e, false)) =~= flushed(st_a));
    }
    lemma_scan_shifted(first, pre, rest);
    lemma_step_shifted(scan(first, rest), pre, lb.last(), false);
    assert(flushed(shifted(step(scan(first, rest), lb.last(), false), pre)) =~= pre + flushed(
        step(scan(first, rest), lb.last(), false),
    ));
}

pub open spec fn is_day_line(line: Seq<char>) -> bool {
    heading(line, day_marker()) is Some
}

pub open spec fn is_place_line(line: Seq<char>) -> bool {
    heading(line, place_marker()) is Some
}

/// How many of `lines` are place markers with a day marker somewhere before them.
pub open spec fn place_marker_count(lines: Seq<Seq<char>>) -> nat
    decreases lines.len(),
{
    if lines.len() == 0 {
        0
    } else {
        let k = lines.len() - 1;
        let counted = is_place_line(lines[k]) && exists|j: int|
            0 <= j < k && is_day_line(#[trigger] lines[j]);
        place_marker_count(lines.drop_last()) + if counted {
            1nat
        } else {
            0nat
        }
    }
}

proof fn lemma_markers_differ(line: Seq<char>)
    ensures
        !(is_day_line(line) && is_place_line(line)),
{
    reveal_strlit("### Day ");
    reveal_strlit("#### Place ");
    if is_day_line(line) && is_place_line(line) {
        assert(line.take(8)[3] == day_marker()[3]);
        assert(line.take(11)[3] == place_marker()[3]);
    }
}

proof fn lemma_scan_counts(lines: Seq<Seq<char>>)
    ensures
        flushed(scan(initial_state(), lines)).len() == place_marker_count(lines),
        scan(initial_state(), lines).day is Some <==> exists|j: int|
            0 <= j < lines.len() && is_day_line(#[trigger] lines[j]),
    decreases lines.len(),
{
    if lines.len() > 0 {
        let prev = lines.drop_last();
        let k = lines.len() - 1;
        let l = lines[k];
        lemma_scan_counts(prev);
        lemma_markers_differ(l);
        let st = scan(initial_state(), prev);
        assert(forall|j: int| 0 <= j < k ==> prev[j] == lines[j]);
        if exists|j: int| 0 <= j < k && is_day_line(#[trigger] lines[j]) {
            let j = choose|j: int| 0 <= j < k && is_day_line(#[trigger] lines[j]);
            assert(is_day_line(prev[j]));
        }
        if st.day is Some {
            let j = choose|j: int| 0 <= j < prev.len() && is_day_line(#[trigger] prev[j]);
            assert(is_day_line(lines[j]));
        }
        if is_day_line(l) {
            assert(is_day_line(lines[k]));
        }
    }
}

/// An outline gives one place section for each place marker line, ended by a newline,
/// that stands after a day marker line.
pub proof fn lemma_place_count(s: Seq<char>)
    ensures
        outline_places(s).len() == place_marker_count(split_lines(s).drop_last()),
{
    reveal_strlit("**Estimated Duration:** ");
    reveal_strlit("* ");
    let lines = split_lines(s);
    lemma_scan_counts(lines.drop_last());
}

} // verus!
