use vstd::prelude::*;
use crate::detail::{describes, Detail};
use crate::markers::{ends_with_at, heading_at, starts_with_at};
use crate::outline::{
    day_heading, duration_marker, flushed, initial_state, join_lines, minutes_suffix, number_or,
    outline_places, place_content, place_title, scan, split_lines, step, PlaceModel, ScanState,
};
use crate::object_id::{
    fresh_object_id, is_object_id_hex, now_millis, object_id_bytes, object_id_from_hex,
};
use crate::text::{chars_of, parse_u32_at, push_decimal};

verus! {

/// A place section read so far: its record's title and content, and its duration.
struct Section {
    title: String,
    content: String,
    duration: u32,
    has_bullets: bool,
}

spec fn section_models(s: Section, p: PlaceModel) -> bool {
    &&& s.title@ == place_title(p)
    &&& s.content@ == place_content(p)
    &&& s.duration == p.duration
    &&& s.has_bullets == (p.bullets.len() > 0)
}

/// The executable counterpart of `ScanState`.
struct Scanner {
    day_title: Option<String>,
    open: Option<Section>,
    awaiting_duration: bool,
    closed: Vec<Section>,
}

spec fn sections_model(v: Seq<Section>, ps: Seq<PlaceModel>) -> bool {
    &&& v.len() == ps.len()
    &&& forall|k: int| 0 <= k < v.len() ==> section_models(#[trigger] v[k], ps[k])
}

spec fn scanner_models(sc: Scanner, st: ScanState) -> bool {
    &&& (sc.day_title is Some <==> st.day is Some)
    &&& (st.day is Some ==> sc.day_title->0@ == day_heading(st.day->0.number, st.day->0.title))
    &&& (sc.open is Some <==> st.place is Some)
    &&& (st.place is Some ==> section_models(sc.open->0, st.place->0))
    &&& sc.awaiting_duration == st.awaiting_duration
    &&& sections_model(sc.closed@, st.done)
}

/// Closes the open section, if any.
fn close_open(closed: &mut Vec<Section>, open: Option<Section>, Ghost(st): Ghost<ScanState>)
    requires
        sections_model(old(closed)@, st.done),
        (open is Some <==> st.place is Some),
        st.place is Some ==> section_models(open->0, st.place->0),
    ensures
        sections_model(final(closed)@, flushed(st)),
{
    match open {
        Some(s) => {
            closed.push(s);
        },
        None => {},
    }
}

/// Reads a number token, or gives `default`.
fn number_at(chars: &Vec<char>, start: usize, end: usize, default: u32) -> (r: u32)
    requires
        start <= end <= chars.len(),
    ensures
        r == number_or(chars@.subrange(start as int, end as int), default),
{
    match parse_u32_at(chars, start, end) {
        Some(v) => v,
        None => default,
    }
}

/// Reads the line `chars[start..end]`, as `step` says.
fn feed(
    sc: Scanner,
    chars: &Vec<char>,
    outline: &str,
    start: usize,
    end: usize,
    terminated: bool,
    Ghost(st): Ghost<ScanState>,
) -> (r: Scanner)
    requires
        scanner_models(sc, st),
        chars@ == outline@,
        start <= end <= chars.len(),
    ensures
        scanner_models(r, step(st, chars@.subrange(start as int, end as int), terminated)),
{
    let ghost line = chars@.subrange(start as int, end as int);
    let ghost next = step(st, line, terminated);
    let Scanner { day_title, open, awaiting_duration, mut closed } = sc;
    if terminated {
        match heading_at(chars, start, end, "### Day ") {
            Some((ts, te)) => {
                let number = number_at(chars, ts, te, 1);
                close_open(&mut closed, open, Ghost(st));
                let mut t = String::new();
                t.append("Day ");
                push_decimal(&mut t, number);
                t.append(" - ");
                t.append(outline.substring_char(te + 2, end));
                return Scanner { day_title: Some(t), open: None, awaiting_duration: false, closed };
            },
            None => {},
        }
        match &day_title {
            Some(dt) => {
                match heading_at(chars, start, end, "#### Place ") {
                    Some((ts, te)) => {
                        let number = number_at(chars, ts, te, 1);
                        close_open(&mut closed, open, Ghost(st));
                        let mut c = String::new();
                        c.append("Place ");
                        push_decimal(&mut c, number);
                        c.append(": ");
                        c.append(outline.substring_char(te + 2, end));
                        c.append("\n");
                        let s = Section {
                            title: dt.clone(),
                            content: c,
                            duration: 0,
                            has_bullets: false,
                        };
                        proof {
                            reveal_strlit("\n");
                            assert(join_lines(Seq::<Seq<char>>::empty()) == Seq::<char>::empty());
                            assert(s.content@ =~= place_content(next.place->0));
                        }
                        return Scanner {
                            day_title,
                            open: Some(s),
                            awaiting_duration: true,
                            closed,
                        };
                    },
                    None => {},
                }
            },
            None => {},
        }
    }
    match open {
        Some(mut s) => {
            if awaiting_duration && starts_with_at(chars, start, end, "**Estimated Duration:** ") {
                let rs = start + "**Estimated Duration:** ".unicode_len();
                let ghost rest = line.skip(duration_marker().len() as int);
                assert(rest =~= chars@.subrange(rs as int, end as int));
                let minutes = if ends_with_at(chars, rs, end, " minutes") {
                    let me = end - " minutes".unicode_len();
                    assert(rest.take(rest.len() - minutes_suffix().len()) =~= chars@.subrange(
                        rs as int,
                        me as int,
                    ));
                    number_at(chars, rs, me, 0)
                } else {
                    0
                };
                s.duration = minutes;
                return Scanner { day_title, open: Some(s), awaiting_duration: false, closed };
            }
            if starts_with_at(chars, start, end, "* ") {
                let ghost p = st.place->0;
                if s.has_bullets {
                    s.content.append("\n");
                }
                s.content.append(outline.substring_char(start, end));
                s.has_bullets = true;
                proof {
                    reveal_strlit("\n");
                    let bs = p.bullets.push(line);
                    assert(bs.drop_last() =~= p.bullets);
                    if p.bullets.len() == 0 {
                        assert(join_lines(bs) == line);
                        assert(join_lines(p.bullets) == Seq::<char>::empty());
                    } else {
                        assert(join_lines(bs) == join_lines(p.bullets) + seq!['\n'] + line);
                    }
                    assert(s.content@ =~= place_content(next.place->0));
                }
                return Scanner { day_title, open: Some(s), awaiting_duration: false, closed };
            }
            Scanner { day_title, open: Some(s), awaiting_duration: false, closed }
        },
        None => Scanner { day_title, open: None, awaiting_duration: false, closed },
    }
}

/// Reads `outline` into one record per place section, in document order. Each record
/// gets the identifier `new_id(k)`, `k` being its position, and `now` as both of its
/// timestamps.
pub fn parse_outline_with<F: Fn(usize) -> String>(
    outline: &str,
    parent_id: &str,
    language: &str,
    now: i64,
    new_id: F,
) -> (r: Vec<Detail>)
    requires
        forall|k: usize| call_requires(new_id, (k,)),
    ensures
        r.len() == outline_places(outline@).len(),
        forall|k: int|
            0 <= k < r.len() ==> describes(
                #[trigger] r[k],
                outline_places(outline@)[k],
                parent_id@,
                language@,
                now,
            ),
        forall|k: int| 0 <= k < r.len() ==> call_ensures(new_id, (k as usize,), #[trigger] r[k].id),
{
    let chars = chars_of(outline);
    let mut sc = Scanner { day_title: None, open: None, awaiting_duration: false, closed: Vec::new() };
    let ghost mut st = initial_state();
    let mut line_start: usize = 0;
    let mut i: usize = 0;
    assert(chars@.take(0) =~= Seq::<char>::empty());
    assert(split_lines(chars@.take(0)).drop_last() =~= Seq::<Seq<char>>::empty());
    assert(Seq::<char>::empty() =~= chars@.subrange(0, 0));
    while i < chars.len()
        invariant
            chars@ == outline@,
            line_start <= i <= chars.len(),
            split_lines(chars@.take(i as int)).len() >= 1,
            split_lines(chars@.take(i as int)).last() == chars@.subrange(line_start as int, i as int),
            st == scan(initial_state(), split_lines(chars@.take(i as int)).drop_last()),
            scanner_models(sc, st),
        decreases chars.len() - i,
    {
        let ghost s1 = chars@.take(i + 1);
        let ghost prev = split_lines(chars@.take(i as int));
        assert(s1.drop_last() =~= chars@.take(i as int));
        if chars[i] == '\n' {
            sc = feed(sc, &chars, outline, line_start, i, true, Ghost(st));
            proof {
                assert(split_lines(s1).drop_last() =~= prev);
                assert(prev.drop_last().push(prev.last()) =~= prev);
                st = step(st, chars@.subrange(line_start as int, i as int), true);
                assert(Seq::<char>::empty() =~= chars@.subrange(i + 1, i + 1));
            }
            line_start = i + 1;
        } else {
            assert(split_lines(s1).drop_last() =~= prev.drop_last());
            assert(split_lines(s1).last() =~= chars@.subrange(line_start as int, i + 1));
        }
        i = i + 1;
    }
    assert(chars@.take(i as int) =~= chars@);
    let ghost fin = step(st, chars@.subrange(line_start as int, i as int), false);
    let last = feed(sc, &chars, outline, line_start, i, false, Ghost(st));
    let Scanner { day_title: _, open, awaiting_duration: _, mut closed } = last;
    close_open(&mut closed, open, Ghost(fin));
    let ghost places = outline_places(outline@);
    assert(sections_model(closed@, places));
    let mut out: Vec<Detail> = Vec::new();
    let mut k: usize = 0;
    while k < closed.len()
        invariant
            sections_model(closed@, places),
            places == outline_places(outline@),
            forall|j: usize| call_requires(new_id, (j,)),
            k <= closed.len(),
            out.len() == k,
            forall|j: int| 0 <= j < k ==> describes(#[trigger] out[j], places[j], parent_id@, language@, now),
            forall|j: int| 0 <= j < k ==> call_ensures(new_id, (j as usize,), #[trigger] out[j].id),
        decreases closed.len() - k,
    {
        let s = &closed[k];
        assert(section_models(closed@[k as int], places[k as int]));
        let id = new_id(k);
        let d = Detail {
            id,
            parent_id: String::from_str(parent_id),
            title: s.title.clone(),
            content: s.content.clone(),
            estimated_duration: s.duration,
            language: String::from_str(language),
            completed: false,
            created_at: now,
            updated_at: now,
        };
        out.push(d);
        k = k + 1;
    }
    out
}

/// A fresh identifier for the record at position `_k`.
fn fresh_id_at(_k: usize) -> (r: String)
    ensures
        is_object_id_hex(r@),
{
    fresh_object_id()
}

/// `r` is what reading `outline` gives when each record gets a fresh identifier and all
/// of them the same time.
pub open spec fn fresh_details(
    r: Seq<Detail>,
    outline: Seq<char>,
    parent_id: Seq<char>,
    language: Seq<char>,
) -> bool {
    &&& r.len() == outline_places(outline).len()
    &&& forall|k: int|
        0 <= k < r.len() ==> describes(
            #[trigger] r[k],
            outline_places(outline)[k],
            parent_id,
            language,
            r[0].created_at,
        )
    &&& forall|k: int| 0 <= k < r.len() ==> is_object_id_hex(#[trigger] r[k].id@)
}

/// Reads `outline` into one record per place section, in document order. Each record
/// gets a fresh identifier, and the time of the call as both of its timestamps.
pub fn parse_outline(outline: &str, parent_id: &str, language: &str) -> (r: Vec<Detail>)
    ensures
        fresh_details(r@, outline@, parent_id@, language@),
{
    let now = now_millis();
    let r = parse_outline_with(outline, parent_id, language, now, fresh_id_at);
    assert(forall|k: int| 0 <= k < r.len() ==> is_object_id_hex(#[trigger] r[k].id@));
    r
}

/// Why an outline was not read.
#[derive(Clone, Copy, Debug, PartialEq, Eq, Structural)]
pub enum ParseError {
    /// The parent identifier is not 24 hexadecimal digits.
    InvalidParentId,
}

/// Reads `outline` for a parent record that must be named by an object identifier:
/// refuses `parent_id` unless it is 24 hexadecimal digits, and otherwise reads as
/// `parse_outline` does.
pub fn parse_outline_for(outline: &str, parent_id: &str, language: &str) -> (r: Result<
    Vec<Detail>,
    ParseError,
>)
    ensures
        r is Err <==> object_id_bytes(parent_id@) is None,
        r is Err ==> r->Err_0 == ParseError::InvalidParentId,
        r is Ok ==> fresh_details(r->Ok_0@, outline@, parent_id@, language@),
{
    match object_id_from_hex(parent_id) {
        Ok(_) => Ok(parse_outline(outline, parent_id, language)),
        Err(_) => Err(ParseError::InvalidParentId),
    }
}

} // verus!
