//! The command grammar: the whitespace-separated tokens of a command string
//! drive a small field-targeting state machine that fills in a description,
//! a start time, an optional end time and an optional location.
//!
//! Every token is first tried as a date/time element. A recognized element is
//! merged into the start time — or, after the keyword "to", into the end
//! time. The keyword "at" switches collection to the location; any other
//! unrecognized token goes to the description or the location, or is dropped
//! while a date is being collected. A command without any recognized
//! date/time element yields no event.

use vstd::prelude::*;

use crate::chars::chars_match;
use crate::chars::chars_to_string;
use crate::chars::push_all;
use crate::chars::str_to_chars;
use crate::clock::Today;
use crate::clock::TodaySpec;
use crate::clock::today;
use crate::clock::today_wf;
use crate::dates::DateTimeSpec;
use crate::dates::PlainDate;
use crate::dates::PlainDateTime;
use crate::dates::PlainTime;
use crate::dates::TimeSpec;
use crate::dates::date_plus_days;
use crate::dates::add_days;
use crate::dates::next_date;
use crate::dates::next_day;
use crate::dates::valid_date;
use crate::dates::with_date;
use crate::dates::with_time;
use crate::token::DateTimeElt;
use crate::token::EltSpec;
use crate::token::classify_spec;
use crate::token::parse_as_time;

verus! {

/// A parsed calendar-event request.
#[derive(Clone, Debug, PartialEq, Eq)]
pub struct CalendarEvent {
    /// When the event starts.
    pub start_time: PlainDateTime,
    /// When the event ends; set only when an explicit "to ..." time was
    /// recognized.
    pub end_time: Option<PlainDateTime>,
    /// The event description: the unrecognized tokens before any date/time
    /// or keyword, separated by single spaces.
    pub desc: String,
    /// The event location: the tokens after the keyword "at", separated by
    /// single spaces; `None` when no such token came.
    pub location: Option<String>,
}

/// Mathematical model of a calendar-event request.
pub ghost struct CalendarEventSpec {
    pub start_time: DateTimeSpec,
    pub end_time: Option<DateTimeSpec>,
    pub desc: Seq<char>,
    pub location: Option<Seq<char>>,
}

impl View for CalendarEvent {
    type V = CalendarEventSpec;

    open spec fn view(&self) -> CalendarEventSpec {
        CalendarEventSpec {
            start_time: self.start_time@,
            end_time: match self.end_time {
                Some(e) => Some(e@),
                None => None,
            },
            desc: self.desc@,
            location: match self.location {
                Some(l) => Some(l@),
                None => None,
            },
        }
    }
}

/// An ASCII whitespace character.
pub open spec fn is_space(c: char) -> bool {
    c == ' ' || c == '\t' || c == '\n' || c == '\r' || c == '\u{c}'
}

/// The position of the first whitespace character at or after `i`, or the
/// end of the sequence.
pub open spec fn scan_token(s: Seq<char>, i: int) -> int
    decreases s.len() - i,
{
    if i < 0 || i >= s.len() {
        i
    } else if is_space(s[i]) {
        i
    } else {
        scan_token(s, i + 1)
    }
}

/// `scan_token` stays within bounds, skips no whitespace, and stops at
/// whitespace or the end.
pub proof fn lemma_scan_token(s: Seq<char>, i: int)
    requires
        0 <= i <= s.len(),
    ensures
        i <= scan_token(s, i) <= s.len(),
        forall|k: int| i <= k < scan_token(s, i) ==> !is_space(s[k]),
        scan_token(s, i) < s.len() ==> is_space(s[scan_token(s, i)]),
    decreases s.len() - i,
{
    if i < s.len() && !is_space(s[i]) {
        lemma_scan_token(s, i + 1);
    }
}

/// The whitespace-separated tokens of `s`, from position `i` on.
pub open spec fn tokens_from(s: Seq<char>, i: int) -> Seq<Seq<char>>
    decreases s.len() - i,
{
    if i < 0 || i >= s.len() {
        Seq::empty()
    } else if is_space(s[i]) {
        tokens_from(s, i + 1)
    } else {
        let j = scan_token(s, i);
        if i < j <= s.len() {
            seq![s.subrange(i, j)] + tokens_from(s, j)
        } else {
            Seq::empty()
        }
    }
}

/// The whitespace-separated tokens of `s`.
pub open spec fn tokens_of(s: Seq<char>) -> Seq<Seq<char>> {
    tokens_from(s, 0)
}

/// Whether `c` is an ASCII whitespace character.
pub fn is_space_char(c: char) -> (b: bool)
    ensures
        b == is_space(c),
{
    c == ' ' || c == '\t' || c == '\n' || c == '\r' || c == '\u{c}'
}

/// Splits `v` into its whitespace-separated tokens.
pub fn split_tokens(v: &Vec<char>) -> (toks: Vec<Vec<char>>)
    ensures
        toks.deep_view() == tokens_of(v@),
{
    let mut toks: Vec<Vec<char>> = Vec::new();
    let mut i: usize = 0;
    proof {
        assert(toks.deep_view() =~= Seq::<Seq<char>>::empty());
        assert(Seq::<Seq<char>>::empty() + tokens_from(v@, 0) =~= tokens_from(v@, 0));
    }
    while i < v.len()
        invariant
            i <= v.len(),
            tokens_of(v@) == toks.deep_view() + tokens_from(v@, i as int),
        decreases v.len() - i,
    {
        if is_space_char(v[i]) {
            i = i + 1;
        } else {
            proof {
                lemma_scan_token(v@, i as int);
            }
            let ghost prev = toks.deep_view();
            let mut j = i;
            let mut tok: Vec<char> = Vec::new();
            while j < v.len() && !is_space_char(v[j])
                invariant
                    i <= j <= v.len(),
                    tok@ == v@.subrange(i as int, j as int),
                    scan_token(v@, i as int) == scan_token(v@, j as int),
                decreases v.len() - j,
            {
                tok.push(v[j]);
                j = j + 1;
                proof {
                    assert(tok@ =~= v@.subrange(i as int, j as int));
                }
            }
            proof {
                assert(scan_token(v@, j as int) == j as int);
                assert(tokens_from(v@, i as int) == seq![v@.subrange(i as int, j as int)]
                    + tokens_from(v@, j as int));
            }
            let ghost tok_view = tok@;
            toks.push(tok);
            proof {
                assert(toks@.last().deep_view() =~= tok_view);
                assert(toks.deep_view() =~= prev + seq![tok_view]);
                assert((prev + seq![tok_view]) + tokens_from(v@, j as int) =~= prev + (
                seq![tok_view] + tokens_from(v@, j as int)));
            }
            i = j;
        }
    }
    proof {
        assert(toks.deep_view() + tokens_from(v@, i as int) =~= toks.deep_view());
    }
    toks
}

/// Which field unrecognized tokens are being collected into.
#[derive(Clone, Copy, Debug, PartialEq, Eq, Structural)]
pub enum ParseTarget {
    Description,
    StartDate,
    EndDate,
    Location,
}

/// The state of the grammar after some prefix of the tokens.
pub ghost struct GrammarState {
    pub target: ParseTarget,
    pub desc: Seq<char>,
    pub loc: Seq<char>,
    pub start: DateTimeSpec,
    pub end: DateTimeSpec,
    pub changed_start: bool,
    pub changed_end: bool,
}

/// The default time of day: nine o'clock in the morning.
pub open spec fn nine_oclock() -> TimeSpec {
    TimeSpec { hour: 9, minute: 0, second: 0 }
}

/// The grammar state before any token: collecting the description, both
/// accumulators at today 09:00, nothing recognized yet.
pub open spec fn init_state(today: TodaySpec) -> GrammarState {
    GrammarState {
        target: ParseTarget::Description,
        desc: Seq::empty(),
        loc: Seq::empty(),
        start: DateTimeSpec { date: today.date, time: nine_oclock() },
        end: DateTimeSpec { date: today.date, time: nine_oclock() },
        changed_start: false,
        changed_end: false,
    }
}

/// Days until the next occurrence of weekday `w`, counting the current day:
/// naming the current day's own weekday gives 0, not 7.
pub open spec fn weekday_offset(w: int, today_wd: int) -> int {
    (7 + w - today_wd) % 7
}

/// Merges a date/time element into an accumulated date-time: a date element
/// replaces the date portion, a time element replaces the time portion.
pub open spec fn apply_elt(dt: DateTimeSpec, e: EltSpec, today: TodaySpec) -> DateTimeSpec {
    match e {
        EltSpec::Time(t) => DateTimeSpec { date: dt.date, time: t },
        EltSpec::Date(d) => DateTimeSpec { date: d, time: dt.time },
        EltSpec::Today => DateTimeSpec { date: today.date, time: dt.time },
        EltSpec::Tomorrow => DateTimeSpec { date: next_date(today.date), time: dt.time },
        EltSpec::Weekday(w) => DateTimeSpec {
            date: date_plus_days(today.date, weekday_offset(w, today.days_from_monday) as nat),
            time: dt.time,
        },
    }
}

/// One grammar step: how one token changes the state.
pub open spec fn step_state(st: GrammarState, tok: Seq<char>, today: TodaySpec) -> GrammarState {
    match classify_spec(tok, today.date.year) {
        Some(e) => if st.target is EndDate {
            GrammarState { end: apply_elt(st.end, e, today), changed_end: true, ..st }
        } else {
            GrammarState {
                target: ParseTarget::StartDate,
                start: apply_elt(st.start, e, today),
                changed_start: true,
                end: if !st.changed_end {
                    apply_elt(st.end, e, today)
                } else {
                    st.end
                },
                ..st
            }
        },
        None => if tok == "at"@ {
            GrammarState { target: ParseTarget::Location, ..st }
        } else if tok == "to"@ && st.changed_start {
            GrammarState { target: ParseTarget::EndDate, ..st }
        } else {
            match st.target {
                ParseTarget::Description => GrammarState { desc: st.desc + tok + seq![' '], ..st },
                ParseTarget::Location => GrammarState { loc: st.loc + tok + seq![' '], ..st },
                _ => st,
            }
        },
    }
}

/// Runs the grammar over the tokens from position `i` on.
pub open spec fn run_from(
    toks: Seq<Seq<char>>,
    i: int,
    st: GrammarState,
    today: TodaySpec,
) -> GrammarState
    decreases toks.len() - i,
{
    if i < 0 || i >= toks.len() {
        st
    } else {
        run_from(toks, i + 1, step_state(st, toks[i], today), today)
    }
}

/// Assembles the event from the final grammar state: no event without a
/// recognized date/time element; trailing separators are dropped; the
/// location is kept only when some token reached it; the end time is kept
/// only when an explicit end was recognized.
pub open spec fn finalize(st: GrammarState) -> Option<CalendarEventSpec> {
    if st.changed_start {
        Some(
            CalendarEventSpec {
                start_time: st.start,
                end_time: if st.changed_end {
                    Some(st.end)
                } else {
                    None
                },
                desc: if st.desc.len() > 0 {
                    st.desc.drop_last()
                } else {
                    st.desc
                },
                location: if st.loc.len() == 0 {
                    None
                } else {
                    Some(st.loc.drop_last())
                },
            },
        )
    } else {
        None
    }
}

/// What `parse` returns for a command string, given the current day.
pub open spec fn spec_parse(s: Seq<char>, today: TodaySpec) -> Option<CalendarEventSpec> {
    finalize(run_from(tokens_of(s), 0, init_state(today), today))
}

/// The empty command yields no event, whatever the current day.
pub proof fn lemma_parse_empty(today: TodaySpec)
    ensures
        spec_parse(Seq::<char>::empty(), today) is None,
{
    assert(tokens_of(Seq::<char>::empty()) =~= Seq::<Seq<char>>::empty());
}

/// Parsing is a pure function of the command string and the current day: two
/// results obtained from the same string within the same day are structurally
/// identical.
pub proof fn lemma_parse_deterministic(
    s: Seq<char>,
    today: TodaySpec,
    r1: Option<CalendarEventSpec>,
    r2: Option<CalendarEventSpec>,
)
    requires
        r1 == spec_parse(s, today),
        r2 == spec_parse(s, today),
    ensures
        r1 == r2,
{
}

/// A date/time element whose weekday, if any, lies below 7 — as
/// classification produces them.
pub open spec fn elt_wf(e: EltSpec) -> bool {
    match e {
        EltSpec::Weekday(w) => 0 <= w < 7,
        _ => true,
    }
}

/// Classification only produces well-formed elements.
pub proof fn lemma_classify_wf(s: Seq<char>, y: int)
    ensures
        (match classify_spec(s, y) {
            Some(e) => elt_wf(e),
            None => true,
        }),
{
}

/// The next date on which the named weekday falls, counting today itself:
/// `weekday` days from Monday, `offset = (7 + weekday - today's weekday) % 7`
/// days ahead.
pub fn first_weekday_after_today(weekday: u32, today: &Today) -> (r: PlainDate)
    requires
        weekday < 7,
        today.wf(),
    ensures
        r@ == date_plus_days(
            today@.date,
            weekday_offset(weekday as int, today@.days_from_monday) as nat,
        ),
        valid_date(r@),
{
    let offset = (7 + weekday - today.days_from_monday) % 7;
    add_days(today.date, offset)
}

/// Merges a date/time element into an accumulated date-time.
pub fn transform_date(input: PlainDateTime, elt: &DateTimeElt, today: &Today) -> (r: PlainDateTime)
    requires
        today.wf(),
        elt_wf(elt@),
    ensures
        r@ == apply_elt(input@, elt@, today@),
{
    match elt {
        DateTimeElt::Today => with_date(input, today.date),
        DateTimeElt::Tomorrow => with_date(input, next_day(today.date)),
        DateTimeElt::RelativeWeekday(w) => with_date(input, first_weekday_after_today(*w, today)),
        DateTimeElt::RelativeDate(d) => with_date(input, *d),
        DateTimeElt::RelativeTime(t) => with_time(input, *t),
    }
}

/// The grammar state assembled from the parser's working values.
pub open spec fn mk_state(
    target: ParseTarget,
    desc: Seq<char>,
    loc: Seq<char>,
    start: DateTimeSpec,
    end: DateTimeSpec,
    changed_start: bool,
    changed_end: bool,
) -> GrammarState {
    GrammarState { target, desc, loc, start, end, changed_start, changed_end }
}

/// Parses a command string into a calendar-event request, against the given
/// current day.
pub fn parse_on(input: &str, today: Today) -> (r: Option<CalendarEvent>)
    requires
        today.wf(),
    ensures
        (match r {
            Some(e) => Some(e@),
            None => None::<CalendarEventSpec>,
        }) == spec_parse(input@, today@),
{
    let chars = str_to_chars(input);
    let toks = split_tokens(&chars);
    let ghost tseq = tokens_of(input@);
    let mut target = ParseTarget::Description;
    let mut desc: Vec<char> = Vec::new();
    let mut loc: Vec<char> = Vec::new();
    let nine = PlainTime { hour: 9, minute: 0, second: 0 };
    let mut start_time = PlainDateTime { date: today.date, time: nine };
    let mut end_time = PlainDateTime { date: today.date, time: nine };
    let mut changed_start = false;
    let mut changed_end = false;
    proof {
        assert(desc@ =~= Seq::<char>::empty());
        assert(loc@ =~= Seq::<char>::empty());
        assert(mk_state(target, desc@, loc@, start_time@, end_time@, changed_start, changed_end)
            == init_state(today@));
    }
    let mut i: usize = 0;
    while i < toks.len()
        invariant
            i <= toks.len(),
            today.wf(),
            toks.deep_view() == tseq,
            run_from(tseq, 0, init_state(today@), today@) == run_from(
                tseq,
                i as int,
                mk_state(target, desc@, loc@, start_time@, end_time@, changed_start, changed_end),
                today@,
            ),
        decreases toks.len() - i,
    {
        let ghost pre = mk_state(
            target,
            desc@,
            loc@,
            start_time@,
            end_time@,
            changed_start,
            changed_end,
        );
        let tok = &toks[i];
        proof {
            assert(tseq[i as int] == toks@[i as int].deep_view());
            assert(toks@[i as int].deep_view() =~= tok@);
            lemma_classify_wf(tok@, today@.date.year);
        }
        match parse_as_time(tok, today.date.year) {
            Some(elt) => {
                match target {
                    ParseTarget::EndDate => {
                        end_time = transform_date(end_time, &elt, &today);
                        changed_end = true;
                    },
                    _ => {
                        target = ParseTarget::StartDate;
                        start_time = transform_date(start_time, &elt, &today);
                        changed_start = true;
                        if !changed_end {
                            end_time = transform_date(end_time, &elt, &today);
                        }
                    },
                }
            },
            None => {
                if chars_match(tok, 0, tok.len(), "at") {
                    proof {
                        assert(tok@.subrange(0, tok@.len() as int) =~= tok@);
                    }
                    target = ParseTarget::Location;
                } else if chars_match(tok, 0, tok.len(), "to") && changed_start {
                    proof {
                        assert(tok@.subrange(0, tok@.len() as int) =~= tok@);
                    }
                    target = ParseTarget::EndDate;
                } else {
                    proof {
                        assert(tok@.subrange(0, tok@.len() as int) =~= tok@);
                    }
                    match target {
                        ParseTarget::Description => {
                            push_all(&mut desc, tok);
                            desc.push(' ');
                            proof {
                                assert(desc@ =~= pre.desc + tseq[i as int] + seq![' ']);
                            }
                        },
                        ParseTarget::Location => {
                            push_all(&mut loc, tok);
                            loc.push(' ');
                            proof {
                                assert(loc@ =~= pre.loc + tseq[i as int] + seq![' ']);
                            }
                        },
                        _ => {},
                    }
                }
            },
        }
        i = i + 1;
        proof {
            let post = mk_state(
                target,
                desc@,
                loc@,
                start_time@,
                end_time@,
                changed_start,
                changed_end,
            );
            assert(post == step_state(pre, tseq[i - 1], today@));
        }
    }
    if changed_start {
        let desc_s: String;
        if desc.len() > 0 {
            proof {
                assert(desc@.subrange(0, desc@.len() - 1) =~= desc@.drop_last());
            }
            desc_s = chars_to_string(&desc, 0, desc.len() - 1);
        } else {
            proof {
                assert(desc@.subrange(0, 0) =~= desc@);
            }
            desc_s = chars_to_string(&desc, 0, 0);
        }
        let end = if changed_end {
            Some(end_time)
        } else {
            None
        };
        let location: Option<String>;
        if loc.len() == 0 {
            location = None;
        } else {
            proof {
                assert(loc@.subrange(0, loc@.len() - 1) =~= loc@.drop_last());
            }
            location = Some(chars_to_string(&loc, 0, loc.len() - 1));
        }
        Some(CalendarEvent { start_time, end_time: end, desc: desc_s, location })
    } else {
        None
    }
}

/// Parses a command string against the system clock's current day. The
/// result is exactly what [`parse_on`] gives for some well-formed current
/// day — which one depends on the wall clock.
pub fn parse(input: &str) -> (r: Option<CalendarEvent>)
    ensures
        exists|t: TodaySpec|
            today_wf(t) && (match r {
                Some(e) => Some(e@),
                None => None::<CalendarEventSpec>,
            }) == spec_parse(input@, t),
{
    let t = today();
    let r = parse_on(input, t);
    proof {
        assert(today_wf(t@) && (match r {
            Some(e) => Some(e@),
            None => None::<CalendarEventSpec>,
        }) == spec_parse(input@, t@));
    }
    r
}

} // verus!
