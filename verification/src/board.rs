//! The departure table: which departures are shown, how long until each
//! leaves, and how a row is laid out.

use vstd::prelude::*;
use vstd::string::*;
use crate::api::Departure;
use crate::clock::{clock_reading, minutes_between, minutes_until, TimeOfDay};
use crate::text::{
    decimal, decimal_string, digit_char, first_segment, leading_segment, pad, padded,
};

verus! {

/// Width of the line column.
pub const LINE_WIDTH: usize = 15;

/// Width of the destination column.
pub const DESTINATION_WIDTH: usize = 22;

/// Width of the column that says when a departure leaves.
pub const NEXT_WIDTH: usize = 20;

/// Width of that column where the wheelchair sign stands in it.
pub const NEXT_WIDTH_WITH_SIGN: usize = 19;

/// Why no table could be made.
#[derive(Debug, Clone, Copy, PartialEq, Eq, Structural)]
pub enum DisplayError {
    /// There is no departure to take the stop's name from.
    NoDepartures,
    /// The reference time does not read as `HH:MM`.
    BadReferenceTime,
    /// The time of some departure does not read as `HH:MM`.
    BadDepartureTime,
}

/// The `{h}h{m}m` form of a number of minutes.
pub open spec fn hours_and_minutes(delta: nat) -> Seq<char> {
    decimal((delta / 60) % 24) + seq!['h'] + decimal(delta % 60) + seq!['m']
}

/// What the table says of a departure that leaves in `delta` minutes.
pub open spec fn label_text(delta: nat) -> Seq<char> {
    if delta == 0 {
        seq!['N', 'o', 'w']
    } else if delta == 60 {
        seq!['1', 'h']
    } else if delta > 60 {
        hours_and_minutes(delta)
    } else {
        decimal(delta)
    }
}

/// The value of the accessibility field that marks a wheelchair-accessible
/// departure.
pub open spec fn wheelchair_marker() -> Seq<char> {
    seq!['w', 'h', 'e', 'e', 'l', 'C', 'h', 'a', 'i', 'r']
}

/// What is added to the label of an accessible departure: a space and the
/// wheelchair sign.
pub open spec fn wheelchair_sign() -> Seq<char> {
    seq![' ', '\u{267F}']
}

/// Whether `d` carries the wheelchair marker.
pub open spec fn is_accessible(d: Departure) -> bool {
    d.accessibility matches Some(a) && a@ == wheelchair_marker()
}

/// The content of the third column.
pub open spec fn next_text(delta: nat, accessible: bool) -> Seq<char> {
    if accessible {
        label_text(delta) + wheelchair_sign()
    } else {
        label_text(delta)
    }
}

/// The width of the third column. The sign counts as one character and shows
/// two columns wide, so the column is one character narrower with it.
pub open spec fn next_width(accessible: bool) -> nat {
    if accessible {
        19
    } else {
        20
    }
}

/// The row of a departure that leaves in `delta` minutes.
pub open spec fn row_text(d: Departure, delta: nat) -> Seq<char> {
    padded(d.name@, 15) + padded(first_segment(d.direction@), 22) + padded(
        next_text(delta, is_accessible(d)),
        next_width(is_accessible(d)),
    ) + d.track@ + "\n"@
}

/// What the table shows of `d`, scheduled at `t`: nothing where `t` is earlier
/// than `reference`, else its row.
pub open spec fn shown_row(d: Departure, t: TimeOfDay, reference: TimeOfDay) -> Seq<char> {
    if t.earlier_than(reference) {
        Seq::empty()
    } else {
        row_text(d, minutes_between(reference, t) as nat)
    }
}

/// The rows of the table, in the order of `departures`.
pub open spec fn rows_text(
    departures: Seq<Departure>,
    times: Seq<TimeOfDay>,
    reference: TimeOfDay,
) -> Seq<char>
    decreases departures.len(),
{
    if departures.len() == 0 || times.len() != departures.len() {
        Seq::empty()
    } else {
        rows_text(departures.drop_last(), times.drop_last(), reference) + shown_row(
            departures.last(),
            times.last(),
            reference,
        )
    }
}

/// The four lines above the rows.
pub open spec fn heading_text(stop: Seq<char>, time: Seq<char>, date: Seq<char>) -> Seq<char> {
    "Departures: "@ + stop + " at "@ + time + " on "@ + date + "\n"@
        + "-----------------------------------------------------------------\n"@
        + "Line           Destination           Next(min)           Location\n"@
        + "-----------------------------------------------------------------\n"@
}

/// The whole table.
pub open spec fn table_text(
    stop: Seq<char>,
    time: Seq<char>,
    date: Seq<char>,
    departures: Seq<Departure>,
    times: Seq<TimeOfDay>,
    reference: TimeOfDay,
) -> Seq<char> {
    heading_text(stop, time, date) + rows_text(departures, times, reference)
}

/// The times that the departures' `time` fields read as.
pub open spec fn scheduled_times(departures: Seq<Departure>) -> Seq<TimeOfDay> {
    Seq::new(departures.len(), |i: int| clock_reading(departures[i].time@).unwrap())
}

/// What displaying `departures` at `time` on `date` comes to: the text of the
/// table, or the reason why there is none. The first failure in this order
/// decides: no departure, an unreadable reference time, a departure with an
/// unreadable time.
pub open spec fn display_outcome(departures: Seq<Departure>, time: Seq<char>, date: Seq<char>)
    -> Result<Seq<char>, DisplayError> {
    if departures.len() == 0 {
        Err(DisplayError::NoDepartures)
    } else if clock_reading(time) is None {
        Err(DisplayError::BadReferenceTime)
    } else if exists|i: int|
        0 <= i < departures.len() && clock_reading(#[trigger] departures[i].time@) is None {
        Err(DisplayError::BadDepartureTime)
    } else {
        Ok(
            table_text(
                departures[0].stop@,
                time,
                date,
                departures,
                scheduled_times(departures),
                clock_reading(time).unwrap(),
            ),
        )
    }
}

/// A label is a plain number of minutes below an hour and has the
/// hours-and-minutes form above it; the two forms never coincide.
pub proof fn label_has_one_form(delta: nat)
    requires
        1 <= delta < 60 || 60 < delta < 1440,
    ensures
        decimal(delta) != hours_and_minutes(delta),
        delta < 60 ==> label_text(delta) == decimal(delta),
        delta > 60 ==> label_text(delta) == hours_and_minutes(delta),
{
    let d = decimal(delta);
    let hm = hours_and_minutes(delta);
    assert(hm.last() == 'm');
    assert(d.last() == digit_char(delta % 10)) by {
        reveal_with_fuel(decimal, 2);
    }
}

/// A departure scheduled before the reference time leaves no trace: the rows,
/// and with them the table, are what they would be without it.
pub proof fn earlier_departure_is_not_shown(
    stop: Seq<char>,
    time: Seq<char>,
    date: Seq<char>,
    departures: Seq<Departure>,
    times: Seq<TimeOfDay>,
    reference: TimeOfDay,
    i: int,
)
    requires
        departures.len() == times.len(),
        0 <= i < departures.len(),
        times[i].earlier_than(reference),
    ensures
        shown_row(departures[i], times[i], reference) == Seq::<char>::empty(),
        rows_text(departures, times, reference) == rows_text(
            departures.remove(i),
            times.remove(i),
            reference,
        ),
        table_text(stop, time, date, departures, times, reference) == table_text(
            stop,
            time,
            date,
            departures.remove(i),
            times.remove(i),
            reference,
        ),
    decreases departures.len(),
{
    if i == departures.len() - 1 {
        assert(departures.remove(i) =~= departures.drop_last());
        assert(times.remove(i) =~= times.drop_last());
        assert(rows_text(departures, times, reference) =~= rows_text(
            departures.drop_last(),
            times.drop_last(),
            reference,
        ));
    } else {
        earlier_departure_is_not_shown(
            stop,
            time,
            date,
            departures.drop_last(),
            times.drop_last(),
            reference,
            i,
        );
        assert(departures.remove(i).drop_last() =~= departures.drop_last().remove(i));
        assert(times.remove(i).drop_last() =~= times.drop_last().remove(i));
        assert(departures.remove(i).last() == departures.last());
        assert(times.remove(i).last() == times.last());
    }
}

/// Whether two departures show the same: the fields that the table reads hold
/// the same text.
pub open spec fn same_content(a: Departure, b: Departure) -> bool {
    &&& a.name@ == b.name@
    &&& a.stop@ == b.stop@
    &&& a.time@ == b.time@
    &&& a.direction@ == b.direction@
    &&& a.track@ == b.track@
    &&& a.accessibility is Some <==> b.accessibility is Some
    &&& a.accessibility is Some ==> a.accessibility.unwrap()@ == b.accessibility.unwrap()@
}

/// Whether two lists of departures show the same, one by one.
pub open spec fn same_contents(a: Seq<Departure>, b: Seq<Departure>) -> bool {
    &&& a.len() == b.len()
    &&& forall|i: int| 0 <= i < a.len() ==> same_content(#[trigger] a[i], b[i])
}

proof fn rows_depend_on_content_alone(
    a: Seq<Departure>,
    b: Seq<Departure>,
    times: Seq<TimeOfDay>,
    reference: TimeOfDay,
)
    requires
        same_contents(a, b),
    ensures
        rows_text(a, times, reference) == rows_text(b, times, reference),
    decreases a.len(),
{
    if a.len() > 0 && times.len() == a.len() {
        assert(same_content(a[a.len() - 1], b[a.len() - 1]));
        assert forall|i: int| 0 <= i < a.drop_last().len() implies same_content(
            #[trigger] a.drop_last()[i],
            b.drop_last()[i],
        ) by {
            assert(same_content(a[i], b[i]));
        }
        rows_depend_on_content_alone(a.drop_last(), b.drop_last(), times.drop_last(), reference);
    }
}

/// Displaying is a function of what its inputs hold: departures with the same
/// content, shown at the same time and date, give the same text or fail for
/// the same reason.
pub proof fn display_depends_on_content_alone(
    a: Seq<Departure>,
    b: Seq<Departure>,
    time: Seq<char>,
    date: Seq<char>,
)
    requires
        same_contents(a, b),
    ensures
        display_outcome(a, time, date) == display_outcome(b, time, date),
{
    if a.len() > 0 && clock_reading(time) is Some {
        assert(same_content(a[0], b[0]));
        let bad_a = exists|i: int|
            0 <= i < a.len() && clock_reading(#[trigger] a[i].time@) is None;
        let bad_b = exists|i: int|
            0 <= i < b.len() && clock_reading(#[trigger] b[i].time@) is None;
        if bad_a {
            let i = choose|i: int| 0 <= i < a.len() && clock_reading(#[trigger] a[i].time@) is None;
            assert(same_content(a[i], b[i]));
            assert(clock_reading(b[i].time@) is None);
        }
        if bad_b {
            let i = choose|i: int| 0 <= i < b.len() && clock_reading(#[trigger] b[i].time@) is None;
            assert(same_content(a[i], b[i]));
            assert(clock_reading(a[i].time@) is None);
        }
        assert(bad_a == bad_b);
        assert(scheduled_times(a) =~= scheduled_times(b)) by {
            assert forall|i: int| 0 <= i < a.len() implies scheduled_times(a)[i]
                == scheduled_times(b)[i] by {
                assert(same_content(a[i], b[i]));
            }
        }
        rows_depend_on_content_alone(a, b, scheduled_times(a), clock_reading(time).unwrap());
    }
}

/// An accessible departure's label is the plain label followed by the sign,
/// in a column that is exactly one narrower.
pub proof fn accessible_label_carries_sign(delta: nat)
    ensures
        next_text(delta, true) == next_text(delta, false) + wheelchair_sign(),
        next_text(delta, true).subrange(0, label_text(delta).len() as int) == label_text(delta),
        next_text(delta, true).last() == '\u{267F}',
        next_width(true) + 1 == next_width(false),
{
    assert(next_text(delta, true).subrange(0, label_text(delta).len() as int) =~= label_text(
        delta,
    ));
}

/// The label of a departure that leaves in `delta` minutes.
pub fn next_label(delta: u16) -> (r: String)
    ensures
        r@ == label_text(delta as nat),
        delta == 0 ==> r@ == seq!['N', 'o', 'w'],
        delta == 60 ==> r@ == seq!['1', 'h'],
{
    proof {
        reveal_strlit("Now");
        reveal_strlit("1h");
        reveal_strlit("h");
        reveal_strlit("m");
    }
    if delta == 0 {
        let r = String::from_str("Now");
        assert(r@ =~= seq!['N', 'o', 'w']);
        r
    } else if delta == 60 {
        let r = String::from_str("1h");
        assert(r@ =~= seq!['1', 'h']);
        r
    } else if delta > 60 {
        let hours: u64 = ((delta / 60) % 24).into();
        let minutes: u64 = (delta % 60).into();
        let mut r = decimal_string(hours);
        r.append("h");
        let m = decimal_string(minutes);
        r.append(m.as_str());
        r.append("m");
        assert(r@ =~= hours_and_minutes(delta as nat));
        r
    } else {
        decimal_string(delta.into())
    }
}

/// Whether `d` is marked as wheelchair-accessible.
pub fn accessible(d: &Departure) -> (b: bool)
    ensures
        b == is_accessible(*d),
{
    match &d.accessibility {
        Some(a) => {
            let marker = String::from_str("wheelChair");
            proof {
                reveal_strlit("wheelChair");
                assert(marker@ =~= wheelchair_marker());
            }
            *a == marker
        },
        None => false,
    }
}

/// Lays out the row of `d`, which leaves in `delta` minutes.
pub fn render_row(d: &Departure, delta: u16) -> (r: String)
    ensures
        r@ == row_text(*d, delta as nat),
{
    let mut row = pad(d.name.as_str(), LINE_WIDTH);
    let destination = leading_segment(d.direction.as_str());
    let column = pad(destination.as_str(), DESTINATION_WIDTH);
    row.append(column.as_str());
    let mut next = next_label(delta);
    let width = if accessible(d) {
        proof {
            reveal_strlit(" \u{267F}");
            assert(" \u{267F}"@ =~= wheelchair_sign());
        }
        next.append(" \u{267F}");
        NEXT_WIDTH_WITH_SIGN
    } else {
        NEXT_WIDTH
    };
    let column = pad(next.as_str(), width);
    row.append(column.as_str());
    row.append(d.track.as_str());
    row.append("\n");
    row
}

/// Writes the four lines above the rows.
pub fn render_heading(stop: &str, time: &str, date: &str) -> (r: String)
    ensures
        r@ == heading_text(stop@, time@, date@),
{
    let mut r = String::from_str("Departures: ");
    r.append(stop);
    r.append(" at ");
    r.append(time);
    r.append(" on ");
    r.append(date);
    r.append("\n");
    r.append("-----------------------------------------------------------------\n");
    r.append("Line           Destination           Next(min)           Location\n");
    r.append("-----------------------------------------------------------------\n");
    r
}

/// Renders the table for departures whose scheduled times are `times`, seen
/// from `reference`: the heading, then one row for each departure that is not
/// earlier than `reference`, in the order given.
pub fn render_table(
    stop: &str,
    time: &str,
    date: &str,
    departures: &Vec<Departure>,
    times: &Vec<TimeOfDay>,
    reference: &TimeOfDay,
) -> (r: String)
    requires
        times.len() == departures.len(),
        reference.wf(),
        forall|i: int| 0 <= i < times.len() ==> (#[trigger] times[i]).wf(),
    ensures
        r@ == table_text(stop@, time@, date@, departures@, times@, *reference),
{
    let mut out = render_heading(stop, time, date);
    let mut i: usize = 0;
    proof {
        assert(departures@.take(0) =~= Seq::<Departure>::empty());
    }
    while i < departures.len()
        invariant
            i <= departures.len(),
            times.len() == departures.len(),
            reference.wf(),
            forall|j: int| 0 <= j < times.len() ==> (#[trigger] times[j]).wf(),
            out@ == heading_text(stop@, time@, date@) + rows_text(
                departures@.take(i as int),
                times@.take(i as int),
                *reference,
            ),
        decreases departures.len() - i,
    {
        let d = &departures[i];
        let t = &times[i];
        proof {
            assert(departures@.take(i + 1).drop_last() =~= departures@.take(i as int));
            assert(times@.take(i + 1).drop_last() =~= times@.take(i as int));
        }
        if !t.is_before(reference) {
            let delta = minutes_until(reference, t);
            let row = render_row(d, delta);
            out.append(row.as_str());
        }
        i = i + 1;
        assert(out@ =~= heading_text(stop@, time@, date@) + rows_text(
            departures@.take(i as int),
            times@.take(i as int),
            *reference,
        ));
    }
    proof {
        assert(departures@.take(i as int) =~= departures@);
        assert(times@.take(i as int) =~= times@);
    }
    out
}

/// The table of `departures` as seen at `time` on `date`, headed by the stop
/// of the first departure. Fails where there is no departure, where `time`
/// does not read as a time of day, or where some departure's time does not.
pub fn display_information(departures: Vec<Departure>, time: &String, date: &String) -> (r:
    Result<String, DisplayError>)
    ensures
        match r {
            Ok(s) => display_outcome(departures@, time@, date@) == Ok::<Seq<char>, DisplayError>(s@),
            Err(e) => display_outcome(departures@, time@, date@) == Err::<Seq<char>, DisplayError>(e),
        },
{
    if departures.len() == 0 {
        return Err(DisplayError::NoDepartures);
    }
    let reference = match TimeOfDay::parse(time.as_str()) {
        Some(t) => t,
        None => {
            return Err(DisplayError::BadReferenceTime);
        },
    };
    let mut times: Vec<TimeOfDay> = Vec::new();
    let mut i: usize = 0;
    while i < departures.len()
        invariant
            i <= departures.len(),
            times.len() == i,
            clock_reading(time@) == Some(reference),
            forall|j: int|
                0 <= j < i ==> clock_reading(#[trigger] departures[j].time@) == Some(times[j])
                    && times[j].wf(),
        decreases departures.len() - i,
    {
        match TimeOfDay::parse(departures[i].time.as_str()) {
            Some(t) => {
                times.push(t);
            },
            None => {
                assert(clock_reading(departures[i as int].time@) is None);
                return Err(DisplayError::BadDepartureTime);
            },
        }
        i = i + 1;
    }
    proof {
        assert(times@ =~= scheduled_times(departures@));
    }
    Ok(
        render_table(
            departures[0].stop.as_str(),
            time.as_str(),
            date.as_str(),
            &departures,
            &times,
            &reference,
        ),
    )
}

} // verus!
