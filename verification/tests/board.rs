use vasttrafik::api::Departure;
use vasttrafik::board::{
    accessible, display_information, next_label, render_row, render_table, DisplayError,
};
use vasttrafik::clock::{minutes_until, TimeOfDay};

fn at(text: &str) -> TimeOfDay {
    TimeOfDay::parse(text).expect("a time of day")
}

fn label(reference: &str, scheduled: &str) -> String {
    next_label(minutes_until(&at(reference), &at(scheduled)))
}

fn departure(name: &str, direction: &str, time: &str, track: &str) -> Departure {
    Departure {
        name: name.to_string(),
        sname: name.to_string(),
        journey_number: "1".to_string(),
        type_field: "TRAM".to_string(),
        stop: "Chalmers, Göteborg".to_string(),
        time: time.to_string(),
        date: "2022-03-01".to_string(),
        direction: direction.to_string(),
        track: track.to_string(),
        accessibility: None,
    }
}

const HEADING: &str = "Departures: Chalmers, Göteborg at 12:12 on 2022-03-01\n\
-----------------------------------------------------------------\n\
Line           Destination           Next(min)           Location\n\
-----------------------------------------------------------------\n";

#[test]
fn same_minute_is_now() {
    assert_eq!(label("12:12", "12:12"), "Now");
}

#[test]
fn one_hour_has_no_minutes() {
    assert_eq!(label("12:12", "13:12"), "1h");
}

#[test]
fn hours_and_minutes() {
    assert_eq!(label("12:12", "14:42"), "2h30m");
}

#[test]
fn wraps_over_midnight() {
    assert_eq!(minutes_until(&at("23:50"), &at("00:10")), 20);
    assert_eq!(label("23:50", "00:10"), "20");
}

#[test]
fn labels_at_the_edges() {
    assert_eq!(next_label(0), "Now");
    assert_eq!(next_label(1), "1");
    assert_eq!(next_label(59), "59");
    assert_eq!(next_label(60), "1h");
    assert_eq!(next_label(61), "1h1m");
    assert_eq!(next_label(120), "2h0m");
    assert_eq!(next_label(1439), "23h59m");
    assert_eq!(next_label(1440), "0h0m");
}

#[test]
fn label_is_number_or_hours_never_both() {
    for delta in (1u16..60).chain(61..1440) {
        let text = next_label(delta);
        let plain = text == delta.to_string();
        let long = text == format!("{}h{}m", delta / 60, delta % 60);
        assert!(plain != long);
        assert_eq!(plain, delta < 60);
    }
}

#[test]
fn minutes_until_near_midnight() {
    assert_eq!(minutes_until(&at("23:59"), &at("23:59")), 0);
    assert_eq!(minutes_until(&at("23:59"), &at("00:00")), 1);
    assert_eq!(minutes_until(&at("00:00"), &at("23:59")), 1439);
    assert_eq!(minutes_until(&at("23:59"), &at("23:58")), 1439);
}

#[test]
fn plain_row() {
    let d = departure("6", "Kortedala", "12:32", "A");
    let expected = format!("{:15}{:22}{:20}{}\n", "6", "Kortedala", "20", "A");
    assert_eq!(render_row(&d, 20), expected);
    assert_eq!(render_row(&d, 20).chars().count(), 15 + 22 + 20 + 1 + 1);
}

#[test]
fn accessible_row_carries_sign_in_narrower_column() {
    let mut d = departure("6", "Kortedala", "12:32", "A");
    d.accessibility = Some("wheelChair".to_string());
    assert!(accessible(&d));
    let expected = format!("{:15}{:22}{:19}{}\n", "6", "Kortedala", "20 \u{267F}", "A");
    assert_eq!(render_row(&d, 20), expected);
    assert_eq!(render_row(&d, 20).chars().count(), 15 + 22 + 19 + 1 + 1);
    assert_eq!(render_row(&d, 0), format!("{:15}{:22}{:19}{}\n", "6", "Kortedala", "Now \u{267F}", "A"));
}

#[test]
fn other_accessibility_values_do_not_count() {
    let mut d = departure("6", "Kortedala", "12:32", "A");
    d.accessibility = Some("lowFloor".to_string());
    assert!(!accessible(&d));
    d.accessibility = Some("wheelchair".to_string());
    assert!(!accessible(&d));
    d.accessibility = None;
    assert!(!accessible(&d));
}

#[test]
fn destination_stops_at_first_comma() {
    let d = departure("16", "Högsbohöjd, via Marklandsgatan, Påstigning fram", "12:20", "B");
    let expected = format!("{:15}{:22}{:20}{}\n", "16", "Högsbohöjd", "8", "B");
    assert_eq!(render_row(&d, 8), expected);
}

#[test]
fn long_cells_are_not_cut() {
    let d = departure("A line with a long name", "A destination that is rather long", "12:20", "B");
    assert_eq!(
        render_row(&d, 8),
        "A line with a long nameA destination that is rather long8                   B\n"
    );
}

#[test]
fn table_keeps_order_and_drops_earlier_departures() {
    let departures = vec![
        departure("6", "Kortedala", "12:12", "A"),
        departure("7", "Bergsjön", "12:05", "A"),
        departure("8", "Angered, via Gamlestaden", "14:42", "C"),
        departure("10", "Biskopsgården", "00:10", "D"),
        departure("13", "Wieselgrensplatsen", "13:12", "B"),
    ];
    let text = display_information(departures.clone(), &"12:12".to_string(), &"2022-03-01".to_string());
    let expected = format!(
        "{}{}{}{}",
        HEADING,
        format!("{:15}{:22}{:20}{}\n", "6", "Kortedala", "Now", "A"),
        format!("{:15}{:22}{:20}{}\n", "8", "Angered", "2h30m", "C"),
        format!("{:15}{:22}{:20}{}\n", "13", "Wieselgrensplatsen", "1h", "B"),
    );
    assert_eq!(text, Ok(expected));
}

#[test]
fn earlier_departure_never_appears() {
    let departures = vec![departure("STALE", "Nowhere", "12:11", "X")];
    let text = display_information(departures.clone(), &"12:12".to_string(), &"2022-03-01".to_string());
    assert_eq!(text, Ok(HEADING.to_string()));
}

#[test]
fn table_without_earlier_departure_is_the_same() {
    let with = vec![
        departure("6", "Kortedala", "12:30", "A"),
        departure("7", "Bergsjön", "11:00", "A"),
        departure("8", "Angered", "12:40", "C"),
    ];
    let without = vec![with[0].clone(), with[2].clone()];
    let time = "12:12".to_string();
    let date = "2022-03-01".to_string();
    assert_eq!(
        display_information(with.clone(), &time, &date),
        display_information(without.clone(), &time, &date)
    );
}

#[test]
fn rendering_twice_gives_the_same_text() {
    let departures = vec![
        departure("6", "Kortedala", "12:30", "A"),
        departure("8", "Angered", "12:40", "C"),
    ];
    let time = "12:12".to_string();
    let date = "2022-03-01".to_string();
    let first = display_information(departures.clone(), &time, &date);
    let second = display_information(departures.clone(), &time.clone(), &date.clone());
    assert!(first.is_ok());
    assert_eq!(first, second);
}

#[test]
fn render_table_takes_times_as_given() {
    let departures = vec![departure("6", "Kortedala", "not read here", "A")];
    let times = vec![TimeOfDay::new(12, 22).unwrap()];
    let reference = TimeOfDay::new(12, 12).unwrap();
    let text = render_table("Chalmers, Göteborg", "12:12", "2022-03-01", &departures, &times, &reference);
    assert_eq!(text, format!("{}{:15}{:22}{:20}{}\n", HEADING, "6", "Kortedala", "10", "A"));
}

#[test]
fn no_departures_is_an_error() {
    let r = display_information(vec![], &"12:12".to_string(), &"2022-03-01".to_string());
    assert_eq!(r, Err(DisplayError::NoDepartures));
}

#[test]
fn bad_reference_time_is_an_error() {
    let departures = vec![departure("6", "Kortedala", "12:30", "A")];
    let r = display_information(departures.clone(), &"noon".to_string(), &"2022-03-01".to_string());
    assert_eq!(r, Err(DisplayError::BadReferenceTime));
}

#[test]
fn bad_departure_time_is_an_error() {
    let departures = vec![
        departure("6", "Kortedala", "12:30", "A"),
        departure("7", "Bergsjön", "25:00", "A"),
    ];
    let r = display_information(departures.clone(), &"12:12".to_string(), &"2022-03-01".to_string());
    assert_eq!(r, Err(DisplayError::BadDepartureTime));
}
