use nouislider::dates::Options;
use nouislider::dates::count_in_range;
use nouislider::dates::date_slider_options;
use nouislider::dates::from_timestamp;
use nouislider::dates::format_event_labels;
use nouislider::event::Event;

#[test]
fn epoch_formats_exactly() {
    assert_eq!(from_timestamp(0), "1970-01-01 00:00");
}

#[test]
fn century_turn_formats_exactly() {
    assert_eq!(from_timestamp(946684800), "2000-01-01 00:00");
    assert_eq!(from_timestamp(946684860), "2000-01-01 00:01");
}

#[test]
fn local_shifted_timestamp_formats_as_local_time() {
    assert_eq!(from_timestamp(954331603), "2000-03-29 12:06");
}

#[test]
fn event_labels_carry_calendar_text_per_index() {
    let event = Event {
        values: vec![],
        handle: 0,
        unencoded: vec![946684800, 946684860],
        tap: false,
        positions: vec![],
        pips: vec![0],
    };
    let fv = format_event_labels(&event);
    assert_eq!(
        fv.tooltips_text,
        vec!["2000-01-01 00:00".to_owned(), "2000-01-01 00:01".to_owned()]
    );
    assert_eq!(fv.pips_text, vec!["1970-01-01 00:00".to_owned()]);
}

#[test]
fn date_slider_options_place_handles_and_bounds() {
    let o = Options { min: 0, max: 599, offset_east: 0 };
    let r = date_slider_options(
        &o,
        nouislider::options::FormattedValues { tooltips_text: vec![], pips_text: vec![] },
    );
    assert_eq!(r.start, vec![200, 500]);
    assert_eq!(
        r.range.0,
        vec![("min".to_owned(), vec![0]), ("max".to_owned(), vec![600])]
    );
    assert_eq!(r.connect, Some(vec![false, true, false]));
    assert_eq!(r.step, Some(6));
    assert_eq!(r.margin, Some(6));
    assert_eq!(r.tooltips, Some(true));
    let pips = r.pips.unwrap();
    assert_eq!(pips.mode, "positions");
    assert_eq!(pips.density, Some(1));
    assert_eq!(pips.values, Some(vec![0, 25, 50, 75, 100]));
    assert_eq!(pips.stepped, None);
    let attrs = r.handle_attributes.unwrap();
    assert_eq!(
        attrs.0,
        vec![
            vec![("aria-label".to_owned(), "lower".to_owned())],
            vec![("aria-label".to_owned(), "upper".to_owned())],
        ]
    );
    assert_eq!(r.snap, None);
    assert_eq!(r.behaviour, None);
}

#[test]
fn date_slider_options_shift_by_the_local_offset() {
    let o = Options { min: 100, max: 199, offset_east: 2 };
    let r = date_slider_options(
        &o,
        nouislider::options::FormattedValues { tooltips_text: vec![], pips_text: vec![] },
    );
    assert_eq!(r.start, vec![135, 185]);
    assert_eq!(
        r.range.0,
        vec![("min".to_owned(), vec![102]), ("max".to_owned(), vec![202])]
    );
    assert_eq!(r.step, Some(1));
}

#[test]
fn count_in_range_is_inclusive_on_both_bounds() {
    let dates = vec![1, 5, 10, 10, 20];
    assert_eq!(count_in_range(&dates, 5, 10), 3);
    assert_eq!(count_in_range(&dates, 1, 20), 5);
    assert_eq!(count_in_range(&dates, 21, 30), 0);
    assert_eq!(count_in_range(&vec![], 0, 100), 0);
}
