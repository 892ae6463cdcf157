use nouislider::event::DecodeError;
use nouislider::event::Event;
use nouislider::event::NativePayload;
use nouislider::event::NativeValue;
use nouislider::options::FormattedValues;
use nouislider::options::Options;
use nouislider::options::Range;
use nouislider::slider::CreateError;
use nouislider::slider::Lifecycle;
use nouislider::slider::OptionsUpdate;
use nouislider::slider::Slider;

fn no_overrides() -> FormattedValues {
    FormattedValues { tooltips_text: vec![], pips_text: vec![] }
}

fn base_options(start: Vec<i64>, stops: Vec<(&str, Vec<i64>)>) -> Options {
    Options {
        values: no_overrides(),
        start,
        range: Range(stops.into_iter().map(|(k, v)| (k.to_owned(), v)).collect()),
        connect: None,
        step: None,
        snap: None,
        margin: None,
        limit: None,
        padding: None,
        orientation: None,
        direction: None,
        animate: None,
        pips: None,
        tooltips: None,
        behaviour: None,
        handle_attributes: None,
        keyboard_support: None,
        keyboard_default_step: None,
        keyboard_page_multiplier: None,
        keyboard_multiplier: None,
        css_prefix: None,
        css_classes: None,
    }
}

fn scenario_a_options() -> Options {
    let mut o = base_options(
        vec![20, 80],
        vec![("min", vec![0]), ("max", vec![100])],
    );
    o.connect = Some(vec![false, true, false]);
    o.tooltips = Some(true);
    o
}

fn scenario_b_payload() -> NativePayload {
    NativePayload {
        values: vec![
            NativeValue::Text("20.00".to_owned()),
            NativeValue::Text("80.00".to_owned()),
        ],
        handle: NativeValue::Num(1),
        unencoded: vec![NativeValue::Num(20), NativeValue::Num(80)],
        tap: NativeValue::Bool(false),
        positions: vec![NativeValue::Num(20), NativeValue::Num(80)],
        widget: NativeValue::Null,
    }
}

#[test]
fn create_then_get_returns_start() {
    let slider = Slider::create(scenario_a_options()).unwrap();
    assert_eq!(slider.get(), vec![20, 80]);
    assert_eq!(slider.get().len(), 2);
    assert_eq!(slider.lifecycle, Lifecycle::Active);
}

#[test]
fn create_fails_without_min_stop() {
    let o = base_options(vec![1], vec![("max", vec![100])]);
    assert_eq!(Slider::create(o).unwrap_err(), CreateError::MissingRangeBound);
}

#[test]
fn create_fails_without_max_stop() {
    let o = base_options(vec![1], vec![("min", vec![0])]);
    assert_eq!(Slider::create(o).unwrap_err(), CreateError::MissingRangeBound);
}

#[test]
fn create_fails_on_empty_bound_values() {
    let o = base_options(vec![1], vec![("min", vec![0]), ("max", vec![])]);
    assert_eq!(Slider::create(o).unwrap_err(), CreateError::MissingRangeBound);
}

#[test]
fn update_event_is_forwarded_exactly_once() {
    let mut slider = Slider::create(scenario_a_options()).unwrap();
    slider.subscribe();
    let delivered = slider.deliver(&scenario_b_payload(), vec![]).unwrap();
    let expected = Event {
        values: vec!["20.00".to_owned(), "80.00".to_owned()],
        handle: 1,
        unencoded: vec![20, 80],
        tap: false,
        positions: vec![20, 80],
        pips: vec![],
    };
    assert_eq!(delivered, Some(expected));
}

#[test]
fn update_events_keep_their_order() {
    let mut slider = Slider::create(scenario_a_options()).unwrap();
    slider.subscribe();
    let handles = [0i64, 1, 0];
    let mut seen = vec![];
    for h in handles {
        let payload = NativePayload {
            values: vec![
                NativeValue::Text("a".to_owned()),
                NativeValue::Text("b".to_owned()),
            ],
            handle: NativeValue::Num(h),
            unencoded: vec![NativeValue::Num(10 + h), NativeValue::Num(90)],
            tap: NativeValue::Bool(true),
            positions: vec![NativeValue::Num(10), NativeValue::Num(90)],
            widget: NativeValue::Null,
        };
        let event = slider.deliver(&payload, vec![]).unwrap().unwrap();
        seen.push(event);
    }
    assert_eq!(seen.len(), 3);
    assert_eq!(seen[0].handle, 0);
    assert_eq!(seen[1].handle, 1);
    assert_eq!(seen[2].handle, 0);
    assert_eq!(seen[0].unencoded, vec![10, 90]);
    assert_eq!(seen[1].unencoded, vec![11, 90]);
}

#[test]
fn delivered_event_refreshes_get() {
    let mut slider = Slider::create(scenario_a_options()).unwrap();
    slider.subscribe();
    slider.deliver(&scenario_b_payload(), vec![]).unwrap();
    assert_eq!(slider.get(), vec![20, 80]);
}

#[test]
fn nothing_is_delivered_before_subscribe() {
    let mut slider = Slider::create(scenario_a_options()).unwrap();
    assert_eq!(slider.deliver(&scenario_b_payload(), vec![]), Ok(None));
}

#[test]
fn nothing_is_delivered_after_destroy() {
    let mut slider = Slider::create(scenario_a_options()).unwrap();
    slider.subscribe();
    slider.destroy();
    assert_eq!(slider.deliver(&scenario_b_payload(), vec![]), Ok(None));
    assert_eq!(slider.deliver(&scenario_b_payload(), vec![]), Ok(None));
    assert_eq!(slider.lifecycle, Lifecycle::Destroyed);
}

#[test]
fn bad_values_entry_is_reported() {
    let mut slider = Slider::create(scenario_a_options()).unwrap();
    slider.subscribe();
    let mut p = scenario_b_payload();
    p.values[1] = NativeValue::Num(3);
    assert_eq!(slider.deliver(&p, vec![]), Err(DecodeError::BadValues));
    assert_eq!(slider.lifecycle, Lifecycle::Active);
    assert_eq!(slider.get(), vec![20, 80]);
}

#[test]
fn bad_handle_is_reported() {
    let mut slider = Slider::create(scenario_a_options()).unwrap();
    slider.subscribe();
    let mut p = scenario_b_payload();
    p.handle = NativeValue::Text("1".to_owned());
    assert_eq!(slider.deliver(&p, vec![]), Err(DecodeError::BadHandle));
    let mut q = scenario_b_payload();
    q.handle = NativeValue::Num(-1);
    assert_eq!(slider.deliver(&q, vec![]), Err(DecodeError::BadHandle));
}

#[test]
fn bad_unencoded_entry_is_reported() {
    let mut slider = Slider::create(scenario_a_options()).unwrap();
    slider.subscribe();
    let mut p = scenario_b_payload();
    p.unencoded[0] = NativeValue::Null;
    assert_eq!(slider.deliver(&p, vec![]), Err(DecodeError::BadUnencoded));
}

#[test]
fn bad_tap_flag_is_reported() {
    let mut slider = Slider::create(scenario_a_options()).unwrap();
    slider.subscribe();
    let mut p = scenario_b_payload();
    p.tap = NativeValue::Num(0);
    assert_eq!(slider.deliver(&p, vec![]), Err(DecodeError::BadTap));
}

#[test]
fn bad_position_entry_is_reported() {
    let mut slider = Slider::create(scenario_a_options()).unwrap();
    slider.subscribe();
    let mut p = scenario_b_payload();
    p.positions[1] = NativeValue::Bool(true);
    assert_eq!(slider.deliver(&p, vec![]), Err(DecodeError::BadPositions));
}

#[test]
fn first_bad_field_in_payload_order_wins() {
    let mut slider = Slider::create(scenario_a_options()).unwrap();
    slider.subscribe();
    let mut p = scenario_b_payload();
    p.handle = NativeValue::Null;
    p.tap = NativeValue::Num(7);
    assert_eq!(slider.deliver(&p, vec![]), Err(DecodeError::BadHandle));
}

#[test]
fn set_moves_handles_and_ignores_extras() {
    let mut slider = Slider::create(scenario_a_options()).unwrap();
    slider.set(&vec![30, 70, 99]);
    assert_eq!(slider.get(), vec![30, 70]);
    slider.set(&vec![40]);
    assert_eq!(slider.get(), vec![40, 70]);
}

#[test]
fn reset_returns_to_start() {
    let mut slider = Slider::create(scenario_a_options()).unwrap();
    slider.set(&vec![1, 2]);
    slider.reset();
    assert_eq!(slider.get(), vec![20, 80]);
}

#[test]
fn update_options_merges_fields() {
    let mut slider = Slider::create(scenario_a_options()).unwrap();
    let upd = OptionsUpdate {
        start: None,
        range: None,
        step: Some(5),
        snap: None,
        margin: Some(2),
        limit: None,
        padding: None,
        pips: None,
    };
    slider.update_options(upd).unwrap();
    assert_eq!(slider.options.step, Some(5));
    assert_eq!(slider.options.margin, Some(2));
    assert_eq!(slider.options.tooltips, Some(true));
    assert_eq!(slider.get(), vec![20, 80]);
}

#[test]
fn update_options_start_moves_handles() {
    let mut slider = Slider::create(scenario_a_options()).unwrap();
    let upd = OptionsUpdate {
        start: Some(vec![33, 66]),
        range: None,
        step: None,
        snap: None,
        margin: None,
        limit: None,
        padding: None,
        pips: None,
    };
    slider.update_options(upd).unwrap();
    assert_eq!(slider.get(), vec![33, 66]);
    slider.reset();
    assert_eq!(slider.get(), vec![33, 66]);
}

#[test]
fn update_options_pips_resets_pip_overrides() {
    let mut o = scenario_a_options();
    o.pips = Some(nouislider::options::Pips {
        mode: "positions".to_owned(),
        density: Some(1),
        values: Some(vec![0, 50, 100]),
        stepped: None,
    });
    let mut slider = Slider::create(o).unwrap();
    slider.apply_label_overrides(&FormattedValues {
        tooltips_text: vec![],
        pips_text: vec!["kept?".to_owned()],
    });
    assert_eq!(slider.pip_overrides[0], Some("kept?".to_owned()));
    let upd = OptionsUpdate {
        start: None,
        range: None,
        step: None,
        snap: None,
        margin: None,
        limit: None,
        padding: None,
        pips: Some(nouislider::options::Pips {
            mode: "positions".to_owned(),
            density: Some(2),
            values: Some(vec![0, 100]),
            stepped: None,
        }),
    };
    slider.update_options(upd).unwrap();
    assert_eq!(slider.pip_overrides, vec![None, None]);
}

#[test]
fn default_records_are_empty() {
    let fv = FormattedValues::default();
    assert!(fv.tooltips_text.is_empty() && fv.pips_text.is_empty());
    let pips = nouislider::options::Pips::default();
    assert_eq!(pips.mode, "");
    assert_eq!(pips.density, None);
    assert_eq!(pips.values, None);
    assert_eq!(pips.stepped, None);
    let e = Event::default();
    assert_eq!(e.handle, 0);
    assert!(e.values.is_empty() && e.unencoded.is_empty());
    assert!(!e.tap);
    assert!(e.positions.is_empty() && e.pips.is_empty());
}

#[test]
fn update_options_rejects_unbounded_range() {
    let mut slider = Slider::create(scenario_a_options()).unwrap();
    let upd = OptionsUpdate {
        start: Some(vec![1, 2]),
        range: Some(Range(vec![("min".to_owned(), vec![0])])),
        step: None,
        snap: None,
        margin: None,
        limit: None,
        padding: None,
        pips: None,
    };
    assert_eq!(slider.update_options(upd), Err(CreateError::MissingRangeBound));
    assert_eq!(slider.get(), vec![20, 80]);
}
