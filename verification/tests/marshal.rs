use nouislider::config::ConfigLeaf;
use nouislider::config::ConfigValue;
use nouislider::config::encode_options;
use nouislider::options::FormattedValues;
use nouislider::options::HandleAttributes;
use nouislider::options::Options;
use nouislider::options::Pips;
use nouislider::options::Range;

fn bare_options() -> Options {
    Options {
        values: FormattedValues { tooltips_text: vec![], pips_text: vec![] },
        start: vec![20, 80],
        range: Range(vec![("min".to_owned(), vec![0]), ("max".to_owned(), vec![100])]),
        connect: None,
        step: None,
        snap: None,
        margin: None,
        limit: None,
        padding: None,
        orientation: None,
        direction: None,
        animate: None,
        pips: None,
        tooltips: None,
        behaviour: None,
        handle_attributes: None,
        keyboard_support: None,
        keyboard_default_step: None,
        keyboard_page_multiplier: None,
        keyboard_multiplier: None,
        css_prefix: None,
        css_classes: None,
    }
}

#[test]
fn unset_options_contribute_no_entries() {
    let cfg = encode_options(&bare_options());
    let expected = vec![
        (
            "values".to_owned(),
            ConfigValue::Section(vec![
                ("tooltips_text".to_owned(), ConfigLeaf::TextList(vec![])),
                ("pips_text".to_owned(), ConfigLeaf::TextList(vec![])),
            ]),
        ),
        ("start".to_owned(), ConfigValue::IntList(vec![20, 80])),
        (
            "range".to_owned(),
            ConfigValue::StopMap(vec![
                ("min".to_owned(), vec![0]),
                ("max".to_owned(), vec![100]),
            ]),
        ),
    ];
    assert_eq!(cfg.0, expected);
}

#[test]
fn set_options_appear_in_declaration_order_under_widget_names() {
    let mut o = bare_options();
    o.connect = Some(vec![false, true, false]);
    o.step = Some(5);
    o.tooltips = Some(true);
    o.handle_attributes = Some(HandleAttributes(vec![vec![(
        "aria-label".to_owned(),
        "lower".to_owned(),
    )]]));
    o.keyboard_default_step = Some(100);
    o.css_prefix = Some("noUi-".to_owned());
    o.css_classes = Some(vec!["target".to_owned()]);
    let cfg = encode_options(&o);
    let names: Vec<&str> = cfg.0.iter().map(|(k, _)| k.as_str()).collect();
    assert_eq!(
        names,
        vec![
            "values",
            "start",
            "range",
            "connect",
            "step",
            "tooltips",
            "handleAttributes",
            "keyboardDefaultStep",
            "cssPrefix",
            "cssClasses",
        ]
    );
    assert_eq!(cfg.0[3].1, ConfigValue::BoolList(vec![false, true, false]));
    assert_eq!(cfg.0[4].1, ConfigValue::Int(5));
    assert_eq!(cfg.0[5].1, ConfigValue::Bool(true));
    assert_eq!(
        cfg.0[6].1,
        ConfigValue::AttrList(vec![vec![("aria-label".to_owned(), "lower".to_owned())]])
    );
    assert_eq!(cfg.0[8].1, ConfigValue::Text("noUi-".to_owned()));
    assert_eq!(cfg.0[9].1, ConfigValue::TextList(vec!["target".to_owned()]));
}

#[test]
fn pip_configuration_encodes_as_nested_object() {
    let mut o = bare_options();
    o.pips = Some(Pips {
        mode: "positions".to_owned(),
        density: Some(1),
        values: Some(vec![0, 25, 50, 75, 100]),
        stepped: None,
    });
    let cfg = encode_options(&o);
    assert_eq!(cfg.0[3].0, "pips");
    assert_eq!(
        cfg.0[3].1,
        ConfigValue::Section(vec![
            ("mode".to_owned(), ConfigLeaf::Text("positions".to_owned())),
            ("density".to_owned(), ConfigLeaf::Int(1)),
            ("values".to_owned(), ConfigLeaf::IntList(vec![0, 25, 50, 75, 100])),
        ])
    );
}

#[test]
fn override_record_rides_along_in_the_values_entry() {
    let mut o = bare_options();
    o.values = FormattedValues {
        tooltips_text: vec!["low".to_owned(), "high".to_owned()],
        pips_text: vec!["left".to_owned()],
    };
    let cfg = encode_options(&o);
    assert_eq!(
        cfg.0[0],
        (
            "values".to_owned(),
            ConfigValue::Section(vec![
                (
                    "tooltips_text".to_owned(),
                    ConfigLeaf::TextList(vec!["low".to_owned(), "high".to_owned()]),
                ),
                (
                    "pips_text".to_owned(),
                    ConfigLeaf::TextList(vec!["left".to_owned()]),
                ),
            ]),
        )
    );
}
