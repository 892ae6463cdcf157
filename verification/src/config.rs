//! The widget's native configuration shape, and the encoding of an option
//! record into it.
//!
//! The widget takes its configuration as one object of named entries.  The
//! encoding is a fixed mapping: every field of the option record appears
//! under the widget's name for it — the multi-word names in camel case —
//! in declaration order, and an unset optional field contributes no entry
//! at all.  `spec_config` states the entire mapping, as the concatenation
//! of one small segment per option field; `encode_options` is proved to
//! produce exactly that.

use vstd::prelude::*;

use crate::options::FormattedValues;
use crate::options::Options;
use crate::options::Pips;
use crate::options::texts_of;

verus! {

/// A value nested one level down inside a configuration entry.
#[derive(Debug, Clone, PartialEq)]
pub enum ConfigLeaf {
    Bool(bool),
    Int(i64),
    Text(String),
    IntList(Vec<i64>),
    TextList(Vec<String>),
}

/// The value of one named configuration entry.
#[derive(Debug, Clone, PartialEq)]
pub enum ConfigValue {
    Bool(bool),
    Int(i64),
    Text(String),
    IntList(Vec<i64>),
    BoolList(Vec<bool>),
    TextList(Vec<String>),
    /// The track's named stops, each with its breakpoint values.
    StopMap(Vec<(String, Vec<i64>)>),
    /// One attribute map per handle.
    AttrList(Vec<Vec<(String, String)>>),
    /// A nested object of named entries.
    Section(Vec<(String, ConfigLeaf)>),
}

/// The full configuration object handed to the widget's constructor.
#[derive(Debug, Clone, PartialEq)]
pub struct NativeConfig(pub Vec<(String, ConfigValue)>);

/// The mathematical content of a `ConfigLeaf`.
#[verifier::ext_equal]
pub ghost enum LeafV {
    Bool(bool),
    Int(i64),
    Text(Seq<char>),
    IntList(Seq<i64>),
    TextList(Seq<Seq<char>>),
}

/// The mathematical content of a `ConfigValue`.
#[verifier::ext_equal]
pub ghost enum CfgV {
    Bool(bool),
    Int(i64),
    Text(Seq<char>),
    IntList(Seq<i64>),
    BoolList(Seq<bool>),
    TextList(Seq<Seq<char>>),
    StopMap(Seq<(Seq<char>, Seq<i64>)>),
    AttrList(Seq<Seq<(Seq<char>, Seq<char>)>>),
    Section(Seq<(Seq<char>, LeafV)>),
}

/// The character-sequence pairs of a list of string pairs.
pub open spec fn pairs_view(v: Seq<(String, String)>) -> Seq<(Seq<char>, Seq<char>)> {
    Seq::new(v.len(), |i: int| (v[i].0@, v[i].1@))
}

/// The named stops of a track, over character sequences.
pub open spec fn stops_view(v: Seq<(String, Vec<i64>)>) -> Seq<(Seq<char>, Seq<i64>)> {
    Seq::new(v.len(), |i: int| (v[i].0@, v[i].1@))
}

/// One attribute map per handle, over character sequences.
pub open spec fn attrs_view(v: Seq<Vec<(String, String)>>) -> Seq<Seq<(Seq<char>, Seq<char>)>> {
    Seq::new(v.len(), |i: int| pairs_view(v[i]@))
}

/// The named entries of a nested object, over their contents.
pub open spec fn section_view(v: Seq<(String, ConfigLeaf)>) -> Seq<(Seq<char>, LeafV)> {
    Seq::new(v.len(), |i: int| (v[i].0@, v[i].1@))
}

/// The named entries of a configuration object, over their contents.
pub open spec fn entries_view(v: Seq<(String, ConfigValue)>) -> Seq<(Seq<char>, CfgV)> {
    Seq::new(v.len(), |i: int| (v[i].0@, v[i].1@))
}

impl View for ConfigLeaf {
    type V = LeafV;

    open spec fn view(&self) -> LeafV {
        match self {
            ConfigLeaf::Bool(b) => LeafV::Bool(*b),
            ConfigLeaf::Int(n) => LeafV::Int(*n),
            ConfigLeaf::Text(s) => LeafV::Text(s@),
            ConfigLeaf::IntList(v) => LeafV::IntList(v@),
            ConfigLeaf::TextList(v) => LeafV::TextList(texts_of(v@)),
        }
    }
}

impl View for ConfigValue {
    type V = CfgV;

    open spec fn view(&self) -> CfgV {
        match self {
            ConfigValue::Bool(b) => CfgV::Bool(*b),
            ConfigValue::Int(n) => CfgV::Int(*n),
            ConfigValue::Text(s) => CfgV::Text(s@),
            ConfigValue::IntList(v) => CfgV::IntList(v@),
            ConfigValue::BoolList(v) => CfgV::BoolList(v@),
            ConfigValue::TextList(v) => CfgV::TextList(texts_of(v@)),
            ConfigValue::StopMap(v) => CfgV::StopMap(stops_view(v@)),
            ConfigValue::AttrList(v) => CfgV::AttrList(attrs_view(v@)),
            ConfigValue::Section(v) => CfgV::Section(section_view(v@)),
        }
    }
}

impl View for NativeConfig {
    type V = Seq<(Seq<char>, CfgV)>;

    open spec fn view(&self) -> Seq<(Seq<char>, CfgV)> {
        entries_view(self.0@)
    }
}

/// The nested object the host's override record encodes to.
pub open spec fn spec_values_section(v: FormattedValues) -> Seq<(Seq<char>, LeafV)> {
    seq![
        ("tooltips_text"@, LeafV::TextList(texts_of(v.tooltips_text@))),
        ("pips_text"@, LeafV::TextList(texts_of(v.pips_text@))),
    ]
}

/// The nested object a pip configuration encodes to: the mode always, the
/// other fields only when set.
pub open spec fn spec_pips_section(p: Pips) -> Seq<(Seq<char>, LeafV)> {
    seq![("mode"@, LeafV::Text(p.mode@))] + (match p.density {
        Some(d) => seq![("density"@, LeafV::Int(d))],
        None => Seq::empty(),
    }) + (match p.values {
        Some(v) => seq![("values"@, LeafV::IntList(v@))],
        None => Seq::empty(),
    }) + (match p.stepped {
        Some(b) => seq![("stepped"@, LeafV::Bool(b))],
        None => Seq::empty(),
    })
}

/// The three entries every configuration carries: the override record,
/// the start values and the track.
pub open spec fn seg_track(o: Options) -> Seq<(Seq<char>, CfgV)> {
    seq![
        ("values"@, CfgV::Section(spec_values_section(o.values))),
        ("start"@, CfgV::IntList(o.start@)),
        ("range"@, CfgV::StopMap(stops_view(o.range.0@))),
    ]
}

/// The entry the `connect` option contributes, when it is set.
pub open spec fn seg_connect(o: Options) -> Seq<(Seq<char>, CfgV)> {
    match o.connect {
        Some(v) => seq![("connect"@, CfgV::BoolList(v@))],
        None => Seq::empty(),
    }
}
/// The entry the `step` option contributes, when it is set.
pub open spec fn seg_step(o: Options) -> Seq<(Seq<char>, CfgV)> {
    match o.step {
        Some(n) => seq![("step"@, CfgV::Int(n))],
        None => Seq::empty(),
    }
}
/// The entry the `snap` option contributes, when it is set.
pub open spec fn seg_snap(o: Options) -> Seq<(Seq<char>, CfgV)> {
    match o.snap {
        Some(b) => seq![("snap"@, CfgV::Bool(b))],
        None => Seq::empty(),
    }
}
/// The entry the `margin` option contributes, when it is set.
pub open spec fn seg_margin(o: Options) -> Seq<(Seq<char>, CfgV)> {
    match o.margin {
        Some(n) => seq![("margin"@, CfgV::Int(n))],
        None => Seq::empty(),
    }
}
/// The entry the `limit` option contributes, when it is set.
pub open spec fn seg_limit(o: Options) -> Seq<(Seq<char>, CfgV)> {
    match o.limit {
        Some(n) => seq![("limit"@, CfgV::Int(n))],
        None => Seq::empty(),
    }
}
/// The entry the `padding` option contributes, when it is set.
pub open spec fn seg_padding(o: Options) -> Seq<(Seq<char>, CfgV)> {
    match o.padding {
        Some(v) => seq![("padding"@, CfgV::IntList(v@))],
        None => Seq::empty(),
    }
}
/// The entry the `orientation` option contributes, when it is set.
pub open spec fn seg_orientation(o: Options) -> Seq<(Seq<char>, CfgV)> {
    match o.orientation {
        Some(s) => seq![("orientation"@, CfgV::Text(s@))],
        None => Seq::empty(),
    }
}
/// The entry the `direction` option contributes, when it is set.
pub open spec fn seg_direction(o: Options) -> Seq<(Seq<char>, CfgV)> {
    match o.direction {
        Some(s) => seq![("direction"@, CfgV::Text(s@))],
        None => Seq::empty(),
    }
}
/// The entry the `animate` option contributes, when it is set.
pub open spec fn seg_animate(o: Options) -> Seq<(Seq<char>, CfgV)> {
    match o.animate {
        Some(b) => seq![("animate"@, CfgV::Bool(b))],
        None => Seq::empty(),
    }
}
/// The entry the `pips` option contributes, when it is set.
pub open spec fn seg_pips(o: Options) -> Seq<(Seq<char>, CfgV)> {
    match o.pips {
        Some(p) => seq![("pips"@, CfgV::Section(spec_pips_section(p)))],
        None => Seq::empty(),
    }
}
/// The entry the `tooltips` option contributes, when it is set.
pub open spec fn seg_tooltips(o: Options) -> Seq<(Seq<char>, CfgV)> {
    match o.tooltips {
        Some(b) => seq![("tooltips"@, CfgV::Bool(b))],
        None => Seq::empty(),
    }
}
/// The entry the `behaviour` option contributes, when it is set.
pub open spec fn seg_behaviour(o: Options) -> Seq<(Seq<char>, CfgV)> {
    match o.behaviour {
        Some(s) => seq![("behaviour"@, CfgV::Text(s@))],
        None => Seq::empty(),
    }
}
/// The entry the `handle_attributes` option contributes, when it is set.
pub open spec fn seg_handle_attributes(o: Options) -> Seq<(Seq<char>, CfgV)> {
    match o.handle_attributes {
        Some(h) => seq![("handleAttributes"@, CfgV::AttrList(attrs_view(h.0@)))],
        None => Seq::empty(),
    }
}
/// The entry the `keyboard_support` option contributes, when it is set.
pub open spec fn seg_keyboard_support(o: Options) -> Seq<(Seq<char>, CfgV)> {
    match o.keyboard_support {
        Some(b) => seq![("keyboardSupport"@, CfgV::Bool(b))],
        None => Seq::empty(),
    }
}
/// The entry the `keyboard_default_step` option contributes, when it is set.
pub open spec fn seg_keyboard_default_step(o: Options) -> Seq<(Seq<char>, CfgV)> {
    match o.keyboard_default_step {
        Some(n) => seq![("keyboardDefaultStep"@, CfgV::Int(n))],
        None => Seq::empty(),
    }
}
/// The entry the `keyboard_page_multiplier` option contributes, when it is set.
pub open spec fn seg_keyboard_page_multiplier(o: Options) -> Seq<(Seq<char>, CfgV)> {
    match o.keyboard_page_multiplier {
        Some(n) => seq![("keyboardPageMultiplier"@, CfgV::Int(n))],
        None => Seq::empty(),
    }
}
/// The entry the `keyboard_multiplier` option contributes, when it is set.
pub open spec fn seg_keyboard_multiplier(o: Options) -> Seq<(Seq<char>, CfgV)> {
    match o.keyboard_multiplier {
        Some(n) => seq![("keyboardMultiplier"@, CfgV::Int(n))],
        None => Seq::empty(),
    }
}
/// The entry the `css_prefix` option contributes, when it is set.
pub open spec fn seg_css_prefix(o: Options) -> Seq<(Seq<char>, CfgV)> {
    match o.css_prefix {
        Some(s) => seq![("cssPrefix"@, CfgV::Text(s@))],
        None => Seq::empty(),
    }
}
/// The entry the `css_classes` option contributes, when it is set.
pub open spec fn seg_css_classes(o: Options) -> Seq<(Seq<char>, CfgV)> {
    match o.css_classes {
        Some(v) => seq![("cssClasses"@, CfgV::TextList(texts_of(v@)))],
        None => Seq::empty(),
    }
}

/// The complete native configuration an option record encodes to: every
/// set field under the widget's name for it, in declaration order; unset
/// optional fields contribute nothing.
pub open spec fn spec_config(o: Options) -> Seq<(Seq<char>, CfgV)> {
    seg_track(o) + seg_connect(o) + seg_step(o) + seg_snap(o) + seg_margin(o) + seg_limit(o) + seg_padding(o) + seg_orientation(o) + seg_direction(o) + seg_animate(o) + seg_pips(o) + seg_tooltips(o) + seg_behaviour(o) + seg_handle_attributes(o) + seg_keyboard_support(o) + seg_keyboard_default_step(o) + seg_keyboard_page_multiplier(o) + seg_keyboard_multiplier(o) + seg_css_prefix(o) + seg_css_classes(o)
}

/// Copies a value vector.
fn copy_nums(v: &Vec<i64>) -> (r: Vec<i64>)
    ensures
        r@ == v@,
{
    let mut r: Vec<i64> = Vec::new();
    let mut i: usize = 0;
    while i < v.len()
        invariant
            0 <= i <= v@.len(),
            r@ == v@.take(i as int),
        decreases v@.len() - i,
    {
        r.push(v[i]);
        proof {
            assert(r@ =~= v@.take(i + 1));
        }
        i = i + 1;
    }
    proof {
        assert(r@ =~= v@);
    }
    r
}

/// Copies a flag vector.
fn copy_bools(v: &Vec<bool>) -> (r: Vec<bool>)
    ensures
        r@ == v@,
{
    let mut r: Vec<bool> = Vec::new();
    let mut i: usize = 0;
    while i < v.len()
        invariant
            0 <= i <= v@.len(),
            r@ == v@.take(i as int),
        decreases v@.len() - i,
    {
        r.push(v[i]);
        proof {
            assert(r@ =~= v@.take(i + 1));
        }
        i = i + 1;
    }
    proof {
        assert(r@ =~= v@);
    }
    r
}

/// Copies a text vector, character for character.
fn copy_texts(v: &Vec<String>) -> (r: Vec<String>)
    ensures
        texts_of(r@) == texts_of(v@),
        r@.len() == v@.len(),
{
    let mut r: Vec<String> = Vec::new();
    let mut i: usize = 0;
    while i < v.len()
        invariant
            0 <= i <= v@.len(),
            r@.len() == i,
            forall|j: int| 0 <= j < i ==> r@[j]@ == v@[j]@,
        decreases v@.len() - i,
    {
        let s = v[i].clone();
        r.push(s);
        i = i + 1;
    }
    proof {
        assert(texts_of(r@) =~= texts_of(v@));
    }
    r
}

/// Copies a text pair vector, character for character.
fn copy_pairs(v: &Vec<(String, String)>) -> (r: Vec<(String, String)>)
    ensures
        pairs_view(r@) == pairs_view(v@),
        r@.len() == v@.len(),
{
    let mut r: Vec<(String, String)> = Vec::new();
    let mut i: usize = 0;
    while i < v.len()
        invariant
            0 <= i <= v@.len(),
            r@.len() == i,
            forall|j: int| 0 <= j < i ==> r@[j].0@ == v@[j].0@ && r@[j].1@ == v@[j].1@,
        decreases v@.len() - i,
    {
        let (a, b) = &v[i];
        let pair = (a.clone(), b.clone());
        r.push(pair);
        i = i + 1;
    }
    proof {
        assert(pairs_view(r@) =~= pairs_view(v@));
    }
    r
}

/// Copies a track's named stops.
fn copy_stops(v: &Vec<(String, Vec<i64>)>) -> (r: Vec<(String, Vec<i64>)>)
    ensures
        stops_view(r@) == stops_view(v@),
        r@.len() == v@.len(),
{
    let mut r: Vec<(String, Vec<i64>)> = Vec::new();
    let mut i: usize = 0;
    while i < v.len()
        invariant
            0 <= i <= v@.len(),
            r@.len() == i,
            forall|j: int| 0 <= j < i ==> r@[j].0@ == v@[j].0@ && r@[j].1@ == v@[j].1@,
        decreases v@.len() - i,
    {
        let (name, breaks) = &v[i];
        let pair = (name.clone(), copy_nums(breaks));
        r.push(pair);
        i = i + 1;
    }
    proof {
        assert(stops_view(r@) =~= stops_view(v@));
    }
    r
}

/// Copies one attribute map per handle.
fn copy_attrs(v: &Vec<Vec<(String, String)>>) -> (r: Vec<Vec<(String, String)>>)
    ensures
        attrs_view(r@) == attrs_view(v@),
        r@.len() == v@.len(),
{
    let mut r: Vec<Vec<(String, String)>> = Vec::new();
    let mut i: usize = 0;
    while i < v.len()
        invariant
            0 <= i <= v@.len(),
            r@.len() == i,
            forall|j: int| 0 <= j < i ==> pairs_view(r@[j]@) == pairs_view(v@[j]@),
        decreases v@.len() - i,
    {
        let attrs = copy_pairs(&v[i]);
        r.push(attrs);
        i = i + 1;
    }
    proof {
        assert(attrs_view(r@) =~= attrs_view(v@));
    }
    r
}

/// Encodes the host's override record as its nested object.
fn encode_values_section(v: &FormattedValues) -> (r: Vec<(String, ConfigLeaf)>)
    ensures
        section_view(r@) == spec_values_section(*v),
{
    let mut r: Vec<(String, ConfigLeaf)> = Vec::new();
    r.push(("tooltips_text".to_owned(), ConfigLeaf::TextList(copy_texts(&v.tooltips_text))));
    r.push(("pips_text".to_owned(), ConfigLeaf::TextList(copy_texts(&v.pips_text))));
    proof {
        assert(section_view(r@) =~~= spec_values_section(*v));
    }
    r
}

/// Encodes a pip configuration as its nested object.
fn encode_pips_section(p: &Pips) -> (r: Vec<(String, ConfigLeaf)>)
    ensures
        section_view(r@) == spec_pips_section(*p),
{
    let mut r: Vec<(String, ConfigLeaf)> = Vec::new();
    r.push(("mode".to_owned(), ConfigLeaf::Text(p.mode.clone())));
    match &p.density {
        Some(d) => {
            r.push(("density".to_owned(), ConfigLeaf::Int(*d)));
        },
        None => {},
    }
    match &p.values {
        Some(v) => {
            r.push(("values".to_owned(), ConfigLeaf::IntList(copy_nums(v))));
        },
        None => {},
    }
    match &p.stepped {
        Some(b) => {
            r.push(("stepped".to_owned(), ConfigLeaf::Bool(*b)));
        },
        None => {},
    }
    proof {
        assert(section_view(r@) =~~= spec_pips_section(*p));
    }
    r
}

/// Starts the configuration with the three entries every record carries.
fn encode_track(o: &Options) -> (r: Vec<(String, ConfigValue)>)
    ensures
        entries_view(r@) == seg_track(*o),
{
    let mut r: Vec<(String, ConfigValue)> = Vec::new();
    r.push(("values".to_owned(), ConfigValue::Section(encode_values_section(&o.values))));
    r.push(("start".to_owned(), ConfigValue::IntList(copy_nums(&o.start))));
    r.push(("range".to_owned(), ConfigValue::StopMap(copy_stops(&o.range.0))));
    proof {
        assert(entries_view(r@) =~~= seg_track(*o));
    }
    r
}

/// Appending one entry to a configuration extends its content by the
/// entry's name and value.
proof fn lemma_entries_push(
    v: Seq<(String, ConfigValue)>,
    pair: (String, ConfigValue),
    name: Seq<char>,
    cv: CfgV,
)
    requires
        pair.0@ == name,
        pair.1@ == cv,
    ensures
        entries_view(v.push(pair)) == entries_view(v) + seq![(name, cv)],
{
    assert(entries_view(v.push(pair)) =~= entries_view(v) + seq![(name, cv)]);
}

/// Appends the handle-spacing and movement entries.
fn push_motion(o: &Options, entries: &mut Vec<(String, ConfigValue)>)
    ensures
        entries_view(final(entries)@) == entries_view(old(entries)@) + seg_connect(*o) + seg_step(*o) + seg_snap(*o) + seg_margin(*o) + seg_limit(*o) + seg_padding(*o),
{
    let ghost mut done: Seq<(Seq<char>, CfgV)> = entries_view(entries@);
    match &o.connect {
        Some(v) => {
            let pair = ("connect".to_owned(), ConfigValue::BoolList(copy_bools(v)));
            proof {
                lemma_entries_push(entries@, pair, "connect"@, CfgV::BoolList(v@));
            }
            entries.push(pair);
            proof {
                done = done + seg_connect(*o);
                assert(entries_view(entries@) == done);
            }
        },
        None => {
            proof {
                done = done + seg_connect(*o);
                assert(entries_view(entries@) =~= done);
            }
        },
    }
    match &o.step {
        Some(n) => {
            let pair = ("step".to_owned(), ConfigValue::Int(*n));
            proof {
                lemma_entries_push(entries@, pair, "step"@, CfgV::Int(*n));
            }
            entries.push(pair);
            proof {
                done = done + seg_step(*o);
                assert(entries_view(entries@) == done);
            }
        },
        None => {
            proof {
                done = done + seg_step(*o);
                assert(entries_view(entries@) =~= done);
            }
        },
    }
    match &o.snap {
        Some(b) => {
            let pair = ("snap".to_owned(), ConfigValue::Bool(*b));
            proof {
                lemma_entries_push(entries@, pair, "snap"@, CfgV::Bool(*b));
            }
            entries.push(pair);
            proof {
                done = done + seg_snap(*o);
                assert(entries_view(entries@) == done);
            }
        },
        None => {
            proof {
                done = done + seg_snap(*o);
                assert(entries_view(entries@) =~= done);
            }
        },
    }
    match &o.margin {
        Some(n) => {
            let pair = ("margin".to_owned(), ConfigValue::Int(*n));
            proof {
                lemma_entries_push(entries@, pair, "margin"@, CfgV::Int(*n));
            }
            entries.push(pair);
            proof {
                done = done + seg_margin(*o);
                assert(entries_view(entries@) == done);
            }
        },
        None => {
            proof {
                done = done + seg_margin(*o);
                assert(entries_view(entries@) =~= done);
            }
        },
    }
    match &o.limit {
        Some(n) => {
            let pair = ("limit".to_owned(), ConfigValue::Int(*n));
            proof {
                lemma_entries_push(entries@, pair, "limit"@, CfgV::Int(*n));
            }
            entries.push(pair);
            proof {
                done = done + seg_limit(*o);
                assert(entries_view(entries@) == done);
            }
        },
        None => {
            proof {
                done = done + seg_limit(*o);
                assert(entries_view(entries@) =~= done);
            }
        },
    }
    match &o.padding {
        Some(v) => {
            let pair = ("padding".to_owned(), ConfigValue::IntList(copy_nums(v)));
            proof {
                lemma_entries_push(entries@, pair, "padding"@, CfgV::IntList(v@));
            }
            entries.push(pair);
            proof {
                done = done + seg_padding(*o);
                assert(entries_view(entries@) == done);
            }
        },
        None => {
            proof {
                done = done + seg_padding(*o);
                assert(entries_view(entries@) =~= done);
            }
        },
    }
}

/// Appends the presentation entries.
fn push_layout(o: &Options, entries: &mut Vec<(String, ConfigValue)>)
    ensures
        entries_view(final(entries)@) == entries_view(old(entries)@) + seg_orientation(*o) + seg_direction(*o) + seg_animate(*o) + seg_pips(*o) + seg_tooltips(*o) + seg_behaviour(*o),
{
    let ghost mut done: Seq<(Seq<char>, CfgV)> = entries_view(entries@);
    match &o.orientation {
        Some(s) => {
            let pair = ("orientation".to_owned(), ConfigValue::Text(s.clone()));
            proof {
                lemma_entries_push(entries@, pair, "orientation"@, CfgV::Text(s@));
            }
            entries.push(pair);
            proof {
                done = done + seg_orientation(*o);
                assert(entries_view(entries@) == done);
            }
        },
        None => {
            proof {
                done = done + seg_orientation(*o);
                assert(entries_view(entries@) =~= done);
            }
        },
    }
    match &o.direction {
        Some(s) => {
            let pair = ("direction".to_owned(), ConfigValue::Text(s.clone()));
            proof {
                lemma_entries_push(entries@, pair, "direction"@, CfgV::Text(s@));
            }
            entries.push(pair);
            proof {
                done = done + seg_direction(*o);
                assert(entries_view(entries@) == done);
            }
        },
        None => {
            proof {
                done = done + seg_direction(*o);
                assert(entries_view(entries@) =~= done);
            }
        },
    }
    match &o.animate {
        Some(b) => {
            let pair = ("animate".to_owned(), ConfigValue::Bool(*b));
            proof {
                lemma_entries_push(entries@, pair, "animate"@, CfgV::Bool(*b));
            }
            entries.push(pair);
            proof {
                done = done + seg_animate(*o);
                assert(entries_view(entries@) == done);
            }
        },
        None => {
            proof {
                done = done + seg_animate(*o);
                assert(entries_view(entries@) =~= done);
            }
        },
    }
    match &o.pips {
        Some(p) => {
            let pair = ("pips".to_owned(), ConfigValue::Section(encode_pips_section(p)));
            proof {
                lemma_entries_push(entries@, pair, "pips"@, CfgV::Section(spec_pips_section(*p)));
            }
            entries.push(pair);
            proof {
                done = done + seg_pips(*o);
                assert(entries_view(entries@) == done);
            }
        },
        None => {
            proof {
                done = done + seg_pips(*o);
                assert(entries_view(entries@) =~= done);
            }
        },
    }
    match &o.tooltips {
        Some(b) => {
            let pair = ("tooltips".to_owned(), ConfigValue::Bool(*b));
            proof {
                lemma_entries_push(entries@, pair, "tooltips"@, CfgV::Bool(*b));
            }
            entries.push(pair);
            proof {
                done = done + seg_tooltips(*o);
                assert(entries_view(entries@) == done);
            }
        },
        None => {
            proof {
                done = done + seg_tooltips(*o);
                assert(entries_view(entries@) =~= done);
            }
        },
    }
    match &o.behaviour {
        Some(s) => {
            let pair = ("behaviour".to_owned(), ConfigValue::Text(s.clone()));
            proof {
                lemma_entries_push(entries@, pair, "behaviour"@, CfgV::Text(s@));
            }
            entries.push(pair);
            proof {
                done = done + seg_behaviour(*o);
                assert(entries_view(entries@) == done);
            }
        },
        None => {
            proof {
                done = done + seg_behaviour(*o);
                assert(entries_view(entries@) =~= done);
            }
        },
    }
}

/// Appends the handle-attribute and keyboard entries.
fn push_input(o: &Options, entries: &mut Vec<(String, ConfigValue)>)
    ensures
        entries_view(final(entries)@) == entries_view(old(entries)@) + seg_handle_attributes(*o) + seg_keyboard_support(*o) + seg_keyboard_default_step(*o) + seg_keyboard_page_multiplier(*o) + seg_keyboard_multiplier(*o),
{
    let ghost mut done: Seq<(Seq<char>, CfgV)> = entries_view(entries@);
    match &o.handle_attributes {
        Some(h) => {
            let pair = ("handleAttributes".to_owned(), ConfigValue::AttrList(copy_attrs(&h.0)));
            proof {
                lemma_entries_push(entries@, pair, "handleAttributes"@, CfgV::AttrList(attrs_view(h.0@)));
            }
            entries.push(pair);
            proof {
                done = done + seg_handle_attributes(*o);
                assert(entries_view(entries@) == done);
            }
        },
        None => {
            proof {
                done = done + seg_handle_attributes(*o);
                assert(entries_view(entries@) =~= done);
            }
        },
    }
    match &o.keyboard_support {
        Some(b) => {
            let pair = ("keyboardSupport".to_owned(), ConfigValue::Bool(*b));
            proof {
                lemma_entries_push(entries@, pair, "keyboardSupport"@, CfgV::Bool(*b));
            }
            entries.push(pair);
            proof {
                done = done + seg_keyboard_support(*o);
                assert(entries_view(entries@) == done);
            }
        },
        None => {
            proof {
                done = done + seg_keyboard_support(*o);
                assert(entries_view(entries@) =~= done);
            }
        },
    }
    match &o.keyboard_default_step {
        Some(n) => {
            let pair = ("keyboardDefaultStep".to_owned(), ConfigValue::Int(*n));
            proof {
                lemma_entries_push(entries@, pair, "keyboardDefaultStep"@, CfgV::Int(*n));
            }
            entries.push(pair);
            proof {
                done = done + seg_keyboard_default_step(*o);
                assert(entries_view(entries@) == done);
            }
        },
        None => {
            proof {
                done = done + seg_keyboard_default_step(*o);
                assert(entries_view(entries@) =~= done);
            }
        },
    }
    match &o.keyboard_page_multiplier {
        Some(n) => {
            let pair = ("keyboardPageMultiplier".to_owned(), ConfigValue::Int(*n));
            proof {
                lemma_entries_push(entries@, pair, "keyboardPageMultiplier"@, CfgV::Int(*n));
            }
            entries.push(pair);
            proof {
                done = done + seg_keyboard_page_multiplier(*o);
                assert(entries_view(entries@) == done);
            }
        },
        None => {
            proof {
                done = done + seg_keyboard_page_multiplier(*o);
                assert(entries_view(entries@) =~= done);
            }
        },
    }
    match &o.keyboard_multiplier {
        Some(n) => {
            let pair = ("keyboardMultiplier".to_owned(), ConfigValue::Int(*n));
            proof {
                lemma_entries_push(entries@, pair, "keyboardMultiplier"@, CfgV::Int(*n));
            }
            entries.push(pair);
            proof {
                done = done + seg_keyboard_multiplier(*o);
                assert(entries_view(entries@) == done);
            }
        },
        None => {
            proof {
                done = done + seg_keyboard_multiplier(*o);
                assert(entries_view(entries@) =~= done);
            }
        },
    }
}

/// Appends the style-class entries.
fn push_styling(o: &Options, entries: &mut Vec<(String, ConfigValue)>)
    ensures
        entries_view(final(entries)@) == entries_view(old(entries)@) + seg_css_prefix(*o) + seg_css_classes(*o),
{
    let ghost mut done: Seq<(Seq<char>, CfgV)> = entries_view(entries@);
    match &o.css_prefix {
        Some(s) => {
            let pair = ("cssPrefix".to_owned(), ConfigValue::Text(s.clone()));
            proof {
                lemma_entries_push(entries@, pair, "cssPrefix"@, CfgV::Text(s@));
            }
            entries.push(pair);
            proof {
                done = done + seg_css_prefix(*o);
                assert(entries_view(entries@) == done);
            }
        },
        None => {
            proof {
                done = done + seg_css_prefix(*o);
                assert(entries_view(entries@) =~= done);
            }
        },
    }
    match &o.css_classes {
        Some(v) => {
            let pair = ("cssClasses".to_owned(), ConfigValue::TextList(copy_texts(v)));
            proof {
                lemma_entries_push(entries@, pair, "cssClasses"@, CfgV::TextList(texts_of(v@)));
            }
            entries.push(pair);
            proof {
                done = done + seg_css_classes(*o);
                assert(entries_view(entries@) == done);
            }
        },
        None => {
            proof {
                done = done + seg_css_classes(*o);
                assert(entries_view(entries@) =~= done);
            }
        },
    }
}

/// Encodes an option record into the configuration object the widget's
/// constructor takes: exactly the entries, names and order of
/// `spec_config`.
pub fn encode_options(o: &Options) -> (r: NativeConfig)
    ensures
        r@ == spec_config(*o),
{
    let mut entries = encode_track(o);
    push_motion(o, &mut entries);
    push_layout(o, &mut entries);
    push_input(o, &mut entries);
    push_styling(o, &mut entries);
    NativeConfig(entries)
}

}
