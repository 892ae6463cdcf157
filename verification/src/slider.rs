//! The adapter that owns one widget instance.
//!
//! The adapter has exactly two lifecycle states: *active*, from creation
//! until `destroy`, and *destroyed*, which is terminal.  While active it
//! mirrors the widget's state — the current handle values and the label
//! overlay laid over the widget's auto-generated tooltip and pip text —
//! and it decides, for every native firing, whether an event reaches the
//! registered observer.  The host's glue code performs the actual widget
//! calls; every decision it forwards is taken here, so each one carries a
//! proved contract.

use vstd::prelude::*;

use crate::event::DecodeError;
use crate::event::Event;
use crate::event::EventV;
use crate::event::NativePayload;
use crate::event::NativeValue;
use crate::event::payload_ok;
use crate::event::spec_decode;
use crate::event::spec_decode_err;
use crate::event::decode_event;
use crate::options::FormattedValues;
use crate::options::Options;
use crate::options::Pips;
use crate::options::Range;
use crate::options::texts_of;

verus! {

/// The two states of an adapter: everything but construction is valid only
/// while it is active, and nothing is emitted once it is destroyed.
#[derive(Debug, Clone, Copy, PartialEq, Eq, Structural)]
pub enum Lifecycle {
    Active,
    Destroyed,
}

/// The one way construction can fail: the track is missing the `"min"` or
/// `"max"` bound the widget requires.
#[derive(Debug, Clone, Copy, PartialEq, Eq)]
pub enum CreateError {
    MissingRangeBound,
}

/// The label overlay as mathematics: one optional override text per
/// rendered element.
pub open spec fn overlay_view(v: Seq<Option<String>>) -> Seq<Option<Seq<char>>> {
    Seq::new(
        v.len(),
        |i: int|
            match v[i] {
                Some(s) => Some(s@),
                None => None,
            },
    )
}

/// No element carries an override: every rendered text is the widget's
/// auto-generated one.
pub open spec fn all_clear(v: Seq<Option<Seq<char>>>) -> bool {
    forall|i: int| 0 <= i < v.len() ==> v[i] is None
}

/// One application of an override record to an overlay: index `i` takes
/// override `i` when there is one; later indices keep what they had.
/// Entries of the record beyond the overlay's length fall away.
pub open spec fn spec_apply(cur: Seq<Option<Seq<char>>>, ov: Seq<Seq<char>>) -> Seq<
    Option<Seq<char>>,
> {
    Seq::new(
        cur.len(),
        |i: int|
            if i < ov.len() {
                Some(ov[i])
            } else {
                cur[i]
            },
    )
}

/// The text each element shows: its override when one is laid over it,
/// else the widget's auto-generated text.
pub open spec fn rendered_texts(
    native: Seq<Seq<char>>,
    overlay: Seq<Option<Seq<char>>>,
) -> Seq<Seq<char>> {
    Seq::new(
        native.len(),
        |i: int|
            if i < overlay.len() && overlay[i] is Some {
                overlay[i]->0
            } else {
                native[i]
            },
    )
}

/// How many tooltip elements the widget renders for this option record:
/// one per handle when tooltips are on, none otherwise.
pub open spec fn spec_tooltip_count(o: Options) -> int {
    if o.tooltips == Some(true) {
        o.start@.len() as int
    } else {
        0
    }
}

/// How many relabelable pip elements the widget renders for this pip
/// configuration: one per explicitly listed pip value.
pub open spec fn spec_pip_count(p: Option<Pips>) -> int {
    match p {
        Some(pp) => match pp.values {
            Some(v) => v@.len() as int,
            None => 0,
        },
        None => 0,
    }
}

/// The fields the host may hand to `update_options`; these are the options
/// the widget accepts on a live instance.  An unset field keeps its
/// current value.
#[derive(Debug, Clone, PartialEq)]
pub struct OptionsUpdate {
    pub start: Option<Vec<i64>>,
    pub range: Option<Range>,
    pub step: Option<i64>,
    pub snap: Option<bool>,
    pub margin: Option<i64>,
    pub limit: Option<i64>,
    pub padding: Option<Vec<i64>>,
    pub pips: Option<Pips>,
}

/// The adapter.  Its fields mirror the owned widget: the handle values the
/// widget currently shows, and the override overlay on its rendered
/// tooltip and pip text.
#[derive(Debug, Clone, PartialEq)]
pub struct Slider {
    pub lifecycle: Lifecycle,
    pub subscribed: bool,
    pub options: Options,
    pub values: Vec<i64>,
    pub tooltip_overrides: Vec<Option<String>>,
    pub pip_overrides: Vec<Option<String>>,
}

/// What `create` guarantees of a fresh adapter built from `options`.
pub open spec fn spec_fresh(options: Options, s: Slider) -> bool {
    &&& s.lifecycle is Active
    &&& !s.subscribed
    &&& s.options == options
    &&& s.values@ == options.start@
    &&& s.tooltip_overrides@.len() == spec_tooltip_count(options)
    &&& all_clear(overlay_view(s.tooltip_overrides@))
    &&& s.pip_overrides@.len() == spec_pip_count(options.pips)
    &&& all_clear(overlay_view(s.pip_overrides@))
}

/// Whether one native firing reaches the observer, and as what: an event
/// is emitted exactly when the adapter is active, an observer is
/// subscribed, and the payload is well shaped.  `deliver` never changes
/// the adapter's lifecycle or subscription, so a run of firings emits
/// according to this function at every step.
pub open spec fn spec_emits(
    live: bool,
    listening: bool,
    p: NativePayload,
    pips: Seq<i64>,
) -> Option<EventV> {
    if live && listening && payload_ok(p) {
        Some(spec_decode(p, pips))
    } else {
        None
    }
}

/// The events a run of native firings produces, in firing order.
pub open spec fn spec_emitted_all(
    live: bool,
    listening: bool,
    ps: Seq<NativePayload>,
    pips: Seq<i64>,
) -> Seq<EventV>
    decreases ps.len(),
{
    if ps.len() == 0 {
        Seq::empty()
    } else {
        match spec_emits(live, listening, ps[0], pips) {
            Some(e) => seq![e] + spec_emitted_all(live, listening, ps.drop_first(), pips),
            None => spec_emitted_all(live, listening, ps.drop_first(), pips),
        }
    }
}

/// Copies a value vector.
fn copy_nums(v: &Vec<i64>) -> (r: Vec<i64>)
    ensures
        r@ == v@,
{
    let mut r: Vec<i64> = Vec::new();
    let mut i: usize = 0;
    while i < v.len()
        invariant
            0 <= i <= v@.len(),
            r@ == v@.take(i as int),
        decreases v@.len() - i,
    {
        r.push(v[i]);
        proof {
            assert(r@ =~= v@.take(i + 1));
        }
        i = i + 1;
    }
    proof {
        assert(r@ =~= v@);
    }
    r
}

/// A fresh overlay of `n` elements, none overridden.
fn clear_overlay(n: usize) -> (r: Vec<Option<String>>)
    ensures
        r@.len() == n,
        all_clear(overlay_view(r@)),
{
    let mut r: Vec<Option<String>> = Vec::new();
    let mut i: usize = 0;
    while i < n
        invariant
            0 <= i <= n,
            r@.len() == i,
            forall|j: int| 0 <= j < i ==> r@[j] is None,
        decreases n - i,
    {
        r.push(None);
        i = i + 1;
    }
    r
}

/// Lays new values over a value vector, index for index: entry `i`
/// replaces value `i`; values beyond the entries stay, entries beyond the
/// values fall away.
fn overlay_nums(base: &mut Vec<i64>, upd: &Vec<i64>)
    ensures
        final(base)@.len() == old(base)@.len(),
        forall|i: int|
            0 <= i < final(base)@.len() ==> final(base)@[i] == (
            if i < upd@.len() {
                upd@[i]
            } else {
                old(base)@[i]
            }),
{
    let mut i: usize = 0;
    while i < base.len() && i < upd.len()
        invariant
            0 <= i <= base@.len(),
            base@.len() == old(base)@.len(),
            forall|j: int|
                0 <= j < i ==> base@[j] == (
                if j < upd@.len() {
                    upd@[j]
                } else {
                    old(base)@[j]
                }),
            forall|j: int| i <= j < base@.len() ==> base@[j] == old(base)@[j],
        decreases base@.len() - i,
    {
        let v = upd[i];
        base.set(i, v);
        i = i + 1;
    }
}

/// Lays an override record over an overlay, index for index; entries of
/// the record beyond the overlay's length are ignored.
fn apply_into(slots: &mut Vec<Option<String>>, ov: &Vec<String>)
    ensures
        overlay_view(final(slots)@) =~= spec_apply(overlay_view(old(slots)@), texts_of(ov@)),
{
    let mut i: usize = 0;
    while i < slots.len() && i < ov.len()
        invariant
            0 <= i <= slots@.len(),
            slots@.len() == old(slots)@.len(),
            forall|j: int|
                0 <= j < i ==> overlay_view(slots@)[j] == spec_apply(
                    overlay_view(old(slots)@),
                    texts_of(ov@),
                )[j],
            forall|j: int| i <= j < slots@.len() ==> slots@[j] == old(slots)@[j],
        decreases slots@.len() - i,
    {
        let ghost entry = slots@;
        let text = ov[i].clone();
        slots.set(i, Some(text));
        proof {
            assert(overlay_view(slots@)[i as int] == Some(ov@[i as int]@));
            assert(spec_apply(overlay_view(old(slots)@), texts_of(ov@))[i as int] == Some(
                texts_of(ov@)[i as int],
            ));
            assert(texts_of(ov@)[i as int] == ov@[i as int]@);
            assert forall|j: int| 0 <= j < i + 1 implies overlay_view(slots@)[j] == spec_apply(
                overlay_view(old(slots)@),
                texts_of(ov@),
            )[j] by {
                if j < i {
                    assert(slots@[j] == entry[j]);
                    assert(overlay_view(slots@)[j] == overlay_view(entry)[j]);
                    assert(overlay_view(entry)[j] == spec_apply(
                        overlay_view(old(slots)@),
                        texts_of(ov@),
                    )[j]);
                } else {
                    assert(overlay_view(slots@)[j] == Some(ov@[j]@));
                    assert(spec_apply(overlay_view(old(slots)@), texts_of(ov@))[j] == Some(
                        ov@[j]@,
                    ));
                }
            }
        }
        i = i + 1;
    }
    proof {
        assert(overlay_view(final(slots)@) =~= spec_apply(
            overlay_view(old(slots)@),
            texts_of(ov@),
        ));
    }
}

impl Slider {
    /// The structural invariant every adapter keeps: the mirrored value
    /// vector has one entry per handle, and each overlay has one slot per
    /// rendered element of the current configuration.
    pub open spec fn wf(self) -> bool {
        &&& self.values@.len() == self.options.start@.len()
        &&& self.tooltip_overrides@.len() == spec_tooltip_count(self.options)
        &&& self.pip_overrides@.len() == spec_pip_count(self.options.pips)
    }

    /// Builds an adapter around a fresh widget.  Construction fails, and
    /// only fails, when the track is missing its `"min"` or `"max"` bound
    /// — the one option record the widget itself rejects; nothing else is
    /// validated, matching the widget's own behaviour.  The fresh adapter
    /// shows exactly the requested start values.
    pub fn create(options: Options) -> (r: Result<Slider, CreateError>)
        ensures
            r is Ok <==> options.range.spec_has_bounds(),
            !options.range.spec_has_bounds() ==> r == Err::<Slider, CreateError>(
                CreateError::MissingRangeBound,
            ),
            r matches Ok(s) ==> spec_fresh(options, s) && s.wf(),
    {
        let min_name = "min".to_owned();
        let max_name = "max".to_owned();
        if !options.range.has_stop(&min_name) || !options.range.has_stop(&max_name) {
            return Err(CreateError::MissingRangeBound);
        }
        let values = copy_nums(&options.start);
        let tooltip_count: usize = match options.tooltips {
            Some(true) => options.start.len(),
            _ => 0,
        };
        let pip_count: usize = match &options.pips {
            Some(p) => match &p.values {
                Some(v) => v.len(),
                None => 0,
            },
            None => 0,
        };
        let tooltip_overrides = clear_overlay(tooltip_count);
        let pip_overrides = clear_overlay(pip_count);
        Ok(
            Slider {
                lifecycle: Lifecycle::Active,
                subscribed: false,
                options,
                values,
                tooltip_overrides,
                pip_overrides,
            },
        )
    }

    /// Registers the observer side: one native listener per relevant event
    /// name.  Subscribing twice still means one listener.
    pub fn subscribe(&mut self)
        requires
            old(self).lifecycle is Active,
        ensures
            final(self).subscribed,
            final(self).lifecycle == old(self).lifecycle,
            final(self).options == old(self).options,
            final(self).values == old(self).values,
            final(self).tooltip_overrides == old(self).tooltip_overrides,
            final(self).pip_overrides == old(self).pip_overrides,
    {
        self.subscribed = true;
    }

    /// Reads the current handle values straight off the mirrored widget
    /// state, independent of any event the observer may have seen.
    pub fn get(&self) -> (r: Vec<i64>)
        requires
            self.lifecycle is Active,
        ensures
            r@ == self.values@,
    {
        copy_nums(&self.values)
    }

    /// Moves the handles: value `i` takes entry `i` of `vals`; handles
    /// beyond the entries keep their value, and extra entries fall away —
    /// the handle count never changes.
    pub fn set(&mut self, vals: &Vec<i64>)
        requires
            old(self).lifecycle is Active,
        ensures
            final(self).values@.len() == old(self).values@.len(),
            forall|i: int|
                0 <= i < final(self).values@.len() ==> final(self).values@[i] == (
                if i < vals@.len() {
                    vals@[i]
                } else {
                    old(self).values@[i]
                }),
            final(self).lifecycle == old(self).lifecycle,
            final(self).subscribed == old(self).subscribed,
            final(self).options == old(self).options,
            final(self).tooltip_overrides == old(self).tooltip_overrides,
            final(self).pip_overrides == old(self).pip_overrides,
    {
        overlay_nums(&mut self.values, vals);
    }

    /// Merges the handed fields into the live configuration — only the
    /// fields the widget accepts on a live instance can be handed in.  A
    /// handed track missing its bounds is rejected whole, with nothing
    /// changed.  Handed start values move the handles exactly as `set`
    /// does, and the configured start follows the handles; a handed pip
    /// configuration replaces the old one and drops every pip override,
    /// since the widget renders the pips anew.
    pub fn update_options(&mut self, upd: OptionsUpdate) -> (r: Result<(), CreateError>)
        requires
            old(self).lifecycle is Active,
            old(self).wf(),
        ensures
            final(self).wf(),
            r is Ok <==> (upd.range matches Some(g) ==> g.spec_has_bounds()),
            r is Err ==> r == Err::<(), CreateError>(CreateError::MissingRangeBound) && *final(self) == *old(self),
            final(self).lifecycle == old(self).lifecycle,
            final(self).subscribed == old(self).subscribed,
            final(self).tooltip_overrides == old(self).tooltip_overrides,
            r is Ok ==> {
                &&& final(self).options.range == (match upd.range {
                    Some(g) => g,
                    None => old(self).options.range,
                })
                &&& final(self).options.step == (match upd.step {
                    Some(n) => Some(n),
                    None => old(self).options.step,
                })
                &&& final(self).options.snap == (match upd.snap {
                    Some(b) => Some(b),
                    None => old(self).options.snap,
                })
                &&& final(self).options.margin == (match upd.margin {
                    Some(n) => Some(n),
                    None => old(self).options.margin,
                })
                &&& final(self).options.limit == (match upd.limit {
                    Some(n) => Some(n),
                    None => old(self).options.limit,
                })
                &&& final(self).options.padding == (match upd.padding {
                    Some(v) => Some(v),
                    None => old(self).options.padding,
                })
                &&& final(self).options.pips == (match upd.pips {
                    Some(p) => Some(p),
                    None => old(self).options.pips,
                })
                &&& final(self).values@.len() == old(self).values@.len()
                &&& forall|i: int|
                    0 <= i < final(self).values@.len() ==> final(self).values@[i] == (
                    match upd.start {
                        Some(s) => if i < s@.len() {
                            s@[i]
                        } else {
                            old(self).values@[i]
                        },
                        None => old(self).values@[i],
                    })
                &&& (upd.start is Some ==> final(self).options.start@ == final(self).values@)
                &&& (upd.start is None ==> final(self).options.start == old(self).options.start)
                &&& (match upd.pips {
                    Some(p) => final(self).pip_overrides@.len() == spec_pip_count(Some(p))
                        && all_clear(overlay_view(final(self).pip_overrides@)),
                    None => final(self).pip_overrides == old(self).pip_overrides,
                })
                &&& final(self).options.values == old(self).options.values
                &&& final(self).options.connect == old(self).options.connect
                &&& final(self).options.orientation == old(self).options.orientation
                &&& final(self).options.direction == old(self).options.direction
                &&& final(self).options.animate == old(self).options.animate
                &&& final(self).options.tooltips == old(self).options.tooltips
                &&& final(self).options.behaviour == old(self).options.behaviour
                &&& final(self).options.handle_attributes == old(self).options.handle_attributes
                &&& final(self).options.keyboard_support == old(self).options.keyboard_support
                &&& final(self).options.keyboard_default_step == old(self).options.keyboard_default_step
                &&& final(self).options.keyboard_page_multiplier == old(self).options.keyboard_page_multiplier
                &&& final(self).options.keyboard_multiplier == old(self).options.keyboard_multiplier
                &&& final(self).options.css_prefix == old(self).options.css_prefix
                &&& final(self).options.css_classes == old(self).options.css_classes
            },
    {
        match &upd.range {
            Some(g) => {
                let min_name = "min".to_owned();
                let max_name = "max".to_owned();
                if !g.has_stop(&min_name) || !g.has_stop(&max_name) {
                    return Err(CreateError::MissingRangeBound);
                }
            },
            None => {},
        }
        match upd.range {
            Some(g) => {
                self.options.range = g;
            },
            None => {},
        }
        match upd.step {
            Some(n) => {
                self.options.step = Some(n);
            },
            None => {},
        }
        match upd.snap {
            Some(b) => {
                self.options.snap = Some(b);
            },
            None => {},
        }
        match upd.margin {
            Some(n) => {
                self.options.margin = Some(n);
            },
            None => {},
        }
        match upd.limit {
            Some(n) => {
                self.options.limit = Some(n);
            },
            None => {},
        }
        match upd.padding {
            Some(v) => {
                self.options.padding = Some(v);
            },
            None => {},
        }
        match upd.start {
            Some(s) => {
                overlay_nums(&mut self.values, &s);
                let moved = copy_nums(&self.values);
                self.options.start = moved;
            },
            None => {},
        }
        match upd.pips {
            Some(p) => {
                let pip_count: usize = match &p.values {
                    Some(v) => v.len(),
                    None => 0,
                };
                self.pip_overrides = clear_overlay(pip_count);
                self.options.pips = Some(p);
            },
            None => {},
        }
        Ok(())
    }

    /// Moves every handle back to its configured start value.
    pub fn reset(&mut self)
        requires
            old(self).lifecycle is Active,
            old(self).wf(),
        ensures
            final(self).values@ == old(self).options.start@,
            final(self).lifecycle == old(self).lifecycle,
            final(self).subscribed == old(self).subscribed,
            final(self).options == old(self).options,
            final(self).tooltip_overrides == old(self).tooltip_overrides,
            final(self).pip_overrides == old(self).pip_overrides,
    {
        let fresh = copy_nums(&self.options.start);
        self.values = fresh;
    }

    /// Destroys the owned widget.  The adapter is never active again, and
    /// `deliver` shows that nothing reaches the observer afterwards.
    pub fn destroy(&mut self)
        requires
            old(self).lifecycle is Active,
        ensures
            final(self).lifecycle is Destroyed,
            final(self).subscribed == old(self).subscribed,
            final(self).options == old(self).options,
            final(self).values == old(self).values,
            final(self).tooltip_overrides == old(self).tooltip_overrides,
            final(self).pip_overrides == old(self).pip_overrides,
    {
        self.lifecycle = Lifecycle::Destroyed;
    }

    /// Lays the host's override record over the rendered tooltip and pip
    /// text, index for index.  Safe with any record length: elements
    /// beyond the record keep their text, record entries beyond the
    /// rendered elements are ignored.
    pub fn apply_label_overrides(&mut self, vals: &FormattedValues)
        requires
            old(self).lifecycle is Active,
        ensures
            overlay_view(final(self).tooltip_overrides@) =~= spec_apply(
                overlay_view(old(self).tooltip_overrides@),
                texts_of(vals.tooltips_text@),
            ),
            overlay_view(final(self).pip_overrides@) =~= spec_apply(
                overlay_view(old(self).pip_overrides@),
                texts_of(vals.pips_text@),
            ),
            final(self).lifecycle == old(self).lifecycle,
            final(self).subscribed == old(self).subscribed,
            final(self).options == old(self).options,
            final(self).values == old(self).values,
    {
        apply_into(&mut self.tooltip_overrides, &vals.tooltips_text);
        apply_into(&mut self.pip_overrides, &vals.pips_text);
    }

    /// Takes one native firing, with the pip values currently rendered,
    /// and decides what the observer sees: exactly one decoded event when
    /// the adapter is live and the payload well shaped; a report of the
    /// first malformed field, with the adapter kept live, when the shape
    /// is wrong; and silence — with no state change at all — once the
    /// adapter is destroyed or while nothing is subscribed.  An emitted
    /// event also refreshes the mirrored handle values.
    pub fn deliver(&mut self, payload: &NativePayload, pips: Vec<i64>) -> (r: Result<
        Option<Event>,
        DecodeError,
    >)
        ensures
            r matches Ok(Some(e)) <==> spec_emits(
                old(self).lifecycle is Active,
                old(self).subscribed,
                *payload,
                pips@,
            ) is Some,
            r matches Ok(Some(e)) ==> Some(e@) == spec_emits(
                old(self).lifecycle is Active,
                old(self).subscribed,
                *payload,
                pips@,
            ) && final(self).values@ == e@.unencoded,
            !(old(self).lifecycle is Active && old(self).subscribed) ==> r == Ok::<
                Option<Event>,
                DecodeError,
            >(None) && *final(self) == *old(self),
            old(self).lifecycle is Active && old(self).subscribed && !payload_ok(*payload) ==> r
                == Err::<Option<Event>, DecodeError>(spec_decode_err(*payload)) && *final(self)
                == *old(self),
            final(self).lifecycle == old(self).lifecycle,
            final(self).subscribed == old(self).subscribed,
            final(self).options == old(self).options,
            final(self).tooltip_overrides == old(self).tooltip_overrides,
            final(self).pip_overrides == old(self).pip_overrides,
    {
        match self.lifecycle {
            Lifecycle::Destroyed => Ok(None),
            Lifecycle::Active => {
                if !self.subscribed {
                    return Ok(None);
                }
                match decode_event(payload, pips) {
                    Err(e) => Err(e),
                    Ok(ev) => {
                        let fresh = copy_nums(&ev.unencoded);
                        self.values = fresh;
                        Ok(Some(ev))
                    },
                }
            },
        }
    }
}

/// Law: the values read immediately after creation are the requested
/// start values, one per handle.
pub proof fn lemma_get_after_create(options: Options, s: Slider)
    requires
        spec_fresh(options, s),
    ensures
        s.values@.len() == options.start@.len(),
        s.values@ == options.start@,
{
}

/// Law: while the adapter is active and subscribed, a run of native
/// firings with well-shaped payloads is forwarded as exactly one event
/// per firing, in firing order, each carrying the handle index of its own
/// payload.
pub proof fn lemma_one_event_per_firing(ps: Seq<NativePayload>, pips: Seq<i64>)
    requires
        forall|i: int| 0 <= i < ps.len() ==> payload_ok(#[trigger] ps[i]),
    ensures
        spec_emitted_all(true, true, ps, pips).len() == ps.len(),
        forall|i: int|
            0 <= i < ps.len() ==> spec_emitted_all(true, true, ps, pips)[i] == spec_decode(
                ps[i],
                pips,
            ),
        forall|i: int|
            0 <= i < ps.len() ==> ((#[trigger] ps[i]).handle matches NativeValue::Num(n)
                ==> spec_emitted_all(true, true, ps, pips)[i].handle == n),
    decreases ps.len(),
{
    if ps.len() > 0 {
        lemma_one_event_per_firing(ps.drop_first(), pips);
        let out = spec_emitted_all(true, true, ps, pips);
        let rest = spec_emitted_all(true, true, ps.drop_first(), pips);
        assert(out == seq![spec_decode(ps[0], pips)] + rest);
        assert forall|i: int| 0 <= i < ps.len() implies out[i] == spec_decode(ps[i], pips) by {
            if i > 0 {
                assert(ps.drop_first()[i - 1] == ps[i]);
                assert(out[i] == rest[i - 1]);
            }
        }
    }
}

/// Law: once the adapter is destroyed, no run of native firings —
/// however the widget is triggered — produces any event at all.
pub proof fn lemma_silent_after_destroy(
    listening: bool,
    ps: Seq<NativePayload>,
    pips: Seq<i64>,
)
    ensures
        spec_emitted_all(false, listening, ps, pips).len() == 0,
    decreases ps.len(),
{
    if ps.len() > 0 {
        lemma_silent_after_destroy(listening, ps.drop_first(), pips);
    }
}

/// Law: applying the same override record twice leaves exactly what one
/// application leaves.
pub proof fn lemma_apply_overrides_idempotent(cur: Seq<Option<Seq<char>>>, ov: Seq<Seq<char>>)
    ensures
        spec_apply(spec_apply(cur, ov), ov) =~= spec_apply(cur, ov),
{
}

/// Law: an empty override record changes no overlay; in particular, on a
/// fresh adapter every rendered text keeps its auto-generated value.
pub proof fn lemma_empty_overrides_keep_native(
    native: Seq<Seq<char>>,
    cur: Seq<Option<Seq<char>>>,
)
    ensures
        spec_apply(cur, Seq::<Seq<char>>::empty()) =~= cur,
        all_clear(cur) ==> rendered_texts(native, spec_apply(cur, Seq::<Seq<char>>::empty()))
            =~= native,
{
}

/// Law: an override record longer than the rendered element count acts
/// exactly as its prefix of that count — the extra entries are ignored.
pub proof fn lemma_excess_overrides_ignored(cur: Seq<Option<Seq<char>>>, ov: Seq<Seq<char>>)
    requires
        ov.len() >= cur.len(),
    ensures
        spec_apply(cur, ov) =~= spec_apply(cur, ov.take(cur.len() as int)),
{
}

}
