//! The date-slider application's logic: timestamps on the track.
//!
//! A moment in time is carried as its number of non-leap seconds since the
//! epoch, together with a fixed local offset east of UTC in seconds where
//! one is needed; the slider's handle values are such timestamps.  The
//! calendar text for a timestamp comes from an outside date library
//! through one trusted wrapper; everything built on that text is verified
//! against the name of its result.

use vstd::prelude::*;

use crate::event::Event;
use crate::options::FormattedValues;
use crate::options::HandleAttributes;
use crate::options::Pips;
use crate::options::Range;
use crate::options::texts_of;

verus! {

/// Timestamps this far from the epoch (about 126,000 years) format
/// without reaching the date library's representable limits.
pub const MAX_FORMAT_TS: i64 = 4_000_000_000_000;

/// A timestamp the date library is known to format.
pub open spec fn formattable(t: i64) -> bool {
    -MAX_FORMAT_TS <= t <= MAX_FORMAT_TS
}

/// The calendar text of a timestamp, in the fixed
/// year-month-day hour:minute shape the date slider labels carry.
pub uninterp spec fn date_text_of(t: int) -> Seq<char>;

/// Relies on chrono's `DateTime::from_timestamp` and its strftime
/// formatting with `"%Y-%m-%d %H:%M"`: the text is a function of the
/// timestamp alone, and the conversion returns `None` only on timestamps
/// out of chrono's representable range, which spans far more than
/// 126,000 years around the epoch.
#[verifier::external_body]
fn format_timestamp(t: i64) -> (r: Option<String>)
    ensures
        r matches Some(s) ==> s@ == date_text_of(t as int),
        formattable(t) ==> r is Some,
{
    chrono::DateTime::from_timestamp(t, 0).map(
        |dt| dt.naive_utc().format("%Y-%m-%d %H:%M").to_string(),
    )
}

/// The calendar text of one timestamp.
pub fn from_timestamp(t: i64) -> (r: String)
    requires
        formattable(t),
    ensures
        r@ == date_text_of(t as int),
{
    match format_timestamp(t) {
        Some(s) => s,
        None => unreached(),
    }
}

/// Turns one slider event of the date slider into its label overrides:
/// the calendar text of every rendered pip value, and of every raw handle
/// value, index for index.
pub fn format_event_labels(event: &Event) -> (r: FormattedValues)
    requires
        forall|i: int| 0 <= i < event.pips@.len() ==> formattable(#[trigger] event.pips@[i]),
        forall|i: int|
            0 <= i < event.unencoded@.len() ==> formattable(#[trigger] event.unencoded@[i]),
    ensures
        r.pips_text@.len() == event.pips@.len(),
        forall|i: int|
            0 <= i < event.pips@.len() ==> texts_of(r.pips_text@)[i] == date_text_of(
                event.pips@[i] as int,
            ),
        r.tooltips_text@.len() == event.unencoded@.len(),
        forall|i: int|
            0 <= i < event.unencoded@.len() ==> texts_of(r.tooltips_text@)[i] == date_text_of(
                event.unencoded@[i] as int,
            ),
{
    let mut pips_text: Vec<String> = Vec::new();
    let mut i: usize = 0;
    while i < event.pips.len()
        invariant
            0 <= i <= event.pips@.len(),
            forall|j: int|
                0 <= j < event.pips@.len() ==> formattable(#[trigger] event.pips@[j]),
            pips_text@.len() == i,
            forall|j: int|
                0 <= j < i ==> texts_of(pips_text@)[j] == date_text_of(event.pips@[j] as int),
        decreases event.pips@.len() - i,
    {
        let ghost entry = pips_text@;
        let text = from_timestamp(event.pips[i]);
        pips_text.push(text);
        proof {
            assert forall|j: int| 0 <= j < i + 1 implies texts_of(pips_text@)[j] == date_text_of(
                event.pips@[j] as int,
            ) by {
                if j < i {
                    assert(pips_text@[j] == entry[j]);
                    assert(texts_of(entry)[j] == date_text_of(event.pips@[j] as int));
                } else {
                    assert(texts_of(pips_text@)[j] == text@);
                }
            }
        }
        i = i + 1;
    }
    let mut tooltips_text: Vec<String> = Vec::new();
    let mut k: usize = 0;
    while k < event.unencoded.len()
        invariant
            0 <= k <= event.unencoded@.len(),
            forall|j: int|
                0 <= j < event.unencoded@.len() ==> formattable(#[trigger] event.unencoded@[j]),
            tooltips_text@.len() == k,
            forall|j: int|
                0 <= j < k ==> texts_of(tooltips_text@)[j] == date_text_of(
                    event.unencoded@[j] as int,
                ),
        decreases event.unencoded@.len() - k,
    {
        let ghost entry = tooltips_text@;
        let text = from_timestamp(event.unencoded[k]);
        tooltips_text.push(text);
        proof {
            assert forall|j: int|
                0 <= j < k + 1 implies texts_of(tooltips_text@)[j] == date_text_of(
                event.unencoded@[j] as int,
            ) by {
                if j < k {
                    assert(tooltips_text@[j] == entry[j]);
                    assert(texts_of(entry)[j] == date_text_of(event.unencoded@[j] as int));
                } else {
                    assert(texts_of(tooltips_text@)[j] == text@);
                }
            }
        }
        k = k + 1;
    }
    FormattedValues { tooltips_text, pips_text }
}

/// The timestamp span the date slider covers, with its local offset.
#[derive(Debug, Clone, Copy, PartialEq, Eq)]
pub struct Options {
    /// Timestamp of the earliest date on the track.
    pub min: i64,
    /// Timestamp of the latest date on the track.
    pub max: i64,
    /// The fixed local offset east of UTC, in seconds.
    pub offset_east: i32,
}

impl Options {
    /// The spans this module's arithmetic is stated for: an ordered pair
    /// of formattable timestamps and an offset within one day.
    pub open spec fn wf(self) -> bool {
        &&& formattable(self.min)
        &&& formattable(self.max)
        &&& self.min <= self.max
        &&& -86_400 <= self.offset_east <= 86_400
    }

    /// The track's lower bound: the earliest date shifted to local time.
    pub open spec fn local_min(self) -> int {
        self.min + self.offset_east
    }

    /// The track's upper bound: one second past the latest date, shifted
    /// to local time.
    pub open spec fn local_max(self) -> int {
        self.max + self.offset_east + 1
    }

    /// The width of the track in seconds.
    pub open spec fn span(self) -> int {
        self.local_max() - self.local_min()
    }
}

/// Builds the widget option record of the date slider: a two-handle
/// track over the local-time span, handles starting a third and five
/// sixths of the way in, the span's hundredth as both step and margin,
/// a filled segment between the handles, tooltips on, five relabelable
/// pips at fixed track positions, and a screen-reader label per handle.
/// The host's current label overrides ride along unchanged.
pub fn date_slider_options(o: &Options, values: FormattedValues) -> (r: crate::options::Options)
    requires
        o.wf(),
    ensures
        r.values == values,
        r.start@.len() == 2,
        r.start@[0] == o.local_min() + o.span() / 3,
        r.start@[1] == o.local_min() + o.span() * 5 / 6,
        r.range.0@.len() == 2,
        r.range.0@[0].0@ == "min"@,
        r.range.0@[0].1@.len() == 1,
        r.range.0@[0].1@[0] == o.local_min(),
        r.range.0@[1].0@ == "max"@,
        r.range.0@[1].1@.len() == 1,
        r.range.0@[1].1@[0] == o.local_max(),
        r.connect matches Some(c) && c@ == seq![false, true, false],
        r.step matches Some(s) && s == o.span() / 100,
        r.margin matches Some(m) && m == o.span() / 100,
        r.tooltips == Some(true),
        r.pips matches Some(p) && {
            &&& p.mode@ == "positions"@
            &&& p.density == Some(1i64)
            &&& p.values matches Some(v) && v@ == seq![0i64, 25i64, 50i64, 75i64, 100i64]
            &&& p.stepped is None
        },
        r.handle_attributes matches Some(h) && {
            &&& h.0@.len() == 2
            &&& pairs_of(h.0@[0]@) == seq![("aria-label"@, "lower"@)]
            &&& pairs_of(h.0@[1]@) == seq![("aria-label"@, "upper"@)]
        },
        r.snap is None,
        r.limit is None,
        r.padding is None,
        r.orientation is None,
        r.direction is None,
        r.animate is None,
        r.behaviour is None,
        r.keyboard_support is None,
        r.keyboard_default_step is None,
        r.keyboard_page_multiplier is None,
        r.keyboard_multiplier is None,
        r.css_prefix is None,
        r.css_classes is None,
{
    let local_min: i64 = o.min + o.offset_east as i64;
    let local_max: i64 = o.max + o.offset_east as i64 + 1;
    let span: i64 = local_max - local_min;

    let mut start: Vec<i64> = Vec::new();
    start.push(local_min + span / 3);
    start.push(local_min + span * 5 / 6);

    let mut min_stop: Vec<i64> = Vec::new();
    min_stop.push(local_min);
    let mut max_stop: Vec<i64> = Vec::new();
    max_stop.push(local_max);
    let mut stops: Vec<(String, Vec<i64>)> = Vec::new();
    stops.push(("min".to_owned(), min_stop));
    stops.push(("max".to_owned(), max_stop));

    let mut connect: Vec<bool> = Vec::new();
    connect.push(false);
    connect.push(true);
    connect.push(false);

    let mut pip_values: Vec<i64> = Vec::new();
    pip_values.push(0);
    pip_values.push(25);
    pip_values.push(50);
    pip_values.push(75);
    pip_values.push(100);
    let pips = Pips {
        mode: "positions".to_owned(),
        density: Some(1),
        values: Some(pip_values),
        stepped: None,
    };

    let mut lower: Vec<(String, String)> = Vec::new();
    lower.push(("aria-label".to_owned(), "lower".to_owned()));
    let mut upper: Vec<(String, String)> = Vec::new();
    upper.push(("aria-label".to_owned(), "upper".to_owned()));
    let mut attrs: Vec<Vec<(String, String)>> = Vec::new();
    attrs.push(lower);
    attrs.push(upper);

    let r = crate::options::Options {
        values,
        start,
        range: Range(stops),
        connect: Some(connect),
        step: Some(span / 100),
        snap: None,
        margin: Some(span / 100),
        limit: None,
        padding: None,
        orientation: None,
        direction: None,
        animate: None,
        pips: Some(pips),
        tooltips: Some(true),
        behaviour: None,
        handle_attributes: Some(HandleAttributes(attrs)),
        keyboard_support: None,
        keyboard_default_step: None,
        keyboard_page_multiplier: None,
        keyboard_multiplier: None,
        css_prefix: None,
        css_classes: None,
    };
    proof {
        assert(r.connect->0@ =~= seq![false, true, false]);
        assert(r.pips->0.values->0@ =~= seq![0i64, 25i64, 50i64, 75i64, 100i64]);
        assert(pairs_of((r.handle_attributes->0).0@[0]@) =~= seq![("aria-label"@, "lower"@)]);
        assert(pairs_of((r.handle_attributes->0).0@[1]@) =~= seq![("aria-label"@, "upper"@)]);
    }
    r
}

/// The character-sequence pairs of a list of string pairs.
pub open spec fn pairs_of(v: Seq<(String, String)>) -> Seq<(Seq<char>, Seq<char>)> {
    Seq::new(v.len(), |i: int| (v[i].0@, v[i].1@))
}

/// The number of entries of `s` that lie in the closed span from `lo` to
/// `hi`.
pub open spec fn spec_count_in_range(s: Seq<i64>, lo: i64, hi: i64) -> int
    decreases s.len(),
{
    if s.len() == 0 {
        0
    } else {
        spec_count_in_range(s.drop_last(), lo, hi) + (
        if lo <= s.last() <= hi {
            1int
        } else {
            0int
        })
    }
}

/// Counts the dates that lie in the closed span from `lo` to `hi` —
/// the figure the host shows beside the slider.
pub fn count_in_range(dates: &Vec<i64>, lo: i64, hi: i64) -> (n: usize)
    ensures
        n == spec_count_in_range(dates@, lo, hi),
{
    let mut n: usize = 0;
    let mut i: usize = 0;
    while i < dates.len()
        invariant
            0 <= i <= dates@.len(),
            n <= i,
            n == spec_count_in_range(dates@.take(i as int), lo, hi),
        decreases dates@.len() - i,
    {
        let d = dates[i];
        proof {
            assert(dates@.take(i + 1).drop_last() =~= dates@.take(i as int));
            assert(dates@.take(i + 1).last() == dates@[i as int]);
        }
        if lo <= d && d <= hi {
            n = n + 1;
        }
        i = i + 1;
    }
    proof {
        assert(dates@.take(dates@.len() as int) =~= dates@);
    }
    n
}

}
