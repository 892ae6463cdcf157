//! The option record handed to the widget at construction time, together
//! with the small records it is built from.
//!
//! Numeric slider values are carried as `i64` throughout the crate: the
//! adapter never computes with a handle value, it only moves values between
//! the host and the widget, so one integer unit per value step is enough to
//! state every contract exactly.

use vstd::prelude::*;

verus! {

/// The breakpoints of the slider's track: a mapping from named stops
/// (`"min"`, `"50%"`, `"max"`, ...) to one or more breakpoint values,
/// kept in the order the host listed them.
#[derive(Debug, Clone, PartialEq)]
pub struct Range(pub Vec<(String, Vec<i64>)>);

impl Range {
    /// True when some stop carries the given name together with at least
    /// one breakpoint value.
    pub open spec fn spec_has_stop(self, name: Seq<char>) -> bool {
        exists|i: int|
            0 <= i < self.0@.len() && self.0@[i].0@ == name && self.0@[i].1@.len() > 0
    }

    /// True when the track has both of the bounds the widget requires.
    pub open spec fn spec_has_bounds(self) -> bool {
        self.spec_has_stop("min"@) && self.spec_has_stop("max"@)
    }

    /// Whether some stop named `name` holds at least one value.
    pub fn has_stop(&self, name: &String) -> (r: bool)
        ensures
            r == self.spec_has_stop(name@),
    {
        let mut i: usize = 0;
        while i < self.0.len()
            invariant
                0 <= i <= self.0@.len(),
                forall|j: int|
                    0 <= j < i ==> !(self.0@[j].0@ == name@ && self.0@[j].1@.len() > 0),
            decreases self.0@.len() - i,
        {
            let (stop, values) = &self.0[i];
            if stop.eq(name) && values.len() > 0 {
                return true;
            }
            i = i + 1;
        }
        false
    }
}

/// Configuration of the secondary scale markers rendered along the track.
#[derive(Debug, Clone, PartialEq)]
pub struct Pips {
    pub mode: String,
    pub density: Option<i64>,
    pub values: Option<Vec<i64>>,
    pub stepped: Option<bool>,
}

impl Default for Pips {
    /// An empty marker configuration: no density, values or stepping.
    fn default() -> (r: Self)
        ensures
            r.mode@ == Seq::<char>::empty(),
            r.density is None,
            r.values is None,
            r.stepped is None,
    {
        Pips { mode: String::new(), density: None, values: None, stepped: None }
    }
}

/// Host-supplied label text that overrides the widget's auto-generated
/// tooltip and pip text, index-aligned with the rendered elements.
#[derive(Debug, Clone, PartialEq)]
pub struct FormattedValues {
    pub tooltips_text: Vec<String>,
    pub pips_text: Vec<String>,
}

impl Default for FormattedValues {
    /// No overrides: every rendered text keeps its auto-generated value.
    fn default() -> (r: Self)
        ensures
            r.tooltips_text@.len() == 0,
            r.pips_text@.len() == 0,
    {
        FormattedValues { tooltips_text: Vec::new(), pips_text: Vec::new() }
    }
}

/// Per-handle attribute maps applied to the handle elements, each a list
/// of attribute-name / attribute-value pairs.
#[derive(Debug, Clone, PartialEq)]
pub struct HandleAttributes(pub Vec<Vec<(String, String)>>);

/// The creation-time option record.  `start` determines the handle count;
/// every optional field is forwarded to the widget only when it is set.
#[derive(Debug, Clone, PartialEq)]
pub struct Options {
    pub values: FormattedValues,
    pub start: Vec<i64>,
    pub range: Range,
    pub connect: Option<Vec<bool>>,
    pub step: Option<i64>,
    pub snap: Option<bool>,
    pub margin: Option<i64>,
    pub limit: Option<i64>,
    pub padding: Option<Vec<i64>>,
    pub orientation: Option<String>,
    pub direction: Option<String>,
    pub animate: Option<bool>,
    pub pips: Option<Pips>,
    pub tooltips: Option<bool>,
    pub behaviour: Option<String>,
    pub handle_attributes: Option<HandleAttributes>,
    pub keyboard_support: Option<bool>,
    pub keyboard_default_step: Option<i64>,
    pub keyboard_page_multiplier: Option<i64>,
    pub keyboard_multiplier: Option<i64>,
    pub css_prefix: Option<String>,
    pub css_classes: Option<Vec<String>>,
}

/// The character sequences of a list of strings, index for index.
pub open spec fn texts_of(v: Seq<String>) -> Seq<Seq<char>> {
    Seq::new(v.len(), |i: int| v[i]@)
}

}
