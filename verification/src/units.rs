//! Units of measurement: six named units, or a URL.

use crate::json::Json;
use crate::json::JsonView;
use crate::scalars::same_json;
use crate::text::outline;
use crate::text::same_text;
use crate::url::is_canonical;
use crate::url::parsed_url;
use crate::url::Url;
use vstd::prelude::*;

verus! {

/// A unit of measurement: one of six named units, or a URL that identifies
/// another.
#[derive(Debug, PartialEq, Eq)]
pub enum Units {
    Cm,
    Feet,
    Inches,
    Km,
    M,
    Miles,
    Url(Url),
}

/// The mathematical value of [`Units`].
pub ghost enum UnitsView {
    Cm,
    Feet,
    Inches,
    Km,
    M,
    Miles,
    Url(Seq<char>),
}

impl View for Units {
    type V = UnitsView;

    open spec fn view(&self) -> UnitsView {
        match self {
            Units::Cm => UnitsView::Cm,
            Units::Feet => UnitsView::Feet,
            Units::Inches => UnitsView::Inches,
            Units::Km => UnitsView::Km,
            Units::M => UnitsView::M,
            Units::Miles => UnitsView::Miles,
            Units::Url(url) => UnitsView::Url(url@),
        }
    }
}

/// The named unit that a word stands for.
pub open spec fn named_unit(word: Seq<char>) -> Option<UnitsView> {
    if word == "cm"@ {
        Some(UnitsView::Cm)
    } else if word == "feet"@ {
        Some(UnitsView::Feet)
    } else if word == "inches"@ {
        Some(UnitsView::Inches)
    } else if word == "km"@ {
        Some(UnitsView::Km)
    } else if word == "m"@ {
        Some(UnitsView::M)
    } else if word == "miles"@ {
        Some(UnitsView::Miles)
    } else {
        None
    }
}

/// The text that a unit is written as: its word, or its URL.
pub open spec fn unit_text(unit: UnitsView) -> Seq<char> {
    match unit {
        UnitsView::Cm => "cm"@,
        UnitsView::Feet => "feet"@,
        UnitsView::Inches => "inches"@,
        UnitsView::Km => "km"@,
        UnitsView::M => "m"@,
        UnitsView::Miles => "miles"@,
        UnitsView::Url(url) => url,
    }
}

/// The unit that a text is read as: the named unit where the text is one of
/// the six words, else the URL that it parses to. A URL is never held under
/// a serialization that is one of the six words.
pub open spec fn text_unit(text: Seq<char>) -> Option<UnitsView> {
    match named_unit(text) {
        Some(unit) => Some(unit),
        None => match parsed_url(text) {
            Some(canonical) => match named_unit(canonical) {
                Some(unit) => Some(unit),
                None => Some(UnitsView::Url(canonical)),
            },
            None => None,
        },
    }
}

/// A unit is canonical when its URL, if it has one, is serialized and is
/// none of the six words.
pub open spec fn unit_wf(unit: UnitsView) -> bool {
    unit matches UnitsView::Url(url) ==> is_canonical(url) && named_unit(url) is None
}

/// Reading what a canonical unit is written as gives the unit back.
pub proof fn lemma_unit_round_trip(unit: UnitsView)
    requires
        unit_wf(unit),
    ensures
        text_unit(unit_text(unit)) == Some(unit),
{
    reveal_strlit("cm");
    assert(outline("cm"@) == (2nat, 'c', ' ', ' ', ' ', ' '));
    reveal_strlit("feet");
    assert(outline("feet"@) == (4nat, 'f', 'e', ' ', ' ', ' '));
    reveal_strlit("inches");
    assert(outline("inches"@) == (6nat, 'i', 'c', 's', ' ', ' '));
    reveal_strlit("km");
    assert(outline("km"@) == (2nat, 'k', ' ', ' ', ' ', ' '));
    reveal_strlit("m");
    assert(outline("m"@) == (1nat, 'm', ' ', ' ', ' ', ' '));
    reveal_strlit("miles");
    assert(outline("miles"@) == (5nat, 'm', 'l', ' ', ' ', ' '));
}

/// The tree that an optional unit is written as.
pub open spec fn units_json(units: Option<UnitsView>) -> Option<JsonView> {
    match units {
        Some(unit) => Some(JsonView::String(unit_text(unit))),
        None => None,
    }
}

/// The optional unit that a tree is read as.
pub open spec fn units_of(json: JsonView) -> Option<Option<UnitsView>> {
    match json {
        JsonView::Null => Some(None),
        JsonView::String(text) => match text_unit(text) {
            Some(unit) => Some(Some(unit)),
            None => None,
        },
        _ => None,
    }
}

/// The value of an optional unit.
pub open spec fn units_view(units: Option<Units>) -> Option<UnitsView> {
    match units {
        Some(unit) => Some(unit@),
        None => None,
    }
}

/// An optional unit is canonical when the unit, if any, is.
pub open spec fn units_wf(units: Option<UnitsView>) -> bool {
    units matches Some(unit) ==> unit_wf(unit)
}

/// Reading what a canonical optional unit is written as gives it back.
pub proof fn lemma_units_round_trip(units: Option<UnitsView>)
    requires
        units_wf(units),
    ensures
        match units_json(units) {
            Some(json) => units_of(json) == Some(units),
            None => units is None,
        },
{
    if let Some(unit) = units {
        lemma_unit_round_trip(unit);
    }
}

impl Units {
    /// The text that this unit is written as.
    pub fn to_text(&self) -> (r: String)
        ensures
            r@ == unit_text(self@),
    {
        match self {
            Units::Cm => "cm".to_owned(),
            Units::Feet => "feet".to_owned(),
            Units::Inches => "inches".to_owned(),
            Units::Km => "km".to_owned(),
            Units::M => "m".to_owned(),
            Units::Miles => "miles".to_owned(),
            Units::Url(url) => url.as_str().to_owned(),
        }
    }

    /// Whether this unit is canonical.
    pub fn is_canonical(&self) -> (r: bool)
        ensures
            r == unit_wf(self@),
    {
        match self {
            Units::Url(url) => url.is_canonical() && Units::named(url.as_str()).is_none(),
            _ => true,
        }
    }

    /// The named unit that a word stands for.
    pub fn named(word: &str) -> (r: Option<Units>)
        ensures
            match named_unit(word@) {
                Some(unit) => r matches Some(read) && read@ == unit,
                None => r is None,
            },
    {
        if same_text(word, "cm") {
            Some(Units::Cm)
        } else if same_text(word, "feet") {
            Some(Units::Feet)
        } else if same_text(word, "inches") {
            Some(Units::Inches)
        } else if same_text(word, "km") {
            Some(Units::Km)
        } else if same_text(word, "m") {
            Some(Units::M)
        } else if same_text(word, "miles") {
            Some(Units::Miles)
        } else {
            None
        }
    }

    /// The unit that a text is read as; `None` where the text is neither one
    /// of the six words nor a URL.
    pub fn from_text(text: &str) -> (r: Option<Units>)
        ensures
            match text_unit(text@) {
                Some(unit) => r matches Some(read) && read@ == unit,
                None => r is None,
            },
    {
        match Units::named(text) {
            Some(unit) => Some(unit),
            None => match Url::parse(text) {
                Some(url) => match Units::named(url.as_str()) {
                    Some(unit) => Some(unit),
                    None => Some(Units::Url(url)),
                },
                None => None,
            },
        }
    }
}

/// Writes an optional unit; `None` where there is none to write.
pub fn units_to_json(units: &Option<Units>) -> (r: Option<Json>)
    ensures
        same_json(r, units_json(units_view(*units))),
{
    match units {
        Some(unit) => Some(Json::String(unit.to_text())),
        None => None,
    }
}

/// Reads an optional unit; `None` where the tree is neither `null` nor a text
/// that is a unit.
pub fn units_from_json(json: &Json) -> (r: Option<Option<Units>>)
    ensures
        match units_of(json@) {
            Some(units) => r matches Some(read) && units_view(read) == units,
            None => r is None,
        },
{
    match json {
        Json::Null => Some(None),
        Json::String(text) => match Units::from_text(text.as_str()) {
            Some(unit) => Some(Some(unit)),
            None => None,
        },
        _ => None,
    }
}

/// Whether an optional unit is canonical.
pub fn units_are_canonical(units: &Option<Units>) -> (r: bool)
    ensures
        r == units_wf(units_view(*units)),
{
    match units {
        Some(unit) => unit.is_canonical(),
        None => true,
    }
}

} // verus!
