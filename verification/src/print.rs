//! The print portal: page orientation and print quality.

use vstd::prelude::*;
use crate::error::AshpdError;
use crate::text::str_equals;
use crate::handle_token::{is_fresh_token, HandleToken};
use crate::proxy::{desktop_destination, desktop_path, Proxy, ProxyView};
use crate::text::{opt_owned, opt_str, opt_text};

verus! {

/// The page orientation.
#[derive(Debug, Clone, Copy, PartialEq, Eq, Structural)]
pub enum Orientation {
    /// Landscape.
    Landscape,
    /// Portrait.
    Portrait,
    /// Landscape, turned upside down.
    ReverseLandscape,
    /// Portrait, turned upside down.
    ReversePortrait,
}

/// The name under which a [`Orientation`] is shown.
pub open spec fn orientation_text(x: Orientation) -> Seq<char> {
    match x {
        Orientation::Landscape => "Landscape"@,
        Orientation::Portrait => "Portrait"@,
        Orientation::ReverseLandscape => "Reverse Landscape"@,
        Orientation::ReversePortrait => "Reverse Portrait"@,
    }
}

/// What `orientation_text` gives, value by value, each different from the others:
/// Landscape is "Landscape"; Portrait is "Portrait"; ReverseLandscape is "Reverse Landscape"; ReversePortrait is "Reverse Portrait".
pub proof fn lemma_orientation_text_values(x: Orientation)
    ensures
        (orientation_text(x) == "Landscape"@) == (x is Landscape),
        (orientation_text(x) == "Portrait"@) == (x is Portrait),
        (orientation_text(x) == "Reverse Landscape"@) == (x is ReverseLandscape),
        (orientation_text(x) == "Reverse Portrait"@) == (x is ReversePortrait),
{
    reveal_strlit("Landscape");
    reveal_strlit("Portrait");
    reveal_strlit("Reverse Landscape");
    reveal_strlit("Reverse Portrait");
    assert("Landscape"@.len() != "Portrait"@.len());
    assert("Landscape"@.len() != "Reverse Landscape"@.len());
    assert("Landscape"@.len() != "Reverse Portrait"@.len());
    assert("Portrait"@.len() != "Reverse Landscape"@.len());
    assert("Portrait"@.len() != "Reverse Portrait"@.len());
    assert("Reverse Landscape"@.len() != "Reverse Portrait"@.len());
}

/// The name of a [`Orientation`] on the bus.
pub open spec fn orientation_wire(x: Orientation) -> Seq<char> {
    match x {
        Orientation::Landscape => "landscape"@,
        Orientation::Portrait => "portrait"@,
        Orientation::ReverseLandscape => "reverse_landscape"@,
        Orientation::ReversePortrait => "reverse_portrait"@,
    }
}

/// What `orientation_wire` gives, value by value, each different from the others:
/// Landscape is "landscape"; Portrait is "portrait"; ReverseLandscape is "reverse_landscape"; ReversePortrait is "reverse_portrait".
pub proof fn lemma_orientation_wire_values(x: Orientation)
    ensures
        (orientation_wire(x) == "landscape"@) == (x is Landscape),
        (orientation_wire(x) == "portrait"@) == (x is Portrait),
        (orientation_wire(x) == "reverse_landscape"@) == (x is ReverseLandscape),
        (orientation_wire(x) == "reverse_portrait"@) == (x is ReversePortrait),
{
    reveal_strlit("landscape");
    reveal_strlit("portrait");
    reveal_strlit("reverse_landscape");
    reveal_strlit("reverse_portrait");
    assert("landscape"@.len() != "portrait"@.len());
    assert("landscape"@.len() != "reverse_landscape"@.len());
    assert("landscape"@.len() != "reverse_portrait"@.len());
    assert("portrait"@.len() != "reverse_landscape"@.len());
    assert("portrait"@.len() != "reverse_portrait"@.len());
    assert("reverse_landscape"@.len() != "reverse_portrait"@.len());
}

/// The [`Orientation`] that a text names, if any.
pub open spec fn parse_orientation(s: Seq<char>) -> Option<Orientation> {
    if s == "Landscape"@ || s == "landscape"@ {
        Some(Orientation::Landscape)
    } else if s == "Portrait"@ || s == "portrait"@ {
        Some(Orientation::Portrait)
    } else if s == "ReverseLandscape"@ || s == "reverse_landscape"@ {
        Some(Orientation::ReverseLandscape)
    } else if s == "ReversePortrait"@ || s == "reverse_portrait"@ {
        Some(Orientation::ReversePortrait)
    } else {
        None
    }
}

/// Which text names which `Orientation`: each value is named by its name as a
/// word and by its name on the bus, and no other text names one.
pub proof fn lemma_parse_orientation_names(s: Seq<char>)
    ensures
        (parse_orientation(s) == Some(Orientation::Landscape)) == (s == "Landscape"@ || s == "landscape"@),
        (parse_orientation(s) == Some(Orientation::Portrait)) == (s == "Portrait"@ || s == "portrait"@),
        (parse_orientation(s) == Some(Orientation::ReverseLandscape)) == (s == "ReverseLandscape"@ || s == "reverse_landscape"@),
        (parse_orientation(s) == Some(Orientation::ReversePortrait)) == (s == "ReversePortrait"@ || s == "reverse_portrait"@),
{
    reveal_strlit("Landscape");
    reveal_strlit("landscape");
    reveal_strlit("Portrait");
    reveal_strlit("portrait");
    reveal_strlit("ReverseLandscape");
    reveal_strlit("reverse_landscape");
    reveal_strlit("ReversePortrait");
    reveal_strlit("reverse_portrait");
    assert("Landscape"@[0] != "landscape"@[0]);
    assert("Landscape"@.len() != "Portrait"@.len());
    assert("Landscape"@.len() != "portrait"@.len());
    assert("Landscape"@.len() != "ReverseLandscape"@.len());
    assert("Landscape"@.len() != "reverse_landscape"@.len());
    assert("Landscape"@.len() != "ReversePortrait"@.len());
    assert("Landscape"@.len() != "reverse_portrait"@.len());
    assert("landscape"@.len() != "Portrait"@.len());
    assert("landscape"@.len() != "portrait"@.len());
    assert("landscape"@.len() != "ReverseLandscape"@.len());
    assert("landscape"@.len() != "reverse_landscape"@.len());
    assert("landscape"@.len() != "ReversePortrait"@.len());
    assert("landscape"@.len() != "reverse_portrait"@.len());
    assert("Portrait"@[0] != "portrait"@[0]);
    assert("Portrait"@.len() != "ReverseLandscape"@.len());
    assert("Portrait"@.len() != "reverse_landscape"@.len());
    assert("Portrait"@.len() != "ReversePortrait"@.len());
    assert("Portrait"@.len() != "reverse_portrait"@.len());
    assert("portrait"@.len() != "ReverseLandscape"@.len());
    assert("portrait"@.len() != "reverse_landscape"@.len());
    assert("portrait"@.len() != "ReversePortrait"@.len());
    assert("portrait"@.len() != "reverse_portrait"@.len());
    assert("ReverseLandscape"@.len() != "reverse_landscape"@.len());
    assert("ReverseLandscape"@.len() != "ReversePortrait"@.len());
    assert("ReverseLandscape"@[0] != "reverse_portrait"@[0]);
    assert("reverse_landscape"@.len() != "ReversePortrait"@.len());
    assert("reverse_landscape"@.len() != "reverse_portrait"@.len());
    assert("ReversePortrait"@.len() != "reverse_portrait"@.len());}

/// The message of the error that an unknown [`Orientation`] name gives.
pub open spec fn orientation_parse_message() -> Seq<char> {
    "Failed to parse orientation, invalid value"@
}

impl Orientation {
    /// The name under which the value is shown.
    pub fn as_str(&self) -> (s: &'static str)
        ensures
            s@ == orientation_text(*self),
    {
        match self {
            Orientation::Landscape => "Landscape",
            Orientation::Portrait => "Portrait",
            Orientation::ReverseLandscape => "Reverse Landscape",
            Orientation::ReversePortrait => "Reverse Portrait",
        }
    }

    /// The name of the value on the bus.
    pub fn wire_name(&self) -> (s: &'static str)
        ensures
            s@ == orientation_wire(*self),
    {
        match self {
            Orientation::Landscape => "landscape",
            Orientation::Portrait => "portrait",
            Orientation::ReverseLandscape => "reverse_landscape",
            Orientation::ReversePortrait => "reverse_portrait",
        }
    }

    /// The value that a text names; a parse error for any other text.
    pub fn from_str(s: &str) -> (r: Result<Orientation, AshpdError>)
        ensures
            match r {
                Ok(x) => parse_orientation(s@) == Some(x),
                Err(e) => parse_orientation(s@) is None && (e matches AshpdError::ParseError(m) && m@
                    == orientation_parse_message()),
            },
    {
        if str_equals(s, "Landscape") || str_equals(s, "landscape") {
            Ok(Orientation::Landscape)
        } else if str_equals(s, "Portrait") || str_equals(s, "portrait") {
            Ok(Orientation::Portrait)
        } else if str_equals(s, "ReverseLandscape") || str_equals(s, "reverse_landscape") {
            Ok(Orientation::ReverseLandscape)
        } else if str_equals(s, "ReversePortrait") || str_equals(s, "reverse_portrait") {
            Ok(Orientation::ReversePortrait)
        } else {
            Err(AshpdError::ParseError("Failed to parse orientation, invalid value"))
        }
    }
}

/// Parsing the name of a value on the bus gives the value back.
pub proof fn lemma_orientation_wire_round_trip(x: Orientation)
    ensures
        parse_orientation(orientation_wire(x)) == Some(x),
{
    reveal_strlit("Landscape");
    reveal_strlit("landscape");
    reveal_strlit("Portrait");
    reveal_strlit("portrait");
    reveal_strlit("Reverse Landscape");
    reveal_strlit("reverse_landscape");
    reveal_strlit("ReverseLandscape");
    reveal_strlit("Reverse Portrait");
    reveal_strlit("reverse_portrait");
    reveal_strlit("ReversePortrait");
    assert("portrait"@.len() == 8 && "Landscape"@.len() == 9);
    assert("portrait"@ != "Landscape"@);
    assert("portrait"@.len() == 8 && "landscape"@.len() == 9);
    assert("portrait"@ != "landscape"@);
    assert("reverse_landscape"@.len() == 17 && "Landscape"@.len() == 9);
    assert("reverse_landscape"@ != "Landscape"@);
    assert("reverse_landscape"@.len() == 17 && "landscape"@.len() == 9);
    assert("reverse_landscape"@ != "landscape"@);
    assert("reverse_landscape"@.len() == 17 && "Portrait"@.len() == 8);
    assert("reverse_landscape"@ != "Portrait"@);
    assert("reverse_landscape"@.len() == 17 && "portrait"@.len() == 8);
    assert("reverse_landscape"@ != "portrait"@);
    assert("reverse_portrait"@.len() == 16 && "Landscape"@.len() == 9);
    assert("reverse_portrait"@ != "Landscape"@);
    assert("reverse_portrait"@.len() == 16 && "landscape"@.len() == 9);
    assert("reverse_portrait"@ != "landscape"@);
    assert("reverse_portrait"@.len() == 16 && "Portrait"@.len() == 8);
    assert("reverse_portrait"@ != "Portrait"@);
    assert("reverse_portrait"@.len() == 16 && "portrait"@.len() == 8);
    assert("reverse_portrait"@ != "portrait"@);
    assert("reverse_portrait"@[0] != "ReverseLandscape"@[0]);
    assert("reverse_portrait"@ != "ReverseLandscape"@);
    assert("reverse_portrait"@.len() == 16 && "reverse_landscape"@.len() == 17);
    assert("reverse_portrait"@ != "reverse_landscape"@);
}

/// Parsing the name under which a value is shown gives the value back, for
/// the values whose shown name is one the parser takes.
pub proof fn lemma_orientation_text_round_trip(x: Orientation)
    requires
        x != Orientation::ReverseLandscape && x != Orientation::ReversePortrait,
    ensures
        parse_orientation(orientation_text(x)) == Some(x),
{
    reveal_strlit("Landscape");
    reveal_strlit("landscape");
    reveal_strlit("Portrait");
    reveal_strlit("portrait");
    reveal_strlit("Reverse Landscape");
    reveal_strlit("reverse_landscape");
    reveal_strlit("ReverseLandscape");
    reveal_strlit("Reverse Portrait");
    reveal_strlit("reverse_portrait");
    reveal_strlit("ReversePortrait");
    assert("Portrait"@.len() == 8 && "Landscape"@.len() == 9);
    assert("Portrait"@ != "Landscape"@);
    assert("Portrait"@.len() == 8 && "landscape"@.len() == 9);
    assert("Portrait"@ != "landscape"@);
    assert("Reverse Landscape"@.len() == 17 && "Landscape"@.len() == 9);
    assert("Reverse Landscape"@ != "Landscape"@);
    assert("Reverse Landscape"@.len() == 17 && "landscape"@.len() == 9);
    assert("Reverse Landscape"@ != "landscape"@);
    assert("Reverse Landscape"@.len() == 17 && "Portrait"@.len() == 8);
    assert("Reverse Landscape"@ != "Portrait"@);
    assert("Reverse Landscape"@.len() == 17 && "portrait"@.len() == 8);
    assert("Reverse Landscape"@ != "portrait"@);
    assert("Reverse Portrait"@.len() == 16 && "Landscape"@.len() == 9);
    assert("Reverse Portrait"@ != "Landscape"@);
    assert("Reverse Portrait"@.len() == 16 && "landscape"@.len() == 9);
    assert("Reverse Portrait"@ != "landscape"@);
    assert("Reverse Portrait"@.len() == 16 && "Portrait"@.len() == 8);
    assert("Reverse Portrait"@ != "Portrait"@);
    assert("Reverse Portrait"@.len() == 16 && "portrait"@.len() == 8);
    assert("Reverse Portrait"@ != "portrait"@);
    assert("Reverse Portrait"@[7] != "ReverseLandscape"@[7]);
    assert("Reverse Portrait"@ != "ReverseLandscape"@);
    assert("Reverse Portrait"@.len() == 16 && "reverse_landscape"@.len() == 17);
    assert("Reverse Portrait"@ != "reverse_landscape"@);
}

/// The print quality.
#[derive(Debug, Clone, Copy, PartialEq, Eq, Structural)]
pub enum Quality {
    /// Draft quality.
    Draft,
    /// Low quality.
    Low,
    /// Normal quality.
    Normal,
    /// High quality.
    High,
}

/// The name under which a [`Quality`] is shown.
pub open spec fn quality_text(x: Quality) -> Seq<char> {
    match x {
        Quality::Draft => "Draft"@,
        Quality::Low => "Low"@,
        Quality::Normal => "Normal"@,
        Quality::High => "High"@,
    }
}

/// What `quality_text` gives, value by value, each different from the others:
/// Draft is "Draft"; Low is "Low"; Normal is "Normal"; High is "High".
pub proof fn lemma_quality_text_values(x: Quality)
    ensures
        (quality_text(x) == "Draft"@) == (x is Draft),
        (quality_text(x) == "Low"@) == (x is Low),
        (quality_text(x) == "Normal"@) == (x is Normal),
        (quality_text(x) == "High"@) == (x is High),
{
    reveal_strlit("Draft");
    reveal_strlit("High");
    reveal_strlit("Low");
    reveal_strlit("Normal");
    assert("Draft"@.len() != "High"@.len());
    assert("Draft"@.len() != "Low"@.len());
    assert("Draft"@.len() != "Normal"@.len());
    assert("High"@.len() != "Low"@.len());
    assert("High"@.len() != "Normal"@.len());
    assert("Low"@.len() != "Normal"@.len());
}

/// The name of a [`Quality`] on the bus.
pub open spec fn quality_wire(x: Quality) -> Seq<char> {
    match x {
        Quality::Draft => "draft"@,
        Quality::Low => "low"@,
        Quality::Normal => "normal"@,
        Quality::High => "high"@,
    }
}

/// What `quality_wire` gives, value by value, each different from the others:
/// Draft is "draft"; Low is "low"; Normal is "normal"; High is "high".
pub proof fn lemma_quality_wire_values(x: Quality)
    ensures
        (quality_wire(x) == "draft"@) == (x is Draft),
        (quality_wire(x) == "low"@) == (x is Low),
        (quality_wire(x) == "normal"@) == (x is Normal),
        (quality_wire(x) == "high"@) == (x is High),
{
    reveal_strlit("draft");
    reveal_strlit("high");
    reveal_strlit("low");
    reveal_strlit("normal");
    assert("draft"@.len() != "high"@.len());
    assert("draft"@.len() != "low"@.len());
    assert("draft"@.len() != "normal"@.len());
    assert("high"@.len() != "low"@.len());
    assert("high"@.len() != "normal"@.len());
    assert("low"@.len() != "normal"@.len());
}

/// The [`Quality`] that a text names, if any.
pub open spec fn parse_quality(s: Seq<char>) -> Option<Quality> {
    if s == "Draft"@ || s == "draft"@ {
        Some(Quality::Draft)
    } else if s == "Low"@ || s == "low"@ {
        Some(Quality::Low)
    } else if s == "Normal"@ || s == "normal"@ {
        Some(Quality::Normal)
    } else if s == "High"@ || s == "high"@ {
        Some(Quality::High)
    } else {
        None
    }
}

/// A text names a `Quality` exactly where it is that value's shown name or its
/// name on the bus; no other text names one.
pub proof fn lemma_parse_quality_names(s: Seq<char>, x: Quality)
    ensures
        (parse_quality(s) == Some(x)) == (s == quality_text(x) || s == quality_wire(x)),
{
    reveal_strlit("Draft");
    reveal_strlit("draft");
    reveal_strlit("Low");
    reveal_strlit("low");
    reveal_strlit("Normal");
    reveal_strlit("normal");
    reveal_strlit("High");
    reveal_strlit("high");
    assert("Draft"@[0] != "draft"@[0]);
    assert("Draft"@.len() != "Low"@.len());
    assert("Draft"@.len() != "low"@.len());
    assert("Draft"@.len() != "Normal"@.len());
    assert("Draft"@.len() != "normal"@.len());
    assert("Draft"@.len() != "High"@.len());
    assert("Draft"@.len() != "high"@.len());
    assert("draft"@.len() != "Low"@.len());
    assert("draft"@.len() != "low"@.len());
    assert("draft"@.len() != "Normal"@.len());
    assert("draft"@.len() != "normal"@.len());
    assert("draft"@.len() != "High"@.len());
    assert("draft"@.len() != "high"@.len());
    assert("Low"@[0] != "low"@[0]);
    assert("Low"@.len() != "Normal"@.len());
    assert("Low"@.len() != "normal"@.len());
    assert("Low"@.len() != "High"@.len());
    assert("Low"@.len() != "high"@.len());
    assert("low"@.len() != "Normal"@.len());
    assert("low"@.len() != "normal"@.len());
    assert("low"@.len() != "High"@.len());
    assert("low"@.len() != "high"@.len());
    assert("Normal"@[0] != "normal"@[0]);
    assert("Normal"@.len() != "High"@.len());
    assert("Normal"@.len() != "high"@.len());
    assert("normal"@.len() != "High"@.len());
    assert("normal"@.len() != "high"@.len());
    assert("High"@[0] != "high"@[0]);
}

/// The message of the error that an unknown [`Quality`] name gives.
pub open spec fn quality_parse_message() -> Seq<char> {
    "Failed to parse quality, invalid value"@
}

impl Quality {
    /// The name under which the value is shown.
    pub fn as_str(&self) -> (s: &'static str)
        ensures
            s@ == quality_text(*self),
    {
        match self {
            Quality::Draft => "Draft",
            Quality::Low => "Low",
            Quality::Normal => "Normal",
            Quality::High => "High",
        }
    }

    /// The name of the value on the bus.
    pub fn wire_name(&self) -> (s: &'static str)
        ensures
            s@ == quality_wire(*self),
    {
        match self {
            Quality::Draft => "draft",
            Quality::Low => "low",
            Quality::Normal => "normal",
            Quality::High => "high",
        }
    }

    /// The value that a text names; a parse error for any other text.
    pub fn from_str(s: &str) -> (r: Result<Quality, AshpdError>)
        ensures
            match r {
                Ok(x) => parse_quality(s@) == Some(x),
                Err(e) => parse_quality(s@) is None && (e matches AshpdError::ParseError(m) && m@
                    == quality_parse_message()),
            },
    {
        if str_equals(s, "Draft") || str_equals(s, "draft") {
            Ok(Quality::Draft)
        } else if str_equals(s, "Low") || str_equals(s, "low") {
            Ok(Quality::Low)
        } else if str_equals(s, "Normal") || str_equals(s, "normal") {
            Ok(Quality::Normal)
        } else if str_equals(s, "High") || str_equals(s, "high") {
            Ok(Quality::High)
        } else {
            Err(AshpdError::ParseError("Failed to parse quality, invalid value"))
        }
    }
}

/// Parsing the name of a value on the bus gives the value back.
pub proof fn lemma_quality_wire_round_trip(x: Quality)
    ensures
        parse_quality(quality_wire(x)) == Some(x),
{
    reveal_strlit("Draft");
    reveal_strlit("draft");
    reveal_strlit("Low");
    reveal_strlit("low");
    reveal_strlit("Normal");
    reveal_strlit("normal");
    reveal_strlit("High");
    reveal_strlit("high");
    assert("low"@.len() == 3 && "Draft"@.len() == 5);
    assert("low"@ != "Draft"@);
    assert("low"@.len() == 3 && "draft"@.len() == 5);
    assert("low"@ != "draft"@);
    assert("normal"@.len() == 6 && "Draft"@.len() == 5);
    assert("normal"@ != "Draft"@);
    assert("normal"@.len() == 6 && "draft"@.len() == 5);
    assert("normal"@ != "draft"@);
    assert("normal"@.len() == 6 && "Low"@.len() == 3);
    assert("normal"@ != "Low"@);
    assert("normal"@.len() == 6 && "low"@.len() == 3);
    assert("normal"@ != "low"@);
    assert("high"@.len() == 4 && "Draft"@.len() == 5);
    assert("high"@ != "Draft"@);
    assert("high"@.len() == 4 && "draft"@.len() == 5);
    assert("high"@ != "draft"@);
    assert("high"@.len() == 4 && "Low"@.len() == 3);
    assert("high"@ != "Low"@);
    assert("high"@.len() == 4 && "low"@.len() == 3);
    assert("high"@ != "low"@);
    assert("high"@.len() == 4 && "Normal"@.len() == 6);
    assert("high"@ != "Normal"@);
    assert("high"@.len() == 4 && "normal"@.len() == 6);
    assert("high"@ != "normal"@);
}

/// Parsing the name under which a value is shown gives the value back.
pub proof fn lemma_quality_text_round_trip(x: Quality)
    ensures
        parse_quality(quality_text(x)) == Some(x),
{
    reveal_strlit("Draft");
    reveal_strlit("draft");
    reveal_strlit("Low");
    reveal_strlit("low");
    reveal_strlit("Normal");
    reveal_strlit("normal");
    reveal_strlit("High");
    reveal_strlit("high");
    assert("Low"@.len() == 3 && "Draft"@.len() == 5);
    assert("Low"@ != "Draft"@);
    assert("Low"@.len() == 3 && "draft"@.len() == 5);
    assert("Low"@ != "draft"@);
    assert("Normal"@.len() == 6 && "Draft"@.len() == 5);
    assert("Normal"@ != "Draft"@);
    assert("Normal"@.len() == 6 && "draft"@.len() == 5);
    assert("Normal"@ != "draft"@);
    assert("Normal"@.len() == 6 && "Low"@.len() == 3);
    assert("Normal"@ != "Low"@);
    assert("Normal"@.len() == 6 && "low"@.len() == 3);
    assert("Normal"@ != "low"@);
    assert("High"@.len() == 4 && "Draft"@.len() == 5);
    assert("High"@ != "Draft"@);
    assert("High"@.len() == 4 && "draft"@.len() == 5);
    assert("High"@ != "draft"@);
    assert("High"@.len() == 4 && "Low"@.len() == 3);
    assert("High"@ != "Low"@);
    assert("High"@.len() == 4 && "low"@.len() == 3);
    assert("High"@ != "low"@);
    assert("High"@.len() == 4 && "Normal"@.len() == 6);
    assert("High"@ != "Normal"@);
    assert("High"@.len() == 4 && "normal"@.len() == 6);
    assert("High"@ != "normal"@);
}

/// Print settings to set in the print dialog.
#[derive(Debug)]
pub struct Settings {
    orientation: Option<Orientation>,
    paper_format: Option<String>,
    paper_width: Option<String>,
    paper_height: Option<String>,
    n_copies: Option<String>,
    default_source: Option<String>,
    quality: Option<Quality>,
    resolution: Option<String>,
    use_color: Option<bool>,
    duplex: Option<String>,
    collate: Option<String>,
    reverse: Option<String>,
    media_type: Option<String>,
    dither: Option<String>,
    scale: Option<String>,
    print_pages: Option<String>,
    page_ranges: Option<String>,
    page_set: Option<String>,
    finishings: Option<String>,
    number_up: Option<String>,
    number_up_layout: Option<String>,
    output_bin: Option<String>,
    resolution_x: Option<String>,
    resolution_y: Option<String>,
    print_lpi: Option<String>,
    output_basename: Option<String>,
    output_file_format: Option<String>,
    output_uri: Option<String>,
}

/// The model of a [`Settings`].
pub struct SettingsView {
    pub orientation: Option<Orientation>,
    pub paper_format: Option<Seq<char>>,
    pub paper_width: Option<Seq<char>>,
    pub paper_height: Option<Seq<char>>,
    pub n_copies: Option<Seq<char>>,
    pub default_source: Option<Seq<char>>,
    pub quality: Option<Quality>,
    pub resolution: Option<Seq<char>>,
    pub use_color: Option<bool>,
    pub duplex: Option<Seq<char>>,
    pub collate: Option<Seq<char>>,
    pub reverse: Option<Seq<char>>,
    pub media_type: Option<Seq<char>>,
    pub dither: Option<Seq<char>>,
    pub scale: Option<Seq<char>>,
    pub print_pages: Option<Seq<char>>,
    pub page_ranges: Option<Seq<char>>,
    pub page_set: Option<Seq<char>>,
    pub finishings: Option<Seq<char>>,
    pub number_up: Option<Seq<char>>,
    pub number_up_layout: Option<Seq<char>>,
    pub output_bin: Option<Seq<char>>,
    pub resolution_x: Option<Seq<char>>,
    pub resolution_y: Option<Seq<char>>,
    pub print_lpi: Option<Seq<char>>,
    pub output_basename: Option<Seq<char>>,
    pub output_file_format: Option<Seq<char>>,
    pub output_uri: Option<Seq<char>>,
}

impl View for Settings {
    type V = SettingsView;

    closed spec fn view(&self) -> SettingsView {
        SettingsView {
            orientation: self.orientation,
            paper_format: opt_text(self.paper_format),
            paper_width: opt_text(self.paper_width),
            paper_height: opt_text(self.paper_height),
            n_copies: opt_text(self.n_copies),
            default_source: opt_text(self.default_source),
            quality: self.quality,
            resolution: opt_text(self.resolution),
            use_color: self.use_color,
            duplex: opt_text(self.duplex),
            collate: opt_text(self.collate),
            reverse: opt_text(self.reverse),
            media_type: opt_text(self.media_type),
            dither: opt_text(self.dither),
            scale: opt_text(self.scale),
            print_pages: opt_text(self.print_pages),
            page_ranges: opt_text(self.page_ranges),
            page_set: opt_text(self.page_set),
            finishings: opt_text(self.finishings),
            number_up: opt_text(self.number_up),
            number_up_layout: opt_text(self.number_up_layout),
            output_bin: opt_text(self.output_bin),
            resolution_x: opt_text(self.resolution_x),
            resolution_y: opt_text(self.resolution_y),
            print_lpi: opt_text(self.print_lpi),
            output_basename: opt_text(self.output_basename),
            output_file_format: opt_text(self.output_file_format),
            output_uri: opt_text(self.output_uri),
        }
    }
}

impl Settings {
    /// A request with every option unset.
    pub fn default() -> (r: Settings)
        ensures
            r@.orientation is None,
            r@.paper_format is None,
            r@.paper_width is None,
            r@.paper_height is None,
            r@.n_copies is None,
            r@.default_source is None,
            r@.quality is None,
            r@.resolution is None,
            r@.use_color is None,
            r@.duplex is None,
            r@.collate is None,
            r@.reverse is None,
            r@.media_type is None,
            r@.dither is None,
            r@.scale is None,
            r@.print_pages is None,
            r@.page_ranges is None,
            r@.page_set is None,
            r@.finishings is None,
            r@.number_up is None,
            r@.number_up_layout is None,
            r@.output_bin is None,
            r@.resolution_x is None,
            r@.resolution_y is None,
            r@.print_lpi is None,
            r@.output_basename is None,
            r@.output_file_format is None,
            r@.output_uri is None,
    {
        Settings {
            orientation: None,
            paper_format: None,
            paper_width: None,
            paper_height: None,
            n_copies: None,
            default_source: None,
            quality: None,
            resolution: None,
            use_color: None,
            duplex: None,
            collate: None,
            reverse: None,
            media_type: None,
            dither: None,
            scale: None,
            print_pages: None,
            page_ranges: None,
            page_set: None,
            finishings: None,
            number_up: None,
            number_up_layout: None,
            output_bin: None,
            resolution_x: None,
            resolution_y: None,
            print_lpi: None,
            output_basename: None,
            output_file_format: None,
            output_uri: None,
        }
    }

    /// Sets the orientation.
    pub fn orientation(self, orientation: Option<Orientation>) -> (r: Self)
        ensures
            r@ == (SettingsView { orientation: orientation, ..self@ }),
    {
        let mut r = self;
        r.orientation = orientation;
        r
    }

    /// Sets the paper name according to PWG 5101.1-2002.
    pub fn paper_format(self, paper_format: Option<&str>) -> (r: Self)
        ensures
            r@ == (SettingsView { paper_format: opt_str(paper_format), ..self@ }),
    {
        let mut r = self;
        r.paper_format = opt_owned(paper_format);
        r
    }

    /// Sets the paper width, in millimeters.
    pub fn paper_width(self, paper_width: Option<&str>) -> (r: Self)
        ensures
            r@ == (SettingsView { paper_width: opt_str(paper_width), ..self@ }),
    {
        let mut r = self;
        r.paper_width = opt_owned(paper_width);
        r
    }

    /// Sets the paper height, in millimeters.
    pub fn paper_height(self, paper_height: Option<&str>) -> (r: Self)
        ensures
            r@ == (SettingsView { paper_height: opt_str(paper_height), ..self@ }),
    {
        let mut r = self;
        r.paper_height = opt_owned(paper_height);
        r
    }

    /// Sets the number of copies to print.
    pub fn n_copies(self, n_copies: Option<&str>) -> (r: Self)
        ensures
            r@ == (SettingsView { n_copies: opt_str(n_copies), ..self@ }),
    {
        let mut r = self;
        r.n_copies = opt_owned(n_copies);
        r
    }

    /// Sets the default paper source.
    pub fn default_source(self, default_source: Option<&str>) -> (r: Self)
        ensures
            r@ == (SettingsView { default_source: opt_str(default_source), ..self@ }),
    {
        let mut r = self;
        r.default_source = opt_owned(default_source);
        r
    }

    /// Sets the print quality.
    pub fn quality(self, quality: Option<Quality>) -> (r: Self)
        ensures
            r@ == (SettingsView { quality: quality, ..self@ }),
    {
        let mut r = self;
        r.quality = quality;
        r
    }

    /// Sets the resolution, in dpi.
    pub fn resolution(self, resolution: Option<&str>) -> (r: Self)
        ensures
            r@ == (SettingsView { resolution: opt_str(resolution), ..self@ }),
    {
        let mut r = self;
        r.resolution = opt_owned(resolution);
        r
    }

    /// Sets whether to use colors.
    pub fn use_color(self, use_color: Option<bool>) -> (r: Self)
        ensures
            r@ == (SettingsView { use_color: use_color, ..self@ }),
    {
        let mut r = self;
        r.use_color = use_color;
        r
    }

    /// Sets the duplex mode: simplex, horizontal or vertical.
    pub fn duplex(self, duplex: Option<&str>) -> (r: Self)
        ensures
            r@ == (SettingsView { duplex: opt_str(duplex), ..self@ }),
    {
        let mut r = self;
        r.duplex = opt_owned(duplex);
        r
    }

    /// Sets whether to collate copies.
    pub fn collate(self, collate: Option<&str>) -> (r: Self)
        ensures
            r@ == (SettingsView { collate: opt_str(collate), ..self@ }),
    {
        let mut r = self;
        r.collate = opt_owned(collate);
        r
    }

    /// Sets whether to reverse the order of the printed pages.
    pub fn reverse(self, reverse: Option<&str>) -> (r: Self)
        ensures
            r@ == (SettingsView { reverse: opt_str(reverse), ..self@ }),
    {
        let mut r = self;
        r.reverse = opt_owned(reverse);
        r
    }

    /// Sets the media type, a string of the form of a mime type.
    pub fn media_type(self, media_type: Option<&str>) -> (r: Self)
        ensures
            r@ == (SettingsView { media_type: opt_str(media_type), ..self@ }),
    {
        let mut r = self;
        r.media_type = opt_owned(media_type);
        r
    }

    /// Sets the dithering to use.
    pub fn dither(self, dither: Option<&str>) -> (r: Self)
        ensures
            r@ == (SettingsView { dither: opt_str(dither), ..self@ }),
    {
        let mut r = self;
        r.dither = opt_owned(dither);
        r
    }

    /// Sets the page scale, in percent.
    pub fn scale(self, scale: Option<&str>) -> (r: Self)
        ensures
            r@ == (SettingsView { scale: opt_str(scale), ..self@ }),
    {
        let mut r = self;
        r.scale = opt_owned(scale);
        r
    }

    /// Sets what pages to print: all, selection, current or ranges.
    pub fn print_pages(self, print_pages: Option<&str>) -> (r: Self)
        ensures
            r@ == (SettingsView { print_pages: opt_str(print_pages), ..self@ }),
    {
        let mut r = self;
        r.print_pages = opt_owned(print_pages);
        r
    }

    /// Sets a list of page ranges, formatted like this: 0-2,4,9-11.
    pub fn page_ranges(self, page_ranges: Option<&str>) -> (r: Self)
        ensures
            r@ == (SettingsView { page_ranges: opt_str(page_ranges), ..self@ }),
    {
        let mut r = self;
        r.page_ranges = opt_owned(page_ranges);
        r
    }

    /// Sets what pages to print: all, even or odd.
    pub fn page_set(self, page_set: Option<&str>) -> (r: Self)
        ensures
            r@ == (SettingsView { page_set: opt_str(page_set), ..self@ }),
    {
        let mut r = self;
        r.page_set = opt_owned(page_set);
        r
    }

    /// Sets the finishings.
    pub fn finishings(self, finishings: Option<&str>) -> (r: Self)
        ensures
            r@ == (SettingsView { finishings: opt_str(finishings), ..self@ }),
    {
        let mut r = self;
        r.finishings = opt_owned(finishings);
        r
    }

    /// Sets the number of pages per sheet.
    pub fn number_up(self, number_up: Option<&str>) -> (r: Self)
        ensures
            r@ == (SettingsView { number_up: opt_str(number_up), ..self@ }),
    {
        let mut r = self;
        r.number_up = opt_owned(number_up);
        r
    }

    /// Sets the layout of the pages on a sheet.
    pub fn number_up_layout(self, number_up_layout: Option<&str>) -> (r: Self)
        ensures
            r@ == (SettingsView { number_up_layout: opt_str(number_up_layout), ..self@ }),
    {
        let mut r = self;
        r.number_up_layout = opt_owned(number_up_layout);
        r
    }

    /// Sets the output bin.
    pub fn output_bin(self, output_bin: Option<&str>) -> (r: Self)
        ensures
            r@ == (SettingsView { output_bin: opt_str(output_bin), ..self@ }),
    {
        let mut r = self;
        r.output_bin = opt_owned(output_bin);
        r
    }

    /// Sets the horizontal resolution in dpi.
    pub fn resolution_x(self, resolution_x: Option<&str>) -> (r: Self)
        ensures
            r@ == (SettingsView { resolution_x: opt_str(resolution_x), ..self@ }),
    {
        let mut r = self;
        r.resolution_x = opt_owned(resolution_x);
        r
    }

    /// Sets the vertical resolution in dpi.
    pub fn resolution_y(self, resolution_y: Option<&str>) -> (r: Self)
        ensures
            r@ == (SettingsView { resolution_y: opt_str(resolution_y), ..self@ }),
    {
        let mut r = self;
        r.resolution_y = opt_owned(resolution_y);
        r
    }

    /// Sets the resolution in lpi (lines per inch).
    pub fn print_lpi(self, print_lpi: Option<&str>) -> (r: Self)
        ensures
            r@ == (SettingsView { print_lpi: opt_str(print_lpi), ..self@ }),
    {
        let mut r = self;
        r.print_lpi = opt_owned(print_lpi);
        r
    }

    /// Sets the basename to use for print-to-file.
    pub fn output_basename(self, output_basename: Option<&str>) -> (r: Self)
        ensures
            r@ == (SettingsView { output_basename: opt_str(output_basename), ..self@ }),
    {
        let mut r = self;
        r.output_basename = opt_owned(output_basename);
        r
    }

    /// Sets the format to use for print-to-file: PDF, PS or SVG.
    pub fn output_file_format(self, output_file_format: Option<&str>) -> (r: Self)
        ensures
            r@ == (SettingsView { output_file_format: opt_str(output_file_format), ..self@ }),
    {
        let mut r = self;
        r.output_file_format = opt_owned(output_file_format);
        r
    }

    /// Sets the text of the URI to use for print-to-file.
    pub fn output_uri(self, output_uri: Option<&str>) -> (r: Self)
        ensures
            r@ == (SettingsView { output_uri: opt_str(output_uri), ..self@ }),
    {
        let mut r = self;
        r.output_uri = opt_owned(output_uri);
        r
    }
}

/// The options of a request to prepare a print.
#[derive(Debug)]
pub struct PreparePrintOptions {
    handle_token: HandleToken,
    modal: Option<bool>,
}

/// The model of a [`PreparePrintOptions`].
pub struct PreparePrintOptionsView {
    pub token: Seq<char>,
    pub modal: Option<bool>,
}

impl View for PreparePrintOptions {
    type V = PreparePrintOptionsView;

    closed spec fn view(&self) -> PreparePrintOptionsView {
        PreparePrintOptionsView {
            token: self.handle_token@,
            modal: self.modal,
        }
    }
}

impl PreparePrintOptions {
    /// A request with a fresh handle token and every option unset.
    pub fn default() -> (r: PreparePrintOptions)
        ensures
            is_fresh_token(r@.token),
            r@.modal is None,
    {
        PreparePrintOptions {
            handle_token: HandleToken::default(),
            modal: None,
        }
    }

    /// The handle token of the request.
    pub fn handle_token(&self) -> (t: &HandleToken)
        ensures
            t@ == self@.token,
    {
        &self.handle_token
    }

    /// Sets whether the dialog should be a modal.
    pub fn modal(self, modal: Option<bool>) -> (r: Self)
        ensures
            r@ == (PreparePrintOptionsView { modal: modal, ..self@ }),
    {
        let mut r = self;
        r.modal = modal;
        r
    }
}

/// The options of a request to print a file.
#[derive(Debug)]
pub struct PrintOptions {
    handle_token: HandleToken,
    modal: Option<bool>,
    token: Option<u32>,
}

/// The model of a [`PrintOptions`].
pub struct PrintOptionsView {
    pub handle_token: Seq<char>,
    pub modal: Option<bool>,
    pub token: Option<u32>,
}

impl View for PrintOptions {
    type V = PrintOptionsView;

    closed spec fn view(&self) -> PrintOptionsView {
        PrintOptionsView {
            handle_token: self.handle_token@,
            modal: self.modal,
            token: self.token,
        }
    }
}

impl PrintOptions {
    /// A request with a fresh handle token and every option unset.
    pub fn default() -> (r: PrintOptions)
        ensures
            is_fresh_token(r@.handle_token),
            r@.modal is None,
            r@.token is None,
    {
        PrintOptions {
            handle_token: HandleToken::default(),
            modal: None,
            token: None,
        }
    }

    /// The handle token of the request.
    pub fn handle_token(&self) -> (t: &HandleToken)
        ensures
            t@ == self@.handle_token,
    {
        &self.handle_token
    }

    /// Sets whether the dialog should be a modal.
    pub fn modal(self, modal: Option<bool>) -> (r: Self)
        ensures
            r@ == (PrintOptionsView { modal: modal, ..self@ }),
    {
        let mut r = self;
        r.modal = modal;
        r
    }

    /// Sets the token of a preceding print preparation.
    pub fn token(self, token: Option<u32>) -> (r: Self)
        ensures
            r@ == (PrintOptionsView { token: token, ..self@ }),
    {
        let mut r = self;
        r.token = token;
        r
    }
}

/// Print documents.
///
/// Wrapper of the DBus interface `org.freedesktop.portal.Print`.
#[derive(Debug)]
pub struct PrintProxy {
    proxy: Proxy,
}

impl View for PrintProxy {
    type V = ProxyView;

    closed spec fn view(&self) -> ProxyView {
        self.proxy@
    }
}

impl PrintProxy {
    /// The portal, which implements the given version of its interface.
    pub fn new(version: u32) -> (p: PrintProxy)
        ensures
            p@.destination == desktop_destination(),
            p@.interface == "org.freedesktop.portal.Print"@,
            p@.path == desktop_path(),
            p@.version == version,
    {
        PrintProxy { proxy: Proxy::new_desktop("org.freedesktop.portal.Print", version) }
    }

    /// Where the portal's calls go.
    pub fn inner(&self) -> (p: &Proxy)
        ensures
            p@ == self@,
    {
        &self.proxy
    }
}

impl PrintProxy {
    /// The options of a request to prepare a print: modal as given.
    pub fn prepare_print_options(modal: bool) -> (o: PreparePrintOptions)
        ensures
            o@.modal == Some(modal),
    {
        PreparePrintOptions::default().modal(Some(modal))
    }

    /// The options of a request to print a file: the token given, `0` where
    /// none is, and modal as given.
    pub fn print_options(token: Option<u32>, modal: bool) -> (o: PrintOptions)
        ensures
            o@.token == Some(
                match token {
                    Some(t) => t,
                    None => 0u32,
                },
            ),
            o@.modal == Some(modal),
    {
        let t = match token {
            Some(t) => t,
            None => 0,
        };
        PrintOptions::default().token(Some(t)).modal(Some(modal))
    }
}

} // verus!
