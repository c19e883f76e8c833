//! Icons that portals show or hand back: a file, one or more themed names,
//! image bytes or pixmaps, and the tagged form in which they travel.

use vstd::prelude::*;
use crate::error::AshpdError;
use crate::text::{opt_text, owned, str_equals, texts};
use zbus::zvariant::OwnedValue;

verus! {

/// A pixmap: its width and height and its bytes.
#[derive(Debug, PartialEq, Eq)]
pub struct Pixmap {
    width: i32,
    height: i32,
    bytes: Vec<u8>,
}

/// A copy of `v`.
pub fn copy_bytes(v: &Vec<u8>) -> (r: Vec<u8>)
    ensures
        r@ == v@,
{
    let mut r: Vec<u8> = Vec::new();
    let mut i: usize = 0;
    while i < v.len()
        invariant
            i <= v.len(),
            r@ == v@.subrange(0, i as int),
        decreases v.len() - i,
    {
        r.push(v[i]);
        i = i + 1;
        assert(r@ =~= v@.subrange(0, i as int));
    }
    assert(r@ =~= v@);
    r
}

/// A copy of `v`.
pub fn copy_strings(v: &Vec<String>) -> (r: Vec<String>)
    ensures
        r@ == v@,
{
    let mut r: Vec<String> = Vec::new();
    let mut i: usize = 0;
    while i < v.len()
        invariant
            i <= v.len(),
            r@ == v@.subrange(0, i as int),
        decreases v.len() - i,
    {
        r.push(v[i].clone());
        i = i + 1;
        assert(r@ =~= v@.subrange(0, i as int));
    }
    assert(r@ =~= v@);
    r
}

impl View for Pixmap {
    type V = (i32, i32, Seq<u8>);

    /// The width, height and bytes.
    closed spec fn view(&self) -> (i32, i32, Seq<u8>) {
        (self.width, self.height, self.bytes@)
    }
}

impl Pixmap {
    /// A pixmap of the given size and bytes.
    pub fn new(width: i32, height: i32, bytes: Vec<u8>) -> (p: Pixmap)
        ensures
            p@ == (width, height, bytes@),
    {
        Pixmap { width, height, bytes }
    }

    /// The width.
    pub fn width(&self) -> (w: i32)
        ensures
            w == self@.0,
    {
        self.width
    }

    /// The height.
    pub fn height(&self) -> (h: i32)
        ensures
            h == self@.1,
    {
        self.height
    }

    /// The bytes.
    pub fn bytes(&self) -> (b: &Vec<u8>)
        ensures
            b@ == self@.2,
    {
        &self.bytes
    }

    /// A copy of the pixmap.
    pub fn copy(&self) -> (p: Pixmap)
        ensures
            p@ == self@,
    {
        Pixmap { width: self.width, height: self.height, bytes: copy_bytes(&self.bytes) }
    }
}

/// Two pixmaps with the same size and bytes.
pub open spec fn same_pixmap(a: Pixmap, b: Pixmap) -> bool {
    a@ == b@
}

/// Two lists of pixmaps that match one for one.
pub open spec fn same_pixmaps(a: Seq<Pixmap>, b: Seq<Pixmap>) -> bool {
    a.len() == b.len() && forall|i: int| 0 <= i < a.len() ==> #[trigger] same_pixmap(a[i], b[i])
}

/// A copy of `v`.
pub fn copy_pixmaps(v: &Vec<Pixmap>) -> (r: Vec<Pixmap>)
    ensures
        same_pixmaps(v@, r@),
{
    let mut r: Vec<Pixmap> = Vec::new();
    let mut i: usize = 0;
    while i < v.len()
        invariant
            i <= v.len(),
            r@.len() == i,
            forall|j: int| 0 <= j < i ==> #[trigger] same_pixmap(v@[j], r@[j]),
        decreases v.len() - i,
    {
        r.push(v[i].copy());
        i = i + 1;
    }
    r
}

/// The URI of a file icon: the text of a parsed URL, which parses again to
/// itself.
#[derive(Debug, PartialEq, Eq)]
pub struct Uri {
    text: String,
}

impl View for Uri {
    type V = Seq<char>;

    closed spec fn view(&self) -> Seq<char> {
        self.text@
    }
}

impl Uri {
    #[verifier::type_invariant]
    spec fn inv(self) -> bool {
        url_parsed(self.text@) == Some(self.text@)
    }

    /// The URL that `s` parses to; `None` where it does not parse.
    pub fn parse(s: &str) -> (r: Option<Uri>)
        ensures
            match r {
                Some(u) => url_parsed(s@) == Some(u@),
                None => url_parsed(s@) is None,
            },
    {
        match parse_url(s) {
            Some(text) => Some(Uri { text }),
            None => None,
        }
    }

    /// The text of the URL, which parses again to itself.
    pub fn as_str(&self) -> (s: &str)
        ensures
            s@ == self@,
            url_parsed(s@) == Some(s@),
    {
        proof {
            use_type_invariant(self);
        }
        self.text.as_str()
    }
}

/// An icon.
#[derive(Debug, PartialEq)]
pub enum Icon {
    /// A file, by its parsed URI.
    Uri(Uri),
    /// A themed icon name.
    Name(String),
    /// A list of themed icon names, the first preferred.
    Names(Vec<String>),
    /// The bytes of an image.
    Bytes(Vec<u8>),
    /// Pixmaps.
    Pixmaps(Vec<Pixmap>),
}

/// The value an icon carries in its tagged form.
#[derive(Debug, PartialEq)]
pub enum IconPayload {
    /// A text.
    Str(String),
    /// A list of texts.
    Strs(Vec<String>),
    /// Bytes.
    Bytes(Vec<u8>),
    /// Pixmaps.
    Pixmaps(Vec<Pixmap>),
}

/// The text of what `url::Url::parse` makes of `s`, when it accepts it.
pub uninterp spec fn url_parsed(s: Seq<char>) -> Option<Seq<char>>;

/// `url::Url::parse`, then the text of the URL it parses.
///
/// The parse is named by `url_parsed`: the result depends on the text alone.
/// The text of a parsed URL is claimed to parse again to itself: the url
/// crate holds every `Url` to that invariant (`Url::check_invariants`
/// parses `as_str` again and asserts the same serialization). What that text
/// is, is not stated.
#[verifier::external_body]
pub(crate) fn parse_url(s: &str) -> (r: Option<String>)
    ensures
        match r {
            Some(u) => url_parsed(s@) == Some(u@) && url_parsed(u@) == Some(u@),
            None => url_parsed(s@) is None,
        },
{
    url::Url::parse(s).ok().map(|u| u.as_str().to_string())
}

/// An icon whose URI, where it is one, is the text of a parsed URL: one
/// that parses to itself.
pub open spec fn icon_valid(i: Icon) -> bool {
    i matches Icon::Uri(u) ==> url_parsed(u@) == Some(u@)
}

/// Two icons with the same content.
pub open spec fn same_icon(a: Icon, b: Icon) -> bool {
    match (a, b) {
        (Icon::Uri(x), Icon::Uri(y)) => x@ == y@,
        (Icon::Name(x), Icon::Name(y)) => x@ == y@,
        (Icon::Names(x), Icon::Names(y)) => x@ == y@,
        (Icon::Bytes(x), Icon::Bytes(y)) => x@ == y@,
        (Icon::Pixmaps(x), Icon::Pixmaps(y)) => same_pixmaps(x@, y@),
        _ => false,
    }
}

/// The tag under which an icon travels: `file`, `themed` or `bytes`.
pub open spec fn icon_tag(i: Icon) -> Seq<char> {
    match i {
        Icon::Uri(_) => "file"@,
        Icon::Name(_) => "themed"@,
        Icon::Names(_) => "themed"@,
        Icon::Bytes(_) => "bytes"@,
        Icon::Pixmaps(_) => "bytes"@,
    }
}

/// Icons travel under three tags: a file under `file`, names under
/// `themed`, bytes and pixmaps under `bytes`.
pub proof fn lemma_icon_tag_values(i: Icon)
    ensures
        (icon_tag(i) == "file"@) == (i is Uri),
        (icon_tag(i) == "themed"@) == (i is Name || i is Names),
        (icon_tag(i) == "bytes"@) == (i is Bytes || i is Pixmaps),
{
    lemma_icon_tags_distinct();
}

/// The payload an icon travels with, matching it one for one.
pub open spec fn icon_payload_matches(i: Icon, p: IconPayload) -> bool {
    match (i, p) {
        (Icon::Uri(x), IconPayload::Str(y)) => x@ == y@,
        (Icon::Name(x), IconPayload::Str(y)) => x@ == y@,
        (Icon::Names(x), IconPayload::Strs(y)) => x@ == y@,
        (Icon::Bytes(x), IconPayload::Bytes(y)) => x@ == y@,
        (Icon::Pixmaps(x), IconPayload::Pixmaps(y)) => same_pixmaps(x@, y@),
        _ => false,
    }
}

/// The payload that a tag is read from: a text for `file`, texts for
/// `themed`, bytes for `bytes`; other tags are refused before the payload is
/// read.
pub open spec fn payload_fits_tag(tag: Seq<char>, p: IconPayload) -> bool {
    (tag == "file"@ ==> p is Str) && (tag == "themed"@ ==> p is Strs) && (tag == "bytes"@
        ==> p is Bytes)
}

impl Icon {
    /// A themed icon with one name.
    pub fn with_name(name: &str) -> (i: Icon)
        ensures
            i matches Icon::Name(n) && n@ == name@,
    {
        Icon::Name(owned(name))
    }

    /// A themed icon with a list of names.
    pub fn with_names(names: Vec<String>) -> (i: Icon)
        ensures
            i == Icon::Names(names),
    {
        Icon::Names(names)
    }

    /// An icon for a file, from the text of its URI; `None` where the URI
    /// does not parse.
    pub fn with_uri(uri: &str) -> (i: Option<Icon>)
        ensures
            match i {
                Some(Icon::Uri(u)) => url_parsed(uri@) == Some(u@) && url_parsed(u@) == Some(u@),
                Some(_) => false,
                None => url_parsed(uri@) is None,
            },
    {
        match Uri::parse(uri) {
            Some(u) => {
                proof {
                    use_type_invariant(&u);
                }
                Some(Icon::Uri(u))
            },
            None => None,
        }
    }

    /// Whether the icon is made of image bytes.
    pub fn is_bytes(&self) -> (b: bool)
        ensures
            b == (*self is Bytes),
    {
        match self {
            Icon::Bytes(_) => true,
            _ => false,
        }
    }

    /// The tagged form of the icon: its tag and its payload.
    pub fn as_value(&self) -> (r: (String, IconPayload))
        ensures
            r.0@ == icon_tag(*self),
            icon_payload_matches(*self, r.1),
            icon_valid(*self),
    {
        match self {
            Icon::Uri(u) => (String::from_str("file"), IconPayload::Str(owned(u.as_str()))),
            Icon::Name(n) => (String::from_str("themed"), IconPayload::Str(owned(n.as_str()))),
            Icon::Names(n) => (String::from_str("themed"), IconPayload::Strs(copy_strings(n))),
            Icon::Bytes(b) => (String::from_str("bytes"), IconPayload::Bytes(copy_bytes(b))),
            Icon::Pixmaps(p) => (String::from_str("bytes"), IconPayload::Pixmaps(copy_pixmaps(p))),
        }
    }

    /// The form in which the icon is serialized: its tag and payload for a
    /// file, names or bytes; nothing for a single name or pixmaps.
    pub fn serialized(&self) -> (r: Option<(String, IconPayload)>)
        ensures
            match *self {
                Icon::Name(_) => r is None,
                Icon::Pixmaps(_) => r is None,
                _ => r matches Some(t) && t.0@ == icon_tag(*self) && icon_payload_matches(*self, t.1),
            },
    {
        match self {
            Icon::Name(_) => None,
            Icon::Pixmaps(_) => None,
            _ => Some(self.as_value()),
        }
    }

    /// Reads an icon from its tag and payload, as it is deserialized:
    /// `file` with the text of a URI, `themed` with names, `bytes` with
    /// bytes. A URI that does not parse and an unknown tag are errors.
    pub fn from_tagged(tag: &str, payload: IconPayload) -> (r: Result<Icon, AshpdError>)
        requires
            payload_fits_tag(tag@, payload),
        ensures
            match r {
                Ok(x) => decodes_to(tag@, payload, x) && icon_valid(x),
                Err(e) => if is_icon_tag(tag@) {
                    uri_fails(tag@, payload) && e == AshpdError::ParseError(
                        "Couldn't deserialize Icon of type 'file'",
                    )
                } else {
                    e == AshpdError::ParseError("Invalid Icon type")
                },
            },
            is_icon_tag(tag@) && !uri_fails(tag@, payload) ==> r is Ok,
    {
        decode_tagged(tag, payload, "Couldn't deserialize Icon of type 'file'")
    }
}

/// Reads an icon from its tag and payload; a URI that does not parse gives
/// the error `uri_error`.
fn decode_tagged(tag: &str, payload: IconPayload, uri_error: &'static str) -> (r: Result<Icon, AshpdError>)
    requires
        payload_fits_tag(tag@, payload),
    ensures
        match r {
            Ok(x) => decodes_to(tag@, payload, x) && icon_valid(x),
            Err(e) => if is_icon_tag(tag@) {
                uri_fails(tag@, payload) && e == AshpdError::ParseError(uri_error)
            } else {
                e == AshpdError::ParseError("Invalid Icon type")
            },
        },
        is_icon_tag(tag@) && !uri_fails(tag@, payload) ==> r is Ok,
{
    proof {
        reveal_strlit("file");
        reveal_strlit("themed");
        reveal_strlit("bytes");
    }
    if str_equals(tag, "file") {
        match payload {
            IconPayload::Str(s) => match Uri::parse(s.as_str()) {
                Some(u) => {
                    proof {
                        use_type_invariant(&u);
                    }
                    Ok(Icon::Uri(u))
                },
                None => Err(AshpdError::ParseError(uri_error)),
            },
            _ => Err(AshpdError::ParseError("Invalid Icon type")),
        }
    } else if str_equals(tag, "themed") {
        match payload {
            IconPayload::Strs(v) => Ok(Icon::Names(v)),
            _ => Err(AshpdError::ParseError("Invalid Icon type")),
        }
    } else if str_equals(tag, "bytes") {
        match payload {
            IconPayload::Bytes(v) => Ok(Icon::Bytes(v)),
            _ => Err(AshpdError::ParseError("Invalid Icon type")),
        }
    } else {
        Err(AshpdError::ParseError("Invalid Icon type"))
    }
}

/// The text that field `i` of the bus structure `v` holds, where `v` is a
/// structure with such a field and the field a text.
pub uninterp spec fn struct_field_text(v: OwnedValue, i: int) -> Option<Seq<char>>;

/// The length of the array that field `i` of the bus structure `v` holds,
/// where `v` is a structure with such a field and the field an array.
pub uninterp spec fn struct_field_len(v: OwnedValue, i: int) -> Option<nat>;

/// The text that item `j` of the array in field `i` of the bus structure `v`
/// holds, where there is such an item and it is a text.
pub uninterp spec fn struct_field_item_text(v: OwnedValue, i: int, j: int) -> Option<Seq<char>>;

/// The byte that item `j` of the array in field `i` of the bus structure `v`
/// holds, where there is such an item and it is a byte.
pub uninterp spec fn struct_field_item_byte(v: OwnedValue, i: int, j: int) -> Option<u8>;

/// Field `i` of the bus structure `v`, read as a text with
/// `zvariant::Value::downcast_ref`; named by `struct_field_text`.
#[verifier::external_body]
fn field_text(v: &OwnedValue, i: usize) -> (r: Option<String>)
    ensures
        opt_text(r) == struct_field_text(*v, i as int),
{
    match v.downcast_ref::<&zbus::zvariant::Structure>() {
        Ok(s) => match s.fields().get(i) {
            Some(f) => f.downcast_ref::<&str>().ok().map(|t| t.to_string()),
            None => None,
        },
        Err(_) => None,
    }
}

/// The length of the array in field `i` of the bus structure `v`, read with
/// `zvariant::Value::downcast_ref` and `zvariant::Array::len`; named by
/// `struct_field_len`.
#[verifier::external_body]
fn field_len(v: &OwnedValue, i: usize) -> (r: Option<usize>)
    ensures
        match r {
            Some(n) => struct_field_len(*v, i as int) == Some(n as nat),
            None => struct_field_len(*v, i as int) is None,
        },
{
    match v.downcast_ref::<&zbus::zvariant::Structure>() {
        Ok(s) => match s.fields().get(i) {
            Some(f) => f.downcast_ref::<&zbus::zvariant::Array>().ok().map(|a| a.len()),
            None => None,
        },
        Err(_) => None,
    }
}

/// Item `j` of the array in field `i` of the bus structure `v`, read as a
/// text with `zvariant::Value::downcast_ref`; named by
/// `struct_field_item_text`.
#[verifier::external_body]
fn field_item_text(v: &OwnedValue, i: usize, j: usize) -> (r: Option<String>)
    ensures
        opt_text(r) == struct_field_item_text(*v, i as int, j as int),
{
    let s = match v.downcast_ref::<&zbus::zvariant::Structure>() {
        Ok(s) => s,
        Err(_) => return None,
    };
    match s.fields().get(i).map(|f| f.downcast_ref::<&zbus::zvariant::Array>()) {
        Some(Ok(a)) => a.inner().get(j).and_then(|x| x.downcast_ref::<&str>().ok()).map(|t| t.to_string()),
        _ => None,
    }
}

/// Item `j` of the array in field `i` of the bus structure `v`, read as a
/// byte with `zvariant::Value::downcast_ref`; named by
/// `struct_field_item_byte`.
#[verifier::external_body]
fn field_item_byte(v: &OwnedValue, i: usize, j: usize) -> (r: Option<u8>)
    ensures
        r == struct_field_item_byte(*v, i as int, j as int),
{
    let s = match v.downcast_ref::<&zbus::zvariant::Structure>() {
        Ok(s) => s,
        Err(_) => return None,
    };
    match s.fields().get(i).map(|f| f.downcast_ref::<&zbus::zvariant::Array>()) {
        Some(Ok(a)) => a.inner().get(j).and_then(|x| x.downcast_ref::<u8>().ok()),
        _ => None,
    }
}

/// Every item of the array in field `i` of `v`, up to `n`, is a text.
pub open spec fn items_are_texts(v: OwnedValue, i: int, n: nat) -> bool {
    forall|j: int| 0 <= j < n ==> (#[trigger] struct_field_item_text(v, i, j)) is Some
}

/// Every item of the array in field `i` of `v`, up to `n`, is a byte.
pub open spec fn items_are_bytes(v: OwnedValue, i: int, n: nat) -> bool {
    forall|j: int| 0 <= j < n ==> (#[trigger] struct_field_item_byte(v, i, j)) is Some
}

/// The texts of the array in field `i` of `v`.
pub open spec fn field_texts(v: OwnedValue, i: int) -> Seq<Seq<char>> {
    let n = match struct_field_len(v, i) {
        Some(n) => n,
        None => 0,
    };
    Seq::new(n, |j: int| match struct_field_item_text(v, i, j) {
        Some(t) => t,
        None => Seq::empty(),
    })
}

/// The bytes of the array in field `i` of `v`.
pub open spec fn field_bytes(v: OwnedValue, i: int) -> Seq<u8> {
    let n = match struct_field_len(v, i) {
        Some(n) => n,
        None => 0,
    };
    Seq::new(n, |j: int| match struct_field_item_byte(v, i, j) {
        Some(b) => b,
        None => 0,
    })
}

/// The tag of the icon that the bus value `v` holds: the text of its first
/// field.
pub open spec fn value_tag(v: OwnedValue) -> Seq<char> {
    match struct_field_text(v, 0) {
        Some(t) => t,
        None => Seq::empty(),
    }
}

/// The bus value `v` has the shape an icon is read from: a structure whose
/// first field is a text, and whose second is a text for the tag `file`, an
/// array of texts for `themed`, an array of bytes for `bytes`.
pub open spec fn icon_value_fits(v: OwnedValue) -> bool {
    &&& struct_field_text(v, 0) is Some
    &&& value_tag(v) == "file"@ ==> struct_field_text(v, 1) is Some
    &&& value_tag(v) == "themed"@ ==> (struct_field_len(v, 1) matches Some(n) && items_are_texts(v, 1, n))
    &&& value_tag(v) == "bytes"@ ==> (struct_field_len(v, 1) matches Some(n) && items_are_bytes(v, 1, n))
}

/// A `file` icon value whose URI does not parse.
pub open spec fn value_uri_fails(v: OwnedValue) -> bool {
    value_tag(v) == "file"@ && (struct_field_text(v, 1) matches Some(s) && url_parsed(s) is None)
}

/// `x` is what reading the icon in the bus value `v` gives.
pub open spec fn value_decodes_to(v: OwnedValue, x: Icon) -> bool {
    ||| (value_tag(v) == "file"@ && (struct_field_text(v, 1) matches Some(s) && (x matches Icon::Uri(u)
        && url_parsed(s) == Some(u@))))
    ||| (value_tag(v) == "themed"@ && (x matches Icon::Names(w) && texts(w@) == field_texts(v, 1)))
    ||| (value_tag(v) == "bytes"@ && (x matches Icon::Bytes(w) && w@ == field_bytes(v, 1)))
}

/// The three tags an icon is read from are distinct.
proof fn lemma_icon_tags_distinct()
    ensures
        "file"@ != "themed"@,
        "file"@ != "bytes"@,
        "themed"@ != "bytes"@,
{
    reveal_strlit("file");
    reveal_strlit("themed");
    reveal_strlit("bytes");
    assert("file"@[0] != "themed"@[0]);
    assert("file"@[0] != "bytes"@[0]);
    assert("themed"@[0] != "bytes"@[0]);
}

/// The texts of the array in field `i` of `v`, whose `n` items are texts.
fn read_field_texts(v: &OwnedValue, i: usize, n: usize) -> (r: Vec<String>)
    requires
        struct_field_len(*v, i as int) == Some(n as nat),
        items_are_texts(*v, i as int, n as nat),
    ensures
        texts(r@) == field_texts(*v, i as int),
{
    let mut r: Vec<String> = Vec::new();
    let mut j: usize = 0;
    while j < n
        invariant
            j <= n,
            r@.len() == j,
            struct_field_len(*v, i as int) == Some(n as nat),
            items_are_texts(*v, i as int, n as nat),
            forall|k: int| 0 <= k < j ==> struct_field_item_text(*v, i as int, k) == Some(#[trigger] r@[k]@),
        decreases n - j,
    {
        let t = field_item_text(v, i, j);
        assert(struct_field_item_text(*v, i as int, j as int) is Some);
        match t {
            Some(t) => r.push(t),
            None => {},
        }
        j = j + 1;
    }
    assert(texts(r@) =~= field_texts(*v, i as int));
    r
}

/// The bytes of the array in field `i` of `v`, whose `n` items are bytes.
fn read_field_bytes(v: &OwnedValue, i: usize, n: usize) -> (r: Vec<u8>)
    requires
        struct_field_len(*v, i as int) == Some(n as nat),
        items_are_bytes(*v, i as int, n as nat),
    ensures
        r@ == field_bytes(*v, i as int),
{
    let mut r: Vec<u8> = Vec::new();
    let mut j: usize = 0;
    while j < n
        invariant
            j <= n,
            r@.len() == j,
            struct_field_len(*v, i as int) == Some(n as nat),
            items_are_bytes(*v, i as int, n as nat),
            forall|k: int| 0 <= k < j ==> struct_field_item_byte(*v, i as int, k) == Some(#[trigger] r@[k]),
        decreases n - j,
    {
        let b = field_item_byte(v, i, j);
        assert(struct_field_item_byte(*v, i as int, j as int) is Some);
        match b {
            Some(b) => r.push(b),
            None => {},
        }
        j = j + 1;
    }
    assert(r@ =~= field_bytes(*v, i as int));
    r
}

impl Icon {
    /// Reads an icon from the bus value it travels in: a structure of its
    /// tag and its payload. A URI that does not parse and an unknown tag are
    /// errors.
    pub fn from_value(v: &OwnedValue) -> (r: Result<Icon, AshpdError>)
        requires
            icon_value_fits(*v),
        ensures
            match r {
                Ok(x) => value_decodes_to(*v, x) && icon_valid(x),
                Err(e) => if is_icon_tag(value_tag(*v)) {
                    value_uri_fails(*v) && e == AshpdError::ParseError("Failed to parse uri")
                } else {
                    e == AshpdError::ParseError("Invalid Icon type")
                },
            },
            is_icon_tag(value_tag(*v)) && !value_uri_fails(*v) ==> r is Ok,
    {
        proof {
            lemma_icon_tags_distinct();
        }
        let tag = match field_text(v, 0) {
            Some(t) => t,
            None => String::new(),
        };
        let payload = if str_equals(tag.as_str(), "file") {
            match field_text(v, 1) {
                Some(s) => IconPayload::Str(s),
                None => IconPayload::Str(String::new()),
            }
        } else if str_equals(tag.as_str(), "themed") {
            let n = match field_len(v, 1) {
                Some(n) => n,
                None => 0,
            };
            IconPayload::Strs(read_field_texts(v, 1, n))
        } else if str_equals(tag.as_str(), "bytes") {
            let n = match field_len(v, 1) {
                Some(n) => n,
                None => 0,
            };
            IconPayload::Bytes(read_field_bytes(v, 1, n))
        } else {
            IconPayload::Bytes(Vec::new())
        };
        decode_tagged(tag.as_str(), payload, "Failed to parse uri")
    }

    /// Reads an icon from a bus value, or `None` where the value does not
    /// have the shape an icon is read from.
    pub fn try_from_value(v: &OwnedValue) -> (r: Option<Result<Icon, AshpdError>>)
        ensures
            match r {
                Some(x) => icon_value_fits(*v) && match x {
                    Ok(x) => value_decodes_to(*v, x) && icon_valid(x),
                    Err(e) => if is_icon_tag(value_tag(*v)) {
                        value_uri_fails(*v) && e == AshpdError::ParseError("Failed to parse uri")
                    } else {
                        e == AshpdError::ParseError("Invalid Icon type")
                    },
                },
                None => !icon_value_fits(*v),
            },
            icon_value_fits(*v) && is_icon_tag(value_tag(*v)) && !value_uri_fails(*v) ==> r matches Some(
                Ok(_),
            ),
    {
        proof {
            lemma_icon_tags_distinct();
        }
        let tag = match field_text(v, 0) {
            Some(t) => t,
            None => return None,
        };
        if str_equals(tag.as_str(), "file") {
            if field_text(v, 1).is_none() {
                return None;
            }
        } else if str_equals(tag.as_str(), "themed") || str_equals(tag.as_str(), "bytes") {
            let is_themed = str_equals(tag.as_str(), "themed");
            let n = match field_len(v, 1) {
                Some(n) => n,
                None => return None,
            };
            let mut j: usize = 0;
            while j < n
                invariant
                    j <= n,
                    struct_field_len(*v, 1) == Some(n as nat),
                    value_tag(*v) == tag@,
                    tag@ == "themed"@ || tag@ == "bytes"@,
                    is_themed == (tag@ == "themed"@),
                    is_themed ==> items_are_texts(*v, 1, j as nat),
                    !is_themed ==> items_are_bytes(*v, 1, j as nat),
                decreases n - j,
            {
                if is_themed {
                    if field_item_text(v, 1, j).is_none() {
                        return None;
                    }
                } else {
                    if field_item_byte(v, 1, j).is_none() {
                        return None;
                    }
                }
                j = j + 1;
            }
        }
        Some(Icon::from_value(v))
    }
}

/// One of the tags an icon is read from.
pub open spec fn is_icon_tag(tag: Seq<char>) -> bool {
    tag == "file"@ || tag == "themed"@ || tag == "bytes"@
}

/// A `file` payload whose URI does not parse.
pub open spec fn uri_fails(tag: Seq<char>, p: IconPayload) -> bool {
    tag == "file"@ && (p matches IconPayload::Str(s) && url_parsed(s@) is None)
}

/// `x` is what reading the tag and payload gives.
pub open spec fn decodes_to(tag: Seq<char>, p: IconPayload, x: Icon) -> bool {
    ||| (tag == "file"@ && (p matches IconPayload::Str(s) && (x matches Icon::Uri(u) && url_parsed(s@)
        == Some(u@))))
    ||| (tag == "themed"@ && (p matches IconPayload::Strs(v) && (x matches Icon::Names(w) && w@ == v@)))
    ||| (tag == "bytes"@ && (p matches IconPayload::Bytes(v) && (x matches Icon::Bytes(w) && w@ == v@)))
}

/// Reading back the tagged form of an icon of a file, of names or of bytes
/// gives the same icon. Every icon meets `icon_valid`: a `Uri` is only made
/// by parsing, and `as_value` ensures it of the icon it is called on.
pub proof fn lemma_icon_round_trip(i: Icon, tag: Seq<char>, p: IconPayload, x: Icon)
    requires
        icon_valid(i),
        tag == icon_tag(i),
        icon_payload_matches(i, p),
        !(i is Name),
        !(i is Pixmaps),
        decodes_to(tag, p, x),
    ensures
        payload_fits_tag(tag, p),
        is_icon_tag(tag),
        !uri_fails(tag, p),
        same_icon(i, x),
{
    lemma_icon_tags_distinct();
}

} // verus!
