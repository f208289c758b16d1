//! Leaf values of a scene description: numbers, colours, strings and
//! references, with their typed accessors.
use crate::number::{hex_to_int, hex_value, is_number, is_number_chars, Number};
use crate::text::{
    chars_of, contains_char, pieces_view, split, split_chars, str_eq, string_of, trim,
    trim_chars, trim_each, words, words_of,
};
use vstd::prelude::*;

verus! {

/// A colour or spectrum literal, kept as written.
#[derive(Debug, PartialEq)]
pub struct Spectrum {
    pub value: String,
}

impl View for Spectrum {
    type V = Seq<char>;

    open spec fn view(&self) -> Seq<char> {
        self.value@
    }
}

impl Clone for Spectrum {
    fn clone(&self) -> (r: Self)
        ensures
            r@ == self@,
    {
        Spectrum { value: self.value.clone() }
    }
}

/// Three coordinates.
#[derive(Debug, PartialEq)]
pub struct Vector3 {
    pub x: Number,
    pub y: Number,
    pub z: Number,
}

impl View for Vector3 {
    type V = (Seq<char>, Seq<char>, Seq<char>);

    open spec fn view(&self) -> (Seq<char>, Seq<char>, Seq<char>) {
        (self.x@, self.y@, self.z@)
    }
}

impl Clone for Vector3 {
    fn clone(&self) -> (r: Self)
        ensures
            r@ == self@,
    {
        Vector3 { x: self.x.clone(), y: self.y.clone(), z: self.z.clone() }
    }
}

impl Vector3 {
    /// The three coordinates `x`, `y` and `z`, held without looking at them.
    pub fn new(x: &str, y: &str, z: &str) -> (r: Self)
        ensures
            r@ == (x@, y@, z@),
    {
        Vector3 { x: Number::new(x), y: Number::new(y), z: Number::new(z) }
    }
}

/// Two coordinates.
#[derive(Debug, PartialEq)]
pub struct Vector2 {
    pub x: Number,
    pub y: Number,
}

impl View for Vector2 {
    type V = (Seq<char>, Seq<char>);

    open spec fn view(&self) -> (Seq<char>, Seq<char>) {
        (self.x@, self.y@)
    }
}

impl Clone for Vector2 {
    fn clone(&self) -> (r: Self)
        ensures
            r@ == self@,
    {
        Vector2 { x: self.x.clone(), y: self.y.clone() }
    }
}

/// One channel of a colour: a literal, or a byte `b` that stands for `b / 255`.
#[derive(Debug, PartialEq)]
pub enum Channel {
    Literal(Number),
    Byte(u8),
}

/// A [`Channel`] as contracts see it: every text is the sequence of its
/// characters, and every list the sequence of its items.
pub enum ChannelView {
    Literal(Seq<char>),
    Byte(u8),
}

impl View for Channel {
    type V = ChannelView;

    open spec fn view(&self) -> ChannelView {
        match self {
            Channel::Literal(n) => ChannelView::Literal(n@),
            Channel::Byte(b) => ChannelView::Byte(*b),
        }
    }
}

/// A colour by its red, green and blue channels.
#[derive(Debug, PartialEq)]
pub struct RGB {
    pub r: Channel,
    pub g: Channel,
    pub b: Channel,
}

/// A [`RGB`] as contracts see it: every text is the sequence of its
/// characters, and every list the sequence of its items.
pub struct RGBView {
    pub r: ChannelView,
    pub g: ChannelView,
    pub b: ChannelView,
}

impl View for RGB {
    type V = RGBView;

    open spec fn view(&self) -> RGBView {
        RGBView { r: self.r@, g: self.g@, b: self.b@ }
    }
}

/// A leaf value of a scene description.
#[derive(Debug, PartialEq)]
pub enum Value {
    Float(Number),
    Spectrum(Spectrum),
    String(String),
    Vector(Vector3),
    Point(Vector3),
    Integer(i32),
    Boolean(bool),
    Ref(String),
}

/// A [`Value`] as contracts see it: every text is the sequence of its
/// characters, and every list the sequence of its items.
pub enum ValueView {
    Float(Seq<char>),
    Spectrum(Seq<char>),
    String(Seq<char>),
    Vector((Seq<char>, Seq<char>, Seq<char>)),
    Point((Seq<char>, Seq<char>, Seq<char>)),
    Integer(i32),
    Boolean(bool),
    Ref(Seq<char>),
}

impl View for Value {
    type V = ValueView;

    open spec fn view(&self) -> ValueView {
        match self {
            Value::Float(n) => ValueView::Float(n@),
            Value::Spectrum(s) => ValueView::Spectrum(s@),
            Value::String(s) => ValueView::String(s@),
            Value::Vector(v) => ValueView::Vector(v@),
            Value::Point(v) => ValueView::Point(v@),
            Value::Integer(i) => ValueView::Integer(*i),
            Value::Boolean(b) => ValueView::Boolean(*b),
            Value::Ref(s) => ValueView::Ref(s@),
        }
    }
}

impl Clone for Value {
    fn clone(&self) -> (r: Self)
        ensures
            r@ == self@,
    {
        match self {
            Value::Float(n) => Value::Float(n.clone()),
            Value::Spectrum(s) => Value::Spectrum(s.clone()),
            Value::String(s) => Value::String(s.clone()),
            Value::Vector(v) => Value::Vector(v.clone()),
            Value::Point(v) => Value::Point(v.clone()),
            Value::Integer(i) => Value::Integer(*i),
            Value::Boolean(b) => Value::Boolean(*b),
            Value::Ref(s) => Value::Ref(s.clone()),
        }
    }
}

/// Why a scene description or a mesh container was not accepted.
#[derive(Debug, PartialEq)]
pub enum Error {
    /// A spectrum literal gives samples by wavelength.
    UnsupportedSpectralSamples(String),
    /// A literal with a `#` is not `#` and six hexadecimal digits.
    InvalidHex(String),
    /// A value is not of the kind that was asked for: what was asked, and the value.
    ValueMismatch(String, Value),
    /// A reference or a `$` name that nothing defines.
    UnresolvedReference(String),
    /// A missing attribute or property, and where it was looked for.
    MissingAttribute(String, String),
    /// A name that the family does not have: the family, and the name.
    UnknownVariant(String, String),
    /// A mesh container that breaks its layout: what is wrong.
    MalformedBinary(String),
    /// A mesh block of another version, or one that does not decompress.
    ChecksumOrFormat,
    /// What the tokenizer of the scene description reported.
    XmlTokenizer(String),
}

/// A [`Error`] as contracts see it: every text is the sequence of its
/// characters, and every list the sequence of its items.
pub enum ErrorView {
    UnsupportedSpectralSamples(Seq<char>),
    InvalidHex(Seq<char>),
    ValueMismatch(Seq<char>, ValueView),
    UnresolvedReference(Seq<char>),
    MissingAttribute(Seq<char>, Seq<char>),
    UnknownVariant(Seq<char>, Seq<char>),
    MalformedBinary(Seq<char>),
    ChecksumOrFormat,
    XmlTokenizer(Seq<char>),
}

impl View for Error {
    type V = ErrorView;

    open spec fn view(&self) -> ErrorView {
        match self {
            Error::UnsupportedSpectralSamples(s) => ErrorView::UnsupportedSpectralSamples(s@),
            Error::InvalidHex(s) => ErrorView::InvalidHex(s@),
            Error::ValueMismatch(a, v) => ErrorView::ValueMismatch(a@, v@),
            Error::UnresolvedReference(s) => ErrorView::UnresolvedReference(s@),
            Error::MissingAttribute(a, c) => ErrorView::MissingAttribute(a@, c@),
            Error::UnknownVariant(k, v) => ErrorView::UnknownVariant(k@, v@),
            Error::MalformedBinary(s) => ErrorView::MalformedBinary(s@),
            Error::ChecksumOrFormat => ErrorView::ChecksumOrFormat,
            Error::XmlTokenizer(s) => ErrorView::XmlTokenizer(s@),
        }
    }
}

/// A value of the wrong kind, with the name of what was asked of it.
pub open spec fn mismatch(attempt: Seq<char>, value: ValueView) -> ErrorView {
    ErrorView::ValueMismatch(attempt, value)
}

/// A value of the wrong kind, with the name of what was asked of it.
pub fn mismatch_error(attempt: &str, value: Value) -> (e: Error)
    ensures
        e@ == mismatch(attempt@, value@),
{
    Error::ValueMismatch(attempt.to_owned(), value)
}

/// The byte that two hexadecimal digits denote.
pub open spec fn hex_byte(hi: char, lo: char) -> Option<u8> {
    match (hex_value(hi), hex_value(lo)) {
        (Some(h), Some(l)) => Some((h * 16 + l) as u8),
        _ => None,
    }
}

/// The three bytes of `#` and six hexadecimal digits.
pub open spec fn hex_channels(t: Seq<char>) -> Option<RGBView> {
    if t.len() == 7 && t[0] == '#' {
        match (hex_byte(t[1], t[2]), hex_byte(t[3], t[4]), hex_byte(t[5], t[6])) {
            (Some(r), Some(g), Some(b)) => Some(
                RGBView {
                    r: ChannelView::Byte(r),
                    g: ChannelView::Byte(g),
                    b: ChannelView::Byte(b),
                },
            ),
            _ => None,
        }
    } else {
        None
    }
}

/// Whether every part is a literal of a real number.
pub open spec fn all_numbers(parts: Seq<Seq<char>>) -> bool {
    forall|i: int| 0 <= i < parts.len() ==> is_number(#[trigger] parts[i])
}

/// The colour that one or three literals give: three are its channels, one
/// is all of them.
pub open spec fn literal_channels(parts: Seq<Seq<char>>) -> Option<RGBView> {
    if !all_numbers(parts) {
        None
    } else if parts.len() == 3 {
        Some(
            RGBView {
                r: ChannelView::Literal(parts[0]),
                g: ChannelView::Literal(parts[1]),
                b: ChannelView::Literal(parts[2]),
            },
        )
    } else if parts.len() == 1 {
        Some(
            RGBView {
                r: ChannelView::Literal(parts[0]),
                g: ChannelView::Literal(parts[0]),
                b: ChannelView::Literal(parts[0]),
            },
        )
    } else {
        None
    }
}

/// The colour of a spectrum literal. One with a `:` gives samples by
/// wavelength and is refused. One with a comma is its pieces between commas,
/// trimmed; else one with a `#` is three bytes in hexadecimal; else it is its
/// words.
pub open spec fn rgb_of(value: Seq<char>) -> Result<RGBView, ErrorView> {
    if value.contains(':') {
        Err(ErrorView::UnsupportedSpectralSamples(value))
    } else if split(value, ',').len() > 1 {
        match literal_channels(trim_each(split(value, ','))) {
            Some(c) => Ok(c),
            None => Err(mismatch("as_rgb"@, ValueView::Spectrum(value))),
        }
    } else if trim(value).contains('#') {
        match hex_channels(trim(value)) {
            Some(c) => Ok(c),
            None => Err(ErrorView::InvalidHex(value)),
        }
    } else {
        match literal_channels(words(value)) {
            Some(c) => Ok(c),
            None => Err(mismatch("as_rgb"@, ValueView::Spectrum(value))),
        }
    }
}

fn hex_pair(hi: char, lo: char) -> (r: Option<u8>)
    ensures
        r == hex_byte(hi, lo),
{
    match (hex_to_int(hi), hex_to_int(lo)) {
        (Some(h), Some(l)) => Some(h * 16 + l),
        _ => None,
    }
}

fn hex_colour(t: &Vec<char>) -> (r: Option<RGB>)
    ensures
        match hex_channels(t@) {
            Some(c) => r matches Some(x) && x@ == c,
            None => r is None,
        },
{
    if t.len() == 7 && t[0] == '#' {
        match (hex_pair(t[1], t[2]), hex_pair(t[3], t[4]), hex_pair(t[5], t[6])) {
            (Some(r), Some(g), Some(b)) => Some(
                RGB { r: Channel::Byte(r), g: Channel::Byte(g), b: Channel::Byte(b) },
            ),
            _ => None,
        }
    } else {
        None
    }
}

fn check_numbers(parts: &Vec<Vec<char>>) -> (r: bool)
    ensures
        r == all_numbers(pieces_view(parts@)),
{
    let mut i: usize = 0;
    while i < parts.len()
        invariant
            i <= parts.len(),
            forall|j: int| 0 <= j < i ==> is_number(#[trigger] pieces_view(parts@)[j]),
        decreases parts.len() - i,
    {
        if !is_number_chars(&parts[i]) {
            assert(pieces_view(parts@)[i as int] == parts@[i as int]@);
            return false;
        }
        assert(pieces_view(parts@)[i as int] == parts@[i as int]@);
        i += 1;
    }
    true
}

fn literal_colour(parts: &Vec<Vec<char>>) -> (r: Option<RGB>)
    ensures
        match literal_channels(pieces_view(parts@)) {
            Some(c) => r matches Some(x) && x@ == c,
            None => r is None,
        },
{
    if !check_numbers(parts) {
        None
    } else if parts.len() == 3 {
        Some(
            RGB {
                r: Channel::Literal(Number { text: string_of(&parts[0]) }),
                g: Channel::Literal(Number { text: string_of(&parts[1]) }),
                b: Channel::Literal(Number { text: string_of(&parts[2]) }),
            },
        )
    } else if parts.len() == 1 {
        Some(
            RGB {
                r: Channel::Literal(Number { text: string_of(&parts[0]) }),
                g: Channel::Literal(Number { text: string_of(&parts[0]) }),
                b: Channel::Literal(Number { text: string_of(&parts[0]) }),
            },
        )
    } else {
        None
    }
}

/// Each piece without its leading and trailing white space.
pub fn trim_all(parts: &Vec<Vec<char>>) -> (r: Vec<Vec<char>>)
    ensures
        pieces_view(r@) == trim_each(pieces_view(parts@)),
{
    let mut r: Vec<Vec<char>> = Vec::new();
    let mut i: usize = 0;
    while i < parts.len()
        invariant
            i <= parts.len(),
            r.len() == i,
            forall|j: int| 0 <= j < i ==> r@[j]@ == trim(parts@[j]@),
        decreases parts.len() - i,
    {
        r.push(trim_chars(&parts[i]));
        i += 1;
    }
    assert(pieces_view(r@) =~= trim_each(pieces_view(parts@)));
    r
}

impl Spectrum {
    /// The literal `text`.
    pub fn new(text: &str) -> (r: Self)
        ensures
            r@ == text@,
    {
        Spectrum { value: text.to_owned() }
    }

    /// The literal `s`, which gives red, green and blue.
    pub fn from_rgb(s: String) -> (r: Self)
        ensures
            r@ == s@,
    {
        Spectrum { value: s }
    }

    /// Whether both literals are written alike.
    pub fn same(&self, other: &Spectrum) -> (r: bool)
        ensures
            r == (self@ == other@),
    {
        self.value == other.value
    }

    /// The colour that the literal gives.
    pub fn as_rgb(self) -> (r: Result<RGB, Error>)
        ensures
            match rgb_of(self@) {
                Ok(c) => r matches Ok(x) && x@ == c,
                Err(e) => r matches Err(x) && x@ == e,
            },
    {
        let v = chars_of(self.value.as_str());
        if contains_char(&v, ':') {
            return Err(Error::UnsupportedSpectralSamples(self.value));
        }
        let pieces = split_chars(&v, ',');
        if pieces.len() > 1 {
            let trimmed = trim_all(&pieces);
            return match literal_colour(&trimmed) {
                Some(c) => Ok(c),
                None => Err(mismatch_error("as_rgb", Value::Spectrum(self))),
            };
        }
        let t = trim_chars(&v);
        if contains_char(&t, '#') {
            return match hex_colour(&t) {
                Some(c) => Ok(c),
                None => Err(Error::InvalidHex(self.value)),
            };
        }
        let w = words_of(&v);
        match literal_colour(&w) {
            Some(c) => Ok(c),
            None => Err(mismatch_error("as_rgb", Value::Spectrum(self))),
        }
    }
}

/// The index of refraction of a named material.
pub open spec fn ior_of(name: Seq<char>) -> Option<Seq<char>> {
    if name == "vacuum"@ {
        Some("1"@)
    } else if name == "helium"@ {
        Some("1.000036"@)
    } else if name == "hydrogen"@ {
        Some("1.000132"@)
    } else if name == "air"@ {
        Some("1.000277"@)
    } else if name == "carbon dioxide"@ {
        Some("1.00045"@)
    } else if name == "water"@ {
        Some("1.333"@)
    } else if name == "acetone"@ {
        Some("1.36"@)
    } else if name == "ethanol"@ {
        Some("1.361"@)
    } else if name == "carbon tetrachloride"@ {
        Some("1.461"@)
    } else if name == "glycerol"@ {
        Some("1.4729"@)
    } else if name == "benzene"@ {
        Some("1.501"@)
    } else if name == "silicone oil"@ {
        Some("1.52045"@)
    } else if name == "bromine"@ {
        Some("1.661"@)
    } else if name == "water ice"@ {
        Some("1.31"@)
    } else if name == "fused quartz"@ {
        Some("1.458"@)
    } else if name == "pyrex"@ {
        Some("1.47"@)
    } else if name == "acrylic glass"@ {
        Some("1.49"@)
    } else if name == "polypropylene"@ {
        Some("1.49"@)
    } else if name == "bk7"@ {
        Some("1.5046"@)
    } else if name == "sodium chloride"@ {
        Some("1.544"@)
    } else if name == "amber"@ {
        Some("1.55"@)
    } else if name == "pet"@ {
        Some("1.575"@)
    } else if name == "diamond"@ {
        Some("2.419"@)
    } else {
        None
    }
}

/// The index of refraction of a named material.
pub fn lookup_ior(name: &str) -> (r: Option<Number>)
    ensures
        match ior_of(name@) {
            Some(n) => r matches Some(x) && x@ == n,
            None => r is None,
        },
{
    if str_eq(name, "vacuum") {
        Some(Number::new("1"))
    } else if str_eq(name, "helium") {
        Some(Number::new("1.000036"))
    } else if str_eq(name, "hydrogen") {
        Some(Number::new("1.000132"))
    } else if str_eq(name, "air") {
        Some(Number::new("1.000277"))
    } else if str_eq(name, "carbon dioxide") {
        Some(Number::new("1.00045"))
    } else if str_eq(name, "water") {
        Some(Number::new("1.333"))
    } else if str_eq(name, "acetone") {
        Some(Number::new("1.36"))
    } else if str_eq(name, "ethanol") {
        Some(Number::new("1.361"))
    } else if str_eq(name, "carbon tetrachloride") {
        Some(Number::new("1.461"))
    } else if str_eq(name, "glycerol") {
        Some(Number::new("1.4729"))
    } else if str_eq(name, "benzene") {
        Some(Number::new("1.501"))
    } else if str_eq(name, "silicone oil") {
        Some(Number::new("1.52045"))
    } else if str_eq(name, "bromine") {
        Some(Number::new("1.661"))
    } else if str_eq(name, "water ice") {
        Some(Number::new("1.31"))
    } else if str_eq(name, "fused quartz") {
        Some(Number::new("1.458"))
    } else if str_eq(name, "pyrex") {
        Some(Number::new("1.47"))
    } else if str_eq(name, "acrylic glass") {
        Some(Number::new("1.49"))
    } else if str_eq(name, "polypropylene") {
        Some(Number::new("1.49"))
    } else if str_eq(name, "bk7") {
        Some(Number::new("1.5046"))
    } else if str_eq(name, "sodium chloride") {
        Some(Number::new("1.544"))
    } else if str_eq(name, "amber") {
        Some(Number::new("1.55"))
    } else if str_eq(name, "pet") {
        Some(Number::new("1.575"))
    } else if str_eq(name, "diamond") {
        Some(Number::new("2.419"))
    } else {
        None
    }
}

/// The index of refraction that a value gives: a number is one, a string
/// names a material.
pub open spec fn ior_value(v: ValueView) -> Result<Seq<char>, ErrorView> {
    match v {
        ValueView::Float(n) => Ok(n),
        ValueView::String(name) => match ior_of(name) {
            Some(n) => Ok(n),
            None => Err(ErrorView::UnknownVariant("ior"@, name)),
        },
        _ => Err(mismatch("as_ior"@, v)),
    }
}

/// What each typed accessor gives on a value: the payload of the one variant
/// that it accepts, and for every other value the mismatch under the
/// accessor's name.
pub open spec fn string_in(v: ValueView) -> Result<Seq<char>, ErrorView> {
    match v {
        ValueView::String(s) => Ok(s),
        _ => Err(mismatch("as_string"@, v)),
    }
}

/// The identifier that a reference holds.
pub open spec fn ref_in(v: ValueView) -> Result<Seq<char>, ErrorView> {
    match v {
        ValueView::Ref(s) => Ok(s),
        _ => Err(mismatch("as_ref"@, v)),
    }
}

/// The literal that a number holds.
pub open spec fn float_in(v: ValueView) -> Result<Seq<char>, ErrorView> {
    match v {
        ValueView::Float(s) => Ok(s),
        _ => Err(mismatch("as_float"@, v)),
    }
}

/// The integer that an integer value holds.
pub open spec fn int_in(v: ValueView) -> Result<i32, ErrorView> {
    match v {
        ValueView::Integer(s) => Ok(s),
        _ => Err(mismatch("as_int"@, v)),
    }
}

/// The truth value that a boolean value holds.
pub open spec fn bool_in(v: ValueView) -> Result<bool, ErrorView> {
    match v {
        ValueView::Boolean(s) => Ok(s),
        _ => Err(mismatch("as_bool"@, v)),
    }
}

/// The literal that a spectrum holds.
pub open spec fn spectrum_in(v: ValueView) -> Result<Seq<char>, ErrorView> {
    match v {
        ValueView::Spectrum(s) => Ok(s),
        _ => Err(mismatch("as_spectrum"@, v)),
    }
}

/// The coordinates that a vector holds.
pub open spec fn vector_in(v: ValueView) -> Result<(Seq<char>, Seq<char>, Seq<char>), ErrorView> {
    match v {
        ValueView::Vector(s) => Ok(s),
        _ => Err(mismatch("as_vec"@, v)),
    }
}

/// The coordinates that a point holds.
pub open spec fn point_in(v: ValueView) -> Result<(Seq<char>, Seq<char>, Seq<char>), ErrorView> {
    match v {
        ValueView::Point(s) => Ok(s),
        _ => Err(mismatch("as_point"@, v)),
    }
}

impl Value {
    /// The text of a string value.
    pub fn as_string(self) -> (r: Result<String, Error>)
        ensures
            match string_in(self@) {
                Ok(s) => r matches Ok(x) && x@ == s,
                Err(e) => r matches Err(x) && x@ == e,
            },
    {
        match self {
            Value::String(s) => Ok(s),
            _ => Err(mismatch_error("as_string", self)),
        }
    }

    /// The identifier of a reference.
    pub fn as_ref(self) -> (r: Result<String, Error>)
        ensures
            match ref_in(self@) {
                Ok(s) => r matches Ok(x) && x@ == s,
                Err(e) => r matches Err(x) && x@ == e,
            },
    {
        match self {
            Value::Ref(s) => Ok(s),
            _ => Err(mismatch_error("as_ref", self)),
        }
    }

    /// The literal of a number.
    pub fn as_float(self) -> (r: Result<Number, Error>)
        ensures
            match float_in(self@) {
                Ok(s) => r matches Ok(x) && x@ == s,
                Err(e) => r matches Err(x) && x@ == e,
            },
    {
        match self {
            Value::Float(s) => Ok(s),
            _ => Err(mismatch_error("as_float", self)),
        }
    }

    /// The integer of an integer value.
    pub fn as_int(self) -> (r: Result<i32, Error>)
        ensures
            match int_in(self@) {
                Ok(s) => r matches Ok(x) && x == s,
                Err(e) => r matches Err(x) && x@ == e,
            },
    {
        match self {
            Value::Integer(s) => Ok(s),
            _ => Err(mismatch_error("as_int", self)),
        }
    }

    /// The truth value of a boolean value.
    pub fn as_bool(self) -> (r: Result<bool, Error>)
        ensures
            match bool_in(self@) {
                Ok(s) => r matches Ok(x) && x == s,
                Err(e) => r matches Err(x) && x@ == e,
            },
    {
        match self {
            Value::Boolean(s) => Ok(s),
            _ => Err(mismatch_error("as_bool", self)),
        }
    }

    /// The literal of a spectrum.
    pub fn as_spectrum(self) -> (r: Result<Spectrum, Error>)
        ensures
            match spectrum_in(self@) {
                Ok(s) => r matches Ok(x) && x@ == s,
                Err(e) => r matches Err(x) && x@ == e,
            },
    {
        match self {
            Value::Spectrum(s) => Ok(s),
            _ => Err(mismatch_error("as_spectrum", self)),
        }
    }

    /// The coordinates of a vector.
    pub fn as_vec(self) -> (r: Result<Vector3, Error>)
        ensures
            match vector_in(self@) {
                Ok(s) => r matches Ok(x) && x@ == s,
                Err(e) => r matches Err(x) && x@ == e,
            },
    {
        match self {
            Value::Vector(s) => Ok(s),
            _ => Err(mismatch_error("as_vec", self)),
        }
    }

    /// The coordinates of a point.
    pub fn as_point(self) -> (r: Result<Vector3, Error>)
        ensures
            match point_in(self@) {
                Ok(s) => r matches Ok(x) && x@ == s,
                Err(e) => r matches Err(x) && x@ == e,
            },
    {
        match self {
            Value::Point(s) => Ok(s),
            _ => Err(mismatch_error("as_point", self)),
        }
    }

    /// The index of refraction that the value gives.
    pub fn as_ior(self) -> (r: Result<Number, Error>)
        ensures
            match ior_value(self@) {
                Ok(n) => r matches Ok(x) && x@ == n,
                Err(e) => r matches Err(x) && x@ == e,
            },
    {
        match self {
            Value::Float(n) => Ok(n),
            Value::String(name) => match lookup_ior(name.as_str()) {
                Some(n) => Ok(n),
                None => Err(Error::UnknownVariant("ior".to_owned(), name)),
            },
            _ => Err(mismatch_error("as_ior", self)),
        }
    }
}
/// Every material of the table has the index of refraction that the table
/// gives for it.
pub proof fn lemma_ior_lookup(name: Seq<char>)
    ensures
        ior_of(name) matches Some(n) ==> ior_value(ValueView::String(name)) == Ok::<
            Seq<char>,
            ErrorView,
        >(n),
{
}

/// A literal of three numbers between commas gives these three numbers,
/// trimmed, as its channels.
pub proof fn lemma_triple_gives_its_numbers(value: Seq<char>)
    requires
        !value.contains(':'),
        split(value, ',').len() == 3,
        all_numbers(trim_each(split(value, ','))),
    ensures
        rgb_of(value) == Ok::<RGBView, ErrorView>(
            RGBView {
                r: ChannelView::Literal(trim(split(value, ',')[0])),
                g: ChannelView::Literal(trim(split(value, ',')[1])),
                b: ChannelView::Literal(trim(split(value, ',')[2])),
            },
        ),
{
}

} // verus!
