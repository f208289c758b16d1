//! The events of a scene description, and what is read off an element's
//! attributes.
use crate::dict::{dict_get, index_from, Dict};
use crate::number::{is_number, is_number_chars, Number};
use crate::text::{
    chars_of, pieces_view, split, split_chars, str_eq, string_of, sub_chars, trim_each,
};
use crate::value::{mismatch, mismatch_error, trim_all, Error, ErrorView, Value, ValueView, Vector3};
use vstd::prelude::*;

verus! {

/// An attribute of an element: its local name and its value.
#[derive(Debug, PartialEq)]
pub struct Attribute {
    pub name: String,
    pub value: String,
}

impl View for Attribute {
    type V = (Seq<char>, Seq<char>);

    open spec fn view(&self) -> (Seq<char>, Seq<char>) {
        (self.name@, self.value@)
    }
}

/// One event of a scene description.
#[derive(Debug, PartialEq)]
pub enum Event {
    /// The start of an element, with its local name and its attributes.
    Start { name: String, attributes: Vec<Attribute> },
    /// The end of an element.
    End,
    /// White space between elements.
    Whitespace,
    /// Anything else that a document holds.
    Other,
    /// What the tokenizer reported when it gave up.
    Error(String),
}

/// A [`Event`] as contracts see it: every text is the sequence of its
/// characters, and every list the sequence of its items.
pub enum EventView {
    Start { name: Seq<char>, attributes: Seq<(Seq<char>, Seq<char>)> },
    End,
    Whitespace,
    Other,
    Error(Seq<char>),
}

/// The names and values of attributes, in their order.
pub open spec fn attributes_view(a: Seq<Attribute>) -> Seq<(Seq<char>, Seq<char>)> {
    Seq::new(a.len(), |i: int| a[i]@)
}

impl View for Event {
    type V = EventView;

    open spec fn view(&self) -> EventView {
        match self {
            Event::Start { name, attributes } => EventView::Start {
                name: name@,
                attributes: attributes_view(attributes@),
            },
            Event::End => EventView::End,
            Event::Whitespace => EventView::Whitespace,
            Event::Other => EventView::Other,
            Event::Error(m) => EventView::Error(m@),
        }
    }
}

/// Events as contracts see them, in their order.
pub open spec fn events_view(e: Seq<Event>) -> Seq<EventView> {
    Seq::new(e.len(), |i: int| e[i]@)
}

/// The events that the tokenizer yields on a document, until it ends or
/// gives up: of an element's start its local name and, of each attribute, the
/// local name and the value.
pub uninterp spec fn xml_events(bytes: Seq<u8>) -> Seq<EventView>;

/// Runs `xml::reader::EventReader` over `bytes` to the end of what it yields
/// and keeps of each event what `Event` holds. Nothing is claimed of the
/// events but that they depend on the bytes alone.
#[verifier::external_body]
fn read_events(bytes: &[u8]) -> (events: Vec<Event>)
    ensures
        events_view(events@) == xml_events(bytes@),
{
    xml::reader::EventReader::new(bytes).into_iter().map(|e| match e {
        Ok(xml::reader::XmlEvent::StartElement { name, attributes, .. }) => Event::Start {
            name: name.local_name,
            attributes: attributes.into_iter().map(|a| Attribute { name: a.name.local_name, value: a.value }).collect(),
        },
        Ok(xml::reader::XmlEvent::EndElement { .. }) => Event::End,
        Ok(xml::reader::XmlEvent::Whitespace(_)) => Event::Whitespace,
        Ok(_) => Event::Other,
        Err(e) => Event::Error(e.to_string()),
    }).collect()
}

/// The events of the document `bytes`.
pub fn tokenize(bytes: &[u8]) -> (events: Vec<Event>)
    ensures
        events_view(events@) == xml_events(bytes@),
{
    read_events(bytes)
}

/// The events ended inside an element.
pub open spec fn end_of_document() -> ErrorView {
    ErrorView::XmlTokenizer("unexpected end of document"@)
}

/// An element holds what is neither an element nor white space.
pub open spec fn unexpected_content() -> ErrorView {
    ErrorView::XmlTokenizer("unexpected content"@)
}

/// The events ended inside an element.
pub fn end_of_document_error() -> (e: Error)
    ensures
        e@ == end_of_document(),
{
    Error::XmlTokenizer("unexpected end of document".to_owned())
}

/// An element holds what is neither an element nor white space.
pub fn unexpected_content_error() -> (e: Error)
    ensures
        e@ == unexpected_content(),
{
    Error::XmlTokenizer("unexpected content".to_owned())
}

/// A value as written, or, where it begins with `$`, what the defaults hold
/// under the rest of it.
pub open spec fn resolve(value: Seq<char>, defaults: Seq<(Seq<char>, Seq<char>)>) -> Result<
    Seq<char>,
    ErrorView,
> {
    if value.len() > 0 && value[0] == '$' {
        match dict_get(defaults, value.skip(1)) {
            Some(v) => Ok(v),
            None => Err(ErrorView::UnresolvedReference(value.skip(1))),
        }
    } else {
        Ok(value)
    }
}

/// The value of the first attribute named `name`, resolved against the defaults.
pub open spec fn attribute(
    attrs: Seq<(Seq<char>, Seq<char>)>,
    name: Seq<char>,
    defaults: Seq<(Seq<char>, Seq<char>)>,
) -> Result<Option<Seq<char>>, ErrorView> {
    match dict_get(attrs, name) {
        None => Ok(None),
        Some(v) => match resolve(v, defaults) {
            Ok(r) => Ok(Some(r)),
            Err(e) => Err(e),
        },
    }
}

/// The value of an attribute that has to be there; `context` says where.
pub open spec fn required_attribute(
    attrs: Seq<(Seq<char>, Seq<char>)>,
    name: Seq<char>,
    context: Seq<char>,
    defaults: Seq<(Seq<char>, Seq<char>)>,
) -> Result<Seq<char>, ErrorView> {
    match attribute(attrs, name, defaults) {
        Err(e) => Err(e),
        Ok(None) => Err(ErrorView::MissingAttribute(name, context)),
        Ok(Some(v)) => Ok(v),
    }
}

/// The value of an attribute, or `fallback` where it is absent.
pub open spec fn attribute_or(
    attrs: Seq<(Seq<char>, Seq<char>)>,
    name: Seq<char>,
    fallback: Seq<char>,
    defaults: Seq<(Seq<char>, Seq<char>)>,
) -> Result<Seq<char>, ErrorView> {
    match attribute(attrs, name, defaults) {
        Err(e) => Err(e),
        Ok(None) => Ok(fallback),
        Ok(Some(v)) => Ok(v),
    }
}

/// The number that an attribute gives, or `fallback` where it is absent.
pub open spec fn number_attribute(
    attrs: Seq<(Seq<char>, Seq<char>)>,
    name: Seq<char>,
    fallback: Seq<char>,
    defaults: Seq<(Seq<char>, Seq<char>)>,
) -> Result<Seq<char>, ErrorView> {
    match attribute_or(attrs, name, fallback, defaults) {
        Err(e) => Err(e),
        Ok(v) => if is_number(v) {
            Ok(v)
        } else {
            Err(mismatch("float"@, ValueView::String(v)))
        },
    }
}

/// The three numbers of `a, b, c`.
pub open spec fn triple_of(text: Seq<char>) -> Result<
    (Seq<char>, Seq<char>, Seq<char>),
    ErrorView,
> {
    let parts = trim_each(split(text, ','));
    if parts.len() == 3 && is_number(parts[0]) && is_number(parts[1]) && is_number(parts[2]) {
        Ok((parts[0], parts[1], parts[2]))
    } else {
        Err(mismatch("vector"@, ValueView::String(text)))
    }
}

/// The three numbers that an attribute gives as `a, b, c`.
pub open spec fn vector_attribute(
    attrs: Seq<(Seq<char>, Seq<char>)>,
    name: Seq<char>,
    defaults: Seq<(Seq<char>, Seq<char>)>,
) -> Result<Option<(Seq<char>, Seq<char>, Seq<char>)>, ErrorView> {
    match attribute(attrs, name, defaults) {
        Err(e) => Err(e),
        Ok(None) => Ok(None),
        Ok(Some(v)) => match triple_of(v) {
            Ok(t) => Ok(Some(t)),
            Err(e) => Err(e),
        },
    }
}

/// The position after the end of the element in which `pos` lies at depth
/// `depth`: starts go one deeper, ends come one back, and nothing else is
/// looked at.
pub open spec fn skip_end(ev: Seq<EventView>, pos: int, depth: int) -> Result<int, ErrorView>
    decreases ev.len() - pos,
{
    if pos < 0 || pos >= ev.len() {
        Err(end_of_document())
    } else {
        match ev[pos] {
            EventView::Start { .. } => skip_end(ev, pos + 1, depth + 1),
            EventView::End => if depth <= 1 {
                Ok(pos + 1)
            } else {
                skip_end(ev, pos + 1, depth - 1)
            },
            EventView::Error(m) => Err(ErrorView::XmlTokenizer(m)),
            _ => skip_end(ev, pos + 1, depth),
        }
    }
}

/// Passing over an element ends behind where it began, and within the document.
pub proof fn lemma_skip_end_ends(ev: Seq<EventView>, pos: int, depth: int)
    requires
        0 <= pos,
    ensures
        skip_end(ev, pos, depth) matches Ok(end) ==> pos < end <= ev.len(),
    decreases ev.len() - pos,
{
    if pos < ev.len() {
        match ev[pos] {
            EventView::Start { .. } => {
                lemma_skip_end_ends(ev, pos + 1, depth + 1);
            },
            EventView::End => {
                if depth > 1 {
                    lemma_skip_end_ends(ev, pos + 1, depth - 1);
                }
            },
            EventView::Error(_) => {},
            _ => {
                lemma_skip_end_ends(ev, pos + 1, depth);
            },
        }
    }
}

/// Whether two events are of the same kind; two errors, with the same message.
pub open spec fn same_kind(a: EventView, b: EventView) -> bool {
    match a {
        EventView::Start { .. } => b is Start,
        EventView::End => b is End,
        EventView::Whitespace => b is Whitespace,
        EventView::Other => b is Other,
        EventView::Error(m) => b == EventView::Error(m),
    }
}

/// Passing over an element looks at no name and at no attribute: two
/// documents whose events are of the same kinds are passed over alike.
pub proof fn lemma_skip_ignores_attributes(
    first: Seq<EventView>,
    second: Seq<EventView>,
    pos: int,
    depth: int,
)
    requires
        first.len() == second.len(),
        forall|i: int| 0 <= i < first.len() ==> same_kind(#[trigger] first[i], second[i]),
    ensures
        skip_end(first, pos, depth) == skip_end(second, pos, depth),
    decreases first.len() - pos,
{
    if 0 <= pos < first.len() {
        assert(same_kind(first[pos], second[pos]));
        match first[pos] {
            EventView::Start { .. } => {
                lemma_skip_ignores_attributes(first, second, pos + 1, depth + 1);
            },
            EventView::End => {
                if depth > 1 {
                    lemma_skip_ignores_attributes(first, second, pos + 1, depth - 1);
                }
            },
            EventView::Error(_) => {},
            _ => {
                lemma_skip_ignores_attributes(first, second, pos + 1, depth);
            },
        }
    }
}

/// What `value` stands for: itself, or a default where it begins with `$`.
pub fn match_value_or_defaults(value: String, defaults: &Dict<String>) -> (r: Result<
    String,
    Error,
>)
    ensures
        match resolve(value@, defaults@) {
            Ok(v) => r matches Ok(x) && x@ == v,
            Err(e) => r matches Err(x) && x@ == e,
        },
{
    let v = chars_of(value.as_str());
    if v.len() > 0 && v[0] == '$' {
        let rest = sub_chars(&v, 1, v.len());
        let key = string_of(&rest);
        match defaults.get(key.as_str()) {
            Some(d) => Ok(d.clone()),
            None => Err(Error::UnresolvedReference(key)),
        }
    } else {
        Ok(value)
    }
}

fn raw_attribute<'a>(attrs: &'a Vec<Attribute>, name: &str) -> (r: Option<&'a String>)
    ensures
        match dict_get(attributes_view(attrs@), name@) {
            Some(v) => r matches Some(x) && x@ == v,
            None => r is None,
        },
{
    let ghost d = attributes_view(attrs@);
    let mut i: usize = 0;
    while i < attrs.len()
        invariant
            i <= attrs.len(),
            d == attributes_view(attrs@),
            index_from(d, name@, 0) == index_from(d, name@, i as int),
        decreases attrs.len() - i,
    {
        if str_eq(attrs[i].name.as_str(), name) {
            return Some(&attrs[i].value);
        }
        i += 1;
    }
    None
}

/// The value of the first attribute named `name`.
pub fn found_attrib(attrs: &Vec<Attribute>, name: &str, defaults: &Dict<String>) -> (r: Result<
    Option<String>,
    Error,
>)
    ensures
        match attribute(attributes_view(attrs@), name@, defaults@) {
            Ok(Some(v)) => r matches Ok(Some(x)) && x@ == v,
            Ok(None) => r matches Ok(None),
            Err(e) => r matches Err(x) && x@ == e,
        },
{
    match raw_attribute(attrs, name) {
        None => Ok(None),
        Some(v) => match match_value_or_defaults(v.clone(), defaults) {
            Ok(x) => Ok(Some(x)),
            Err(e) => Err(e),
        },
    }
}

/// The value of an attribute that has to be there.
pub fn found_attrib_or_error(
    attrs: &Vec<Attribute>,
    name: &str,
    additional_info: &str,
    defaults: &Dict<String>,
) -> (r: Result<String, Error>)
    ensures
        match required_attribute(attributes_view(attrs@), name@, additional_info@, defaults@) {
            Ok(v) => r matches Ok(x) && x@ == v,
            Err(e) => r matches Err(x) && x@ == e,
        },
{
    match found_attrib(attrs, name, defaults) {
        Err(e) => Err(e),
        Ok(None) => Err(Error::MissingAttribute(name.to_owned(), additional_info.to_owned())),
        Ok(Some(v)) => Ok(v),
    }
}

/// The value of an attribute, or `default` where it is absent.
pub fn found_attrib_or(
    attrs: &Vec<Attribute>,
    name: &str,
    default: &str,
    defaults: &Dict<String>,
) -> (r: Result<String, Error>)
    ensures
        match attribute_or(attributes_view(attrs@), name@, default@, defaults@) {
            Ok(v) => r matches Ok(x) && x@ == v,
            Err(e) => r matches Err(x) && x@ == e,
        },
{
    match found_attrib(attrs, name, defaults) {
        Err(e) => Err(e),
        Ok(None) => Ok(default.to_owned()),
        Ok(Some(v)) => Ok(v),
    }
}

/// The number that an attribute gives, or `default` where it is absent.
pub fn found_attrib_number(
    attrs: &Vec<Attribute>,
    name: &str,
    default: &str,
    defaults: &Dict<String>,
) -> (r: Result<Number, Error>)
    ensures
        match number_attribute(attributes_view(attrs@), name@, default@, defaults@) {
            Ok(v) => r matches Ok(x) && x@ == v,
            Err(e) => r matches Err(x) && x@ == e,
        },
{
    match found_attrib_or(attrs, name, default, defaults) {
        Err(e) => Err(e),
        Ok(v) => match Number::parse(v.as_str()) {
            Some(n) => Ok(n),
            None => Err(mismatch_error("float", Value::String(v))),
        },
    }
}

/// The three numbers of `a, b, c`.
pub fn parse_triple(text: String) -> (r: Result<Vector3, Error>)
    ensures
        match triple_of(text@) {
            Ok(v) => r matches Ok(x) && x@ == v,
            Err(e) => r matches Err(x) && x@ == e,
        },
{
    let v = chars_of(text.as_str());
    let pieces = split_chars(&v, ',');
    let parts = trim_all(&pieces);
    assert(pieces_view(parts@) == trim_each(split(text@, ',')));
    if parts.len() == 3 {
        assert(pieces_view(parts@)[0] == parts@[0]@);
        assert(pieces_view(parts@)[1] == parts@[1]@);
        assert(pieces_view(parts@)[2] == parts@[2]@);
        if is_number_chars(&parts[0]) && is_number_chars(&parts[1]) && is_number_chars(
            &parts[2],
        ) {
            return Ok(
                Vector3 {
                    x: Number { text: string_of(&parts[0]) },
                    y: Number { text: string_of(&parts[1]) },
                    z: Number { text: string_of(&parts[2]) },
                },
            );
        }
    }
    Err(mismatch_error("vector", Value::String(text)))
}

/// The three numbers that an attribute gives as `a, b, c`.
pub fn found_attrib_vec(attrs: &Vec<Attribute>, name: &str, defaults: &Dict<String>) -> (r:
    Result<Option<Vector3>, Error>)
    ensures
        match vector_attribute(attributes_view(attrs@), name@, defaults@) {
            Ok(Some(v)) => r matches Ok(Some(x)) && x@ == v,
            Ok(None) => r matches Ok(None),
            Err(e) => r matches Err(x) && x@ == e,
        },
{
    match found_attrib(attrs, name, defaults) {
        Err(e) => Err(e),
        Ok(None) => Ok(None),
        Ok(Some(v)) => match parse_triple(v) {
            Ok(t) => Ok(Some(t)),
            Err(e) => Err(e),
        },
    }
}

/// Passes over the rest of the element in which `pos` lies, its end included.
pub fn skipping_entry(events: &Vec<Event>, pos: &mut usize) -> (r: Result<(), Error>)
    ensures
        match skip_end(events_view(events@), *old(pos) as int, 1) {
            Ok(p) => r is Ok && *final(pos) == p && *old(pos) < p <= events.len(),
            Err(e) => r matches Err(x) && x@ == e,
        },
{
    if *pos > events.len() {
        return Err(end_of_document_error());
    }
    let ghost ev = events_view(events@);
    let start: usize = *pos;
    let mut p: usize = start;
    let mut nested: usize = 0;
    while p < events.len()
        invariant
            start == *old(pos),
            start <= p <= events.len(),
            ev == events_view(events@),
            nested <= p - start,
            skip_end(ev, start as int, 1) == skip_end(ev, p as int, nested + 1),
        decreases events.len() - p,
    {
        match &events[p] {
            Event::Start { .. } => {
                nested += 1;
            },
            Event::End => {
                if nested == 0 {
                    *pos = p + 1;
                    return Ok(());
                }
                nested -= 1;
            },
            Event::Error(m) => {
                return Err(Error::XmlTokenizer(m.clone()));
            },
            _ => {},
        }
        p += 1;
    }
    Err(end_of_document_error())
}

} // verus!
