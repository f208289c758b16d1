//! The properties of an element: the leaf elements directly inside it, read
//! into a table by name, and the references that have no name, in order.
use crate::dict::{dict_get, dict_insert, lemma_get_after_insert, Dict};
use crate::events::{
    attribute, attributes_view, end_of_document, end_of_document_error, events_view,
    found_attrib, found_attrib_number, found_attrib_or_error, number_attribute,
    required_attribute, skip_end, skipping_entry, unexpected_content, unexpected_content_error,
    Attribute, Event, EventView,
};
use crate::number::{i32_literal, is_number, parse_i32_chars, Number};
use crate::text::{chars_of, str_eq, strings_view};
use crate::value::{
    bool_in, float_in, int_in, mismatch, mismatch_error, point_in, spectrum_in,
    string_in, vector_in, Error, ErrorView, Spectrum, Value, ValueView, Vector3,
};
use vstd::prelude::*;

verus! {

/// What the leaves of an element gave.
#[derive(Debug, PartialEq)]
pub struct Props {
    pub map: Dict<Value>,
    pub refs: Vec<String>,
}

/// A [`Props`] as contracts see it: every text is the sequence of its
/// characters, and every list the sequence of its items.
pub struct PropsView {
    pub map: Seq<(Seq<char>, ValueView)>,
    pub refs: Seq<Seq<char>>,
}

impl View for Props {
    type V = PropsView;

    open spec fn view(&self) -> PropsView {
        PropsView { map: self.map@, refs: strings_view(self.refs@) }
    }
}

/// No property and no reference.
pub open spec fn no_props() -> PropsView {
    PropsView { map: Seq::empty(), refs: Seq::empty() }
}

impl Props {
    /// No property and no reference.
    pub fn new() -> (r: Self)
        ensures
            r@ == no_props(),
    {
        let r = Props { map: Dict::new(), refs: Vec::new() };
        assert(r@.refs =~= Seq::<Seq<char>>::empty());
        r
    }
}

/// What one leaf gives: a value under a name, or a reference without one.
#[derive(Debug, PartialEq)]
pub enum Binding {
    Named(String, Value),
    Anonymous(String),
}

/// A [`Binding`] as contracts see it: every text is the sequence of its
/// characters, and every list the sequence of its items.
pub enum BindingView {
    Named(Seq<char>, ValueView),
    Anonymous(Seq<char>),
}

impl View for Binding {
    type V = BindingView;

    open spec fn view(&self) -> BindingView {
        match self {
            Binding::Named(k, v) => BindingView::Named(k@, v@),
            Binding::Anonymous(id) => BindingView::Anonymous(id@),
        }
    }
}

/// The names of the leaf elements.
pub open spec fn is_leaf_tag(tag: Seq<char>) -> bool {
    tag == "float"@ || tag == "integer"@ || tag == "boolean"@ || tag == "string"@ || tag
        == "spectrum"@ || tag == "rgb"@ || tag == "vector"@ || tag == "point"@ || tag == "ref"@
}

/// The value that the text of a leaf with a `value` attribute denotes.
pub open spec fn leaf_value(tag: Seq<char>, text: Seq<char>) -> Result<ValueView, ErrorView> {
    if tag == "float"@ {
        if is_number(text) {
            Ok(ValueView::Float(text))
        } else {
            Err(mismatch("float"@, ValueView::String(text)))
        }
    } else if tag == "integer"@ {
        match i32_literal(text) {
            Some(i) => Ok(ValueView::Integer(i)),
            None => Err(mismatch("integer"@, ValueView::String(text))),
        }
    } else if tag == "boolean"@ {
        if text == "true"@ {
            Ok(ValueView::Boolean(true))
        } else if text == "false"@ {
            Ok(ValueView::Boolean(false))
        } else {
            Err(mismatch("boolean"@, ValueView::String(text)))
        }
    } else if tag == "string"@ {
        Ok(ValueView::String(text))
    } else {
        Ok(ValueView::Spectrum(text))
    }
}

/// The three coordinates that the attributes `x`, `y` and `z` give; one that
/// is absent is zero.
pub open spec fn coordinates(
    attrs: Seq<(Seq<char>, Seq<char>)>,
    defaults: Seq<(Seq<char>, Seq<char>)>,
) -> Result<(Seq<char>, Seq<char>, Seq<char>), ErrorView> {
    match number_attribute(attrs, "x"@, "0.0"@, defaults) {
        Err(e) => Err(e),
        Ok(x) => match number_attribute(attrs, "y"@, "0.0"@, defaults) {
            Err(e) => Err(e),
            Ok(y) => match number_attribute(attrs, "z"@, "0.0"@, defaults) {
                Err(e) => Err(e),
                Ok(z) => Ok((x, y, z)),
            },
        },
    }
}

/// What the leaf element `tag` with the attributes `attrs` gives.
pub open spec fn leaf_binding(
    tag: Seq<char>,
    attrs: Seq<(Seq<char>, Seq<char>)>,
    defaults: Seq<(Seq<char>, Seq<char>)>,
) -> Result<BindingView, ErrorView> {
    if tag == "ref"@ {
        match attribute(attrs, "name"@, defaults) {
            Err(e) => Err(e),
            Ok(name) => match required_attribute(attrs, "id"@, tag, defaults) {
                Err(e) => Err(e),
                Ok(id) => match name {
                    Some(n) => Ok(BindingView::Named(n, ValueView::Ref(id))),
                    None => Ok(BindingView::Anonymous(id)),
                },
            },
        }
    } else {
        match required_attribute(attrs, "name"@, tag, defaults) {
            Err(e) => Err(e),
            Ok(name) => if tag == "vector"@ || tag == "point"@ {
                match coordinates(attrs, defaults) {
                    Err(e) => Err(e),
                    Ok(c) => Ok(
                        BindingView::Named(
                            name,
                            if tag == "vector"@ {
                                ValueView::Vector(c)
                            } else {
                                ValueView::Point(c)
                            },
                        ),
                    ),
                }
            } else {
                match required_attribute(attrs, "value"@, tag, defaults) {
                    Err(e) => Err(e),
                    Ok(text) => match leaf_value(tag, text) {
                        Err(e) => Err(e),
                        Ok(v) => Ok(BindingView::Named(name, v)),
                    },
                }
            },
        }
    }
}

/// The properties with one more leaf: a name that was bound before holds the
/// new value.
pub open spec fn bind(props: PropsView, b: BindingView) -> PropsView {
    match b {
        BindingView::Named(k, v) => PropsView { map: dict_insert(props.map, k, v), ..props },
        BindingView::Anonymous(id) => PropsView { refs: props.refs.push(id), ..props },
    }
}

/// What one event does to the reading of an element's properties.
pub enum Outcome {
    /// Reading goes on with the next event.
    Next { opened: bool, props: PropsView },
    /// The event ends the element.
    Finished,
    /// The event starts an element that is no leaf.
    Child,
    /// The event cannot be accepted.
    Fail(ErrorView),
}

/// The effect of the event `e`. `opened` says that a leaf was started and has
/// not ended yet: an end then closes the leaf, and otherwise the element.
pub open spec fn leaf_step(
    e: EventView,
    opened: bool,
    defaults: Seq<(Seq<char>, Seq<char>)>,
    props: PropsView,
) -> Outcome {
    match e {
        EventView::Start { name, attributes } => if is_leaf_tag(name) {
            match leaf_binding(name, attributes, defaults) {
                Ok(b) => Outcome::Next { opened: true, props: bind(props, b) },
                Err(e) => Outcome::Fail(e),
            }
        } else {
            Outcome::Child
        },
        EventView::End => if opened {
            Outcome::Next { opened: false, props }
        } else {
            Outcome::Finished
        },
        EventView::Whitespace => Outcome::Next { opened, props },
        EventView::Other => Outcome::Fail(unexpected_content()),
        EventView::Error(m) => Outcome::Fail(ErrorView::XmlTokenizer(m)),
    }
}

/// Where reading goes on after a child that began at `pos` and ended before `end`.
pub open spec fn resume(pos: int, end: int, len: nat) -> int {
    if pos < end <= len {
        end
    } else {
        pos + 1
    }
}

/// An element that may not stand where it stands.
pub open spec fn unknown_element(tag: Seq<char>) -> ErrorView {
    ErrorView::UnknownVariant("element"@, tag)
}

/// An element that may not stand where it stands.
pub fn unknown_element_error(tag: &str) -> (e: Error)
    ensures
        e@ == unknown_element(tag@),
{
    Error::UnknownVariant("element".to_owned(), tag.to_owned())
}

/// The properties of an element that captures no child, read from `pos` on
/// to its end, and the position after that end. A child is refused when
/// `strict`, and passed over otherwise.
pub open spec fn values_walk(
    ev: Seq<EventView>,
    pos: int,
    opened: bool,
    defaults: Seq<(Seq<char>, Seq<char>)>,
    strict: bool,
    props: PropsView,
) -> Result<(PropsView, int), ErrorView>
    decreases ev.len() - pos,
{
    if pos < 0 || pos >= ev.len() {
        Err(end_of_document())
    } else {
        match leaf_step(ev[pos], opened, defaults, props) {
            Outcome::Fail(e) => Err(e),
            Outcome::Finished => Ok((props, pos + 1)),
            Outcome::Next { opened: o, props: p } => values_walk(
                ev,
                pos + 1,
                o,
                defaults,
                strict,
                p,
            ),
            Outcome::Child => if strict {
                Err(unknown_element(ev[pos]->Start_name))
            } else {
                match skip_end(ev, pos + 1, 1) {
                    Err(e) => Err(e),
                    Ok(end) => values_walk(
                        ev,
                        resume(pos, end, ev.len()),
                        opened,
                        defaults,
                        strict,
                        props,
                    ),
                }
            },
        }
    }
}

/// Whether every number of a value is a literal of a real number.
pub open spec fn well_formed(v: ValueView) -> bool {
    match v {
        ValueView::Float(n) => is_number(n),
        ValueView::Vector(c) => is_number(c.0) && is_number(c.1) && is_number(c.2),
        ValueView::Point(c) => is_number(c.0) && is_number(c.1) && is_number(c.2),
        _ => true,
    }
}

/// A leaf that is accepted gives no malformed number: every number and
/// every coordinate that it gives is a literal of a real number.
pub proof fn lemma_leaf_is_well_formed(
    tag: Seq<char>,
    attrs: Seq<(Seq<char>, Seq<char>)>,
    defaults: Seq<(Seq<char>, Seq<char>)>,
)
    requires
        is_leaf_tag(tag),
    ensures
        leaf_binding(tag, attrs, defaults) matches Ok(BindingView::Named(_, v)) ==> well_formed(v),
{
}

/// A leaf with a name binds its value under that name, whatever the name
/// held before: the last leaf of a name wins. A reference without a name
/// comes behind those before it. Neither touches the other.
pub proof fn lemma_bind(props: PropsView, b: BindingView)
    ensures
        match b {
            BindingView::Named(k, v) => dict_get(bind(props, b).map, k) == Some(v) && bind(
                props,
                b,
            ).refs == props.refs && forall|other: Seq<char>|
                other != k ==> dict_get(bind(props, b).map, other) == #[trigger] dict_get(
                    props.map,
                    other,
                ),
            BindingView::Anonymous(id) => bind(props, b).map == props.map && bind(props, b).refs
                == props.refs + seq![id],
        },
{
    match b {
        BindingView::Named(k, v) => {
            lemma_get_after_insert(props.map, k, v, k);
            assert forall|other: Seq<char>| other != k implies dict_get(bind(props, b).map, other)
                == #[trigger] dict_get(props.map, other) by {
                lemma_get_after_insert(props.map, k, v, other);
            }
        },
        BindingView::Anonymous(id) => {
            assert(props.refs.push(id) =~= props.refs + seq![id]);
        },
    }
}

/// Where an element was read, reading goes on behind where it began and
/// within the document: `resume` gives the end of the child.
pub proof fn lemma_resume(pos: int, end: int, len: nat)
    requires
        pos < end <= len,
    ensures
        resume(pos, end, len) == end,
{
}

/// The reading of properties ends behind where it began, and within the document.
pub proof fn lemma_values_walk_ends(
    ev: Seq<EventView>,
    pos: int,
    opened: bool,
    defaults: Seq<(Seq<char>, Seq<char>)>,
    strict: bool,
    props: PropsView,
)
    requires
        0 <= pos,
    ensures
        values_walk(ev, pos, opened, defaults, strict, props) matches Ok((_, end)) ==> pos < end
            <= ev.len(),
    decreases ev.len() - pos,
{
    if pos < ev.len() {
        match leaf_step(ev[pos], opened, defaults, props) {
            Outcome::Next { opened: o, props: p } => {
                lemma_values_walk_ends(ev, pos + 1, o, defaults, strict, p);
            },
            Outcome::Child => {
                if !strict {
                    match skip_end(ev, pos + 1, 1) {
                        Ok(end) => {
                            lemma_values_walk_ends(
                                ev,
                                resume(pos, end, ev.len()),
                                opened,
                                defaults,
                                strict,
                                props,
                            );
                        },
                        Err(_) => {},
                    }
                }
            },
            _ => {},
        }
    }
}

/// Whether `tag` names a leaf element.
pub fn is_leaf(tag: &str) -> (r: bool)
    ensures
        r == is_leaf_tag(tag@),
{
    str_eq(tag, "float") || str_eq(tag, "integer") || str_eq(tag, "boolean") || str_eq(
        tag,
        "string",
    ) || str_eq(tag, "spectrum") || str_eq(tag, "rgb") || str_eq(tag, "vector") || str_eq(
        tag,
        "point",
    ) || str_eq(tag, "ref")
}

fn read_leaf_value(tag: &str, text: String) -> (r: Result<Value, Error>)
    ensures
        match leaf_value(tag@, text@) {
            Ok(v) => r matches Ok(x) && x@ == v,
            Err(e) => r matches Err(x) && x@ == e,
        },
{
    if str_eq(tag, "float") {
        match Number::parse(text.as_str()) {
            Some(n) => Ok(Value::Float(n)),
            None => Err(mismatch_error("float", Value::String(text))),
        }
    } else if str_eq(tag, "integer") {
        let v = chars_of(text.as_str());
        match parse_i32_chars(&v) {
            Some(i) => Ok(Value::Integer(i)),
            None => Err(mismatch_error("integer", Value::String(text))),
        }
    } else if str_eq(tag, "boolean") {
        if str_eq(text.as_str(), "true") {
            Ok(Value::Boolean(true))
        } else if str_eq(text.as_str(), "false") {
            Ok(Value::Boolean(false))
        } else {
            Err(mismatch_error("boolean", Value::String(text)))
        }
    } else if str_eq(tag, "string") {
        Ok(Value::String(text))
    } else {
        Ok(Value::Spectrum(Spectrum::from_rgb(text)))
    }
}

fn read_coordinates(attrs: &Vec<Attribute>, defaults: &Dict<String>) -> (r: Result<
    Vector3,
    Error,
>)
    ensures
        match coordinates(attributes_view(attrs@), defaults@) {
            Ok(v) => r matches Ok(x) && x@ == v,
            Err(e) => r matches Err(x) && x@ == e,
        },
{
    let x = found_attrib_number(attrs, "x", "0.0", defaults)?;
    let y = found_attrib_number(attrs, "y", "0.0", defaults)?;
    let z = found_attrib_number(attrs, "z", "0.0", defaults)?;
    Ok(Vector3 { x, y, z })
}

/// What the leaf element `tag` with the attributes `attrs` gives.
pub fn read_leaf(tag: &str, attrs: &Vec<Attribute>, defaults: &Dict<String>) -> (r: Result<
    Binding,
    Error,
>)
    ensures
        match leaf_binding(tag@, attributes_view(attrs@), defaults@) {
            Ok(b) => r matches Ok(x) && x@ == b,
            Err(e) => r matches Err(x) && x@ == e,
        },
{
    if str_eq(tag, "ref") {
        let name = found_attrib(attrs, "name", defaults)?;
        let id = found_attrib_or_error(attrs, "id", tag, defaults)?;
        match name {
            Some(n) => Ok(Binding::Named(n, Value::Ref(id))),
            None => Ok(Binding::Anonymous(id)),
        }
    } else {
        let name = found_attrib_or_error(attrs, "name", tag, defaults)?;
        if str_eq(tag, "vector") {
            let c = read_coordinates(attrs, defaults)?;
            Ok(Binding::Named(name, Value::Vector(c)))
        } else if str_eq(tag, "point") {
            let c = read_coordinates(attrs, defaults)?;
            Ok(Binding::Named(name, Value::Point(c)))
        } else {
            let text = found_attrib_or_error(attrs, "value", tag, defaults)?;
            let v = read_leaf_value(tag, text)?;
            Ok(Binding::Named(name, v))
        }
    }
}

/// What an event did to the reading of an element's properties.
#[derive(Clone, Copy, PartialEq, Eq, Structural, Debug)]
pub enum Step {
    /// Reading goes on with the next event.
    Continue,
    /// The event ended the element.
    Finished,
    /// The event starts an element that is no leaf: the caller decides.
    Child,
}

/// Takes in one event of an element's body.
pub fn take_event(event: &Event, opened: &mut bool, defaults: &Dict<String>, props: &mut Props) -> (r:
    Result<Step, Error>)
    ensures
        match leaf_step(event@, *old(opened), defaults@, old(props)@) {
            Outcome::Next { opened: o, props: p } => r == Ok::<Step, Error>(Step::Continue)
                && *final(opened) == o && final(props)@ == p,
            Outcome::Finished => r == Ok::<Step, Error>(Step::Finished) && *final(opened)
                == *old(opened) && final(props)@ == old(props)@,
            Outcome::Child => r == Ok::<Step, Error>(Step::Child) && *final(opened) == *old(
                opened,
            ) && final(props)@ == old(props)@,
            Outcome::Fail(e) => r matches Err(x) && x@ == e,
        },
{
    match event {
        Event::Start { name, attributes } => {
            if is_leaf(name.as_str()) {
                match read_leaf(name.as_str(), attributes, defaults)? {
                    Binding::Named(k, v) => {
                        props.map.insert(k, v);
                    },
                    Binding::Anonymous(id) => {
                        props.refs.push(id);
                        assert(strings_view(props.refs@) =~= strings_view(old(props).refs@).push(
                            id@,
                        ));
                    },
                }
                *opened = true;
                Ok(Step::Continue)
            } else {
                Ok(Step::Child)
            }
        },
        Event::End => {
            if *opened {
                *opened = false;
                Ok(Step::Continue)
            } else {
                Ok(Step::Finished)
            }
        },
        Event::Whitespace => Ok(Step::Continue),
        Event::Other => Err(unexpected_content_error()),
        Event::Error(m) => Err(Error::XmlTokenizer(m.clone())),
    }
}

/// Reads the properties of an element that captures no child, from `pos` on
/// to the element's end.
pub fn values(events: &Vec<Event>, pos: &mut usize, defaults: &Dict<String>, strict: bool) -> (r:
    Result<Props, Error>)
    ensures
        match values_walk(
            events_view(events@),
            *old(pos) as int,
            false,
            defaults@,
            strict,
            no_props(),
        ) {
            Ok((p, end)) => r matches Ok(x) && x@ == p && *final(pos) == end && *old(pos) < end
                <= events.len(),
            Err(e) => r matches Err(x) && x@ == e,
        },
{
    if *pos > events.len() {
        return Err(end_of_document_error());
    }
    let ghost ev = events_view(events@);
    let start: usize = *pos;
    let mut props = Props::new();
    let mut opened = false;
    let mut p: usize = start;
    while p < events.len()
        invariant
            start == *old(pos),
            start <= p <= events.len(),
            ev == events_view(events@),
            values_walk(ev, start as int, false, defaults@, strict, no_props()) == values_walk(
                ev,
                p as int,
                opened,
                defaults@,
                strict,
                props@,
            ),
        decreases events.len() - p,
    {
        let event = &events[p];
        match take_event(event, &mut opened, defaults, &mut props)? {
            Step::Continue => {
                p += 1;
            },
            Step::Finished => {
                *pos = p + 1;
                return Ok(props);
            },
            Step::Child => {
                if strict {
                    match event {
                        Event::Start { name, .. } => {
                            return Err(unknown_element_error(name.as_str()));
                        },
                        _ => {
                            return Err(unexpected_content_error());
                        },
                    }
                }
                let mut q: usize = p + 1;
                skipping_entry(events, &mut q)?;
                p = q;
            },
        }
    }
    Err(end_of_document_error())
}

/// The value that a table of properties holds under `key`, or `fallback`.
pub open spec fn read(map: Seq<(Seq<char>, ValueView)>, key: Seq<char>, fallback: ValueView) -> ValueView {
    match dict_get(map, key) {
        Some(v) => v,
        None => fallback,
    }
}

/// The value of a property that has to be there; `context` says for what.
pub open spec fn required(map: Seq<(Seq<char>, ValueView)>, key: Seq<char>, context: Seq<char>) -> Result<
    ValueView,
    ErrorView,
> {
    match dict_get(map, key) {
        Some(v) => Ok(v),
        None => Err(ErrorView::MissingAttribute(key, context)),
    }
}

/// The number under `key`, or the number `fallback`.
pub open spec fn number_prop(map: Seq<(Seq<char>, ValueView)>, key: Seq<char>, fallback: Seq<char>) -> Result<
    Seq<char>,
    ErrorView,
> {
    float_in(read(map, key, ValueView::Float(fallback)))
}

/// The number under `key`, if there is a property of that name.
pub open spec fn optional_number(map: Seq<(Seq<char>, ValueView)>, key: Seq<char>) -> Result<
    Option<Seq<char>>,
    ErrorView,
> {
    match dict_get(map, key) {
        None => Ok(None),
        Some(v) => match float_in(v) {
            Ok(n) => Ok(Some(n)),
            Err(e) => Err(e),
        },
    }
}

/// The truth value under `key`, if there is a property of that name.
pub open spec fn optional_bool(map: Seq<(Seq<char>, ValueView)>, key: Seq<char>) -> Result<
    Option<bool>,
    ErrorView,
> {
    match dict_get(map, key) {
        None => Ok(None),
        Some(v) => match bool_in(v) {
            Ok(n) => Ok(Some(n)),
            Err(e) => Err(e),
        },
    }
}

/// The text under `key`, or the text `fallback`.
pub open spec fn string_prop(map: Seq<(Seq<char>, ValueView)>, key: Seq<char>, fallback: Seq<char>) -> Result<
    Seq<char>,
    ErrorView,
> {
    string_in(read(map, key, ValueView::String(fallback)))
}

/// The spectrum under `key`, or the spectrum `fallback`.
pub open spec fn spectrum_prop(map: Seq<(Seq<char>, ValueView)>, key: Seq<char>, fallback: Seq<char>) -> Result<
    Seq<char>,
    ErrorView,
> {
    spectrum_in(read(map, key, ValueView::Spectrum(fallback)))
}

/// The truth value under `key`, or `fallback`.
pub open spec fn bool_prop(map: Seq<(Seq<char>, ValueView)>, key: Seq<char>, fallback: bool) -> Result<
    bool,
    ErrorView,
> {
    bool_in(read(map, key, ValueView::Boolean(fallback)))
}

/// The integer under `key`, or `fallback`.
pub open spec fn int_prop(map: Seq<(Seq<char>, ValueView)>, key: Seq<char>, fallback: i32) -> Result<
    i32,
    ErrorView,
> {
    int_in(read(map, key, ValueView::Integer(fallback)))
}

/// The point under `key`, or the point `fallback`.
pub open spec fn point_prop(
    map: Seq<(Seq<char>, ValueView)>,
    key: Seq<char>,
    fallback: (Seq<char>, Seq<char>, Seq<char>),
) -> Result<(Seq<char>, Seq<char>, Seq<char>), ErrorView> {
    point_in(read(map, key, ValueView::Point(fallback)))
}

/// The text under `key`, which has to be there.
pub open spec fn required_string(map: Seq<(Seq<char>, ValueView)>, key: Seq<char>, context: Seq<char>) -> Result<
    Seq<char>,
    ErrorView,
> {
    match required(map, key, context) {
        Err(e) => Err(e),
        Ok(v) => string_in(v),
    }
}

/// The spectrum under `key`, which has to be there.
pub open spec fn required_spectrum(map: Seq<(Seq<char>, ValueView)>, key: Seq<char>, context: Seq<char>) -> Result<
    Seq<char>,
    ErrorView,
> {
    match required(map, key, context) {
        Err(e) => Err(e),
        Ok(v) => spectrum_in(v),
    }
}

/// The number under `key`, which has to be there.
pub open spec fn required_number(map: Seq<(Seq<char>, ValueView)>, key: Seq<char>, context: Seq<char>) -> Result<
    Seq<char>,
    ErrorView,
> {
    match required(map, key, context) {
        Err(e) => Err(e),
        Ok(v) => float_in(v),
    }
}

/// The integer under `key`, which has to be there.
pub open spec fn required_int(map: Seq<(Seq<char>, ValueView)>, key: Seq<char>, context: Seq<char>) -> Result<
    i32,
    ErrorView,
> {
    match required(map, key, context) {
        Err(e) => Err(e),
        Ok(v) => int_in(v),
    }
}

/// The point under `key`, which has to be there.
pub open spec fn required_point(map: Seq<(Seq<char>, ValueView)>, key: Seq<char>, context: Seq<char>) -> Result<
    (Seq<char>, Seq<char>, Seq<char>),
    ErrorView,
> {
    match required(map, key, context) {
        Err(e) => Err(e),
        Ok(v) => point_in(v),
    }
}

/// The vector under `key`, which has to be there.
pub open spec fn required_vector(map: Seq<(Seq<char>, ValueView)>, key: Seq<char>, context: Seq<char>) -> Result<
    (Seq<char>, Seq<char>, Seq<char>),
    ErrorView,
> {
    match required(map, key, context) {
        Err(e) => Err(e),
        Ok(v) => vector_in(v),
    }
}

/// An element of this kind takes no reference without a name: the first one
/// is what is wrong.
pub open spec fn no_refs(refs: Seq<Seq<char>>) -> Result<(), ErrorView> {
    if refs.len() == 0 {
        Ok(())
    } else {
        Err(ErrorView::UnresolvedReference(refs[0]))
    }
}

/// The value under `n`, or `d`.
pub fn read_value(m: &Dict<Value>, n: &str, d: Value) -> (r: Value)
    ensures
        r@ == read(m@, n@, d@),
{
    match m.get(n) {
        Some(v) => v.clone(),
        None => d,
    }
}

/// The value under `key`, which has to be there.
pub fn read_required(m: &Dict<Value>, key: &str, context: &str) -> (r: Result<Value, Error>)
    ensures
        match required(m@, key@, context@) {
            Ok(v) => r matches Ok(x) && x@ == v,
            Err(e) => r matches Err(x) && x@ == e,
        },
{
    match m.get(key) {
        Some(v) => Ok(v.clone()),
        None => Err(Error::MissingAttribute(key.to_owned(), context.to_owned())),
    }
}

/// The number under `key`, or the number `fallback`.
pub fn read_number(m: &Dict<Value>, key: &str, fallback: &str) -> (r: Result<Number, Error>)
    ensures
        match number_prop(m@, key@, fallback@) {
            Ok(v) => r matches Ok(x) && x@ == v,
            Err(e) => r matches Err(x) && x@ == e,
        },
{
    read_value(m, key, Value::Float(Number::new(fallback))).as_float()
}

/// The number under `key`, if there is a property of that name.
pub fn read_optional_number(m: &Dict<Value>, key: &str) -> (r: Result<Option<Number>, Error>)
    ensures
        match optional_number(m@, key@) {
            Ok(Some(v)) => r matches Ok(Some(x)) && x@ == v,
            Ok(None) => r matches Ok(None),
            Err(e) => r matches Err(x) && x@ == e,
        },
{
    match m.get(key) {
        None => Ok(None),
        Some(v) => {
            let n = v.clone().as_float()?;
            Ok(Some(n))
        },
    }
}

/// The truth value under `key`, if there is a property of that name.
pub fn read_optional_bool(m: &Dict<Value>, key: &str) -> (r: Result<Option<bool>, Error>)
    ensures
        match optional_bool(m@, key@) {
            Ok(v) => r matches Ok(x) && x == v,
            Err(e) => r matches Err(x) && x@ == e,
        },
{
    match m.get(key) {
        None => Ok(None),
        Some(v) => {
            let n = v.clone().as_bool()?;
            Ok(Some(n))
        },
    }
}

/// The text under `key`, or the text `fallback`.
pub fn read_string(m: &Dict<Value>, key: &str, fallback: &str) -> (r: Result<String, Error>)
    ensures
        match string_prop(m@, key@, fallback@) {
            Ok(v) => r matches Ok(x) && x@ == v,
            Err(e) => r matches Err(x) && x@ == e,
        },
{
    read_value(m, key, Value::String(fallback.to_owned())).as_string()
}

/// The spectrum under `key`, or the spectrum `fallback`.
pub fn read_spectrum(m: &Dict<Value>, key: &str, fallback: &str) -> (r: Result<Spectrum, Error>)
    ensures
        match spectrum_prop(m@, key@, fallback@) {
            Ok(v) => r matches Ok(x) && x@ == v,
            Err(e) => r matches Err(x) && x@ == e,
        },
{
    read_value(m, key, Value::Spectrum(Spectrum::new(fallback))).as_spectrum()
}

/// The truth value under `key`, or `fallback`.
pub fn read_bool(m: &Dict<Value>, key: &str, fallback: bool) -> (r: Result<bool, Error>)
    ensures
        match bool_prop(m@, key@, fallback) {
            Ok(v) => r matches Ok(x) && x == v,
            Err(e) => r matches Err(x) && x@ == e,
        },
{
    read_value(m, key, Value::Boolean(fallback)).as_bool()
}

/// The integer under `key`, or `fallback`.
pub fn read_int(m: &Dict<Value>, key: &str, fallback: i32) -> (r: Result<i32, Error>)
    ensures
        match int_prop(m@, key@, fallback) {
            Ok(v) => r matches Ok(x) && x == v,
            Err(e) => r matches Err(x) && x@ == e,
        },
{
    read_value(m, key, Value::Integer(fallback)).as_int()
}

/// The point under `key`, or the point `fallback`.
pub fn read_point(m: &Dict<Value>, key: &str, fallback: Vector3) -> (r: Result<Vector3, Error>)
    ensures
        match point_prop(m@, key@, fallback@) {
            Ok(v) => r matches Ok(x) && x@ == v,
            Err(e) => r matches Err(x) && x@ == e,
        },
{
    read_value(m, key, Value::Point(fallback)).as_point()
}

/// The text under `key`, which has to be there.
pub fn read_required_string(m: &Dict<Value>, key: &str, context: &str) -> (r: Result<String, Error>)
    ensures
        match required_string(m@, key@, context@) {
            Ok(v) => r matches Ok(x) && x@ == v,
            Err(e) => r matches Err(x) && x@ == e,
        },
{
    read_required(m, key, context)?.as_string()
}

/// The spectrum under `key`, which has to be there.
pub fn read_required_spectrum(m: &Dict<Value>, key: &str, context: &str) -> (r: Result<
    Spectrum,
    Error,
>)
    ensures
        match required_spectrum(m@, key@, context@) {
            Ok(v) => r matches Ok(x) && x@ == v,
            Err(e) => r matches Err(x) && x@ == e,
        },
{
    read_required(m, key, context)?.as_spectrum()
}

/// The number under `key`, which has to be there.
pub fn read_required_number(m: &Dict<Value>, key: &str, context: &str) -> (r: Result<Number, Error>)
    ensures
        match required_number(m@, key@, context@) {
            Ok(v) => r matches Ok(x) && x@ == v,
            Err(e) => r matches Err(x) && x@ == e,
        },
{
    read_required(m, key, context)?.as_float()
}

/// The integer under `key`, which has to be there.
pub fn read_required_int(m: &Dict<Value>, key: &str, context: &str) -> (r: Result<i32, Error>)
    ensures
        match required_int(m@, key@, context@) {
            Ok(v) => r matches Ok(x) && x == v,
            Err(e) => r matches Err(x) && x@ == e,
        },
{
    read_required(m, key, context)?.as_int()
}

/// The point under `key`, which has to be there.
pub fn read_required_point(m: &Dict<Value>, key: &str, context: &str) -> (r: Result<Vector3, Error>)
    ensures
        match required_point(m@, key@, context@) {
            Ok(v) => r matches Ok(x) && x@ == v,
            Err(e) => r matches Err(x) && x@ == e,
        },
{
    read_required(m, key, context)?.as_point()
}

/// The vector under `key`, which has to be there.
pub fn read_required_vector(m: &Dict<Value>, key: &str, context: &str) -> (r: Result<Vector3, Error>)
    ensures
        match required_vector(m@, key@, context@) {
            Ok(v) => r matches Ok(x) && x@ == v,
            Err(e) => r matches Err(x) && x@ == e,
        },
{
    read_required(m, key, context)?.as_vec()
}

/// Refuses the first reference without a name, if there is one.
pub fn check_no_refs(refs: &Vec<String>) -> (r: Result<(), Error>)
    ensures
        match no_refs(strings_view(refs@)) {
            Ok(_) => r is Ok,
            Err(e) => r matches Err(x) && x@ == e,
        },
{
    if refs.len() == 0 {
        Ok(())
    } else {
        Err(Error::UnresolvedReference(refs[0].clone()))
    }
}

} // verus!
