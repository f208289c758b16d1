//! Transforms: the primitives of a `transform` element, in document order.
//! The matrix of a transform is the product of the matrices of its
//! primitives in that order; whoever consumes the scene computes it.
use crate::dict::Dict;
use crate::events::{
    attribute, attributes_view, end_of_document, end_of_document_error, events_view,
    found_attrib, found_attrib_number, found_attrib_or_error, found_attrib_vec,
    number_attribute, required_attribute, unexpected_content, unexpected_content_error,
    vector_attribute, Attribute, Event, EventView,
};
use crate::number::{is_number, is_number_chars, Number};
use crate::text::{chars_of, pieces_view, str_eq, string_of, words, words_of};
use crate::value::{all_numbers, mismatch, mismatch_error, Error, ErrorView, Value, ValueView, Vector3};
use vstd::prelude::*;

verus! {

/// One primitive of a transform.
#[derive(Debug, PartialEq)]
pub enum TransformOp {
    /// A translation by a vector.
    Translate(Vector3),
    /// A scaling by one factor along all axes.
    UniformScale(Number),
    /// A scaling by one factor for each axis.
    Scale(Vector3),
    /// A rotation about an axis by an angle in degrees.
    Rotate { axis: Vector3, angle: Number },
    /// A matrix by its sixteen entries, row by row.
    Matrix(Vec<Number>),
    /// A view from `origin` towards `target` with `up` upwards.
    LookAt { origin: Vector3, target: Vector3, up: Vector3 },
}

/// A [`TransformOp`] as contracts see it: every text is the sequence of its
/// characters, and every list the sequence of its items.
pub enum TransformOpView {
    Translate((Seq<char>, Seq<char>, Seq<char>)),
    UniformScale(Seq<char>),
    Scale((Seq<char>, Seq<char>, Seq<char>)),
    Rotate { axis: (Seq<char>, Seq<char>, Seq<char>), angle: Seq<char> },
    Matrix(Seq<Seq<char>>),
    LookAt {
        origin: (Seq<char>, Seq<char>, Seq<char>),
        target: (Seq<char>, Seq<char>, Seq<char>),
        up: (Seq<char>, Seq<char>, Seq<char>),
    },
}

/// The literals of a list of numbers, in their order.
pub open spec fn numbers_view(list: Seq<Number>) -> Seq<Seq<char>> {
    Seq::new(list.len(), |i: int| list[i]@)
}

impl View for TransformOp {
    type V = TransformOpView;

    open spec fn view(&self) -> TransformOpView {
        match self {
            TransformOp::Translate(v) => TransformOpView::Translate(v@),
            TransformOp::UniformScale(n) => TransformOpView::UniformScale(n@),
            TransformOp::Scale(v) => TransformOpView::Scale(v@),
            TransformOp::Rotate { axis, angle } => TransformOpView::Rotate {
                axis: axis@,
                angle: angle@,
            },
            TransformOp::Matrix(m) => TransformOpView::Matrix(numbers_view(m@)),
            TransformOp::LookAt { origin, target, up } => TransformOpView::LookAt {
                origin: origin@,
                target: target@,
                up: up@,
            },
        }
    }
}

/// A transform: its primitives in the order in which they compose.
#[derive(Debug, PartialEq)]
pub struct Transform {
    pub ops: Vec<TransformOp>,
}

impl View for Transform {
    type V = Seq<TransformOpView>;

    open spec fn view(&self) -> Seq<TransformOpView> {
        Seq::new(self.ops@.len(), |i: int| self.ops@[i]@)
    }
}

impl Clone for TransformOp {
    fn clone(&self) -> (r: Self)
        ensures
            r@ == self@,
    {
        match self {
            TransformOp::Translate(v) => TransformOp::Translate(v.clone()),
            TransformOp::UniformScale(n) => TransformOp::UniformScale(n.clone()),
            TransformOp::Scale(v) => TransformOp::Scale(v.clone()),
            TransformOp::Rotate { axis, angle } => TransformOp::Rotate {
                axis: axis.clone(),
                angle: angle.clone(),
            },
            TransformOp::Matrix(m) => {
                let mut out: Vec<Number> = Vec::new();
                let mut i: usize = 0;
                while i < m.len()
                    invariant
                        i <= m.len(),
                        out.len() == i,
                        forall|j: int| 0 <= j < i ==> out@[j]@ == m@[j]@,
                    decreases m.len() - i,
                {
                    out.push(m[i].clone());
                    i += 1;
                }
                assert(numbers_view(out@) =~= numbers_view(m@));
                TransformOp::Matrix(out)
            },
            TransformOp::LookAt { origin, target, up } => TransformOp::LookAt {
                origin: origin.clone(),
                target: target.clone(),
                up: up.clone(),
            },
        }
    }
}

impl Clone for Transform {
    fn clone(&self) -> (r: Self)
        ensures
            r@ == self@,
    {
        let mut out: Vec<TransformOp> = Vec::new();
        let mut i: usize = 0;
        while i < self.ops.len()
            invariant
                i <= self.ops.len(),
                out.len() == i,
                forall|j: int| 0 <= j < i ==> out@[j]@ == self.ops@[j]@,
            decreases self.ops.len() - i,
        {
            out.push(self.ops[i].clone());
            i += 1;
        }
        let r = Transform { ops: out };
        assert(r@ =~= self@);
        r
    }
}

/// The transform that changes nothing: no primitive at all.
pub open spec fn identity() -> Seq<TransformOpView> {
    Seq::empty()
}

/// Three numbers from the attributes `x`, `y` and `z`, each `fallback` where absent.
pub open spec fn axes(
    attrs: Seq<(Seq<char>, Seq<char>)>,
    fallback: Seq<char>,
    defaults: Seq<(Seq<char>, Seq<char>)>,
) -> Result<(Seq<char>, Seq<char>, Seq<char>), ErrorView> {
    match number_attribute(attrs, "x"@, fallback, defaults) {
        Err(e) => Err(e),
        Ok(x) => match number_attribute(attrs, "y"@, fallback, defaults) {
            Err(e) => Err(e),
            Ok(y) => match number_attribute(attrs, "z"@, fallback, defaults) {
                Err(e) => Err(e),
                Ok(z) => Ok((x, y, z)),
            },
        },
    }
}

/// The vector that a required attribute gives as `a, b, c`.
pub open spec fn required_vector(
    attrs: Seq<(Seq<char>, Seq<char>)>,
    name: Seq<char>,
    context: Seq<char>,
    defaults: Seq<(Seq<char>, Seq<char>)>,
) -> Result<(Seq<char>, Seq<char>, Seq<char>), ErrorView> {
    match vector_attribute(attrs, name, defaults) {
        Err(e) => Err(e),
        Ok(None) => Err(ErrorView::MissingAttribute(name, context)),
        Ok(Some(v)) => Ok(v),
    }
}

/// The sixteen entries of a matrix: the words of `text`.
pub open spec fn matrix_entries(text: Seq<char>) -> Result<Seq<Seq<char>>, ErrorView> {
    let w = words(text);
    if w.len() == 16 && all_numbers(w) {
        Ok(w)
    } else {
        Err(mismatch("matrix"@, ValueView::String(text)))
    }
}

/// The names of the primitives of a transform.
pub open spec fn is_primitive(tag: Seq<char>) -> bool {
    tag == "translate"@ || tag == "scale"@ || tag == "rotate"@ || tag == "matrix"@ || tag
        == "lookAt"@ || tag == "lookat"@
}

/// The primitive that the element `tag` with the attributes `attrs` denotes.
pub open spec fn primitive(
    tag: Seq<char>,
    attrs: Seq<(Seq<char>, Seq<char>)>,
    defaults: Seq<(Seq<char>, Seq<char>)>,
) -> Result<TransformOpView, ErrorView> {
    if tag == "translate"@ {
        match axes(attrs, "0.0"@, defaults) {
            Err(e) => Err(e),
            Ok(v) => Ok(TransformOpView::Translate(v)),
        }
    } else if tag == "scale"@ {
        match attribute(attrs, "value"@, defaults) {
            Err(e) => Err(e),
            Ok(Some(v)) => if is_number(v) {
                Ok(TransformOpView::UniformScale(v))
            } else {
                Err(mismatch("float"@, ValueView::String(v)))
            },
            Ok(None) => match axes(attrs, "1.0"@, defaults) {
                Err(e) => Err(e),
                Ok(v) => Ok(TransformOpView::Scale(v)),
            },
        }
    } else if tag == "rotate"@ {
        match axes(attrs, "0.0"@, defaults) {
            Err(e) => Err(e),
            Ok(axis) => match required_attribute(attrs, "angle"@, tag, defaults) {
                Err(e) => Err(e),
                Ok(angle) => if is_number(angle) {
                    Ok(TransformOpView::Rotate { axis, angle })
                } else {
                    Err(mismatch("float"@, ValueView::String(angle)))
                },
            },
        }
    } else if tag == "matrix"@ {
        match required_attribute(attrs, "value"@, tag, defaults) {
            Err(e) => Err(e),
            Ok(text) => match matrix_entries(text) {
                Err(e) => Err(e),
                Ok(m) => Ok(TransformOpView::Matrix(m)),
            },
        }
    } else if tag == "lookAt"@ || tag == "lookat"@ {
        match required_vector(attrs, "origin"@, tag, defaults) {
            Err(e) => Err(e),
            Ok(origin) => match required_vector(attrs, "target"@, tag, defaults) {
                Err(e) => Err(e),
                Ok(target) => match required_vector(attrs, "up"@, tag, defaults) {
                    Err(e) => Err(e),
                    Ok(up) => Ok(TransformOpView::LookAt { origin, target, up }),
                },
            },
        }
    } else {
        Err(ErrorView::UnknownVariant("transform"@, tag))
    }
}

/// The primitives of a `transform` element read from `pos` on, after `ops`,
/// and the position after the element's end. `nested` counts the primitives
/// that were started and have not ended.
pub open spec fn transform_walk(
    ev: Seq<EventView>,
    pos: int,
    nested: int,
    defaults: Seq<(Seq<char>, Seq<char>)>,
    ops: Seq<TransformOpView>,
) -> Result<(Seq<TransformOpView>, int), ErrorView>
    decreases ev.len() - pos,
{
    if pos < 0 || pos >= ev.len() {
        Err(end_of_document())
    } else {
        match ev[pos] {
            EventView::Start { name, attributes } => match primitive(name, attributes, defaults) {
                Err(e) => Err(e),
                Ok(op) => transform_walk(ev, pos + 1, nested + 1, defaults, ops.push(op)),
            },
            EventView::End => if nested <= 0 {
                Ok((ops, pos + 1))
            } else {
                transform_walk(ev, pos + 1, nested - 1, defaults, ops)
            },
            EventView::Whitespace => transform_walk(ev, pos + 1, nested, defaults, ops),
            EventView::Other => Err(unexpected_content()),
            EventView::Error(m) => Err(ErrorView::XmlTokenizer(m)),
        }
    }
}

/// The transform of a `transform` element whose body begins at `pos`.
pub open spec fn transform_of(
    ev: Seq<EventView>,
    pos: int,
    defaults: Seq<(Seq<char>, Seq<char>)>,
) -> Result<(Seq<TransformOpView>, int), ErrorView> {
    transform_walk(ev, pos, 0, defaults, identity())
}

/// A `transform` element without primitives is the identity.
pub proof fn lemma_empty_transform_is_identity(
    ev: Seq<EventView>,
    pos: int,
    defaults: Seq<(Seq<char>, Seq<char>)>,
)
    requires
        0 <= pos < ev.len(),
        ev[pos] is End,
    ensures
        transform_of(ev, pos, defaults) == Ok::<(Seq<TransformOpView>, int), ErrorView>(
            (identity(), pos + 1),
        ),
{
}

/// The reading of a transform ends behind where it began, and within the document.
pub proof fn lemma_transform_walk_ends(
    ev: Seq<EventView>,
    pos: int,
    nested: int,
    defaults: Seq<(Seq<char>, Seq<char>)>,
    ops: Seq<TransformOpView>,
)
    requires
        0 <= pos,
    ensures
        transform_walk(ev, pos, nested, defaults, ops) matches Ok((_, end)) ==> pos < end
            <= ev.len(),
    decreases ev.len() - pos,
{
    if pos < ev.len() {
        match ev[pos] {
            EventView::Start { name, attributes } => {
                match primitive(name, attributes, defaults) {
                    Ok(op) => {
                        lemma_transform_walk_ends(ev, pos + 1, nested + 1, defaults, ops.push(op));
                    },
                    Err(_) => {},
                }
            },
            EventView::End => {
                if nested > 0 {
                    lemma_transform_walk_ends(ev, pos + 1, nested - 1, defaults, ops);
                }
            },
            EventView::Whitespace => {
                lemma_transform_walk_ends(ev, pos + 1, nested, defaults, ops);
            },
            _ => {},
        }
    }
}

/// Two transforms one after the other: the primitives of the first, then
/// those of the second.
pub open spec fn compose(a: Seq<TransformOpView>, b: Seq<TransformOpView>) -> Seq<TransformOpView> {
    a + b
}

/// Composition is associative, and the identity changes nothing on either side.
pub proof fn lemma_composition(
    a: Seq<TransformOpView>,
    b: Seq<TransformOpView>,
    c: Seq<TransformOpView>,
)
    ensures
        compose(compose(a, b), c) == compose(a, compose(b, c)),
        compose(identity(), a) == a,
        compose(a, identity()) == a,
{
    assert(compose(compose(a, b), c) =~= compose(a, compose(b, c)));
    assert(compose(identity(), a) =~= a);
    assert(compose(a, identity()) =~= a);
}

/// Reading primitives after a transform composes that transform with what
/// the primitives alone give: each primitive composes behind all before it,
/// in the order of the document.
pub proof fn lemma_walk_composes(
    ev: Seq<EventView>,
    pos: int,
    nested: int,
    defaults: Seq<(Seq<char>, Seq<char>)>,
    ops: Seq<TransformOpView>,
)
    ensures
        transform_walk(ev, pos, nested, defaults, ops) == match transform_walk(
            ev,
            pos,
            nested,
            defaults,
            identity(),
        ) {
            Ok((t, end)) => Ok::<(Seq<TransformOpView>, int), ErrorView>((compose(ops, t), end)),
            Err(e) => Err(e),
        },
    decreases ev.len() - pos,
{
    if 0 <= pos < ev.len() {
        match ev[pos] {
            EventView::Start { name, attributes } => {
                match primitive(name, attributes, defaults) {
                    Ok(op) => {
                        lemma_walk_composes(ev, pos + 1, nested + 1, defaults, ops.push(op));
                        lemma_walk_composes(ev, pos + 1, nested + 1, defaults, identity().push(op));
                        match transform_walk(ev, pos + 1, nested + 1, defaults, identity()) {
                            Ok((t, end)) => {
                                assert(compose(ops.push(op), t) =~= compose(
                                    ops,
                                    compose(identity().push(op), t),
                                ));
                            },
                            Err(_) => {},
                        }
                    },
                    Err(_) => {},
                }
            },
            EventView::End => {
                if nested <= 0 {
                    assert(compose(ops, identity()) =~= ops);
                } else {
                    lemma_walk_composes(ev, pos + 1, nested - 1, defaults, ops);
                }
            },
            EventView::Whitespace => {
                lemma_walk_composes(ev, pos + 1, nested, defaults, ops);
            },
            _ => {},
        }
    }
}

fn read_axes(attrs: &Vec<Attribute>, fallback: &str, defaults: &Dict<String>) -> (r: Result<
    Vector3,
    Error,
>)
    ensures
        match axes(attributes_view(attrs@), fallback@, defaults@) {
            Ok(v) => r matches Ok(x) && x@ == v,
            Err(e) => r matches Err(x) && x@ == e,
        },
{
    let x = found_attrib_number(attrs, "x", fallback, defaults)?;
    let y = found_attrib_number(attrs, "y", fallback, defaults)?;
    let z = found_attrib_number(attrs, "z", fallback, defaults)?;
    Ok(Vector3 { x, y, z })
}

fn read_required_vector(
    attrs: &Vec<Attribute>,
    name: &str,
    context: &str,
    defaults: &Dict<String>,
) -> (r: Result<Vector3, Error>)
    ensures
        match required_vector(attributes_view(attrs@), name@, context@, defaults@) {
            Ok(v) => r matches Ok(x) && x@ == v,
            Err(e) => r matches Err(x) && x@ == e,
        },
{
    match found_attrib_vec(attrs, name, defaults)? {
        None => Err(Error::MissingAttribute(name.to_owned(), context.to_owned())),
        Some(v) => Ok(v),
    }
}

fn read_number(text: String) -> (r: Result<Number, Error>)
    ensures
        if is_number(text@) {
            r matches Ok(x) && x@ == text@
        } else {
            r matches Err(x) && x@ == mismatch("float"@, ValueView::String(text@))
        },
{
    match Number::parse(text.as_str()) {
        Some(n) => Ok(n),
        None => Err(mismatch_error("float", Value::String(text))),
    }
}

/// The literals that `parts` hold, if each is one of a real number.
pub fn numbers_of(parts: &Vec<Vec<char>>) -> (r: Option<Vec<Number>>)
    ensures
        match r {
            Some(x) => all_numbers(pieces_view(parts@)) && numbers_view(x@) == pieces_view(parts@),
            None => !all_numbers(pieces_view(parts@)),
        },
{
    let mut out: Vec<Number> = Vec::new();
    let mut i: usize = 0;
    while i < parts.len()
        invariant
            i <= parts.len(),
            out.len() == i,
            forall|j: int| 0 <= j < i ==> is_number(#[trigger] pieces_view(parts@)[j]),
            forall|j: int| 0 <= j < i ==> (#[trigger] out@[j])@ == pieces_view(parts@)[j],
        decreases parts.len() - i,
    {
        assert(pieces_view(parts@)[i as int] == parts@[i as int]@);
        if !is_number_chars(&parts[i]) {
            return None;
        }
        out.push(Number { text: string_of(&parts[i]) });
        i += 1;
    }
    assert(numbers_view(out@) =~= pieces_view(parts@));
    Some(out)
}

fn read_matrix(text: String) -> (r: Result<Vec<Number>, Error>)
    ensures
        match matrix_entries(text@) {
            Ok(m) => r matches Ok(x) && numbers_view(x@) == m,
            Err(e) => r matches Err(x) && x@ == e,
        },
{
    let v = chars_of(text.as_str());
    let w = words_of(&v);
    if w.len() != 16 {
        return Err(mismatch_error("matrix", Value::String(text)));
    }
    match numbers_of(&w) {
        Some(m) => Ok(m),
        None => Err(mismatch_error("matrix", Value::String(text))),
    }
}

/// The primitive that the element `tag` with the attributes `attrs` denotes.
pub fn read_primitive(tag: &str, attrs: &Vec<Attribute>, defaults: &Dict<String>) -> (r: Result<
    TransformOp,
    Error,
>)
    ensures
        match primitive(tag@, attributes_view(attrs@), defaults@) {
            Ok(op) => r matches Ok(x) && x@ == op,
            Err(e) => r matches Err(x) && x@ == e,
        },
{
    if str_eq(tag, "translate") {
        let v = read_axes(attrs, "0.0", defaults)?;
        Ok(TransformOp::Translate(v))
    } else if str_eq(tag, "scale") {
        match found_attrib(attrs, "value", defaults)? {
            Some(v) => {
                let n = read_number(v)?;
                Ok(TransformOp::UniformScale(n))
            },
            None => {
                let v = read_axes(attrs, "1.0", defaults)?;
                Ok(TransformOp::Scale(v))
            },
        }
    } else if str_eq(tag, "rotate") {
        let axis = read_axes(attrs, "0.0", defaults)?;
        let angle = found_attrib_or_error(attrs, "angle", tag, defaults)?;
        let angle = read_number(angle)?;
        Ok(TransformOp::Rotate { axis, angle })
    } else if str_eq(tag, "matrix") {
        let text = found_attrib_or_error(attrs, "value", tag, defaults)?;
        let m = read_matrix(text)?;
        Ok(TransformOp::Matrix(m))
    } else if str_eq(tag, "lookAt") || str_eq(tag, "lookat") {
        let origin = read_required_vector(attrs, "origin", tag, defaults)?;
        let target = read_required_vector(attrs, "target", tag, defaults)?;
        let up = read_required_vector(attrs, "up", tag, defaults)?;
        Ok(TransformOp::LookAt { origin, target, up })
    } else {
        Err(Error::UnknownVariant("transform".to_owned(), tag.to_owned()))
    }
}

impl Transform {
    /// The transform without primitives.
    pub fn identity() -> (r: Self)
        ensures
            r@ == identity(),
    {
        let r = Transform { ops: Vec::new() };
        assert(r@ =~= identity());
        r
    }

    /// Reads the body of a `transform` element, from `pos` on to its end.
    pub fn parse(events: &Vec<Event>, pos: &mut usize, defaults: &Dict<String>) -> (r: Result<
        Transform,
        Error,
    >)
        ensures
            match transform_of(events_view(events@), *old(pos) as int, defaults@) {
                Ok((t, end)) => r matches Ok(x) && x@ == t && *final(pos) == end && *old(pos)
                    < end <= events.len(),
                Err(e) => r matches Err(x) && x@ == e,
            },
    {
        if *pos > events.len() {
            return Err(end_of_document_error());
        }
        let ghost ev = events_view(events@);
        let start: usize = *pos;
        let mut t = Transform::identity();
        let mut nested: usize = 0;
        let mut p: usize = start;
        while p < events.len()
            invariant
                start == *old(pos),
                start <= p <= events.len(),
                ev == events_view(events@),
                nested <= p - start,
                transform_of(ev, start as int, defaults@) == transform_walk(
                    ev,
                    p as int,
                    nested as int,
                    defaults@,
                    t@,
                ),
            decreases events.len() - p,
        {
            match &events[p] {
                Event::Start { name, attributes } => {
                    let op = read_primitive(name.as_str(), attributes, defaults)?;
                    let ghost before = t@;
                    t.ops.push(op);
                    assert(t@ =~= before.push(op@));
                    nested += 1;
                },
                Event::End => {
                    if nested == 0 {
                        *pos = p + 1;
                        return Ok(t);
                    }
                    nested -= 1;
                },
                Event::Whitespace => {},
                Event::Other => {
                    return Err(unexpected_content_error());
                },
                Event::Error(m) => {
                    return Err(Error::XmlTokenizer(m.clone()));
                },
            }
            p += 1;
        }
        Err(end_of_document_error())
    }
}

} // verus!
