//! Shapes.
use crate::bsdf::{bsdf_of, lemma_bsdf_of, textures_added, BsdfView, BSDF};
use crate::dict::{dict_get, Dict};
use crate::emitter::{emitter_of, option_view, AreaEmitter, AreaEmitterView, Emitter, EmitterView};
use crate::events::{
    end_of_document, end_of_document_error, events_view,
    found_attrib_or_error, required_attribute, unexpected_content_error, Event, EventView,
};
use crate::medium::{Medium, MediumView};
use crate::number::{to_u32, wrap_u32, Number};
use crate::props::{
    bool_prop, int_prop, leaf_step, no_props, number_prop, optional_number, point_prop,
    read_bool, read_int, read_number, read_optional_number, read_point, read_required_string,
    required_string, resume, take_event, unknown_element, unknown_element_error, Outcome,
    Props, PropsView, Step,
};
use crate::scene::{Scene, SceneView};
use crate::text::{str_eq, strings_view};
use crate::transform::{transform_of, Transform, TransformOpView};
use crate::value::{ref_in, Error, ErrorView, Value, ValueView, Vector3};
use vstd::prelude::*;

verus! {

/// What every shape may carry.
#[derive(Debug, PartialEq)]
pub struct ShapeOption {
    pub flip_normal: bool,
    pub bsdf: Option<BSDF>,
    pub to_world: Option<Transform>,
    pub emitter: Option<AreaEmitter>,
    pub interior: Option<Medium>,
    pub exterior: Option<Medium>,
}

/// A [`ShapeOption`] as contracts see it: every text is the sequence of its
/// characters, and every list the sequence of its items.
pub struct ShapeOptionView {
    pub flip_normal: bool,
    pub bsdf: Option<BsdfView>,
    pub to_world: Option<Seq<TransformOpView>>,
    pub emitter: Option<AreaEmitterView>,
    pub interior: Option<MediumView>,
    pub exterior: Option<MediumView>,
}

impl View for ShapeOption {
    type V = ShapeOptionView;

    open spec fn view(&self) -> ShapeOptionView {
        ShapeOptionView {
            flip_normal: self.flip_normal,
            bsdf: option_view(self.bsdf),
            to_world: option_view(self.to_world),
            emitter: option_view(self.emitter),
            interior: option_view(self.interior),
            exterior: option_view(self.exterior),
        }
    }
}

/// One mesh of a container of meshes.
#[derive(Debug, PartialEq)]
pub struct SerializedShape {
    pub filename: String,
    pub shape_index: u32,
    pub face_normal: bool,
    pub max_smooth_angle: Option<Number>,
    pub option: ShapeOption,
}

/// A [`SerializedShape`] as contracts see it: every text is the sequence of its
/// characters, and every list the sequence of its items.
pub struct SerializedShapeView {
    pub filename: Seq<char>,
    pub shape_index: u32,
    pub face_normal: bool,
    pub max_smooth_angle: Option<Seq<char>>,
    pub option: ShapeOptionView,
}

impl View for SerializedShape {
    type V = SerializedShapeView;

    open spec fn view(&self) -> SerializedShapeView {
        SerializedShapeView {
            filename: self.filename@,
            shape_index: self.shape_index,
            face_normal: self.face_normal,
            max_smooth_angle: option_view(self.max_smooth_angle),
            option: self.option@,
        }
    }
}

/// A shape.
#[derive(Debug, PartialEq)]
pub enum Shape {
    Serialized(SerializedShape),
    Obj {
        filename: String,
        face_normal: bool,
        max_smooth_angle: Option<Number>,
        flip_tex_coords: bool,
        collapse: bool,
        option: ShapeOption,
    },
    Ply {
        filename: String,
        face_normal: bool,
        max_smooth_angle: Option<Number>,
        srgb: bool,
        option: ShapeOption,
    },
    Cube { option: ShapeOption },
    Sphere { center: Vector3, radius: Number, option: ShapeOption },
    Cylinder { p0: Vector3, p1: Vector3, radius: Number, option: ShapeOption },
    Rectangle { option: ShapeOption },
    Disk { option: ShapeOption },
    /// Shapes that are placed together.
    ShapeGroup { shapes: Vec<Shape> },
    /// A placement of the named shape `shape`.
    Instance { shape: String, option: ShapeOption },
}

/// A [`Shape`] as contracts see it: every text is the sequence of its
/// characters, and every list the sequence of its items.
pub enum ShapeView {
    Serialized(SerializedShapeView),
    Obj {
        filename: Seq<char>,
        face_normal: bool,
        max_smooth_angle: Option<Seq<char>>,
        flip_tex_coords: bool,
        collapse: bool,
        option: ShapeOptionView,
    },
    Ply {
        filename: Seq<char>,
        face_normal: bool,
        max_smooth_angle: Option<Seq<char>>,
        srgb: bool,
        option: ShapeOptionView,
    },
    Cube { option: ShapeOptionView },
    Sphere { center: (Seq<char>, Seq<char>, Seq<char>), radius: Seq<char>, option: ShapeOptionView },
    Cylinder {
        p0: (Seq<char>, Seq<char>, Seq<char>),
        p1: (Seq<char>, Seq<char>, Seq<char>),
        radius: Seq<char>,
        option: ShapeOptionView,
    },
    Rectangle { option: ShapeOptionView },
    Disk { option: ShapeOptionView },
    ShapeGroup { shapes: Seq<ShapeView> },
    Instance { shape: Seq<char>, option: ShapeOptionView },
}

/// A shape as contracts see it.
pub open spec fn shape_view(s: Shape) -> ShapeView
    decreases s,
{
    match s {
        Shape::Serialized(x) => ShapeView::Serialized(x@),
        Shape::Obj {
            filename,
            face_normal,
            max_smooth_angle,
            flip_tex_coords,
            collapse,
            option,
        } => ShapeView::Obj {
            filename: filename@,
            face_normal,
            max_smooth_angle: option_view(max_smooth_angle),
            flip_tex_coords,
            collapse,
            option: option@,
        },
        Shape::Ply { filename, face_normal, max_smooth_angle, srgb, option } => ShapeView::Ply {
            filename: filename@,
            face_normal,
            max_smooth_angle: option_view(max_smooth_angle),
            srgb,
            option: option@,
        },
        Shape::Cube { option } => ShapeView::Cube { option: option@ },
        Shape::Sphere { center, radius, option } => ShapeView::Sphere {
            center: center@,
            radius: radius@,
            option: option@,
        },
        Shape::Cylinder { p0, p1, radius, option } => ShapeView::Cylinder {
            p0: p0@,
            p1: p1@,
            radius: radius@,
            option: option@,
        },
        Shape::Rectangle { option } => ShapeView::Rectangle { option: option@ },
        Shape::Disk { option } => ShapeView::Disk { option: option@ },
        Shape::ShapeGroup { shapes } => ShapeView::ShapeGroup {
            shapes: Seq::new(
                shapes@.len(),
                |i: int|
                    if 0 <= i < shapes@.len() {
                        shape_view(shapes@[i])
                    } else {
                        arbitrary()
                    },
            ),
        },
        Shape::Instance { shape, option } => ShapeView::Instance {
            shape: shape@,
            option: option@,
        },
    }
}

impl View for Shape {
    type V = ShapeView;

    open spec fn view(&self) -> ShapeView {
        shape_view(*self)
    }
}

/// Shapes as contracts see them, in their order.
pub open spec fn shapes_view(list: Seq<Shape>) -> Seq<ShapeView> {
    Seq::new(list.len(), |i: int| list[i]@)
}

/// What the body of a `shape` element gave.
pub struct ShapeParts {
    pub props: PropsView,
    pub bsdf: Option<BsdfView>,
    pub to_world: Option<Seq<TransformOpView>>,
    pub emitter: Option<AreaEmitterView>,
    pub shapes: Seq<ShapeView>,
}

/// Nothing read yet.
pub open spec fn no_shape_parts() -> ShapeParts {
    ShapeParts { props: no_props(), bsdf: None, to_world: None, emitter: None, shapes: Seq::empty() }
}

/// The light of a surface that an `emitter` element inside a shape gives.
pub open spec fn area_of(e: EmitterView, ty: Seq<char>) -> Result<AreaEmitterView, ErrorView> {
    match e {
        EmitterView::Area(a) => Ok(a),
        _ => Err(ErrorView::UnknownVariant("area emitter"@, ty)),
    }
}

/// The material and the target that the references without a name give,
/// from the `i`-th on. One that names a declared material is the shape's
/// material; else one that names a declared shape is the target of an
/// instance; any other is passed over.
pub open spec fn resolve_refs(
    refs: Seq<Seq<char>>,
    i: int,
    scene: SceneView,
    bsdf: Option<BsdfView>,
    target: Option<Seq<char>>,
) -> (Option<BsdfView>, Option<Seq<char>>)
    decreases refs.len() - i,
{
    if i < 0 || i >= refs.len() {
        (bsdf, target)
    } else {
        match dict_get(scene.bsdfs, refs[i]) {
            Some(b) => resolve_refs(refs, i + 1, scene, Some(b), target),
            None => if dict_get(scene.shapes_id, refs[i]).is_some() {
                resolve_refs(refs, i + 1, scene, bsdf, Some(refs[i]))
            } else {
                resolve_refs(refs, i + 1, scene, bsdf, target)
            },
        }
    }
}

/// The material of a shape: the one that it holds or that a reference
/// without a name gave; else the declared material that the property `bsdf`
/// refers to; else none.
pub open spec fn shape_bsdf(
    m: Seq<(Seq<char>, ValueView)>,
    found: Option<BsdfView>,
    bsdfs: Seq<(Seq<char>, BsdfView)>,
) -> Result<Option<BsdfView>, ErrorView> {
    match found {
        Some(b) => Ok(Some(b)),
        None => match dict_get(m, "bsdf"@) {
            None => Ok(None),
            Some(v) => match ref_in(v) {
                Err(e) => Err(e),
                Ok(id) => match dict_get(bsdfs, id) {
                    Some(b) => Ok(Some(b)),
                    None => Err(ErrorView::UnresolvedReference(id)),
                },
            },
        },
    }
}

/// The declared medium that the property `key` refers to, if there is such a property.
pub open spec fn medium_ref(
    m: Seq<(Seq<char>, ValueView)>,
    key: Seq<char>,
    media: Seq<(Seq<char>, MediumView)>,
) -> Result<Option<MediumView>, ErrorView> {
    match dict_get(m, key) {
        None => Ok(None),
        Some(v) => match ref_in(v) {
            Err(e) => Err(e),
            Ok(id) => match dict_get(media, id) {
                Some(x) => Ok(Some(x)),
                None => Err(ErrorView::UnresolvedReference(id)),
            },
        },
    }
}

/// What the shape carries, whatever its kind.
pub open spec fn shape_option(parts: ShapeParts, found: Option<BsdfView>, scene: SceneView) -> Result<
    ShapeOptionView,
    ErrorView,
> {
    let m = parts.props.map;
    match shape_bsdf(m, found, scene.bsdfs) {
        Err(e) => Err(e),
        Ok(bsdf) => if parts.emitter is None && dict_get(m, "emitter"@).is_some() {
            Err(ErrorView::UnknownVariant("property"@, "emitter"@))
        } else {
            match bool_prop(m, "flipNormal"@, false) {
                Err(e) => Err(e),
                Ok(flip_normal) => match medium_ref(m, "interior"@, scene.medium) {
                    Err(e) => Err(e),
                    Ok(interior) => match medium_ref(m, "exterior"@, scene.medium) {
                        Err(e) => Err(e),
                        Ok(exterior) => Ok(
                            ShapeOptionView {
                                flip_normal,
                                bsdf,
                                to_world: parts.to_world,
                                emitter: parts.emitter,
                                interior,
                                exterior,
                            },
                        ),
                    },
                },
            }
        },
    }
}

/// How the normals of a mesh are made: per face or smoothed up to an angle.
pub open spec fn mesh_normals(m: Seq<(Seq<char>, ValueView)>) -> Result<
    (bool, Option<Seq<char>>),
    ErrorView,
> {
    match bool_prop(m, "faceNormal"@, false) {
        Err(e) => Err(e),
        Ok(face_normal) => match optional_number(m, "maxSmoothAngle"@) {
            Err(e) => Err(e),
            Ok(max_smooth_angle) => Ok((face_normal, max_smooth_angle)),
        },
    }
}

/// A shape that is a mesh in a file.
pub open spec fn mesh_from(
    ty: Seq<char>,
    m: Seq<(Seq<char>, ValueView)>,
    option: ShapeOptionView,
    face_normal: bool,
    max_smooth_angle: Option<Seq<char>>,
) -> Result<ShapeView, ErrorView> {
    match required_string(m, "filename"@, ty) {
        Err(e) => Err(e),
        Ok(filename) => if ty == "serialized"@ {
            match int_prop(m, "shapeIndex"@, 0) {
                Err(e) => Err(e),
                Ok(i) => Ok(
                    ShapeView::Serialized(
                        SerializedShapeView {
                            filename,
                            shape_index: wrap_u32(i),
                            face_normal,
                            max_smooth_angle,
                            option,
                        },
                    ),
                ),
            }
        } else if ty == "obj"@ {
            match bool_prop(m, "flipTexCoords"@, true) {
                Err(e) => Err(e),
                Ok(flip_tex_coords) => match bool_prop(m, "collapse"@, false) {
                    Err(e) => Err(e),
                    Ok(collapse) => Ok(
                        ShapeView::Obj {
                            filename,
                            face_normal,
                            max_smooth_angle,
                            flip_tex_coords,
                            collapse,
                            option,
                        },
                    ),
                },
            }
        } else {
            match bool_prop(m, "srgb"@, true) {
                Err(e) => Err(e),
                Ok(srgb) => Ok(
                    ShapeView::Ply { filename, face_normal, max_smooth_angle, srgb, option },
                ),
            }
        },
    }
}

/// The point where all coordinates are zero.
pub open spec fn origin() -> (Seq<char>, Seq<char>, Seq<char>) {
    ("0"@, "0"@, "0"@)
}

/// A sphere or a cylinder.
pub open spec fn round_from(ty: Seq<char>, m: Seq<(Seq<char>, ValueView)>, option: ShapeOptionView) -> Result<
    ShapeView,
    ErrorView,
> {
    if ty == "sphere"@ {
        match point_prop(m, "center"@, origin()) {
            Err(e) => Err(e),
            Ok(center) => match number_prop(m, "radius"@, "1"@) {
                Err(e) => Err(e),
                Ok(radius) => Ok(ShapeView::Sphere { center, radius, option }),
            },
        }
    } else {
        match point_prop(m, "p0"@, origin()) {
            Err(e) => Err(e),
            Ok(p0) => match point_prop(m, "p1"@, ("0"@, "0"@, "1"@)) {
                Err(e) => Err(e),
                Ok(p1) => match number_prop(m, "radius"@, "1"@) {
                    Err(e) => Err(e),
                    Ok(radius) => Ok(ShapeView::Cylinder { p0, p1, radius, option }),
                },
            },
        }
    }
}

/// A group of shapes, which carries no material, transform or emitter of its own.
pub open spec fn group_from(option: ShapeOptionView, shapes: Seq<ShapeView>) -> Result<
    ShapeView,
    ErrorView,
> {
    if option.bsdf.is_some() {
        Err(ErrorView::UnknownVariant("shapegroup"@, "bsdf"@))
    } else if option.to_world.is_some() {
        Err(ErrorView::UnknownVariant("shapegroup"@, "transform"@))
    } else if option.emitter.is_some() {
        Err(ErrorView::UnknownVariant("shapegroup"@, "emitter"@))
    } else {
        Ok(ShapeView::ShapeGroup { shapes })
    }
}

/// The shape of kind `ty` with what it carries, the shapes inside it and
/// the target that a reference gave.
pub open spec fn shape_from(
    ty: Seq<char>,
    m: Seq<(Seq<char>, ValueView)>,
    option: ShapeOptionView,
    shapes: Seq<ShapeView>,
    target: Option<Seq<char>>,
) -> Result<ShapeView, ErrorView> {
    match mesh_normals(m) {
        Err(e) => Err(e),
        Ok((face_normal, max_smooth_angle)) => if ty == "serialized"@ || ty == "obj"@ || ty
            == "ply"@ {
            mesh_from(ty, m, option, face_normal, max_smooth_angle)
        } else if ty == "cube"@ {
            Ok(ShapeView::Cube { option })
        } else if ty == "sphere"@ || ty == "cylinder"@ {
            round_from(ty, m, option)
        } else if ty == "rectangle"@ {
            Ok(ShapeView::Rectangle { option })
        } else if ty == "disk"@ {
            Ok(ShapeView::Disk { option })
        } else if ty == "shapegroup"@ {
            group_from(option, shapes)
        } else if ty == "instance"@ {
            match target {
                Some(shape) => Ok(ShapeView::Instance { shape, option }),
                None => Err(ErrorView::MissingAttribute("shape"@, "instance"@)),
            }
        } else {
            Err(ErrorView::UnknownVariant("shape"@, ty))
        },
    }
}

/// The shape that the parts of its element describe in the scene `scene`.
pub open spec fn shape_from_parts(ty: Seq<char>, parts: ShapeParts, scene: SceneView) -> Result<
    ShapeView,
    ErrorView,
> {
    let (found, target) = resolve_refs(parts.props.refs, 0, scene, parts.bsdf, None);
    match shape_option(parts, found, scene) {
        Err(e) => Err(e),
        Ok(option) => shape_from(ty, parts.props.map, option, parts.shapes, target),
    }
}

/// The shape of kind `ty` whose element's body begins at `pos`, the scene
/// with the textures that the element declares, and the position after the
/// element's end.
pub open spec fn shape_of(
    ev: Seq<EventView>,
    pos: int,
    defaults: Seq<(Seq<char>, Seq<char>)>,
    ty: Seq<char>,
    scene: SceneView,
) -> Result<(ShapeView, SceneView, int), ErrorView>
    decreases ev.len() - pos, 1int,
{
    match shape_walk(ev, pos, false, defaults, no_shape_parts(), scene) {
        Err(e) => Err(e),
        Ok((parts, after, end)) => match shape_from_parts(ty, parts, after) {
            Err(e) => Err(e),
            Ok(s) => Ok((s, after, end)),
        },
    }
}

/// The body of a `shape` element from `pos` on: a `bsdf`, a `transform` and
/// an `emitter` child are kept, the last of each, and every `shape` child.
pub open spec fn shape_walk(
    ev: Seq<EventView>,
    pos: int,
    opened: bool,
    defaults: Seq<(Seq<char>, Seq<char>)>,
    parts: ShapeParts,
    scene: SceneView,
) -> Result<(ShapeParts, SceneView, int), ErrorView>
    decreases ev.len() - pos, 0int,
{
    if pos < 0 || pos >= ev.len() {
        Err(end_of_document())
    } else {
        match leaf_step(ev[pos], opened, defaults, parts.props) {
            Outcome::Fail(e) => Err(e),
            Outcome::Finished => Ok((parts, scene, pos + 1)),
            Outcome::Next { opened: o, props: p } => shape_walk(
                ev,
                pos + 1,
                o,
                defaults,
                ShapeParts { props: p, ..parts },
                scene,
            ),
            Outcome::Child => {
                let tag = ev[pos]->Start_name;
                let attrs = ev[pos]->Start_attributes;
                if tag == "transform"@ {
                    match transform_of(ev, pos + 1, defaults) {
                        Err(e) => Err(e),
                        Ok((t, end)) => shape_walk(
                            ev,
                            resume(pos, end, ev.len()),
                            opened,
                            defaults,
                            ShapeParts { to_world: Some(t), ..parts },
                            scene,
                        ),
                    }
                } else if tag == "bsdf"@ || tag == "emitter"@ || tag == "shape"@ {
                    match required_attribute(attrs, "type"@, tag, defaults) {
                        Err(e) => Err(e),
                        Ok(cty) => if tag == "bsdf"@ {
                            match bsdf_of(ev, pos + 1, defaults, cty, scene) {
                                Err(e) => Err(e),
                                Ok((b, after, end)) => shape_walk(
                                    ev,
                                    resume(pos, end, ev.len()),
                                    opened,
                                    defaults,
                                    ShapeParts { bsdf: Some(b), ..parts },
                                    after,
                                ),
                            }
                        } else if tag == "emitter"@ {
                            match emitter_of(ev, pos + 1, defaults, cty) {
                                Err(e) => Err(e),
                                Ok((e, end)) => match area_of(e, cty) {
                                    Err(e) => Err(e),
                                    Ok(a) => shape_walk(
                                        ev,
                                        resume(pos, end, ev.len()),
                                        opened,
                                        defaults,
                                        ShapeParts { emitter: Some(a), ..parts },
                                        scene,
                                    ),
                                },
                            }
                        } else {
                            match shape_of(ev, pos + 1, defaults, cty, scene) {
                                Err(e) => Err(e),
                                Ok((s, after, end)) => shape_walk(
                                    ev,
                                    resume(pos, end, ev.len()),
                                    opened,
                                    defaults,
                                    ShapeParts { shapes: parts.shapes.push(s), ..parts },
                                    after,
                                ),
                            }
                        },
                    }
                } else {
                    Err(unknown_element(tag))
                }
            },
        }
    }
}

/// The reading of a shape ends behind where it began and within the
/// document, and changes nothing of the scene but its textures.
pub proof fn lemma_shape_of(
    ev: Seq<EventView>,
    pos: int,
    defaults: Seq<(Seq<char>, Seq<char>)>,
    ty: Seq<char>,
    scene: SceneView,
)
    requires
        0 <= pos,
    ensures
        shape_of(ev, pos, defaults, ty, scene) matches Ok((_, after, end)) ==> pos < end
            <= ev.len() && textures_added(scene, after),
    decreases ev.len() - pos, 1int,
{
    lemma_shape_walk(ev, pos, false, defaults, no_shape_parts(), scene);
}

/// The reading of the body of a shape ends behind where it began and
/// within the document, and changes nothing of the scene but its textures.
pub proof fn lemma_shape_walk(
    ev: Seq<EventView>,
    pos: int,
    opened: bool,
    defaults: Seq<(Seq<char>, Seq<char>)>,
    parts: ShapeParts,
    scene: SceneView,
)
    requires
        0 <= pos,
    ensures
        shape_walk(ev, pos, opened, defaults, parts, scene) matches Ok((_, after, end)) ==> pos
            < end <= ev.len() && textures_added(scene, after),
    decreases ev.len() - pos, 0int,
{
    if pos < ev.len() {
        match leaf_step(ev[pos], opened, defaults, parts.props) {
            Outcome::Next { opened: o, props: p } => {
                lemma_shape_walk(ev, pos + 1, o, defaults, ShapeParts { props: p, ..parts }, scene);
            },
            Outcome::Child => {
                let tag = ev[pos]->Start_name;
                let attrs = ev[pos]->Start_attributes;
                if tag == "transform"@ {
                    match transform_of(ev, pos + 1, defaults) {
                        Ok((t, end)) => {
                            lemma_shape_walk(
                                ev,
                                resume(pos, end, ev.len()),
                                opened,
                                defaults,
                                ShapeParts { to_world: Some(t), ..parts },
                                scene,
                            );
                        },
                        Err(_) => {},
                    }
                } else if tag == "bsdf"@ || tag == "emitter"@ || tag == "shape"@ {
                    match required_attribute(attrs, "type"@, tag, defaults) {
                        Ok(cty) => {
                            if tag == "bsdf"@ {
                                lemma_bsdf_of(ev, pos + 1, defaults, cty, scene);
                                match bsdf_of(ev, pos + 1, defaults, cty, scene) {
                                    Ok((b, after, end)) => {
                                        lemma_shape_walk(
                                            ev,
                                            resume(pos, end, ev.len()),
                                            opened,
                                            defaults,
                                            ShapeParts { bsdf: Some(b), ..parts },
                                            after,
                                        );
                                    },
                                    Err(_) => {},
                                }
                            } else if tag == "emitter"@ {
                                match emitter_of(ev, pos + 1, defaults, cty) {
                                    Ok((e, end)) => match area_of(e, cty) {
                                        Ok(a) => {
                                            lemma_shape_walk(
                                                ev,
                                                resume(pos, end, ev.len()),
                                                opened,
                                                defaults,
                                                ShapeParts { emitter: Some(a), ..parts },
                                                scene,
                                            );
                                        },
                                        Err(_) => {},
                                    },
                                    Err(_) => {},
                                }
                            } else {
                                lemma_shape_of(ev, pos + 1, defaults, cty, scene);
                                match shape_of(ev, pos + 1, defaults, cty, scene) {
                                    Ok((s, after, end)) => {
                                        lemma_shape_walk(
                                            ev,
                                            resume(pos, end, ev.len()),
                                            opened,
                                            defaults,
                                            ShapeParts { shapes: parts.shapes.push(s), ..parts },
                                            after,
                                        );
                                    },
                                    Err(_) => {},
                                }
                            }
                        },
                        Err(_) => {},
                    }
                }
            },
            _ => {},
        }
    }
}

/// A medium that a shape refers to is one that the scene declares.
pub proof fn lemma_medium_is_declared(
    m: Seq<(Seq<char>, ValueView)>,
    key: Seq<char>,
    media: Seq<(Seq<char>, MediumView)>,
)
    ensures
        medium_ref(m, key, media) matches Ok(Some(x)) ==> exists|id: Seq<char>|
            dict_get(m, key) == Some(ValueView::Ref(id)) && #[trigger] dict_get(media, id) == Some(x),
{
    match dict_get(m, key) {
        Some(ValueView::Ref(id)) => {
            if dict_get(media, id).is_some() {
                assert(dict_get(media, id) == Some(dict_get(media, id)->0));
            }
        },
        _ => {},
    }
}

/// A shape that holds no material and has none by a reference without a
/// name takes the declared material that its property `bsdf` refers to.
pub proof fn lemma_named_reference_binds(
    m: Seq<(Seq<char>, ValueView)>,
    bsdfs: Seq<(Seq<char>, BsdfView)>,
    id: Seq<char>,
)
    requires
        dict_get(m, "bsdf"@) == Some(ValueView::Ref(id)),
    ensures
        match dict_get(bsdfs, id) {
            Some(b) => shape_bsdf(m, None, bsdfs) == Ok::<Option<BsdfView>, ErrorView>(Some(b)),
            None => shape_bsdf(m, None, bsdfs) == Err::<Option<BsdfView>, ErrorView>(
                ErrorView::UnresolvedReference(id),
            ),
        },
{
}

fn read_medium_ref(m: &Dict<Value>, key: &str, media: &Dict<Medium>) -> (r: Result<
    Option<Medium>,
    Error,
>)
    ensures
        match medium_ref(m@, key@, media@) {
            Ok(c) => r matches Ok(x) && option_view(x) == c,
            Err(e) => r matches Err(x) && x@ == e,
        },
{
    match m.get(key) {
        None => Ok(None),
        Some(v) => {
            let id = v.clone().as_ref()?;
            match media.get(id.as_str()) {
                Some(x) => Ok(Some(x.clone())),
                None => Err(Error::UnresolvedReference(id)),
            }
        },
    }
}

fn read_shape_bsdf(m: &Dict<Value>, found: Option<BSDF>, bsdfs: &Dict<BSDF>) -> (r: Result<
    Option<BSDF>,
    Error,
>)
    ensures
        match shape_bsdf(m@, option_view(found), bsdfs@) {
            Ok(c) => r matches Ok(x) && option_view(x) == c,
            Err(e) => r matches Err(x) && x@ == e,
        },
{
    match found {
        Some(b) => Ok(Some(b)),
        None => match m.get("bsdf") {
            None => Ok(None),
            Some(v) => {
                let id = v.clone().as_ref()?;
                match bsdfs.get(id.as_str()) {
                    Some(b) => Ok(Some(b.clone())),
                    None => Err(Error::UnresolvedReference(id)),
                }
            },
        },
    }
}

fn read_refs(refs: &Vec<String>, scene: &Scene, held: Option<BSDF>) -> (r: (
    Option<BSDF>,
    Option<String>,
))
    ensures
        ({
            let c = resolve_refs(strings_view(refs@), 0, scene@, option_view(held), None);
            option_view(r.0) == c.0 && option_view(r.1) == c.1
        }),
{
    let ghost first = option_view(held);
    let mut bsdf = held;
    let mut target: Option<String> = None;
    let mut i: usize = 0;
    while i < refs.len()
        invariant
            i <= refs.len(),
            resolve_refs(strings_view(refs@), 0, scene@, first, None)
                == resolve_refs(
                strings_view(refs@),
                i as int,
                scene@,
                option_view(bsdf),
                option_view(target),
            ),
        decreases refs.len() - i,
    {
        assert(strings_view(refs@)[i as int] == refs@[i as int]@);
        match scene.bsdfs.get(refs[i].as_str()) {
            Some(b) => {
                bsdf = Some(b.clone());
            },
            None => {
                if scene.shapes_id.contains_key(refs[i].as_str()) {
                    target = Some(refs[i].clone());
                }
            },
        }
        i += 1;
    }
    (bsdf, target)
}

fn read_mesh(
    ty: &str,
    m: &Dict<Value>,
    option: ShapeOption,
    face_normal: bool,
    max_smooth_angle: Option<Number>,
) -> (r: Result<Shape, Error>)
    ensures
        match mesh_from(ty@, m@, option@, face_normal, option_view(max_smooth_angle)) {
            Ok(c) => r matches Ok(x) && x@ == c,
            Err(e) => r matches Err(x) && x@ == e,
        },
{
    let filename = read_required_string(m, "filename", ty)?;
    if str_eq(ty, "serialized") {
        let i = read_int(m, "shapeIndex", 0)?;
        Ok(
            Shape::Serialized(
                SerializedShape {
                    filename,
                    shape_index: to_u32(i),
                    face_normal,
                    max_smooth_angle,
                    option,
                },
            ),
        )
    } else if str_eq(ty, "obj") {
        let flip_tex_coords = read_bool(m, "flipTexCoords", true)?;
        let collapse = read_bool(m, "collapse", false)?;
        Ok(
            Shape::Obj {
                filename,
                face_normal,
                max_smooth_angle,
                flip_tex_coords,
                collapse,
                option,
            },
        )
    } else {
        let srgb = read_bool(m, "srgb", true)?;
        Ok(Shape::Ply { filename, face_normal, max_smooth_angle, srgb, option })
    }
}

fn read_round(ty: &str, m: &Dict<Value>, option: ShapeOption) -> (r: Result<Shape, Error>)
    ensures
        match round_from(ty@, m@, option@) {
            Ok(c) => r matches Ok(x) && x@ == c,
            Err(e) => r matches Err(x) && x@ == e,
        },
{
    if str_eq(ty, "sphere") {
        let center = read_point(m, "center", Vector3::new("0", "0", "0"))?;
        let radius = read_number(m, "radius", "1")?;
        Ok(Shape::Sphere { center, radius, option })
    } else {
        let p0 = read_point(m, "p0", Vector3::new("0", "0", "0"))?;
        let p1 = read_point(m, "p1", Vector3::new("0", "0", "1"))?;
        let radius = read_number(m, "radius", "1")?;
        Ok(Shape::Cylinder { p0, p1, radius, option })
    }
}

fn read_group(option: ShapeOption, shapes: Vec<Shape>) -> (r: Result<Shape, Error>)
    ensures
        match group_from(option@, shapes_view(shapes@)) {
            Ok(c) => r matches Ok(x) && x@ == c,
            Err(e) => r matches Err(x) && x@ == e,
        },
{
    if option.bsdf.is_some() {
        Err(Error::UnknownVariant("shapegroup".to_owned(), "bsdf".to_owned()))
    } else if option.to_world.is_some() {
        Err(Error::UnknownVariant("shapegroup".to_owned(), "transform".to_owned()))
    } else if option.emitter.is_some() {
        Err(Error::UnknownVariant("shapegroup".to_owned(), "emitter".to_owned()))
    } else {
        let r = Shape::ShapeGroup { shapes };
        assert(r@->ShapeGroup_shapes =~= shapes_view(shapes@));
        Ok(r)
    }
}

fn read_option(
    props: &Props,
    found: Option<BSDF>,
    to_world: Option<Transform>,
    emitter: Option<AreaEmitter>,
    scene: &Scene,
) -> (r: Result<ShapeOption, Error>)
    ensures
        match shape_option(
            ShapeParts {
                props: props@,
                bsdf: None,
                to_world: option_view(to_world),
                emitter: option_view(emitter),
                shapes: Seq::empty(),
            },
            option_view(found),
            scene@,
        ) {
            Ok(c) => r matches Ok(x) && x@ == c,
            Err(e) => r matches Err(x) && x@ == e,
        },
{
    let m = &props.map;
    let bsdf = read_shape_bsdf(m, found, &scene.bsdfs)?;
    if emitter.is_none() && m.contains_key("emitter") {
        return Err(Error::UnknownVariant("property".to_owned(), "emitter".to_owned()));
    }
    let flip_normal = read_bool(m, "flipNormal", false)?;
    let interior = read_medium_ref(m, "interior", &scene.medium)?;
    let exterior = read_medium_ref(m, "exterior", &scene.medium)?;
    Ok(ShapeOption { flip_normal, bsdf, to_world, emitter, interior, exterior })
}

impl Shape {
    /// The shape of kind `shape_type` that the parts of its element describe.
    pub fn from_parts(
        shape_type: &str,
        props: &Props,
        bsdf: Option<BSDF>,
        to_world: Option<Transform>,
        emitter: Option<AreaEmitter>,
        shapes: Vec<Shape>,
        scene: &Scene,
    ) -> (r: Result<Shape, Error>)
        ensures
            match shape_from_parts(
                shape_type@,
                ShapeParts {
                    props: props@,
                    bsdf: option_view(bsdf),
                    to_world: option_view(to_world),
                    emitter: option_view(emitter),
                    shapes: shapes_view(shapes@),
                },
                scene@,
            ) {
                Ok(c) => r matches Ok(x) && x@ == c,
                Err(e) => r matches Err(x) && x@ == e,
            },
    {
        let ty = shape_type;
        let m = &props.map;
        let (found, target) = read_refs(&props.refs, scene, bsdf);
        let option = read_option(props, found, to_world, emitter, scene)?;
        let face_normal = read_bool(m, "faceNormal", false)?;
        let max_smooth_angle = read_optional_number(m, "maxSmoothAngle")?;
        if str_eq(ty, "serialized") || str_eq(ty, "obj") || str_eq(ty, "ply") {
            read_mesh(ty, m, option, face_normal, max_smooth_angle)
        } else if str_eq(ty, "cube") {
            Ok(Shape::Cube { option })
        } else if str_eq(ty, "sphere") || str_eq(ty, "cylinder") {
            read_round(ty, m, option)
        } else if str_eq(ty, "rectangle") {
            Ok(Shape::Rectangle { option })
        } else if str_eq(ty, "disk") {
            Ok(Shape::Disk { option })
        } else if str_eq(ty, "shapegroup") {
            read_group(option, shapes)
        } else if str_eq(ty, "instance") {
            match target {
                Some(shape) => Ok(Shape::Instance { shape, option }),
                None => Err(Error::MissingAttribute("shape".to_owned(), "instance".to_owned())),
            }
        } else {
            Err(Error::UnknownVariant("shape".to_owned(), ty.to_owned()))
        }
    }

    /// Reads the body of a `shape` element of kind `shape_type`, from `pos`
    /// on to the element's end. The textures that the element declares under
    /// an identifier go into the scene; whether the reading succeeds or
    /// fails, nothing else of the scene changes.
    pub fn parse(
        events: &Vec<Event>,
        pos: &mut usize,
        defaults: &Dict<String>,
        shape_type: &str,
        scene: &mut Scene,
    ) -> (r: Result<Shape, Error>)
        ensures
            match shape_of(
                events_view(events@),
                *old(pos) as int,
                defaults@,
                shape_type@,
                old(scene)@,
            ) {
                Ok((s, after, end)) => r matches Ok(x) && x@ == s && final(scene)@ == after
                    && *final(pos) == end && *old(pos) < end <= events.len(),
                Err(e) => r matches Err(x) && x@ == e,
            },
            textures_added(old(scene)@, final(scene)@),
        decreases events.len() - *old(pos),
    {
        if *pos > events.len() {
            return Err(end_of_document_error());
        }
        let ghost ev = events_view(events@);
        let start: usize = *pos;
        let mut props = Props::new();
        let mut bsdf: Option<BSDF> = None;
        let mut to_world: Option<Transform> = None;
        let mut emitter: Option<AreaEmitter> = None;
        let mut shapes: Vec<Shape> = Vec::new();
        let mut opened = false;
        let mut p: usize = start;
        assert(shapes_view(shapes@) =~= Seq::<ShapeView>::empty());
        while p < events.len()
            invariant
                start == *old(pos),
                start <= p <= events.len(),
                ev == events_view(events@),
                textures_added(old(scene)@, scene@),
                shape_walk(ev, start as int, false, defaults@, no_shape_parts(), old(scene)@)
                    == shape_walk(
                    ev,
                    p as int,
                    opened,
                    defaults@,
                    ShapeParts {
                        props: props@,
                        bsdf: option_view(bsdf),
                        to_world: option_view(to_world),
                        emitter: option_view(emitter),
                        shapes: shapes_view(shapes@),
                    },
                    scene@,
                ),
            decreases events.len() - p,
        {
            let event = &events[p];
            match take_event(event, &mut opened, defaults, &mut props)? {
                Step::Continue => {
                    p += 1;
                },
                Step::Finished => {
                    *pos = p + 1;
                    return Shape::from_parts(
                        shape_type,
                        &props,
                        bsdf,
                        to_world,
                        emitter,
                        shapes,
                        scene,
                    );
                },
                Step::Child => {
                    match event {
                        Event::Start { name, attributes } => {
                            let tag = name.as_str();
                            let mut q: usize = p + 1;
                            if str_eq(tag, "transform") {
                                to_world = Some(Transform::parse(events, &mut q, defaults)?);
                            } else if str_eq(tag, "bsdf") {
                                let cty = found_attrib_or_error(attributes, "type", tag, defaults)?;
                                bsdf = Some(
                                    BSDF::parse(events, &mut q, defaults, cty.as_str(), scene)?,
                                );
                            } else if str_eq(tag, "emitter") {
                                let cty = found_attrib_or_error(attributes, "type", tag, defaults)?;
                                let e = Emitter::parse(events, &mut q, defaults, cty.as_str())?;
                                match e.as_area() {
                                    Some(a) => {
                                        emitter = Some(a);
                                    },
                                    None => {
                                        return Err(
                                            Error::UnknownVariant("area emitter".to_owned(), cty),
                                        );
                                    },
                                }
                            } else if str_eq(tag, "shape") {
                                let cty = found_attrib_or_error(attributes, "type", tag, defaults)?;
                                let s = Shape::parse(events, &mut q, defaults, cty.as_str(), scene)?;
                                let ghost before = shapes_view(shapes@);
                                shapes.push(s);
                                assert(shapes_view(shapes@) =~= before.push(s@));
                            } else {
                                return Err(unknown_element_error(tag));
                            }
                            p = q;
                        },
                        _ => {
                            return Err(unexpected_content_error());
                        },
                    }
                },
            }
        }
        Err(end_of_document_error())
    }
}

} // verus!
