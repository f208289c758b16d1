//! The scene: all that a scene description declares.
use crate::bsdf::{
    bsdf_of, lemma_bsdf_of, lemma_variant_matches, variant_matches, BsdfView, BSDF,
};
use crate::dict::{
    dict_get, dict_insert, distinct_keys, lemma_get_after_insert, lemma_insert_keeps_distinct,
    Dict,
};
use crate::emitter::{emitter_of, lemma_emitter_walk_ends, Emitter, EmitterView};
use crate::events::{
    attribute, attributes_view, events_view, found_attrib, found_attrib_or_error,
    lemma_skip_end_ends, required_attribute, skip_end, skipping_entry, xml_events, Attribute,
    Event, EventView,
};
use crate::medium::{lemma_medium_walk_ends, medium_of, Medium, MediumView};
use crate::props::{no_props, resume};
use crate::sensor::{lemma_sensor_walk_ends, sensor_of, Sensor, SensorParts, SensorView};
use crate::shape::{
    lemma_shape_of, shape_of, shapes_view, Shape, ShapeOption, ShapeOptionView, ShapeView,
};
use crate::text::str_eq;
use crate::texture::{lemma_texture_ends, texture_of, Texture, TextureView};
use crate::transform::identity;
use crate::value::{Error, ErrorView};
use vstd::prelude::*;

verus! {

/// What a scene description declares: materials, textures, media and
/// shapes by their identifiers, and shapes without one, sensors and emitters
/// in the order of their declaration.
#[derive(Debug, PartialEq)]
pub struct Scene {
    pub bsdfs: Dict<BSDF>,
    pub textures: Dict<Texture>,
    pub shapes_id: Dict<Shape>,
    pub shapes_unamed: Vec<Shape>,
    pub sensors: Vec<Sensor>,
    pub emitters: Vec<Emitter>,
    pub medium: Dict<Medium>,
}

/// A [`Scene`] as contracts see it: every text is the sequence of its
/// characters, and every list the sequence of its items.
pub struct SceneView {
    pub bsdfs: Seq<(Seq<char>, BsdfView)>,
    pub textures: Seq<(Seq<char>, TextureView)>,
    pub shapes_id: Seq<(Seq<char>, ShapeView)>,
    pub shapes_unamed: Seq<ShapeView>,
    pub sensors: Seq<SensorView>,
    pub emitters: Seq<EmitterView>,
    pub medium: Seq<(Seq<char>, MediumView)>,
}

/// Sensors as contracts see them, in their order.
pub open spec fn sensors_view(list: Seq<Sensor>) -> Seq<SensorView> {
    Seq::new(list.len(), |i: int| list[i]@)
}

/// Emitters as contracts see them, in their order.
pub open spec fn emitters_view(list: Seq<Emitter>) -> Seq<EmitterView> {
    Seq::new(list.len(), |i: int| list[i]@)
}

impl View for Scene {
    type V = SceneView;

    open spec fn view(&self) -> SceneView {
        SceneView {
            bsdfs: self.bsdfs@,
            textures: self.textures@,
            shapes_id: self.shapes_id@,
            shapes_unamed: shapes_view(self.shapes_unamed@),
            sensors: sensors_view(self.sensors@),
            emitters: emitters_view(self.emitters@),
            medium: self.medium@,
        }
    }
}

/// The scene in which nothing is declared.
pub open spec fn empty_scene() -> SceneView {
    SceneView {
        bsdfs: Seq::empty(),
        textures: Seq::empty(),
        shapes_id: Seq::empty(),
        shapes_unamed: Seq::empty(),
        sensors: Seq::empty(),
        emitters: Seq::empty(),
        medium: Seq::empty(),
    }
}

impl Scene {
    /// The scene in which nothing is declared.
    pub fn new() -> (r: Scene)
        ensures
            r@ == empty_scene(),
    {
        let r = Scene {
            bsdfs: Dict::new(),
            textures: Dict::new(),
            shapes_id: Dict::new(),
            shapes_unamed: Vec::new(),
            sensors: Vec::new(),
            emitters: Vec::new(),
            medium: Dict::new(),
        };
        assert(r@.shapes_unamed =~= Seq::<ShapeView>::empty());
        assert(r@.sensors =~= Seq::<SensorView>::empty());
        assert(r@.emitters =~= Seq::<EmitterView>::empty());
        r
    }
}

/// Why the reading of a document stopped.
#[derive(Debug, PartialEq)]
pub enum Directive {
    /// The document is at its end.
    Done,
    /// The document asks for another one, by its file name, to be read in at
    /// this place before reading goes on.
    Include(String),
}

/// A [`Directive`] as contracts see it: every text is the sequence of its
/// characters, and every list the sequence of its items.
pub enum DirectiveView {
    Done,
    Include(Seq<char>),
}

impl View for Directive {
    type V = DirectiveView;

    open spec fn view(&self) -> DirectiveView {
        match self {
            Directive::Done => DirectiveView::Done,
            Directive::Include(f) => DirectiveView::Include(f@),
        }
    }
}

/// What is known when the reading of a document stops: why it stopped, the
/// defaults and the scene so far, and where reading goes on.
pub struct Reading {
    pub directive: DirectiveView,
    pub defaults: Seq<(Seq<char>, Seq<char>)>,
    pub scene: SceneView,
    pub pos: int,
}

/// The shape that a `ply` element right under the scene stands for.
pub open spec fn plain_ply(filename: Seq<char>) -> ShapeView {
    ShapeView::Ply {
        filename,
        face_normal: false,
        max_smooth_angle: None,
        srgb: true,
        option: ShapeOptionView {
            flip_normal: false,
            bsdf: None,
            to_world: None,
            emitter: None,
            interior: None,
            exterior: None,
        },
    }
}

/// The identifier and the kind that the start of a declared element gives.
pub open spec fn id_and_type(
    attrs: Seq<(Seq<char>, Seq<char>)>,
    context: Seq<char>,
    defaults: Seq<(Seq<char>, Seq<char>)>,
) -> Result<(Seq<char>, Seq<char>), ErrorView> {
    match required_attribute(attrs, "id"@, context, defaults) {
        Err(e) => Err(e),
        Ok(id) => match required_attribute(attrs, "type"@, context, defaults) {
            Err(e) => Err(e),
            Ok(ty) => Ok((id, ty)),
        },
    }
}

/// What the element that starts at `pos` does to the defaults and the
/// scene, and where reading goes on after it; or the file that it asks for.
pub open spec fn element_effect(
    ev: Seq<EventView>,
    pos: int,
    defaults: Seq<(Seq<char>, Seq<char>)>,
    scene: SceneView,
) -> Result<Reading, ErrorView>
    recommends
        0 <= pos < ev.len(),
        ev[pos] is Start,
{
    let tag = ev[pos]->Start_name;
    let attrs = ev[pos]->Start_attributes;
    let body = pos + 1;
    let go_on = |d: Seq<(Seq<char>, Seq<char>)>, s: SceneView, end: int|
        Ok::<Reading, ErrorView>(
            Reading { directive: DirectiveView::Done, defaults: d, scene: s, pos: end },
        );
    if tag == "bsdf"@ {
        match required_attribute(attrs, "type"@, tag, defaults) {
            Err(e) => Err(e),
            Ok(ty) => match attribute(attrs, "id"@, defaults) {
                Err(e) => Err(e),
                Ok(None) => match skip_end(ev, body, 1) {
                    Err(e) => Err(e),
                    Ok(end) => go_on(defaults, scene, end),
                },
                Ok(Some(id)) => match bsdf_of(ev, body, defaults, ty, scene) {
                    Err(e) => Err(e),
                    Ok((b, after, end)) => go_on(
                        defaults,
                        SceneView { bsdfs: dict_insert(after.bsdfs, id, b), ..after },
                        end,
                    ),
                },
            },
        }
    } else if tag == "texture"@ {
        match id_and_type(attrs, tag, defaults) {
            Err(e) => Err(e),
            Ok((id, ty)) => match texture_of(ev, body, defaults, ty) {
                Err(e) => Err(e),
                Ok((t, end)) => go_on(
                    defaults,
                    SceneView { textures: dict_insert(scene.textures, id, t), ..scene },
                    end,
                ),
            },
        }
    } else if tag == "medium"@ {
        match id_and_type(attrs, tag, defaults) {
            Err(e) => Err(e),
            Ok((id, ty)) => match medium_of(ev, body, defaults, ty) {
                Err(e) => Err(e),
                Ok((m, end)) => go_on(
                    defaults,
                    SceneView { medium: dict_insert(scene.medium, id, m), ..scene },
                    end,
                ),
            },
        }
    } else if tag == "sensor"@ {
        match required_attribute(attrs, "type"@, tag, defaults) {
            Err(e) => Err(e),
            Ok(ty) => match sensor_of(ev, body, defaults, ty) {
                Err(e) => Err(e),
                Ok((x, end)) => go_on(
                    defaults,
                    SceneView { sensors: scene.sensors.push(x), ..scene },
                    end,
                ),
            },
        }
    } else if tag == "emitter"@ {
        match required_attribute(attrs, "type"@, tag, defaults) {
            Err(e) => Err(e),
            Ok(ty) => match emitter_of(ev, body, defaults, ty) {
                Err(e) => Err(e),
                Ok((x, end)) => go_on(
                    defaults,
                    SceneView { emitters: scene.emitters.push(x), ..scene },
                    end,
                ),
            },
        }
    } else if tag == "shape"@ {
        match required_attribute(attrs, "type"@, tag, defaults) {
            Err(e) => Err(e),
            Ok(ty) => match attribute(attrs, "id"@, defaults) {
                Err(e) => Err(e),
                Ok(id) => match shape_of(ev, body, defaults, ty, scene) {
                    Err(e) => Err(e),
                    Ok((x, after, end)) => go_on(
                        defaults,
                        match id {
                            Some(i) => SceneView {
                                shapes_id: dict_insert(after.shapes_id, i, x),
                                ..after
                            },
                            None => SceneView {
                                shapes_unamed: after.shapes_unamed.push(x),
                                ..after
                            },
                        },
                        end,
                    ),
                },
            },
        }
    } else if tag == "default"@ {
        match required_attribute(attrs, "name"@, tag, defaults) {
            Err(e) => Err(e),
            Ok(name) => match required_attribute(attrs, "value"@, tag, defaults) {
                Err(e) => Err(e),
                Ok(value) => go_on(dict_insert(defaults, name, value), scene, body),
            },
        }
    } else if tag == "integrator"@ || tag == "sampler"@ {
        match skip_end(ev, body, 1) {
            Err(e) => Err(e),
            Ok(end) => go_on(defaults, scene, end),
        }
    } else if tag == "include"@ {
        match required_attribute(attrs, "filename"@, tag, defaults) {
            Err(e) => Err(e),
            Ok(filename) => match skip_end(ev, body, 1) {
                Err(e) => Err(e),
                Ok(end) => Ok(
                    Reading {
                        directive: DirectiveView::Include(filename),
                        defaults,
                        scene,
                        pos: end,
                    },
                ),
            },
        }
    } else if tag == "ply"@ {
        match required_attribute(attrs, "filename"@, tag, defaults) {
            Err(e) => Err(e),
            Ok(filename) => go_on(
                defaults,
                SceneView { shapes_unamed: scene.shapes_unamed.push(plain_ply(filename)), ..scene },
                body,
            ),
        }
    } else {
        go_on(defaults, scene, body)
    }
}

/// The reading of a document from `pos` on, with the defaults and the
/// scene so far, up to its end or to the first `include` element. What
/// stands right under the scene is taken in element by element; what
/// reports an error of the tokenizer ends the reading with that error; any
/// other event is passed over.
pub open spec fn scene_walk(
    ev: Seq<EventView>,
    pos: int,
    defaults: Seq<(Seq<char>, Seq<char>)>,
    scene: SceneView,
) -> Result<Reading, ErrorView>
    decreases ev.len() - pos,
{
    if pos < 0 || pos >= ev.len() {
        Ok(Reading { directive: DirectiveView::Done, defaults, scene, pos: ev.len() as int })
    } else {
        match ev[pos] {
            EventView::Start { .. } => match element_effect(ev, pos, defaults, scene) {
                Err(e) => Err(e),
                Ok(r) => if r.directive is Done {
                    scene_walk(ev, resume(pos, r.pos, ev.len()), r.defaults, r.scene)
                } else {
                    Ok(r)
                },
            },
            EventView::Error(m) => Err(ErrorView::XmlTokenizer(m)),
            _ => scene_walk(ev, pos + 1, defaults, scene),
        }
    }
}

/// The same bytes give the same scene: what is read depends on the bytes of
/// the document, the defaults and the scene so far, and on nothing else.
pub proof fn lemma_same_bytes_same_scene(
    first: Seq<u8>,
    second: Seq<u8>,
    defaults: Seq<(Seq<char>, Seq<char>)>,
    scene: SceneView,
)
    requires
        first == second,
    ensures
        scene_walk(xml_events(first), 0, defaults, scene) == scene_walk(
            xml_events(second),
            0,
            defaults,
            scene,
        ),
{
}

/// No identifier occurs twice among the materials, the textures, the
/// named shapes or the media of the scene.
pub open spec fn distinct_ids(scene: SceneView) -> bool {
    &&& distinct_keys(scene.bsdfs)
    &&& distinct_keys(scene.textures)
    &&& distinct_keys(scene.shapes_id)
    &&& distinct_keys(scene.medium)
}

/// An element right under the scene is read to a place behind where it
/// began and within the document, and leaves every identifier of the scene
/// and every name of the defaults unique.
pub proof fn lemma_element_effect(
    ev: Seq<EventView>,
    pos: int,
    defaults: Seq<(Seq<char>, Seq<char>)>,
    scene: SceneView,
)
    requires
        0 <= pos < ev.len(),
        ev[pos] is Start,
    ensures
        element_effect(ev, pos, defaults, scene) matches Ok(r) ==> {
            &&& pos < r.pos <= ev.len()
            &&& distinct_ids(scene) ==> distinct_ids(r.scene)
            &&& distinct_keys(defaults) ==> distinct_keys(r.defaults)
        },
{
    let tag = ev[pos]->Start_name;
    let attrs = ev[pos]->Start_attributes;
    let body = pos + 1;
    lemma_skip_end_ends(ev, body, 1);
    if tag == "bsdf"@ {
        match required_attribute(attrs, "type"@, tag, defaults) {
            Ok(ty) => match attribute(attrs, "id"@, defaults) {
                Ok(Some(id)) => {
                    lemma_bsdf_of(ev, body, defaults, ty, scene);
                    match bsdf_of(ev, body, defaults, ty, scene) {
                        Ok((b, after, end)) => {
                            if distinct_ids(scene) {
                                lemma_insert_keeps_distinct(after.bsdfs, id, b);
                            }
                        },
                        Err(_) => {},
                    }
                },
                _ => {},
            },
            Err(_) => {},
        }
    } else if tag == "texture"@ {
        match id_and_type(attrs, tag, defaults) {
            Ok((id, ty)) => {
                lemma_texture_ends(ev, body, defaults, ty);
                match texture_of(ev, body, defaults, ty) {
                    Ok((t, end)) => {
                        if distinct_ids(scene) {
                            lemma_insert_keeps_distinct(scene.textures, id, t);
                        }
                    },
                    Err(_) => {},
                }
            },
            Err(_) => {},
        }
    } else if tag == "medium"@ {
        match id_and_type(attrs, tag, defaults) {
            Ok((id, ty)) => {
                lemma_medium_walk_ends(ev, body, false, defaults, no_props(), None);
                match medium_of(ev, body, defaults, ty) {
                    Ok((m, end)) => {
                        if distinct_ids(scene) {
                            lemma_insert_keeps_distinct(scene.medium, id, m);
                        }
                    },
                    Err(_) => {},
                }
            },
            Err(_) => {},
        }
    } else if tag == "sensor"@ {
        lemma_sensor_walk_ends(
            ev,
            body,
            false,
            defaults,
            SensorParts { props: no_props(), film: None, to_world: identity() },
        );
    } else if tag == "emitter"@ {
        lemma_emitter_walk_ends(ev, body, false, defaults, no_props(), identity());
    } else if tag == "shape"@ {
        match required_attribute(attrs, "type"@, tag, defaults) {
            Ok(ty) => match attribute(attrs, "id"@, defaults) {
                Ok(id) => {
                    lemma_shape_of(ev, body, defaults, ty, scene);
                    match shape_of(ev, body, defaults, ty, scene) {
                        Ok((x, after, end)) => match id {
                            Some(i) => {
                                if distinct_ids(scene) {
                                    lemma_insert_keeps_distinct(after.shapes_id, i, x);
                                }
                            },
                            None => {},
                        },
                        Err(_) => {},
                    }
                },
                Err(_) => {},
            },
            Err(_) => {},
        }
    } else if tag == "default"@ {
        match required_attribute(attrs, "name"@, tag, defaults) {
            Ok(name) => match required_attribute(attrs, "value"@, tag, defaults) {
                Ok(value) => {
                    if distinct_keys(defaults) {
                        lemma_insert_keeps_distinct(defaults, name, value);
                    }
                },
                Err(_) => {},
            },
            Err(_) => {},
        }
    }
}

/// The reading of a document goes forward and stays within the document,
/// and it leaves every identifier of the scene and every name of the
/// defaults unique: a scene that is read from the empty scene declares
/// nothing twice.
pub proof fn lemma_scene_walk(
    ev: Seq<EventView>,
    pos: int,
    defaults: Seq<(Seq<char>, Seq<char>)>,
    scene: SceneView,
)
    requires
        0 <= pos <= ev.len(),
    ensures
        scene_walk(ev, pos, defaults, scene) matches Ok(r) ==> {
            &&& pos <= r.pos <= ev.len()
            &&& distinct_ids(scene) ==> distinct_ids(r.scene)
            &&& distinct_keys(defaults) ==> distinct_keys(r.defaults)
        },
    decreases ev.len() - pos,
{
    if pos < ev.len() {
        match ev[pos] {
            EventView::Start { .. } => {
                lemma_element_effect(ev, pos, defaults, scene);
                match element_effect(ev, pos, defaults, scene) {
                    Ok(r) => {
                        if r.directive is Done {
                            lemma_scene_walk(ev, resume(pos, r.pos, ev.len()), r.defaults, r.scene);
                        }
                    },
                    Err(_) => {},
                }
            },
            EventView::Error(_) => {},
            _ => {
                lemma_scene_walk(ev, pos + 1, defaults, scene);
            },
        }
    }
}

/// A material that is declared under an identifier is of the variant that
/// its element's kind names.
pub proof fn lemma_declared_material_matches(
    ev: Seq<EventView>,
    pos: int,
    defaults: Seq<(Seq<char>, Seq<char>)>,
    scene: SceneView,
)
    requires
        0 <= pos < ev.len(),
        ev[pos] is Start,
        ev[pos]->Start_name == "bsdf"@,
    ensures
        element_effect(ev, pos, defaults, scene) matches Ok(r) ==> (attribute(
            ev[pos]->Start_attributes,
            "id"@,
            defaults,
        ) matches Ok(Some(id)) ==> dict_get(r.scene.bsdfs, id) matches Some(b) && variant_matches(
            required_attribute(ev[pos]->Start_attributes, "type"@, "bsdf"@, defaults)->Ok_0,
            b,
        )),
{
    let attrs = ev[pos]->Start_attributes;
    match required_attribute(attrs, "type"@, "bsdf"@, defaults) {
        Ok(ty) => match attribute(attrs, "id"@, defaults) {
            Ok(Some(id)) => {
                lemma_variant_matches(ev, pos + 1, defaults, ty, scene);
                match bsdf_of(ev, pos + 1, defaults, ty, scene) {
                    Ok((b, after, end)) => {
                        lemma_get_after_insert(after.bsdfs, id, b, id);
                    },
                    Err(_) => {},
                }
            },
            _ => {},
        },
        Err(_) => {},
    }
}

fn plain_ply_shape(filename: String) -> (r: Shape)
    ensures
        r@ == plain_ply(filename@),
{
    Shape::Ply {
        filename,
        face_normal: false,
        max_smooth_angle: None,
        srgb: true,
        option: ShapeOption {
            flip_normal: false,
            bsdf: None,
            to_world: None,
            emitter: None,
            interior: None,
            exterior: None,
        },
    }
}

fn read_id_and_type(attrs: &Vec<Attribute>, context: &str, defaults: &Dict<String>) -> (r: Result<
    (String, String),
    Error,
>)
    ensures
        match id_and_type(attributes_view(attrs@), context@, defaults@) {
            Ok(c) => r matches Ok(x) && x.0@ == c.0 && x.1@ == c.1,
            Err(e) => r matches Err(x) && x@ == e,
        },
{
    let id = found_attrib_or_error(attrs, "id", context, defaults)?;
    let ty = found_attrib_or_error(attrs, "type", context, defaults)?;
    Ok((id, ty))
}

impl Scene {
    fn push_shape(&mut self, s: Shape)
        ensures
            final(self)@ == (SceneView {
                shapes_unamed: old(self)@.shapes_unamed.push(s@),
                ..old(self)@
            }),
    {
        self.shapes_unamed.push(s);
        assert(self@.shapes_unamed =~= old(self)@.shapes_unamed.push(s@));
    }

    fn push_sensor(&mut self, s: Sensor)
        ensures
            final(self)@ == (SceneView { sensors: old(self)@.sensors.push(s@), ..old(self)@ }),
    {
        self.sensors.push(s);
        assert(self@.sensors =~= old(self)@.sensors.push(s@));
    }

    fn push_emitter(&mut self, e: Emitter)
        ensures
            final(self)@ == (SceneView { emitters: old(self)@.emitters.push(e@), ..old(self)@ }),
    {
        self.emitters.push(e);
        assert(self@.emitters =~= old(self)@.emitters.push(e@));
    }
}

/// Takes in the element that starts at `pos`, which stands right under the
/// scene.
fn take_element(
    events: &Vec<Event>,
    pos: &mut usize,
    defaults: &mut Dict<String>,
    scene: &mut Scene,
) -> (r: Result<Directive, Error>)
    requires
        *old(pos) < events.len(),
        events@[*old(pos) as int] is Start,
    ensures
        match element_effect(
            events_view(events@),
            *old(pos) as int,
            old(defaults)@,
            old(scene)@,
        ) {
            Ok(x) => r matches Ok(d) && d@ == x.directive && final(defaults)@ == x.defaults
                && final(scene)@ == x.scene && *final(pos) == x.pos && *old(pos) < x.pos
                <= events.len(),
            Err(e) => r matches Err(x) && x@ == e,
        },
{
    let p: usize = *pos;
    let mut q: usize = p + 1;
    match &events[p] {
        Event::Start { name, attributes } => {
            let tag = name.as_str();
            if str_eq(tag, "bsdf") {
                let ty = found_attrib_or_error(attributes, "type", tag, defaults)?;
                match found_attrib(attributes, "id", defaults)? {
                    None => {
                        skipping_entry(events, &mut q)?;
                    },
                    Some(id) => {
                        let b = BSDF::parse(events, &mut q, defaults, ty.as_str(), scene)?;
                        scene.bsdfs.insert(id, b);
                    },
                }
            } else if str_eq(tag, "texture") {
                let (id, ty) = read_id_and_type(attributes, tag, defaults)?;
                let t = Texture::parse(events, &mut q, defaults, ty.as_str())?;
                scene.textures.insert(id, t);
            } else if str_eq(tag, "medium") {
                let (id, ty) = read_id_and_type(attributes, tag, defaults)?;
                let m = Medium::parse(events, &mut q, defaults, ty.as_str())?;
                scene.medium.insert(id, m);
            } else if str_eq(tag, "sensor") {
                let ty = found_attrib_or_error(attributes, "type", tag, defaults)?;
                let x = Sensor::parse(events, &mut q, defaults, ty.as_str())?;
                scene.push_sensor(x);
            } else if str_eq(tag, "emitter") {
                let ty = found_attrib_or_error(attributes, "type", tag, defaults)?;
                let x = Emitter::parse(events, &mut q, defaults, ty.as_str())?;
                scene.push_emitter(x);
            } else if str_eq(tag, "shape") {
                let ty = found_attrib_or_error(attributes, "type", tag, defaults)?;
                let id = found_attrib(attributes, "id", defaults)?;
                let x = Shape::parse(events, &mut q, defaults, ty.as_str(), scene)?;
                match id {
                    Some(i) => {
                        scene.shapes_id.insert(i, x);
                    },
                    None => {
                        scene.push_shape(x);
                    },
                }
            } else if str_eq(tag, "default") {
                let name = found_attrib_or_error(attributes, "name", tag, defaults)?;
                let value = found_attrib_or_error(attributes, "value", tag, defaults)?;
                defaults.insert(name, value);
            } else if str_eq(tag, "integrator") || str_eq(tag, "sampler") {
                skipping_entry(events, &mut q)?;
            } else if str_eq(tag, "include") {
                let filename = found_attrib_or_error(attributes, "filename", tag, defaults)?;
                skipping_entry(events, &mut q)?;
                *pos = q;
                return Ok(Directive::Include(filename));
            } else if str_eq(tag, "ply") {
                let filename = found_attrib_or_error(attributes, "filename", tag, defaults)?;
                scene.push_shape(plain_ply_shape(filename));
            }
            *pos = q;
            Ok(Directive::Done)
        },
        _ => Ok(Directive::Done),
    }
}

/// Reads a document from `pos` on into the scene, up to its end or to the
/// first `include` element. After an `include` the caller reads the named
/// document into the same scene with the same defaults, and then calls
/// again to go on behind the element.
pub fn parse_scene(
    events: &Vec<Event>,
    pos: &mut usize,
    defaults: &mut Dict<String>,
    scene: &mut Scene,
) -> (r: Result<Directive, Error>)
    ensures
        match scene_walk(events_view(events@), *old(pos) as int, old(defaults)@, old(scene)@) {
            Ok(x) => r matches Ok(d) && d@ == x.directive && final(defaults)@ == x.defaults
                && final(scene)@ == x.scene && *final(pos) == x.pos && x.pos <= events.len()
                && (*old(pos) <= events.len() ==> *old(pos) <= x.pos),
            Err(e) => r matches Err(x) && x@ == e,
        },
{
    if *pos > events.len() {
        *pos = events.len();
        return Ok(Directive::Done);
    }
    let ghost ev = events_view(events@);
    let start: usize = *pos;
    let mut p: usize = start;
    while p < events.len()
        invariant
            start == *old(pos),
            start <= p <= events.len(),
            ev == events_view(events@),
            scene_walk(ev, start as int, old(defaults)@, old(scene)@) == scene_walk(
                ev,
                p as int,
                defaults@,
                scene@,
            ),
        decreases events.len() - p,
    {
        match &events[p] {
            Event::Start { .. } => {
                let mut q: usize = p;
                match take_element(events, &mut q, defaults, scene)? {
                    Directive::Done => {
                        p = q;
                    },
                    Directive::Include(filename) => {
                        *pos = q;
                        return Ok(Directive::Include(filename));
                    },
                }
            },
            Event::Error(m) => {
                return Err(Error::XmlTokenizer(m.clone()));
            },
            _ => {
                p += 1;
            },
        }
    }
    *pos = p;
    Ok(Directive::Done)
}

} // verus!
