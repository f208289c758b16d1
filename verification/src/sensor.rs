//! Sensors and their films.
use crate::dict::Dict;
use crate::events::{
    end_of_document, end_of_document_error, events_view, skip_end, skipping_entry,
    unexpected_content_error, Event, EventView,
};
use crate::number::{to_u32, wrap_u32, Number};
use crate::props::{
    check_no_refs, leaf_step, no_props, no_refs, number_prop, read_number, read_required_int,
    read_required_number, read_string, required_int, required_number, resume, string_prop,
    take_event, unknown_element, unknown_element_error, values, values_walk, Outcome, Props,
    PropsView, Step,
};
use crate::text::str_eq;
use crate::transform::{identity, transform_of, Transform, TransformOpView};
use crate::value::{Error, ErrorView, Value, ValueView};
use vstd::prelude::*;

verus! {

/// The size of the image in pixels.
#[derive(Clone, Copy, PartialEq, Eq, Structural, Debug)]
pub struct Film {
    pub height: u32,
    pub width: u32,
}

impl View for Film {
    type V = Film;

    open spec fn view(&self) -> Film {
        *self
    }
}

/// A perspective sensor.
#[derive(Debug, PartialEq)]
pub struct Sensor {
    pub fov: Number,
    pub fov_axis: String,
    pub shutter_open: Number,
    pub shutter_close: Number,
    pub near_clip: Number,
    pub far_clip: Number,
    pub film: Film,
    pub to_world: Transform,
}

/// A [`Sensor`] as contracts see it: every text is the sequence of its
/// characters, and every list the sequence of its items.
pub struct SensorView {
    pub fov: Seq<char>,
    pub fov_axis: Seq<char>,
    pub shutter_open: Seq<char>,
    pub shutter_close: Seq<char>,
    pub near_clip: Seq<char>,
    pub far_clip: Seq<char>,
    pub film: Film,
    pub to_world: Seq<TransformOpView>,
}

impl View for Sensor {
    type V = SensorView;

    open spec fn view(&self) -> SensorView {
        SensorView {
            fov: self.fov@,
            fov_axis: self.fov_axis@,
            shutter_open: self.shutter_open@,
            shutter_close: self.shutter_close@,
            near_clip: self.near_clip@,
            far_clip: self.far_clip@,
            film: self.film,
            to_world: self.to_world@,
        }
    }
}

/// The film that the properties `m` describe.
pub open spec fn film_from(m: Seq<(Seq<char>, ValueView)>) -> Result<Film, ErrorView> {
    match required_int(m, "height"@, "film"@) {
        Err(e) => Err(e),
        Ok(height) => match required_int(m, "width"@, "film"@) {
            Err(e) => Err(e),
            Ok(width) => Ok(Film { height: wrap_u32(height), width: wrap_u32(width) }),
        },
    }
}

/// The film whose element's body begins at `pos`, and the position after
/// the element's end. Children of the element are passed over.
pub open spec fn film_of(ev: Seq<EventView>, pos: int, defaults: Seq<(Seq<char>, Seq<char>)>) -> Result<
    (Film, int),
    ErrorView,
> {
    match values_walk(ev, pos, false, defaults, false, no_props()) {
        Err(e) => Err(e),
        Ok((props, end)) => match no_refs(props.refs) {
            Err(e) => Err(e),
            Ok(_) => match film_from(props.map) {
                Err(e) => Err(e),
                Ok(t) => Ok((t, end)),
            },
        },
    }
}

/// What the children of a `sensor` element gave.
pub struct SensorParts {
    pub props: PropsView,
    pub film: Option<Film>,
    pub to_world: Seq<TransformOpView>,
}

/// The body of a `sensor` element from `pos` on, and the position after its
/// end: a `film` and a `transform` child are kept, the last of each, and a
/// `sampler` child is passed over.
pub open spec fn sensor_walk(
    ev: Seq<EventView>,
    pos: int,
    opened: bool,
    defaults: Seq<(Seq<char>, Seq<char>)>,
    parts: SensorParts,
) -> Result<(SensorParts, int), ErrorView>
    decreases ev.len() - pos,
{
    if pos < 0 || pos >= ev.len() {
        Err(end_of_document())
    } else {
        match leaf_step(ev[pos], opened, defaults, parts.props) {
            Outcome::Fail(e) => Err(e),
            Outcome::Finished => Ok((parts, pos + 1)),
            Outcome::Next { opened: o, props: p } => sensor_walk(
                ev,
                pos + 1,
                o,
                defaults,
                SensorParts { props: p, ..parts },
            ),
            Outcome::Child => {
                let tag = ev[pos]->Start_name;
                if tag == "film"@ {
                    match film_of(ev, pos + 1, defaults) {
                        Err(e) => Err(e),
                        Ok((f, end)) => sensor_walk(
                            ev,
                            resume(pos, end, ev.len()),
                            opened,
                            defaults,
                            SensorParts { film: Some(f), ..parts },
                        ),
                    }
                } else if tag == "transform"@ {
                    match transform_of(ev, pos + 1, defaults) {
                        Err(e) => Err(e),
                        Ok((t, end)) => sensor_walk(
                            ev,
                            resume(pos, end, ev.len()),
                            opened,
                            defaults,
                            SensorParts { to_world: t, ..parts },
                        ),
                    }
                } else if tag == "sampler"@ {
                    match skip_end(ev, pos + 1, 1) {
                        Err(e) => Err(e),
                        Ok(end) => sensor_walk(
                            ev,
                            resume(pos, end, ev.len()),
                            opened,
                            defaults,
                            parts,
                        ),
                    }
                } else {
                    Err(unknown_element(tag))
                }
            },
        }
    }
}

/// The shutter and the clipping planes that properties give.
pub open spec fn shutter_and_clip(m: Seq<(Seq<char>, ValueView)>) -> Result<
    (Seq<char>, Seq<char>, Seq<char>, Seq<char>),
    ErrorView,
> {
    match number_prop(m, "shutterOpen"@, "0"@) {
        Err(e) => Err(e),
        Ok(shutter_open) => match number_prop(m, "shutterClose"@, "0"@) {
            Err(e) => Err(e),
            Ok(shutter_close) => match number_prop(m, "nearClip"@, "0.01"@) {
                Err(e) => Err(e),
                Ok(near_clip) => match number_prop(m, "farClip"@, "1000"@) {
                    Err(e) => Err(e),
                    Ok(far_clip) => Ok((shutter_open, shutter_close, near_clip, far_clip)),
                },
            },
        },
    }
}

/// The sensor that the parts of its element describe.
pub open spec fn sensor_from(parts: SensorParts) -> Result<SensorView, ErrorView> {
    let m = parts.props.map;
    match required_number(m, "fov"@, "sensor"@) {
        Err(e) => Err(e),
        Ok(fov) => match string_prop(m, "fovAxis"@, "x"@) {
            Err(e) => Err(e),
            Ok(fov_axis) => match shutter_and_clip(m) {
                Err(e) => Err(e),
                Ok((shutter_open, shutter_close, near_clip, far_clip)) => match parts.film {
                    None => Err(ErrorView::MissingAttribute("film"@, "sensor"@)),
                    Some(film) => Ok(
                        SensorView {
                            fov,
                            fov_axis,
                            shutter_open,
                            shutter_close,
                            near_clip,
                            far_clip,
                            film,
                            to_world: parts.to_world,
                        },
                    ),
                },
            },
        },
    }
}

/// The sensor of kind `ty` whose element's body begins at `pos`, and the
/// position after the element's end. Only the kind `perspective` is known.
pub open spec fn sensor_of(
    ev: Seq<EventView>,
    pos: int,
    defaults: Seq<(Seq<char>, Seq<char>)>,
    ty: Seq<char>,
) -> Result<(SensorView, int), ErrorView> {
    if ty != "perspective"@ {
        Err(ErrorView::UnknownVariant("sensor"@, ty))
    } else {
        match sensor_walk(
            ev,
            pos,
            false,
            defaults,
            SensorParts { props: no_props(), film: None, to_world: identity() },
        ) {
            Err(e) => Err(e),
            Ok((parts, end)) => match no_refs(parts.props.refs) {
                Err(e) => Err(e),
                Ok(_) => match sensor_from(parts) {
                    Err(e) => Err(e),
                    Ok(t) => Ok((t, end)),
                },
            },
        }
    }
}

/// The reading of a sensor ends behind where it began, and within the document.
pub proof fn lemma_sensor_walk_ends(
    ev: Seq<EventView>,
    pos: int,
    opened: bool,
    defaults: Seq<(Seq<char>, Seq<char>)>,
    parts: SensorParts,
)
    requires
        0 <= pos,
    ensures
        sensor_walk(ev, pos, opened, defaults, parts) matches Ok((_, end)) ==> pos < end
            <= ev.len(),
    decreases ev.len() - pos,
{
    if pos < ev.len() {
        match leaf_step(ev[pos], opened, defaults, parts.props) {
            Outcome::Next { opened: o, props: p } => {
                lemma_sensor_walk_ends(ev, pos + 1, o, defaults, SensorParts { props: p, ..parts });
            },
            Outcome::Child => {
                let tag = ev[pos]->Start_name;
                if tag == "film"@ {
                    match film_of(ev, pos + 1, defaults) {
                        Ok((f, end)) => {
                            lemma_sensor_walk_ends(
                                ev,
                                resume(pos, end, ev.len()),
                                opened,
                                defaults,
                                SensorParts { film: Some(f), ..parts },
                            );
                        },
                        Err(_) => {},
                    }
                } else if tag == "transform"@ {
                    match transform_of(ev, pos + 1, defaults) {
                        Ok((t, end)) => {
                            lemma_sensor_walk_ends(
                                ev,
                                resume(pos, end, ev.len()),
                                opened,
                                defaults,
                                SensorParts { to_world: t, ..parts },
                            );
                        },
                        Err(_) => {},
                    }
                } else if tag == "sampler"@ {
                    match skip_end(ev, pos + 1, 1) {
                        Ok(end) => {
                            lemma_sensor_walk_ends(
                                ev,
                                resume(pos, end, ev.len()),
                                opened,
                                defaults,
                                parts,
                            );
                        },
                        Err(_) => {},
                    }
                }
            },
            _ => {},
        }
    }
}

impl Film {
    /// The film that the properties `m` describe.
    pub fn from_props(m: &Dict<Value>) -> (r: Result<Film, Error>)
        ensures
            match film_from(m@) {
                Ok(t) => r matches Ok(x) && x == t,
                Err(e) => r matches Err(x) && x@ == e,
            },
    {
        let height = read_required_int(m, "height", "film")?;
        let width = read_required_int(m, "width", "film")?;
        Ok(Film { height: to_u32(height), width: to_u32(width) })
    }

    /// Reads the body of a `film` element, from `pos` on to the element's end.
    pub fn parse(events: &Vec<Event>, pos: &mut usize, defaults: &Dict<String>) -> (r: Result<
        Film,
        Error,
    >)
        ensures
            match film_of(events_view(events@), *old(pos) as int, defaults@) {
                Ok((t, end)) => r matches Ok(x) && x == t && *final(pos) == end && *old(pos)
                    < end <= events.len(),
                Err(e) => r matches Err(x) && x@ == e,
            },
    {
        let props = values(events, pos, defaults, false)?;
        check_no_refs(&props.refs)?;
        Film::from_props(&props.map)
    }
}

fn read_shutter_and_clip(m: &Dict<Value>) -> (r: Result<(Number, Number, Number, Number), Error>)
    ensures
        match shutter_and_clip(m@) {
            Ok(t) => r matches Ok(x) && x.0@ == t.0 && x.1@ == t.1 && x.2@ == t.2 && x.3@ == t.3,
            Err(e) => r matches Err(x) && x@ == e,
        },
{
    let shutter_open = read_number(m, "shutterOpen", "0")?;
    let shutter_close = read_number(m, "shutterClose", "0")?;
    let near_clip = read_number(m, "nearClip", "0.01")?;
    let far_clip = read_number(m, "farClip", "1000")?;
    Ok((shutter_open, shutter_close, near_clip, far_clip))
}

impl Sensor {
    /// The sensor with the properties `props`, the film `film` and the
    /// transform `to_world`.
    pub fn from_parts(props: &Props, film: Option<Film>, to_world: Transform) -> (r: Result<
        Sensor,
        Error,
    >)
        ensures
            match sensor_from(SensorParts { props: props@, film, to_world: to_world@ }) {
                Ok(t) => r matches Ok(x) && x@ == t,
                Err(e) => r matches Err(x) && x@ == e,
            },
    {
        let m = &props.map;
        let fov = read_required_number(m, "fov", "sensor")?;
        let fov_axis = read_string(m, "fovAxis", "x")?;
        let (shutter_open, shutter_close, near_clip, far_clip) = read_shutter_and_clip(m)?;
        match film {
            None => Err(Error::MissingAttribute("film".to_owned(), "sensor".to_owned())),
            Some(film) => Ok(
                Sensor {
                    fov,
                    fov_axis,
                    shutter_open,
                    shutter_close,
                    near_clip,
                    far_clip,
                    film,
                    to_world,
                },
            ),
        }
    }

    /// Reads the body of a `sensor` element of kind `sensor_type`, from
    /// `pos` on to the element's end.
    pub fn parse(
        events: &Vec<Event>,
        pos: &mut usize,
        defaults: &Dict<String>,
        sensor_type: &str,
    ) -> (r: Result<Sensor, Error>)
        ensures
            match sensor_of(events_view(events@), *old(pos) as int, defaults@, sensor_type@) {
                Ok((t, end)) => r matches Ok(x) && x@ == t && *final(pos) == end && *old(pos)
                    < end <= events.len(),
                Err(e) => r matches Err(x) && x@ == e,
            },
    {
        if !str_eq(sensor_type, "perspective") {
            return Err(Error::UnknownVariant("sensor".to_owned(), sensor_type.to_owned()));
        }
        if *pos > events.len() {
            return Err(end_of_document_error());
        }
        let ghost ev = events_view(events@);
        let start: usize = *pos;
        let mut props = Props::new();
        let mut film: Option<Film> = None;
        let mut to_world = Transform::identity();
        let mut opened = false;
        let mut p: usize = start;
        while p < events.len()
            invariant
                start == *old(pos),
                start <= p <= events.len(),
                ev == events_view(events@),
                sensor_type@ == "perspective"@,
                sensor_walk(
                    ev,
                    start as int,
                    false,
                    defaults@,
                    SensorParts { props: no_props(), film: None, to_world: identity() },
                ) == sensor_walk(
                    ev,
                    p as int,
                    opened,
                    defaults@,
                    SensorParts { props: props@, film, to_world: to_world@ },
                ),
            decreases events.len() - p,
        {
            let event = &events[p];
            match take_event(event, &mut opened, defaults, &mut props)? {
                Step::Continue => {
                    p += 1;
                },
                Step::Finished => {
                    *pos = p + 1;
                    check_no_refs(&props.refs)?;
                    return Sensor::from_parts(&props, film, to_world);
                },
                Step::Child => {
                    match event {
                        Event::Start { name, .. } => {
                            let mut q: usize = p + 1;
                            if str_eq(name.as_str(), "film") {
                                film = Some(Film::parse(events, &mut q, defaults)?);
                            } else if str_eq(name.as_str(), "transform") {
                                to_world = Transform::parse(events, &mut q, defaults)?;
                            } else if str_eq(name.as_str(), "sampler") {
                                skipping_entry(events, &mut q)?;
                            } else {
                                return Err(unknown_element_error(name.as_str()));
                            }
                            p = q;
                        },
                        _ => {
                            return Err(unexpected_content_error());
                        },
                    }
                },
            }
        }
        Err(end_of_document_error())
    }
}

} // verus!
