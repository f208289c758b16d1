//! Light sources.
use crate::dict::{dict_get, Dict};
use crate::events::{
    end_of_document, end_of_document_error, events_view, unexpected_content_error, Event,
    EventView,
};
use crate::number::{to_u32, wrap_u32, Number};
use crate::props::{
    check_no_refs, int_prop, leaf_step, no_props, no_refs, number_prop, optional_bool,
    optional_number, read_int, read_number, read_optional_bool, read_optional_number,
    read_required_point, read_required_spectrum, read_required_string, read_required_vector,
    read_spectrum, required_point, required_spectrum, required_string, required_vector, resume,
    spectrum_prop, take_event, unknown_element, unknown_element_error, Outcome, Props,
    PropsView, Step,
};
use crate::text::str_eq;
use crate::texture::{Texture, TextureView};
use crate::transform::{identity, transform_of, Transform, TransformOpView};
use crate::value::{vector_in, Error, ErrorView, Spectrum, Value, ValueView, Vector3};
use vstd::prelude::*;

verus! {

/// The light that a surface gives off.
#[derive(Debug, PartialEq)]
pub struct AreaEmitter {
    pub radiance: Spectrum,
    pub sampling_weight: Number,
}

/// A [`AreaEmitter`] as contracts see it: every text is the sequence of its
/// characters, and every list the sequence of its items.
pub struct AreaEmitterView {
    pub radiance: Seq<char>,
    pub sampling_weight: Seq<char>,
}

impl View for AreaEmitter {
    type V = AreaEmitterView;

    open spec fn view(&self) -> AreaEmitterView {
        AreaEmitterView { radiance: self.radiance@, sampling_weight: self.sampling_weight@ }
    }
}

/// What a sun adds to the common parameters of sun and sky.
#[derive(Debug, PartialEq)]
pub struct SunEmitterParam {
    pub scale: Number,
    pub radius_scale: Number,
}

impl View for SunEmitterParam {
    type V = (Seq<char>, Seq<char>);

    open spec fn view(&self) -> (Seq<char>, Seq<char>) {
        (self.scale@, self.radius_scale@)
    }
}

/// What a sky adds to the common parameters of sun and sky.
#[derive(Debug, PartialEq)]
pub struct SkyEmitterParam {
    pub scale: Number,
    pub stretch: Number,
    pub albedo: Spectrum,
}

impl View for SkyEmitterParam {
    type V = (Seq<char>, Seq<char>, Seq<char>);

    open spec fn view(&self) -> (Seq<char>, Seq<char>, Seq<char>) {
        (self.scale@, self.stretch@, self.albedo@)
    }
}

/// Where the sun stands: a direction, or a time and a place on earth.
#[derive(Debug, PartialEq)]
pub enum SunDirection {
    Vector(Vector3),
    DateAndPos {
        year: i32,
        month: i32,
        day: i32,
        hour: Number,
        minute: Number,
        second: Number,
        latitude: Number,
        longitude: Number,
        timezone: Number,
    },
}

/// A [`SunDirection`] as contracts see it: every text is the sequence of its
/// characters, and every list the sequence of its items.
pub enum SunDirectionView {
    Vector((Seq<char>, Seq<char>, Seq<char>)),
    DateAndPos {
        year: i32,
        month: i32,
        day: i32,
        hour: Seq<char>,
        minute: Seq<char>,
        second: Seq<char>,
        latitude: Seq<char>,
        longitude: Seq<char>,
        timezone: Seq<char>,
    },
}

impl View for SunDirection {
    type V = SunDirectionView;

    open spec fn view(&self) -> SunDirectionView {
        match self {
            SunDirection::Vector(v) => SunDirectionView::Vector(v@),
            SunDirection::DateAndPos {
                year,
                month,
                day,
                hour,
                minute,
                second,
                latitude,
                longitude,
                timezone,
            } => SunDirectionView::DateAndPos {
                year: *year,
                month: *month,
                day: *day,
                hour: hour@,
                minute: minute@,
                second: second@,
                latitude: latitude@,
                longitude: longitude@,
                timezone: timezone@,
            },
        }
    }
}

/// A light source.
#[derive(Debug, PartialEq)]
pub enum Emitter {
    /// The light of a surface; a shape refers to it.
    Area(AreaEmitter),
    Point { to_world: Transform, position: Vector3, intensity: Spectrum, sampling_weight: Number },
    /// A point that shines to one side.
    PointNormal {
        to_world: Transform,
        position: Vector3,
        normal: Vector3,
        intensity: Spectrum,
        sampling_weight: Number,
    },
    /// A spot. Where `beam_width` is absent it is three quarters of `cutoff_angle`.
    Spot {
        to_world: Transform,
        intensity: Spectrum,
        cutoff_angle: Number,
        beam_width: Option<Number>,
        texture: Option<Texture>,
        sampling_weight: Number,
    },
    Directional {
        to_world: Transform,
        direction: Vector3,
        irradiance: Spectrum,
        sampling_weight: Number,
    },
    Collimated { to_world: Transform, power: Spectrum, sampling_weight: Number },
    /// The same light from all around.
    Constant { radiance: Spectrum, sampling_weight: Number },
    /// Light from all around, by an image.
    EnvMap {
        to_world: Transform,
        filename: String,
        scale: Number,
        gamma: Option<Number>,
        cache: Option<bool>,
        sampling_weight: Number,
    },
    /// Sun, sky, or both.
    SunSky {
        turbidity: Number,
        resolution: u32,
        sampling_weight: Number,
        sun_direction: SunDirection,
        sun: Option<SunEmitterParam>,
        sky: Option<SkyEmitterParam>,
    },
}

/// A [`Emitter`] as contracts see it: every text is the sequence of its
/// characters, and every list the sequence of its items.
pub enum EmitterView {
    Area(AreaEmitterView),
    Point {
        to_world: Seq<TransformOpView>,
        position: (Seq<char>, Seq<char>, Seq<char>),
        intensity: Seq<char>,
        sampling_weight: Seq<char>,
    },
    PointNormal {
        to_world: Seq<TransformOpView>,
        position: (Seq<char>, Seq<char>, Seq<char>),
        normal: (Seq<char>, Seq<char>, Seq<char>),
        intensity: Seq<char>,
        sampling_weight: Seq<char>,
    },
    Spot {
        to_world: Seq<TransformOpView>,
        intensity: Seq<char>,
        cutoff_angle: Seq<char>,
        beam_width: Option<Seq<char>>,
        texture: Option<TextureView>,
        sampling_weight: Seq<char>,
    },
    Directional {
        to_world: Seq<TransformOpView>,
        direction: (Seq<char>, Seq<char>, Seq<char>),
        irradiance: Seq<char>,
        sampling_weight: Seq<char>,
    },
    Collimated { to_world: Seq<TransformOpView>, power: Seq<char>, sampling_weight: Seq<char> },
    Constant { radiance: Seq<char>, sampling_weight: Seq<char> },
    EnvMap {
        to_world: Seq<TransformOpView>,
        filename: Seq<char>,
        scale: Seq<char>,
        gamma: Option<Seq<char>>,
        cache: Option<bool>,
        sampling_weight: Seq<char>,
    },
    SunSky {
        turbidity: Seq<char>,
        resolution: u32,
        sampling_weight: Seq<char>,
        sun_direction: SunDirectionView,
        sun: Option<(Seq<char>, Seq<char>)>,
        sky: Option<(Seq<char>, Seq<char>, Seq<char>)>,
    },
}

/// What an optional value holds, as contracts see it.
pub open spec fn option_view<T: View>(o: Option<T>) -> Option<T::V> {
    match o {
        Some(x) => Some(x@),
        None => None,
    }
}

impl View for Emitter {
    type V = EmitterView;

    open spec fn view(&self) -> EmitterView {
        match self {
            Emitter::Area(a) => EmitterView::Area(a@),
            Emitter::Point { to_world, position, intensity, sampling_weight } => EmitterView::Point {
                to_world: to_world@,
                position: position@,
                intensity: intensity@,
                sampling_weight: sampling_weight@,
            },
            Emitter::PointNormal {
                to_world,
                position,
                normal,
                intensity,
                sampling_weight,
            } => EmitterView::PointNormal {
                to_world: to_world@,
                position: position@,
                normal: normal@,
                intensity: intensity@,
                sampling_weight: sampling_weight@,
            },
            Emitter::Spot {
                to_world,
                intensity,
                cutoff_angle,
                beam_width,
                texture,
                sampling_weight,
            } => EmitterView::Spot {
                to_world: to_world@,
                intensity: intensity@,
                cutoff_angle: cutoff_angle@,
                beam_width: option_view(*beam_width),
                texture: option_view(*texture),
                sampling_weight: sampling_weight@,
            },
            Emitter::Directional {
                to_world,
                direction,
                irradiance,
                sampling_weight,
            } => EmitterView::Directional {
                to_world: to_world@,
                direction: direction@,
                irradiance: irradiance@,
                sampling_weight: sampling_weight@,
            },
            Emitter::Collimated { to_world, power, sampling_weight } => EmitterView::Collimated {
                to_world: to_world@,
                power: power@,
                sampling_weight: sampling_weight@,
            },
            Emitter::Constant { radiance, sampling_weight } => EmitterView::Constant {
                radiance: radiance@,
                sampling_weight: sampling_weight@,
            },
            Emitter::EnvMap {
                to_world,
                filename,
                scale,
                gamma,
                cache,
                sampling_weight,
            } => EmitterView::EnvMap {
                to_world: to_world@,
                filename: filename@,
                scale: scale@,
                gamma: option_view(*gamma),
                cache: *cache,
                sampling_weight: sampling_weight@,
            },
            Emitter::SunSky {
                turbidity,
                resolution,
                sampling_weight,
                sun_direction,
                sun,
                sky,
            } => EmitterView::SunSky {
                turbidity: turbidity@,
                resolution: *resolution,
                sampling_weight: sampling_weight@,
                sun_direction: sun_direction@,
                sun: option_view(*sun),
                sky: option_view(*sky),
            },
        }
    }
}

/// The time of day and the place on earth that properties give.
pub open spec fn time_and_place(m: Seq<(Seq<char>, ValueView)>, year: i32, month: i32, day: i32) -> Result<
    SunDirectionView,
    ErrorView,
> {
    match number_prop(m, "hour"@, "15"@) {
        Err(e) => Err(e),
        Ok(hour) => match number_prop(m, "minute"@, "0"@) {
            Err(e) => Err(e),
            Ok(minute) => match number_prop(m, "second"@, "0"@) {
                Err(e) => Err(e),
                Ok(second) => match number_prop(m, "latitude"@, "35.6894"@) {
                    Err(e) => Err(e),
                    Ok(latitude) => match number_prop(m, "longitude"@, "139.6917"@) {
                        Err(e) => Err(e),
                        Ok(longitude) => match number_prop(m, "timezone"@, "9"@) {
                            Err(e) => Err(e),
                            Ok(timezone) => Ok(
                                SunDirectionView::DateAndPos {
                                    year,
                                    month,
                                    day,
                                    hour,
                                    minute,
                                    second,
                                    latitude,
                                    longitude,
                                    timezone,
                                },
                            ),
                        },
                    },
                },
            },
        },
    }
}

/// Where the sun stands by the properties `m`: the direction `sunDirection`
/// where it is given, and a time and a place otherwise.
pub open spec fn sun_direction_from(m: Seq<(Seq<char>, ValueView)>) -> Result<
    SunDirectionView,
    ErrorView,
> {
    match dict_get(m, "sunDirection"@) {
        Some(v) => match vector_in(v) {
            Err(e) => Err(e),
            Ok(d) => Ok(SunDirectionView::Vector(d)),
        },
        None => match int_prop(m, "year"@, 2010) {
            Err(e) => Err(e),
            Ok(year) => match int_prop(m, "month"@, 10) {
                Err(e) => Err(e),
                Ok(month) => match int_prop(m, "day"@, 10) {
                    Err(e) => Err(e),
                    Ok(day) => time_and_place(m, year, month, day),
                },
            },
        },
    }
}

/// What a sun adds: a scale, under `scale_key`, and the scale of its radius.
pub open spec fn sun_from(m: Seq<(Seq<char>, ValueView)>, scale_key: Seq<char>) -> Result<
    (Seq<char>, Seq<char>),
    ErrorView,
> {
    match number_prop(m, scale_key, "1"@) {
        Err(e) => Err(e),
        Ok(scale) => match number_prop(m, "sunRadiusScale"@, "1"@) {
            Err(e) => Err(e),
            Ok(radius_scale) => Ok((scale, radius_scale)),
        },
    }
}

/// What a sky adds: a scale, under `scale_key`, a stretch and an albedo.
pub open spec fn sky_from(m: Seq<(Seq<char>, ValueView)>, scale_key: Seq<char>) -> Result<
    (Seq<char>, Seq<char>, Seq<char>),
    ErrorView,
> {
    match number_prop(m, scale_key, "1"@) {
        Err(e) => Err(e),
        Ok(scale) => match number_prop(m, "stretch"@, "1"@) {
            Err(e) => Err(e),
            Ok(stretch) => match spectrum_prop(m, "albedo"@, "0.15"@) {
                Err(e) => Err(e),
                Ok(albedo) => Ok((scale, stretch, albedo)),
            },
        },
    }
}

/// The sun and the sky of an emitter of kind `sun`, `sky` or `sunsky`.
pub open spec fn sun_and_sky(m: Seq<(Seq<char>, ValueView)>, ty: Seq<char>) -> Result<
    (Option<(Seq<char>, Seq<char>)>, Option<(Seq<char>, Seq<char>, Seq<char>)>),
    ErrorView,
> {
    if ty == "sun"@ {
        match sun_from(m, "scale"@) {
            Err(e) => Err(e),
            Ok(sun) => Ok((Some(sun), None)),
        }
    } else if ty == "sky"@ {
        match sky_from(m, "scale"@) {
            Err(e) => Err(e),
            Ok(sky) => Ok((None, Some(sky))),
        }
    } else {
        match sky_from(m, "skyScale"@) {
            Err(e) => Err(e),
            Ok(sky) => match sun_from(m, "sunScale"@) {
                Err(e) => Err(e),
                Ok(sun) => Ok((Some(sun), Some(sky))),
            },
        }
    }
}

/// An emitter of kind `sun`, `sky` or `sunsky`.
pub open spec fn sunsky_from(
    m: Seq<(Seq<char>, ValueView)>,
    ty: Seq<char>,
    sampling_weight: Seq<char>,
) -> Result<EmitterView, ErrorView> {
    match number_prop(m, "turbidity"@, "3"@) {
        Err(e) => Err(e),
        Ok(turbidity) => match int_prop(m, "resolution"@, 512) {
            Err(e) => Err(e),
            Ok(resolution) => match sun_direction_from(m) {
                Err(e) => Err(e),
                Ok(sun_direction) => match sun_and_sky(m, ty) {
                    Err(e) => Err(e),
                    Ok((sun, sky)) => Ok(
                        EmitterView::SunSky {
                            turbidity,
                            resolution: wrap_u32(resolution),
                            sampling_weight,
                            sun_direction,
                            sun,
                            sky,
                        },
                    ),
                },
            },
        },
    }
}

/// An emitter of kind `point` or `point-normal`.
pub open spec fn point_from(
    m: Seq<(Seq<char>, ValueView)>,
    ty: Seq<char>,
    to_world: Seq<TransformOpView>,
    sampling_weight: Seq<char>,
) -> Result<EmitterView, ErrorView> {
    match required_point(m, "position"@, ty) {
        Err(e) => Err(e),
        Ok(position) => if ty == "point"@ {
            match spectrum_prop(m, "intensity"@, "1"@) {
                Err(e) => Err(e),
                Ok(intensity) => Ok(
                    EmitterView::Point { to_world, position, intensity, sampling_weight },
                ),
            }
        } else {
            match required_vector(m, "normal"@, ty) {
                Err(e) => Err(e),
                Ok(normal) => match spectrum_prop(m, "intensity"@, "1"@) {
                    Err(e) => Err(e),
                    Ok(intensity) => Ok(
                        EmitterView::PointNormal {
                            to_world,
                            position,
                            normal,
                            intensity,
                            sampling_weight,
                        },
                    ),
                },
            }
        },
    }
}

/// A spot. The width of its beam is kept only where it is given.
pub open spec fn spot_from(
    m: Seq<(Seq<char>, ValueView)>,
    to_world: Seq<TransformOpView>,
    sampling_weight: Seq<char>,
) -> Result<EmitterView, ErrorView> {
    match spectrum_prop(m, "intensity"@, "1"@) {
        Err(e) => Err(e),
        Ok(intensity) => match number_prop(m, "cutoffAngle"@, "20"@) {
            Err(e) => Err(e),
            Ok(cutoff_angle) => match optional_number(m, "beamWidth"@) {
                Err(e) => Err(e),
                Ok(beam_width) => Ok(
                    EmitterView::Spot {
                        to_world,
                        intensity,
                        cutoff_angle,
                        beam_width,
                        texture: None,
                        sampling_weight,
                    },
                ),
            },
        },
    }
}

/// Light from all around, by an image.
pub open spec fn envmap_from(
    m: Seq<(Seq<char>, ValueView)>,
    ty: Seq<char>,
    to_world: Seq<TransformOpView>,
    sampling_weight: Seq<char>,
) -> Result<EmitterView, ErrorView> {
    match required_string(m, "filename"@, ty) {
        Err(e) => Err(e),
        Ok(filename) => match number_prop(m, "scale"@, "1"@) {
            Err(e) => Err(e),
            Ok(scale) => match optional_number(m, "gamma"@) {
                Err(e) => Err(e),
                Ok(gamma) => match optional_bool(m, "cache"@) {
                    Err(e) => Err(e),
                    Ok(cache) => Ok(
                        EmitterView::EnvMap {
                            to_world,
                            filename,
                            scale,
                            gamma,
                            cache,
                            sampling_weight,
                        },
                    ),
                },
            },
        },
    }
}

/// The emitter of kind `ty` with the properties `m` and the transform `to_world`.
pub open spec fn emitter_from(
    m: Seq<(Seq<char>, ValueView)>,
    to_world: Seq<TransformOpView>,
    ty: Seq<char>,
) -> Result<EmitterView, ErrorView> {
    match number_prop(m, "samplingWeight"@, "1"@) {
        Err(e) => Err(e),
        Ok(sampling_weight) => if ty == "area"@ {
            match required_spectrum(m, "radiance"@, ty) {
                Err(e) => Err(e),
                Ok(radiance) => Ok(EmitterView::Area(AreaEmitterView { radiance, sampling_weight })),
            }
        } else if ty == "point"@ || ty == "point-normal"@ {
            point_from(m, ty, to_world, sampling_weight)
        } else if ty == "spot"@ {
            spot_from(m, to_world, sampling_weight)
        } else if ty == "directional"@ {
            match required_vector(m, "direction"@, ty) {
                Err(e) => Err(e),
                Ok(direction) => match spectrum_prop(m, "irradiance"@, "1"@) {
                    Err(e) => Err(e),
                    Ok(irradiance) => Ok(
                        EmitterView::Directional { to_world, direction, irradiance, sampling_weight },
                    ),
                },
            }
        } else if ty == "collimated"@ {
            match required_spectrum(m, "power"@, ty) {
                Err(e) => Err(e),
                Ok(power) => Ok(EmitterView::Collimated { to_world, power, sampling_weight }),
            }
        } else if ty == "constant"@ {
            match required_spectrum(m, "radiance"@, ty) {
                Err(e) => Err(e),
                Ok(radiance) => Ok(EmitterView::Constant { radiance, sampling_weight }),
            }
        } else if ty == "envmap"@ {
            envmap_from(m, ty, to_world, sampling_weight)
        } else if ty == "sunsky"@ || ty == "sun"@ || ty == "sky"@ {
            sunsky_from(m, ty, sampling_weight)
        } else {
            Err(ErrorView::UnknownVariant("emitter"@, ty))
        },
    }
}

/// The body of an `emitter` element from `pos` on: its properties, the
/// transform of its last `transform` child, and the position after its end.
pub open spec fn emitter_walk(
    ev: Seq<EventView>,
    pos: int,
    opened: bool,
    defaults: Seq<(Seq<char>, Seq<char>)>,
    props: PropsView,
    to_world: Seq<TransformOpView>,
) -> Result<(PropsView, Seq<TransformOpView>, int), ErrorView>
    decreases ev.len() - pos,
{
    if pos < 0 || pos >= ev.len() {
        Err(end_of_document())
    } else {
        match leaf_step(ev[pos], opened, defaults, props) {
            Outcome::Fail(e) => Err(e),
            Outcome::Finished => Ok((props, to_world, pos + 1)),
            Outcome::Next { opened: o, props: p } => emitter_walk(
                ev,
                pos + 1,
                o,
                defaults,
                p,
                to_world,
            ),
            Outcome::Child => if ev[pos]->Start_name == "transform"@ {
                match transform_of(ev, pos + 1, defaults) {
                    Err(e) => Err(e),
                    Ok((t, end)) => emitter_walk(
                        ev,
                        resume(pos, end, ev.len()),
                        opened,
                        defaults,
                        props,
                        t,
                    ),
                }
            } else {
                Err(unknown_element(ev[pos]->Start_name))
            },
        }
    }
}

/// The emitter of kind `ty` whose element's body begins at `pos`, and the
/// position after the element's end.
pub open spec fn emitter_of(
    ev: Seq<EventView>,
    pos: int,
    defaults: Seq<(Seq<char>, Seq<char>)>,
    ty: Seq<char>,
) -> Result<(EmitterView, int), ErrorView> {
    match emitter_walk(ev, pos, false, defaults, no_props(), identity()) {
        Err(e) => Err(e),
        Ok((props, to_world, end)) => match no_refs(props.refs) {
            Err(e) => Err(e),
            Ok(_) => match emitter_from(props.map, to_world, ty) {
                Err(e) => Err(e),
                Ok(t) => Ok((t, end)),
            },
        },
    }
}

/// The reading of an emitter ends behind where it began, and within the document.
pub proof fn lemma_emitter_walk_ends(
    ev: Seq<EventView>,
    pos: int,
    opened: bool,
    defaults: Seq<(Seq<char>, Seq<char>)>,
    props: PropsView,
    to_world: Seq<TransformOpView>,
)
    requires
        0 <= pos,
    ensures
        emitter_walk(ev, pos, opened, defaults, props, to_world) matches Ok((_, _, end)) ==> pos
            < end <= ev.len(),
    decreases ev.len() - pos,
{
    if pos < ev.len() {
        match leaf_step(ev[pos], opened, defaults, props) {
            Outcome::Next { opened: o, props: p } => {
                lemma_emitter_walk_ends(ev, pos + 1, o, defaults, p, to_world);
            },
            Outcome::Child => {
                if ev[pos]->Start_name == "transform"@ {
                    match transform_of(ev, pos + 1, defaults) {
                        Ok((t, end)) => {
                            lemma_emitter_walk_ends(
                                ev,
                                resume(pos, end, ev.len()),
                                opened,
                                defaults,
                                props,
                                t,
                            );
                        },
                        Err(_) => {},
                    }
                }
            },
            _ => {},
        }
    }
}

fn read_time_and_place(m: &Dict<Value>, year: i32, month: i32, day: i32) -> (r: Result<
    SunDirection,
    Error,
>)
    ensures
        match time_and_place(m@, year, month, day) {
            Ok(t) => r matches Ok(x) && x@ == t,
            Err(e) => r matches Err(x) && x@ == e,
        },
{
    let hour = read_number(m, "hour", "15")?;
    let minute = read_number(m, "minute", "0")?;
    let second = read_number(m, "second", "0")?;
    let latitude = read_number(m, "latitude", "35.6894")?;
    let longitude = read_number(m, "longitude", "139.6917")?;
    let timezone = read_number(m, "timezone", "9")?;
    Ok(
        SunDirection::DateAndPos {
            year,
            month,
            day,
            hour,
            minute,
            second,
            latitude,
            longitude,
            timezone,
        },
    )
}

impl SunDirection {
    /// Where the sun stands by the properties `map`.
    pub fn parse(map: &Dict<Value>, _defaults: &Dict<String>) -> (r: Result<SunDirection, Error>)
        ensures
            match sun_direction_from(map@) {
                Ok(t) => r matches Ok(x) && x@ == t,
                Err(e) => r matches Err(x) && x@ == e,
            },
    {
        match map.get("sunDirection") {
            Some(v) => {
                let d = v.clone().as_vec()?;
                Ok(SunDirection::Vector(d))
            },
            None => {
                let year = read_int(map, "year", 2010)?;
                let month = read_int(map, "month", 10)?;
                let day = read_int(map, "day", 10)?;
                read_time_and_place(map, year, month, day)
            },
        }
    }
}

fn read_sun(m: &Dict<Value>, scale_key: &str) -> (r: Result<SunEmitterParam, Error>)
    ensures
        match sun_from(m@, scale_key@) {
            Ok(t) => r matches Ok(x) && x@ == t,
            Err(e) => r matches Err(x) && x@ == e,
        },
{
    let scale = read_number(m, scale_key, "1")?;
    let radius_scale = read_number(m, "sunRadiusScale", "1")?;
    Ok(SunEmitterParam { scale, radius_scale })
}

fn read_sky(m: &Dict<Value>, scale_key: &str) -> (r: Result<SkyEmitterParam, Error>)
    ensures
        match sky_from(m@, scale_key@) {
            Ok(t) => r matches Ok(x) && x@ == t,
            Err(e) => r matches Err(x) && x@ == e,
        },
{
    let scale = read_number(m, scale_key, "1")?;
    let stretch = read_number(m, "stretch", "1")?;
    let albedo = read_spectrum(m, "albedo", "0.15")?;
    Ok(SkyEmitterParam { scale, stretch, albedo })
}

fn read_sun_and_sky(m: &Dict<Value>, ty: &str) -> (r: Result<
    (Option<SunEmitterParam>, Option<SkyEmitterParam>),
    Error,
>)
    ensures
        match sun_and_sky(m@, ty@) {
            Ok(t) => r matches Ok(x) && option_view(x.0) == t.0 && option_view(x.1) == t.1,
            Err(e) => r matches Err(x) && x@ == e,
        },
{
    if str_eq(ty, "sun") {
        let sun = read_sun(m, "scale")?;
        Ok((Some(sun), None))
    } else if str_eq(ty, "sky") {
        let sky = read_sky(m, "scale")?;
        Ok((None, Some(sky)))
    } else {
        let sky = read_sky(m, "skyScale")?;
        let sun = read_sun(m, "sunScale")?;
        Ok((Some(sun), Some(sky)))
    }
}

fn read_sunsky(m: &Dict<Value>, ty: &str, sampling_weight: Number) -> (r: Result<Emitter, Error>)
    ensures
        match sunsky_from(m@, ty@, sampling_weight@) {
            Ok(t) => r matches Ok(x) && x@ == t,
            Err(e) => r matches Err(x) && x@ == e,
        },
{
    let turbidity = read_number(m, "turbidity", "3")?;
    let resolution = read_int(m, "resolution", 512)?;
    let defaults: Dict<String> = Dict::new();
    let sun_direction = SunDirection::parse(m, &defaults)?;
    let (sun, sky) = read_sun_and_sky(m, ty)?;
    Ok(
        Emitter::SunSky {
            turbidity,
            resolution: to_u32(resolution),
            sampling_weight,
            sun_direction,
            sun,
            sky,
        },
    )
}

fn read_point(m: &Dict<Value>, ty: &str, to_world: Transform, sampling_weight: Number) -> (r:
    Result<Emitter, Error>)
    ensures
        match point_from(m@, ty@, to_world@, sampling_weight@) {
            Ok(t) => r matches Ok(x) && x@ == t,
            Err(e) => r matches Err(x) && x@ == e,
        },
{
    let position = read_required_point(m, "position", ty)?;
    if str_eq(ty, "point") {
        let intensity = read_spectrum(m, "intensity", "1")?;
        Ok(Emitter::Point { to_world, position, intensity, sampling_weight })
    } else {
        let normal = read_required_vector(m, "normal", ty)?;
        let intensity = read_spectrum(m, "intensity", "1")?;
        Ok(Emitter::PointNormal { to_world, position, normal, intensity, sampling_weight })
    }
}

fn read_spot(m: &Dict<Value>, to_world: Transform, sampling_weight: Number) -> (r: Result<
    Emitter,
    Error,
>)
    ensures
        match spot_from(m@, to_world@, sampling_weight@) {
            Ok(t) => r matches Ok(x) && x@ == t,
            Err(e) => r matches Err(x) && x@ == e,
        },
{
    let intensity = read_spectrum(m, "intensity", "1")?;
    let cutoff_angle = read_number(m, "cutoffAngle", "20")?;
    let beam_width = read_optional_number(m, "beamWidth")?;
    Ok(
        Emitter::Spot {
            to_world,
            intensity,
            cutoff_angle,
            beam_width,
            texture: None,
            sampling_weight,
        },
    )
}

fn read_envmap(m: &Dict<Value>, ty: &str, to_world: Transform, sampling_weight: Number) -> (r:
    Result<Emitter, Error>)
    ensures
        match envmap_from(m@, ty@, to_world@, sampling_weight@) {
            Ok(t) => r matches Ok(x) && x@ == t,
            Err(e) => r matches Err(x) && x@ == e,
        },
{
    let filename = read_required_string(m, "filename", ty)?;
    let scale = read_number(m, "scale", "1")?;
    let gamma = read_optional_number(m, "gamma")?;
    let cache = read_optional_bool(m, "cache")?;
    Ok(Emitter::EnvMap { to_world, filename, scale, gamma, cache, sampling_weight })
}

impl Emitter {
    /// The emitter of kind `emitter_type` with the properties `m` and the
    /// transform `to_world`.
    pub fn from_props(m: &Dict<Value>, to_world: Transform, emitter_type: &str) -> (r: Result<
        Emitter,
        Error,
    >)
        ensures
            match emitter_from(m@, to_world@, emitter_type@) {
                Ok(t) => r matches Ok(x) && x@ == t,
                Err(e) => r matches Err(x) && x@ == e,
            },
    {
        let ty = emitter_type;
        let sampling_weight = read_number(m, "samplingWeight", "1")?;
        if str_eq(ty, "area") {
            let radiance = read_required_spectrum(m, "radiance", ty)?;
            Ok(Emitter::Area(AreaEmitter { radiance, sampling_weight }))
        } else if str_eq(ty, "point") || str_eq(ty, "point-normal") {
            read_point(m, ty, to_world, sampling_weight)
        } else if str_eq(ty, "spot") {
            read_spot(m, to_world, sampling_weight)
        } else if str_eq(ty, "directional") {
            let direction = read_required_vector(m, "direction", ty)?;
            let irradiance = read_spectrum(m, "irradiance", "1")?;
            Ok(Emitter::Directional { to_world, direction, irradiance, sampling_weight })
        } else if str_eq(ty, "collimated") {
            let power = read_required_spectrum(m, "power", ty)?;
            Ok(Emitter::Collimated { to_world, power, sampling_weight })
        } else if str_eq(ty, "constant") {
            let radiance = read_required_spectrum(m, "radiance", ty)?;
            Ok(Emitter::Constant { radiance, sampling_weight })
        } else if str_eq(ty, "envmap") {
            read_envmap(m, ty, to_world, sampling_weight)
        } else if str_eq(ty, "sunsky") || str_eq(ty, "sun") || str_eq(ty, "sky") {
            read_sunsky(m, ty, sampling_weight)
        } else {
            Err(Error::UnknownVariant("emitter".to_owned(), ty.to_owned()))
        }
    }

    /// Reads the body of an `emitter` element of kind `emitter_type`, from
    /// `pos` on to the element's end.
    pub fn parse(
        events: &Vec<Event>,
        pos: &mut usize,
        defaults: &Dict<String>,
        emitter_type: &str,
    ) -> (r: Result<Emitter, Error>)
        ensures
            match emitter_of(events_view(events@), *old(pos) as int, defaults@, emitter_type@) {
                Ok((t, end)) => r matches Ok(x) && x@ == t && *final(pos) == end && *old(pos)
                    < end <= events.len(),
                Err(e) => r matches Err(x) && x@ == e,
            },
    {
        if *pos > events.len() {
            return Err(end_of_document_error());
        }
        let ghost ev = events_view(events@);
        let start: usize = *pos;
        let mut props = Props::new();
        let mut to_world = Transform::identity();
        let mut opened = false;
        let mut p: usize = start;
        while p < events.len()
            invariant
                start == *old(pos),
                start <= p <= events.len(),
                ev == events_view(events@),
                emitter_walk(ev, start as int, false, defaults@, no_props(), identity())
                    == emitter_walk(ev, p as int, opened, defaults@, props@, to_world@),
            decreases events.len() - p,
        {
            let event = &events[p];
            match take_event(event, &mut opened, defaults, &mut props)? {
                Step::Continue => {
                    p += 1;
                },
                Step::Finished => {
                    *pos = p + 1;
                    check_no_refs(&props.refs)?;
                    return Emitter::from_props(&props.map, to_world, emitter_type);
                },
                Step::Child => {
                    match event {
                        Event::Start { name, .. } => {
                            if str_eq(name.as_str(), "transform") {
                                let mut q: usize = p + 1;
                                to_world = Transform::parse(events, &mut q, defaults)?;
                                p = q;
                            } else {
                                return Err(unknown_element_error(name.as_str()));
                            }
                        },
                        _ => {
                            return Err(unexpected_content_error());
                        },
                    }
                },
            }
        }
        Err(end_of_document_error())
    }

    /// The light of a surface, if the emitter is one.
    pub fn as_area(self) -> (r: Option<AreaEmitter>)
        ensures
            match self@ {
                EmitterView::Area(a) => r matches Some(x) && x@ == a,
                _ => r is None,
            },
    {
        match self {
            Emitter::Area(v) => Some(v),
            _ => None,
        }
    }
}

} // verus!
