//! Participating media and their phase functions.
use crate::dict::Dict;
use crate::events::{
    end_of_document, end_of_document_error, events_view,
    found_attrib_or_error, required_attribute, unexpected_content_error, Event, EventView,
};
use crate::number::Number;
use crate::props::{
    lemma_values_walk_ends, check_no_refs, leaf_step, no_props, no_refs, number_prop, read_number, read_spectrum,
    resume, spectrum_prop, take_event, unknown_element, unknown_element_error, values,
    values_walk, Outcome, Props, PropsView, Step,
};
use crate::text::str_eq;
use crate::value::{Error, ErrorView, Spectrum, Value, ValueView};
use vstd::prelude::*;

verus! {

/// How a medium scatters light by direction.
#[derive(Debug, PartialEq)]
pub enum PhaseFunction {
    /// Alike in all directions.
    Isotropic,
    /// After Henyey and Greenstein, with the mean cosine `g`.
    HG { g: Number },
}

/// A [`PhaseFunction`] as contracts see it: every text is the sequence of its
/// characters, and every list the sequence of its items.
pub enum PhaseFunctionView {
    Isotropic,
    HG { g: Seq<char> },
}

impl View for PhaseFunction {
    type V = PhaseFunctionView;

    open spec fn view(&self) -> PhaseFunctionView {
        match self {
            PhaseFunction::Isotropic => PhaseFunctionView::Isotropic,
            PhaseFunction::HG { g } => PhaseFunctionView::HG { g: g@ },
        }
    }
}

impl Clone for PhaseFunction {
    fn clone(&self) -> (r: Self)
        ensures
            r@ == self@,
    {
        match self {
            PhaseFunction::Isotropic => PhaseFunction::Isotropic,
            PhaseFunction::HG { g } => PhaseFunction::HG { g: g.clone() },
        }
    }
}

/// A participating medium.
#[derive(Debug, PartialEq)]
pub enum Medium {
    /// The same everywhere: absorption, scattering, a scale of both, and a
    /// phase function.
    Homogenous { sigma_a: Spectrum, sigma_s: Spectrum, scale: Number, phase: PhaseFunction },
}

/// A [`Medium`] as contracts see it: every text is the sequence of its
/// characters, and every list the sequence of its items.
pub enum MediumView {
    Homogenous {
        sigma_a: Seq<char>,
        sigma_s: Seq<char>,
        scale: Seq<char>,
        phase: PhaseFunctionView,
    },
}

impl View for Medium {
    type V = MediumView;

    open spec fn view(&self) -> MediumView {
        match self {
            Medium::Homogenous { sigma_a, sigma_s, scale, phase } => MediumView::Homogenous {
                sigma_a: sigma_a@,
                sigma_s: sigma_s@,
                scale: scale@,
                phase: phase@,
            },
        }
    }
}

impl Clone for Medium {
    fn clone(&self) -> (r: Self)
        ensures
            r@ == self@,
    {
        match self {
            Medium::Homogenous { sigma_a, sigma_s, scale, phase } => Medium::Homogenous {
                sigma_a: sigma_a.clone(),
                sigma_s: sigma_s.clone(),
                scale: scale.clone(),
                phase: phase.clone(),
            },
        }
    }
}

/// The phase function of kind `ty` that the properties `m` describe.
pub open spec fn phase_from(m: Seq<(Seq<char>, ValueView)>, ty: Seq<char>) -> Result<
    PhaseFunctionView,
    ErrorView,
> {
    if ty == "isotropic"@ {
        Ok(PhaseFunctionView::Isotropic)
    } else if ty == "hg"@ {
        match number_prop(m, "g"@, "0.8"@) {
            Err(e) => Err(e),
            Ok(g) => Ok(PhaseFunctionView::HG { g }),
        }
    } else {
        Err(ErrorView::UnknownVariant("phase"@, ty))
    }
}

/// The phase function of kind `ty` whose element's body begins at `pos`,
/// and the position after the element's end.
pub open spec fn phase_of(
    ev: Seq<EventView>,
    pos: int,
    defaults: Seq<(Seq<char>, Seq<char>)>,
    ty: Seq<char>,
) -> Result<(PhaseFunctionView, int), ErrorView> {
    match values_walk(ev, pos, false, defaults, true, no_props()) {
        Err(e) => Err(e),
        Ok((props, end)) => match no_refs(props.refs) {
            Err(e) => Err(e),
            Ok(_) => match phase_from(props.map, ty) {
                Err(e) => Err(e),
                Ok(t) => Ok((t, end)),
            },
        },
    }
}

/// The body of a `medium` element from `pos` on: its properties, the phase
/// function of its last `phase` child, and the position after its end.
pub open spec fn medium_walk(
    ev: Seq<EventView>,
    pos: int,
    opened: bool,
    defaults: Seq<(Seq<char>, Seq<char>)>,
    props: PropsView,
    phase: Option<PhaseFunctionView>,
) -> Result<(PropsView, Option<PhaseFunctionView>, int), ErrorView>
    decreases ev.len() - pos,
{
    if pos < 0 || pos >= ev.len() {
        Err(end_of_document())
    } else {
        match leaf_step(ev[pos], opened, defaults, props) {
            Outcome::Fail(e) => Err(e),
            Outcome::Finished => Ok((props, phase, pos + 1)),
            Outcome::Next { opened: o, props: p } => medium_walk(
                ev,
                pos + 1,
                o,
                defaults,
                p,
                phase,
            ),
            Outcome::Child => if ev[pos]->Start_name == "phase"@ {
                match required_attribute(ev[pos]->Start_attributes, "type"@, "phase"@, defaults) {
                    Err(e) => Err(e),
                    Ok(ty) => match phase_of(ev, pos + 1, defaults, ty) {
                        Err(e) => Err(e),
                        Ok((ph, end)) => medium_walk(
                            ev,
                            resume(pos, end, ev.len()),
                            opened,
                            defaults,
                            props,
                            Some(ph),
                        ),
                    },
                }
            } else {
                Err(unknown_element(ev[pos]->Start_name))
            },
        }
    }
}

/// The medium of kind `ty` with the properties `m` and the phase function `phase`.
pub open spec fn medium_from(
    m: Seq<(Seq<char>, ValueView)>,
    phase: Option<PhaseFunctionView>,
    ty: Seq<char>,
) -> Result<MediumView, ErrorView> {
    if ty == "homogeneous"@ {
        match spectrum_prop(m, "sigmaA"@, "1"@) {
            Err(e) => Err(e),
            Ok(sigma_a) => match spectrum_prop(m, "sigmaS"@, "1"@) {
                Err(e) => Err(e),
                Ok(sigma_s) => match number_prop(m, "scale"@, "1"@) {
                    Err(e) => Err(e),
                    Ok(scale) => Ok(
                        MediumView::Homogenous {
                            sigma_a,
                            sigma_s,
                            scale,
                            phase: match phase {
                                Some(p) => p,
                                None => PhaseFunctionView::Isotropic,
                            },
                        },
                    ),
                },
            },
        }
    } else {
        Err(ErrorView::UnknownVariant("medium"@, ty))
    }
}

/// The medium of kind `ty` whose element's body begins at `pos`, and the
/// position after the element's end.
pub open spec fn medium_of(
    ev: Seq<EventView>,
    pos: int,
    defaults: Seq<(Seq<char>, Seq<char>)>,
    ty: Seq<char>,
) -> Result<(MediumView, int), ErrorView> {
    match medium_walk(ev, pos, false, defaults, no_props(), None) {
        Err(e) => Err(e),
        Ok((props, phase, end)) => match no_refs(props.refs) {
            Err(e) => Err(e),
            Ok(_) => match medium_from(props.map, phase, ty) {
                Err(e) => Err(e),
                Ok(t) => Ok((t, end)),
            },
        },
    }
}

/// The reading of a phase function ends behind where it began, and within
/// the document.
pub proof fn lemma_phase_ends(
    ev: Seq<EventView>,
    pos: int,
    defaults: Seq<(Seq<char>, Seq<char>)>,
    ty: Seq<char>,
)
    requires
        0 <= pos,
    ensures
        phase_of(ev, pos, defaults, ty) matches Ok((_, end)) ==> pos < end <= ev.len(),
{
    lemma_values_walk_ends(ev, pos, false, defaults, true, no_props());
}

/// The reading of a medium ends behind where it began, and within the document.
pub proof fn lemma_medium_walk_ends(
    ev: Seq<EventView>,
    pos: int,
    opened: bool,
    defaults: Seq<(Seq<char>, Seq<char>)>,
    props: PropsView,
    phase: Option<PhaseFunctionView>,
)
    requires
        0 <= pos,
    ensures
        medium_walk(ev, pos, opened, defaults, props, phase) matches Ok((_, _, end)) ==> pos
            < end <= ev.len(),
    decreases ev.len() - pos,
{
    if pos < ev.len() {
        match leaf_step(ev[pos], opened, defaults, props) {
            Outcome::Next { opened: o, props: p } => {
                lemma_medium_walk_ends(ev, pos + 1, o, defaults, p, phase);
            },
            Outcome::Child => {
                if ev[pos]->Start_name == "phase"@ {
                    match required_attribute(
                        ev[pos]->Start_attributes,
                        "type"@,
                        "phase"@,
                        defaults,
                    ) {
                        Ok(ty) => match phase_of(ev, pos + 1, defaults, ty) {
                            Ok((ph, end)) => {
                                lemma_medium_walk_ends(
                                    ev,
                                    resume(pos, end, ev.len()),
                                    opened,
                                    defaults,
                                    props,
                                    Some(ph),
                                );
                            },
                            Err(_) => {},
                        },
                        Err(_) => {},
                    }
                }
            },
            _ => {},
        }
    }
}

impl PhaseFunction {
    /// The phase function of kind `phase_type` that the properties `m` describe.
    pub fn from_props(m: &Dict<Value>, phase_type: &str) -> (r: Result<PhaseFunction, Error>)
        ensures
            match phase_from(m@, phase_type@) {
                Ok(t) => r matches Ok(x) && x@ == t,
                Err(e) => r matches Err(x) && x@ == e,
            },
    {
        if str_eq(phase_type, "isotropic") {
            Ok(PhaseFunction::Isotropic)
        } else if str_eq(phase_type, "hg") {
            let g = read_number(m, "g", "0.8")?;
            Ok(PhaseFunction::HG { g })
        } else {
            Err(Error::UnknownVariant("phase".to_owned(), phase_type.to_owned()))
        }
    }

    /// Reads the body of a `phase` element of kind `phase_type`, from `pos`
    /// on to the element's end.
    pub fn parse(
        events: &Vec<Event>,
        pos: &mut usize,
        defaults: &Dict<String>,
        phase_type: &str,
    ) -> (r: Result<PhaseFunction, Error>)
        ensures
            match phase_of(events_view(events@), *old(pos) as int, defaults@, phase_type@) {
                Ok((t, end)) => r matches Ok(x) && x@ == t && *final(pos) == end && *old(pos)
                    < end <= events.len(),
                Err(e) => r matches Err(x) && x@ == e,
            },
    {
        let props = values(events, pos, defaults, true)?;
        check_no_refs(&props.refs)?;
        PhaseFunction::from_props(&props.map, phase_type)
    }
}

impl Medium {
    /// The medium of kind `medium_type` with the properties `m` and the
    /// phase function `phase`.
    pub fn from_props(m: &Dict<Value>, phase: Option<PhaseFunction>, medium_type: &str) -> (r:
        Result<Medium, Error>)
        ensures
            match medium_from(
                m@,
                match phase {
                    Some(p) => Some(p@),
                    None => None,
                },
                medium_type@,
            ) {
                Ok(t) => r matches Ok(x) && x@ == t,
                Err(e) => r matches Err(x) && x@ == e,
            },
    {
        if str_eq(medium_type, "homogeneous") {
            let sigma_a = read_spectrum(m, "sigmaA", "1")?;
            let sigma_s = read_spectrum(m, "sigmaS", "1")?;
            let scale = read_number(m, "scale", "1")?;
            let phase = match phase {
                Some(p) => p,
                None => PhaseFunction::Isotropic,
            };
            Ok(Medium::Homogenous { sigma_a, sigma_s, scale, phase })
        } else {
            Err(Error::UnknownVariant("medium".to_owned(), medium_type.to_owned()))
        }
    }

    /// Reads the body of a `medium` element of kind `medium_type`, from
    /// `pos` on to the element's end.
    pub fn parse(
        events: &Vec<Event>,
        pos: &mut usize,
        defaults: &Dict<String>,
        medium_type: &str,
    ) -> (r: Result<Medium, Error>)
        ensures
            match medium_of(events_view(events@), *old(pos) as int, defaults@, medium_type@) {
                Ok((t, end)) => r matches Ok(x) && x@ == t && *final(pos) == end && *old(pos)
                    < end <= events.len(),
                Err(e) => r matches Err(x) && x@ == e,
            },
    {
        if *pos > events.len() {
            return Err(end_of_document_error());
        }
        let ghost ev = events_view(events@);
        let start: usize = *pos;
        let mut props = Props::new();
        let mut phase: Option<PhaseFunction> = None;
        let mut opened = false;
        let mut p: usize = start;
        while p < events.len()
            invariant
                start == *old(pos),
                start <= p <= events.len(),
                ev == events_view(events@),
                medium_walk(ev, start as int, false, defaults@, no_props(), None) == medium_walk(
                    ev,
                    p as int,
                    opened,
                    defaults@,
                    props@,
                    match phase {
                        Some(x) => Some(x@),
                        None => None,
                    },
                ),
            decreases events.len() - p,
        {
            let event = &events[p];
            match take_event(event, &mut opened, defaults, &mut props)? {
                Step::Continue => {
                    p += 1;
                },
                Step::Finished => {
                    *pos = p + 1;
                    check_no_refs(&props.refs)?;
                    return Medium::from_props(&props.map, phase, medium_type);
                },
                Step::Child => {
                    match event {
                        Event::Start { name, attributes } => {
                            if str_eq(name.as_str(), "phase") {
                                let ty = found_attrib_or_error(
                                    attributes,
                                    "type",
                                    "phase",
                                    defaults,
                                )?;
                                let mut q: usize = p + 1;
                                let ph = PhaseFunction::parse(events, &mut q, defaults, ty.as_str())?;
                                phase = Some(ph);
                                p = q;
                            } else {
                                return Err(unknown_element_error(name.as_str()));
                            }
                        },
                        _ => {
                            return Err(unexpected_content_error());
                        },
                    }
                },
            }
        }
        Err(end_of_document_error())
    }
}

} // verus!
