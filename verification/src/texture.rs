//! Textures, and parameters of materials that are a constant or a texture.
use crate::dict::Dict;
use crate::events::{events_view, Event, EventView};
use crate::number::Number;
use crate::props::{
    check_no_refs, no_props, no_refs, number_prop, read_number, read_required_string,
    lemma_values_walk_ends, read_spectrum, read_string, required_string, spectrum_prop,
    string_prop, values, values_walk,
};
use crate::text::str_eq;
use crate::value::{Error, ErrorView, Spectrum, ValueView, Vector2};
use vstd::prelude::*;

verus! {

/// What a scaled texture is scaled by.
#[derive(Debug, PartialEq)]
pub enum TextureScale {
    Texture(Box<Texture>),
    Spectrum(Spectrum),
    Float(Number),
}

/// A texture.
#[derive(Debug, PartialEq)]
pub enum Texture {
    /// An image file.
    Bitmap { filename: String, filter_type: String, gamma: Number, offset: Vector2, scale: Vector2 },
    /// Squares of two colours in turn.
    Checkerboard { color0: Spectrum, color1: Spectrum, offset: Vector2, scale: Vector2 },
    /// Lines of one colour on a ground of another.
    GridTexture {
        color0: Spectrum,
        color1: Spectrum,
        line_width: Number,
        offset: Vector2,
        scale: Vector2,
    },
    /// Another texture, scaled.
    Scale { texture: Box<Texture>, value: TextureScale },
}

/// A [`TextureScale`] as contracts see it: every text is the sequence of its
/// characters, and every list the sequence of its items.
pub enum TextureScaleView {
    Texture(Box<TextureView>),
    Spectrum(Seq<char>),
    Float(Seq<char>),
}

/// A [`Texture`] as contracts see it: every text is the sequence of its
/// characters, and every list the sequence of its items.
pub enum TextureView {
    Bitmap {
        filename: Seq<char>,
        filter_type: Seq<char>,
        gamma: Seq<char>,
        offset: (Seq<char>, Seq<char>),
        scale: (Seq<char>, Seq<char>),
    },
    Checkerboard {
        color0: Seq<char>,
        color1: Seq<char>,
        offset: (Seq<char>, Seq<char>),
        scale: (Seq<char>, Seq<char>),
    },
    GridTexture {
        color0: Seq<char>,
        color1: Seq<char>,
        line_width: Seq<char>,
        offset: (Seq<char>, Seq<char>),
        scale: (Seq<char>, Seq<char>),
    },
    Scale { texture: Box<TextureView>, value: TextureScaleView },
}

/// What a texture is scaled by, as contracts see it.
pub open spec fn texture_scale_view(s: TextureScale) -> TextureScaleView
    decreases s,
{
    match s {
        TextureScale::Texture(t) => TextureScaleView::Texture(Box::new(texture_view(*t))),
        TextureScale::Spectrum(s) => TextureScaleView::Spectrum(s@),
        TextureScale::Float(n) => TextureScaleView::Float(n@),
    }
}

/// A texture as contracts see it.
pub open spec fn texture_view(t: Texture) -> TextureView
    decreases t,
{
    match t {
        Texture::Bitmap { filename, filter_type, gamma, offset, scale } => TextureView::Bitmap {
            filename: filename@,
            filter_type: filter_type@,
            gamma: gamma@,
            offset: offset@,
            scale: scale@,
        },
        Texture::Checkerboard { color0, color1, offset, scale } => TextureView::Checkerboard {
            color0: color0@,
            color1: color1@,
            offset: offset@,
            scale: scale@,
        },
        Texture::GridTexture {
            color0,
            color1,
            line_width,
            offset,
            scale,
        } => TextureView::GridTexture {
            color0: color0@,
            color1: color1@,
            line_width: line_width@,
            offset: offset@,
            scale: scale@,
        },
        Texture::Scale { texture, value } => TextureView::Scale {
            texture: Box::new(texture_view(*texture)),
            value: texture_scale_view(value),
        },
    }
}

impl View for TextureScale {
    type V = TextureScaleView;

    open spec fn view(&self) -> TextureScaleView {
        texture_scale_view(*self)
    }
}

impl View for Texture {
    type V = TextureView;

    open spec fn view(&self) -> TextureView {
        texture_view(*self)
    }
}

fn copy_scale(s: &TextureScale) -> (r: TextureScale)
    ensures
        r@ == s@,
    decreases s,
{
    match s {
        TextureScale::Texture(t) => TextureScale::Texture(Box::new(copy_texture(&**t))),
        TextureScale::Spectrum(s) => TextureScale::Spectrum(s.clone()),
        TextureScale::Float(n) => TextureScale::Float(n.clone()),
    }
}

fn copy_texture(t: &Texture) -> (r: Texture)
    ensures
        r@ == t@,
    decreases t,
{
    match t {
        Texture::Bitmap { filename, filter_type, gamma, offset, scale } => Texture::Bitmap {
            filename: filename.clone(),
            filter_type: filter_type.clone(),
            gamma: gamma.clone(),
            offset: offset.clone(),
            scale: scale.clone(),
        },
        Texture::Checkerboard { color0, color1, offset, scale } => Texture::Checkerboard {
            color0: color0.clone(),
            color1: color1.clone(),
            offset: offset.clone(),
            scale: scale.clone(),
        },
        Texture::GridTexture { color0, color1, line_width, offset, scale } => Texture::GridTexture {
            color0: color0.clone(),
            color1: color1.clone(),
            line_width: line_width.clone(),
            offset: offset.clone(),
            scale: scale.clone(),
        },
        Texture::Scale { texture, value } => Texture::Scale {
            texture: Box::new(copy_texture(&**texture)),
            value: copy_scale(value),
        },
    }
}

impl Clone for TextureScale {
    fn clone(&self) -> (r: Self)
        ensures
            r@ == self@,
    {
        copy_scale(self)
    }
}

impl Clone for Texture {
    fn clone(&self) -> (r: Self)
        ensures
            r@ == self@,
    {
        copy_texture(self)
    }
}

fn same_pair(a: &Vector2, b: &Vector2) -> (r: bool)
    ensures
        r == (a@ == b@),
{
    a.x.same(&b.x) && a.y.same(&b.y)
}

fn same_scale(a: &TextureScale, b: &TextureScale) -> (r: bool)
    ensures
        r == (a@ == b@),
    decreases a,
{
    match (a, b) {
        (TextureScale::Texture(x), TextureScale::Texture(y)) => same_texture(&**x, &**y),
        (TextureScale::Spectrum(x), TextureScale::Spectrum(y)) => x.same(y),
        (TextureScale::Float(x), TextureScale::Float(y)) => x.same(y),
        _ => false,
    }
}

fn same_texture(a: &Texture, b: &Texture) -> (r: bool)
    ensures
        r == (a@ == b@),
    decreases a,
{
    match (a, b) {
        (
            Texture::Bitmap { filename, filter_type, gamma, offset, scale },
            Texture::Bitmap {
                filename: filename2,
                filter_type: filter_type2,
                gamma: gamma2,
                offset: offset2,
                scale: scale2,
            },
        ) => str_eq(filename.as_str(), filename2.as_str()) && str_eq(
            filter_type.as_str(),
            filter_type2.as_str(),
        ) && gamma.same(gamma2) && same_pair(offset, offset2) && same_pair(scale, scale2),
        (
            Texture::Checkerboard { color0, color1, offset, scale },
            Texture::Checkerboard {
                color0: color02,
                color1: color12,
                offset: offset2,
                scale: scale2,
            },
        ) => color0.same(color02) && color1.same(color12) && same_pair(offset, offset2)
            && same_pair(scale, scale2),
        (
            Texture::GridTexture { color0, color1, line_width, offset, scale },
            Texture::GridTexture {
                color0: color02,
                color1: color12,
                line_width: line_width2,
                offset: offset2,
                scale: scale2,
            },
        ) => color0.same(color02) && color1.same(color12) && line_width.same(line_width2)
            && same_pair(offset, offset2) && same_pair(scale, scale2),
        (
            Texture::Scale { texture, value },
            Texture::Scale { texture: texture2, value: value2 },
        ) => same_texture(&**texture, &**texture2) && same_scale(value, value2),
        _ => false,
    }
}

/// A parameter of a material: a constant, or a texture that gives it at each point.
#[derive(Debug, PartialEq)]
pub enum BSDFColor<T> {
    Texture(Texture),
    Constant(T),
}

/// A [`BSDFColor`] as contracts see it: every text is the sequence of its
/// characters, and every list the sequence of its items.
pub enum BSDFColorView<T> {
    Texture(TextureView),
    Constant(T),
}

impl<T: View> View for BSDFColor<T> {
    type V = BSDFColorView<T::V>;

    open spec fn view(&self) -> BSDFColorView<T::V> {
        match self {
            BSDFColor::Texture(t) => BSDFColorView::Texture(t@),
            BSDFColor::Constant(c) => BSDFColorView::Constant(c@),
        }
    }
}

/// A parameter that is a spectrum or a texture.
pub type BSDFColorSpectrum = BSDFColor<Spectrum>;

/// A parameter that is a number or a texture.
pub type BSDFColorFloat = BSDFColor<Number>;

impl Clone for BSDFColor<Spectrum> {
    fn clone(&self) -> (r: Self)
        ensures
            r@ == self@,
    {
        match self {
            BSDFColor::Texture(t) => BSDFColor::Texture(t.clone()),
            BSDFColor::Constant(c) => BSDFColor::Constant(c.clone()),
        }
    }
}

impl Clone for BSDFColor<Number> {
    fn clone(&self) -> (r: Self)
        ensures
            r@ == self@,
    {
        match self {
            BSDFColor::Texture(t) => BSDFColor::Texture(t.clone()),
            BSDFColor::Constant(c) => BSDFColor::Constant(c.clone()),
        }
    }
}

impl BSDFColor<Spectrum> {
    /// Whether both are the same texture or the same literal.
    pub fn same(&self, other: &Self) -> (r: bool)
        ensures
            r == (self@ == other@),
    {
        match (self, other) {
            (BSDFColor::Texture(a), BSDFColor::Texture(b)) => a.same(b),
            (BSDFColor::Constant(a), BSDFColor::Constant(b)) => a.same(b),
            _ => false,
        }
    }
}

impl BSDFColor<Number> {
    /// Whether both are the same texture or the same literal.
    pub fn same(&self, other: &Self) -> (r: bool)
        ensures
            r == (self@ == other@),
    {
        match (self, other) {
            (BSDFColor::Texture(a), BSDFColor::Texture(b)) => a.same(b),
            (BSDFColor::Constant(a), BSDFColor::Constant(b)) => a.same(b),
            _ => false,
        }
    }
}

/// The offset and the scale in texture coordinates that properties give.
pub open spec fn uv_frame(m: Seq<(Seq<char>, ValueView)>) -> Result<
    ((Seq<char>, Seq<char>), (Seq<char>, Seq<char>)),
    ErrorView,
> {
    match number_prop(m, "uoffset"@, "0"@) {
        Err(e) => Err(e),
        Ok(uoffset) => match number_prop(m, "voffset"@, "0"@) {
            Err(e) => Err(e),
            Ok(voffset) => match number_prop(m, "uscale"@, "1"@) {
                Err(e) => Err(e),
                Ok(uscale) => match number_prop(m, "vscale"@, "1"@) {
                    Err(e) => Err(e),
                    Ok(vscale) => Ok(((uoffset, voffset), (uscale, vscale))),
                },
            },
        },
    }
}

/// The two colours of a pattern.
pub open spec fn pattern_colours(m: Seq<(Seq<char>, ValueView)>) -> Result<
    (Seq<char>, Seq<char>),
    ErrorView,
> {
    match spectrum_prop(m, "color0"@, "0.4"@) {
        Err(e) => Err(e),
        Ok(color0) => match spectrum_prop(m, "color1"@, "0.2"@) {
            Err(e) => Err(e),
            Ok(color1) => Ok((color0, color1)),
        },
    }
}

/// The texture of kind `ty` that the properties `m` describe.
pub open spec fn texture_from(m: Seq<(Seq<char>, ValueView)>, ty: Seq<char>) -> Result<
    TextureView,
    ErrorView,
> {
    match uv_frame(m) {
        Err(e) => Err(e),
        Ok((offset, scale)) => if ty == "bitmap"@ {
            match required_string(m, "filename"@, ty) {
                Err(e) => Err(e),
                Ok(filename) => match string_prop(m, "filterType"@, "trilinear"@) {
                    Err(e) => Err(e),
                    Ok(filter_type) => match number_prop(m, "gamma"@, "1"@) {
                        Err(e) => Err(e),
                        Ok(gamma) => Ok(
                            TextureView::Bitmap { filename, filter_type, gamma, offset, scale },
                        ),
                    },
                },
            }
        } else if ty == "checkerboard"@ {
            match pattern_colours(m) {
                Err(e) => Err(e),
                Ok((color0, color1)) => Ok(
                    TextureView::Checkerboard { color0, color1, offset, scale },
                ),
            }
        } else if ty == "gridtexture"@ {
            match pattern_colours(m) {
                Err(e) => Err(e),
                Ok((color0, color1)) => match number_prop(m, "lineWidth"@, "0.01"@) {
                    Err(e) => Err(e),
                    Ok(line_width) => Ok(
                        TextureView::GridTexture { color0, color1, line_width, offset, scale },
                    ),
                },
            }
        } else {
            Err(ErrorView::UnknownVariant("texture"@, ty))
        },
    }
}

/// The texture of kind `ty` whose element's body begins at `pos`, and the
/// position after the element's end.
pub open spec fn texture_of(
    ev: Seq<EventView>,
    pos: int,
    defaults: Seq<(Seq<char>, Seq<char>)>,
    ty: Seq<char>,
) -> Result<(TextureView, int), ErrorView> {
    match values_walk(ev, pos, false, defaults, true, no_props()) {
        Err(e) => Err(e),
        Ok((props, end)) => match no_refs(props.refs) {
            Err(e) => Err(e),
            Ok(_) => match texture_from(props.map, ty) {
                Err(e) => Err(e),
                Ok(t) => Ok((t, end)),
            },
        },
    }
}

/// The reading of a texture ends behind where it began, and within the document.
pub proof fn lemma_texture_ends(
    ev: Seq<EventView>,
    pos: int,
    defaults: Seq<(Seq<char>, Seq<char>)>,
    ty: Seq<char>,
)
    requires
        0 <= pos,
    ensures
        texture_of(ev, pos, defaults, ty) matches Ok((_, end)) ==> pos < end <= ev.len(),
{
    lemma_values_walk_ends(ev, pos, false, defaults, true, no_props());
}

fn read_pattern_colours(m: &Dict<crate::value::Value>) -> (r: Result<(Spectrum, Spectrum), Error>)
    ensures
        match pattern_colours(m@) {
            Ok(c) => r matches Ok(x) && x.0@ == c.0 && x.1@ == c.1,
            Err(e) => r matches Err(x) && x@ == e,
        },
{
    let color0 = read_spectrum(m, "color0", "0.4")?;
    let color1 = read_spectrum(m, "color1", "0.2")?;
    Ok((color0, color1))
}

impl Texture {
    /// Whether both textures are alike in every part.
    pub fn same(&self, other: &Texture) -> (r: bool)
        ensures
            r == (self@ == other@),
    {
        same_texture(self, other)
    }

    /// The texture of kind `texture_type` that the properties `m` describe.
    pub fn from_props(m: &Dict<crate::value::Value>, texture_type: &str) -> (r: Result<
        Texture,
        Error,
    >)
        ensures
            match texture_from(m@, texture_type@) {
                Ok(t) => r matches Ok(x) && x@ == t,
                Err(e) => r matches Err(x) && x@ == e,
            },
    {
        let uoffset = read_number(m, "uoffset", "0")?;
        let voffset = read_number(m, "voffset", "0")?;
        let uscale = read_number(m, "uscale", "1")?;
        let vscale = read_number(m, "vscale", "1")?;
        let offset = Vector2 { x: uoffset, y: voffset };
        let scale = Vector2 { x: uscale, y: vscale };
        if str_eq(texture_type, "bitmap") {
            let filename = read_required_string(m, "filename", texture_type)?;
            let filter_type = read_string(m, "filterType", "trilinear")?;
            let gamma = read_number(m, "gamma", "1")?;
            Ok(Texture::Bitmap { filename, filter_type, gamma, offset, scale })
        } else if str_eq(texture_type, "checkerboard") {
            let (color0, color1) = read_pattern_colours(m)?;
            Ok(Texture::Checkerboard { color0, color1, offset, scale })
        } else if str_eq(texture_type, "gridtexture") {
            let (color0, color1) = read_pattern_colours(m)?;
            let line_width = read_number(m, "lineWidth", "0.01")?;
            Ok(Texture::GridTexture { color0, color1, line_width, offset, scale })
        } else {
            Err(Error::UnknownVariant("texture".to_owned(), texture_type.to_owned()))
        }
    }

    /// Reads the body of a `texture` element of kind `texture_type`, from
    /// `pos` on to the element's end.
    pub fn parse(
        events: &Vec<Event>,
        pos: &mut usize,
        defaults: &Dict<String>,
        texture_type: &str,
    ) -> (r: Result<Texture, Error>)
        ensures
            match texture_of(events_view(events@), *old(pos) as int, defaults@, texture_type@) {
                Ok((t, end)) => r matches Ok(x) && x@ == t && *final(pos) == end && *old(pos)
                    < end <= events.len(),
                Err(e) => r matches Err(x) && x@ == e,
            },
    {
        let props = values(events, pos, defaults, true)?;
        check_no_refs(&props.refs)?;
        Texture::from_props(&props.map, texture_type)
    }
}

} // verus!
