//! Reading of renderer scene descriptions and of their binary mesh containers.
//!
//! A scene description is a document of elements; [`events::tokenize`] turns it
//! into events and [`scene::parse_scene`] reads the events into a [`Scene`].
//! A container of meshes is read by [`serialized::read_serialized`].
//!
//! Real numbers are never computed with here. A number of a scene
//! description is kept as the literal that denotes it, a transform as the
//! list of its primitives, and a number of a mesh as its bits.
pub mod bsdf;
pub mod dict;
pub mod emitter;
pub mod events;
pub mod medium;
pub mod number;
pub mod props;
pub mod scene;
pub mod sensor;
pub mod serialized;
pub mod shape;
pub mod text;
pub mod texture;
pub mod transform;
pub mod value;

pub use bsdf::{Alpha, Distribution, WardVariant, BSDF};
pub use dict::Dict;
pub use emitter::{AreaEmitter, Emitter, SkyEmitterParam, SunDirection, SunEmitterParam};
pub use medium::{Medium, PhaseFunction};
pub use number::Number;
pub use scene::{parse_scene, Directive, Scene};
pub use sensor::{Film, Sensor};
pub use serialized::{read_serialized, Serialized};
pub use shape::{SerializedShape, Shape, ShapeOption};
pub use texture::{BSDFColor, BSDFColorFloat, BSDFColorSpectrum, Texture, TextureScale};
pub use transform::{Transform, TransformOp};
pub use value::{Channel, Error, Spectrum, Value, Vector2, Vector3, RGB};
pub use events::{tokenize, Attribute, Event};
