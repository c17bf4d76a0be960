//! Cards: the layers they are made of, the textures and binding slots they
//! get on the GPU, and the instance record written for each frame.

use crate::buffer::{contents, image_of, memory_image};
use crate::quaternion::Quaternion;
use crate::scalar::Scalar;
use bytes::Bytes;
use vstd::prelude::*;

verus! {

/// How the texels of a texture are stored.
#[derive(Clone, Copy, Debug, PartialEq, Eq, Structural)]
pub enum TexelFormat {
    /// Four bytes per texel: red, green, blue and alpha, colour in sRGB.
    Rgba8UnormSrgb,
    /// One byte per texel.
    R8Unorm,
}

impl TexelFormat {
    pub open spec fn texel_bytes_spec(self) -> nat {
        match self {
            TexelFormat::Rgba8UnormSrgb => 4,
            TexelFormat::R8Unorm => 1,
        }
    }

    /// The number of bytes that one texel takes.
    pub fn texel_bytes(self) -> (r: u32)
        ensures
            r == self.texel_bytes_spec(),
    {
        match self {
            TexelFormat::Rgba8UnormSrgb => 4,
            TexelFormat::R8Unorm => 1,
        }
    }
}

/// The number of bytes that a square texture of side `size` reads from its
/// pixel data.
pub open spec fn required_len(size: u32, format: TexelFormat) -> nat {
    size as nat * size as nat * format.texel_bytes_spec()
}

/// Whether `len` bytes are enough for a square texture of side `size`.
fn long_enough(len: usize, size: u32, format: TexelFormat) -> (r: bool)
    ensures
        r == (len >= required_len(size, format)),
{
    let side: u128 = size as u128;
    assert(side * side <= 0xffff_ffff * 0xffff_ffff) by (nonlinear_arith)
        requires
            side <= 0xffff_ffff,
    ;
    let texels: u128 = side * side;
    let each: u128 = format.texel_bytes() as u128;
    assert(texels * each <= 0xffff_ffff * 0xffff_ffff * 4) by (nonlinear_arith)
        requires
            texels <= 0xffff_ffff * 0xffff_ffff,
            each <= 4,
    ;
    let needed: u128 = texels * each;
    len as u128 >= needed
}

/// A texture as the GPU is asked to make it: square, two-dimensional, one
/// layer, one mip level, one sample, bound for sampling only, and filled from
/// the pixel data layer by layer.
#[derive(Clone, Copy, Debug, PartialEq, Eq, Structural)]
pub struct Texture {
    /// Width and height, in texels.
    pub size: u32,
    pub format: TexelFormat,
}

/// A square colour layer: `size` rows of `size` RGBA texels.
#[derive(Debug, Clone)]
pub struct Image {
    pub rgba: Bytes,
    pub size: u32,
}

impl Image {
    /// Whether the pixel data covers the whole square.
    pub open spec fn is_complete_spec(&self) -> bool {
        contents(self.rgba).len() >= required_len(self.size, TexelFormat::Rgba8UnormSrgb)
    }

    /// Whether the pixel data covers the whole square. Data that falls short
    /// must never reach the GPU.
    #[verifier::when_used_as_spec(is_complete_spec)]
    pub fn is_complete(&self) -> (r: bool)
        ensures
            r == self.is_complete_spec(),
    {
        long_enough(self.rgba.len(), self.size, TexelFormat::Rgba8UnormSrgb)
    }

    /// The texture that this layer becomes on the GPU.
    pub fn upload(&self) -> (r: Texture)
        requires
            self.is_complete_spec(),
        ensures
            r == (Texture { size: self.size, format: TexelFormat::Rgba8UnormSrgb }),
    {
        Texture { size: self.size, format: TexelFormat::Rgba8UnormSrgb }
    }
}

/// A square single-channel layer: `size` rows of `size` one-byte texels.
#[derive(Debug, Clone)]
pub struct Mask {
    pub pixels: Bytes,
    pub size: u32,
}

impl Mask {
    /// Whether the pixel data covers the whole square.
    pub open spec fn is_complete_spec(&self) -> bool {
        contents(self.pixels).len() >= required_len(self.size, TexelFormat::R8Unorm)
    }

    /// Whether the pixel data covers the whole square. Data that falls short
    /// must never reach the GPU.
    #[verifier::when_used_as_spec(is_complete_spec)]
    pub fn is_complete(&self) -> (r: bool)
        ensures
            r == self.is_complete_spec(),
    {
        long_enough(self.pixels.len(), self.size, TexelFormat::R8Unorm)
    }

    /// The texture that this layer becomes on the GPU.
    pub fn upload(&self) -> (r: Texture)
        requires
            self.is_complete_spec(),
        ensures
            r == (Texture { size: self.size, format: TexelFormat::R8Unorm }),
    {
        Texture { size: self.size, format: TexelFormat::R8Unorm }
    }
}

/// Everything that describes one card: its colour layer, the optional foil
/// and etching masks, and the width it is drawn at. Its height is the side of
/// the colour layer.
#[derive(Debug, Clone)]
pub struct Structure {
    pub base: Image,
    pub foil: Option<Mask>,
    pub etching: Option<Mask>,
    pub width: u32,
}

impl Structure {
    /// Whether every layer that is present covers its square.
    pub open spec fn is_complete_spec(&self) -> bool {
        &&& self.base.is_complete_spec()
        &&& (self.foil matches Some(foil) ==> foil.is_complete_spec())
        &&& (self.etching matches Some(etching) ==> etching.is_complete_spec())
    }

    /// Whether every layer that is present covers its square.
    #[verifier::when_used_as_spec(is_complete_spec)]
    pub fn is_complete(&self) -> (r: bool)
        ensures
            r == self.is_complete_spec(),
    {
        let foil = match &self.foil {
            Some(foil) => foil.is_complete(),
            None => true,
        };
        let etching = match &self.etching {
            Some(etching) => etching.is_complete(),
            None => true,
        };
        self.base.is_complete() && foil && etching
    }
}

/// The rectangle of the render target that a card is drawn into, in pixels.
#[derive(Debug, Clone, Copy, PartialEq, Eq, Structural)]
pub struct Viewport {
    pub x: u32,
    pub y: u32,
    pub width: u32,
    pub height: u32,
}

/// What changes from frame to frame: where the card is drawn and how it is
/// turned.
#[derive(Debug, Clone, Copy)]
pub struct Parameters {
    pub viewport: Viewport,
    pub rotation: Quaternion,
}

impl Parameters {
    /// Whether two sets of parameters compare equal: the same rectangle, and
    /// rotations that are the same numbers.
    pub open spec fn same_as(self, other: Parameters) -> bool {
        self.viewport == other.viewport && self.rotation.same_numbers(other.rotation)
    }
}

impl PartialEq for Parameters {
    fn eq(&self, other: &Self) -> (r: bool) {
        self.viewport == other.viewport && self.rotation == other.rotation
    }
}

impl vstd::std_specs::cmp::PartialEqSpecImpl for Parameters {
    open spec fn obeys_eq_spec() -> bool {
        true
    }

    open spec fn eq_spec(&self, other: &Self) -> bool {
        self.same_as(*other)
    }
}

/// The ten words of an instance record, in the order the vertex stage reads
/// them: the viewport's x, y, width and height, the card's width and height,
/// and the rotation's vector part followed by its scalar part. The six whole
/// numbers are stored as the nearest single-precision numbers.
pub open spec fn instance_words(
    viewport: Viewport,
    width: u32,
    height: u32,
    rotation: Quaternion,
) -> Seq<u32> {
    seq![
        Scalar::of_whole(viewport.x).bits,
        Scalar::of_whole(viewport.y).bits,
        Scalar::of_whole(viewport.width).bits,
        Scalar::of_whole(viewport.height).bits,
        Scalar::of_whole(width).bits,
        Scalar::of_whole(height).bits,
        rotation.a.x.bits,
        rotation.a.y.bits,
        rotation.a.z.bits,
        rotation.w.bits,
    ]
}

/// One record of the instance buffer.
#[derive(Debug, Clone, Copy)]
pub struct Instance {
    viewport: [Scalar; 4],
    size: [Scalar; 2],
    rotation: [Scalar; 4],
}

/// Size of one instance record, in bytes.
pub const INSTANCE_SIZE: u64 = 40;

impl Instance {
    /// The record, word by word.
    pub closed spec fn words(self) -> Seq<u32> {
        seq![
            self.viewport[0].bits,
            self.viewport[1].bits,
            self.viewport[2].bits,
            self.viewport[3].bits,
            self.size[0].bits,
            self.size[1].bits,
            self.rotation[0].bits,
            self.rotation[1].bits,
            self.rotation[2].bits,
            self.rotation[3].bits,
        ]
    }

    /// The record for a card of the given size, drawn into `viewport` and
    /// turned by `rotation`.
    pub fn new(viewport: Viewport, width: u32, height: u32, rotation: Quaternion) -> (r: Instance)
        ensures
            r.words() == instance_words(viewport, width, height, rotation),
    {
        Instance {
            viewport: [
                Scalar::from_u32(viewport.x),
                Scalar::from_u32(viewport.y),
                Scalar::from_u32(viewport.width),
                Scalar::from_u32(viewport.height),
            ],
            size: [Scalar::from_u32(width), Scalar::from_u32(height)],
            rotation: [rotation.a.x, rotation.a.y, rotation.a.z, rotation.w],
        }
    }

    /// The record, word by word.
    pub fn to_words(&self) -> (r: Vec<u32>)
        ensures
            r@ == self.words(),
    {
        let r = vec![
            self.viewport[0].bits,
            self.viewport[1].bits,
            self.viewport[2].bits,
            self.viewport[3].bits,
            self.size[0].bits,
            self.size[1].bits,
            self.rotation[0].bits,
            self.rotation[1].bits,
            self.rotation[2].bits,
            self.rotation[3].bits,
        ];
        r
    }

    /// The record as it lies in the instance buffer: forty bytes, each word in
    /// the machine's byte order.
    pub fn to_bytes(&self) -> (r: Vec<u8>)
        ensures
            image_of(r@, self.words()),
            r@.len() == INSTANCE_SIZE,
    {
        let words = self.to_words();
        memory_image(&words)
    }
}

/// Which of a card's textures a binding slot samples.
#[derive(Clone, Copy, Debug, PartialEq, Eq, Structural)]
pub enum Source {
    Base,
    Foil,
    Etching,
}

/// The three texture slots of a card, in binding order: colour, foil and
/// etching. A slot whose mask is absent samples the colour layer instead, so
/// that all three are always bound.
pub open spec fn bound_slots(foil: bool, etching: bool) -> Seq<Source> {
    seq![
        Source::Base,
        if foil { Source::Foil } else { Source::Base },
        if etching { Source::Etching } else { Source::Base },
    ]
}

/// What a card is, seen from outside.
pub struct CardView {
    pub width: u32,
    pub height: u32,
    pub base: Texture,
    pub foil: Option<Texture>,
    pub etching: Option<Texture>,
    pub binding: Seq<Source>,
}

/// One card on the GPU: its textures, what its three binding slots sample,
/// and the size that goes into its instance record.
#[derive(Debug, Clone)]
pub struct Card {
    width: u32,
    height: u32,
    base: Texture,
    foil: Option<Texture>,
    etching: Option<Texture>,
    binding: [Source; 3],
}

impl View for Card {
    type V = CardView;

    closed spec fn view(&self) -> CardView {
        CardView {
            width: self.width,
            height: self.height,
            base: self.base,
            foil: self.foil,
            etching: self.etching,
            binding: self.binding@,
        }
    }
}

impl Card {
    /// The card that `structure` becomes: as wide as the structure says, as
    /// high as its colour layer, with one texture for each layer present.
    pub open spec fn of(structure: Structure) -> CardView {
        CardView {
            width: structure.width,
            height: structure.base.size,
            base: Texture { size: structure.base.size, format: TexelFormat::Rgba8UnormSrgb },
            foil: match structure.foil {
                Some(foil) => Some(Texture { size: foil.size, format: TexelFormat::R8Unorm }),
                None => None,
            },
            etching: match structure.etching {
                Some(etching) => Some(
                    Texture { size: etching.size, format: TexelFormat::R8Unorm },
                ),
                None => None,
            },
            binding: bound_slots(structure.foil.is_some(), structure.etching.is_some()),
        }
    }

    /// Builds the card for a structure whose layers are all complete.
    pub(crate) fn assemble(structure: &Structure) -> (r: Card)
        requires
            structure.is_complete_spec(),
        ensures
            r@ == Card::of(*structure),
    {
        let base = structure.base.upload();
        let foil = match &structure.foil {
            Some(foil) => Some(foil.upload()),
            None => None,
        };
        let etching = match &structure.etching {
            Some(etching) => Some(etching.upload()),
            None => None,
        };
        let binding = [
            Source::Base,
            if foil.is_some() { Source::Foil } else { Source::Base },
            if etching.is_some() { Source::Etching } else { Source::Base },
        ];
        Card { width: structure.width, height: structure.base.size, base, foil, etching, binding }
    }

    pub fn width(&self) -> (r: u32)
        ensures
            r == self@.width,
    {
        self.width
    }

    pub fn height(&self) -> (r: u32)
        ensures
            r == self@.height,
    {
        self.height
    }

    /// The texture of the colour layer.
    pub fn base(&self) -> (r: Texture)
        ensures
            r == self@.base,
    {
        self.base
    }

    /// The texture of the foil mask, if the card has one.
    pub fn foil(&self) -> (r: Option<Texture>)
        ensures
            r == self@.foil,
    {
        self.foil
    }

    /// The texture of the etching mask, if the card has one.
    pub fn etching(&self) -> (r: Option<Texture>)
        ensures
            r == self@.etching,
    {
        self.etching
    }

    /// What the three texture slots sample, in binding order.
    pub fn binding(&self) -> (r: [Source; 3])
        ensures
            r@ == self@.binding,
    {
        self.binding
    }

    /// The bytes to write at the start of the card's instance buffer before
    /// it is drawn with `parameters`: one instance record, which fills the
    /// buffer exactly.
    pub fn prepare(&self, parameters: Parameters) -> (r: Vec<u8>)
        ensures
            image_of(
                r@,
                instance_words(
                    parameters.viewport,
                    self@.width,
                    self@.height,
                    parameters.rotation,
                ),
            ),
            r@.len() == INSTANCE_SIZE,
    {
        let Parameters { viewport, rotation } = parameters;
        Instance::new(viewport, self.width, self.height, rotation).to_bytes()
    }
}

} // verus!
