//! What the host is to build and record on the GPU, as plain values: the
//! shader variant, the binding layouts, the vertex layout and the draw steps.

use crate::card::INSTANCE_SIZE;
use vstd::prelude::*;

verus! {

/// `wgpu::TextureFormat`, the pixel format of a texture or of a render target.
#[verifier::external_type_specification]
#[verifier::external_body]
pub struct ExTextureFormat(wgpu::TextureFormat);

/// `TextureFormat::is_srgb`: whether colour is stored sRGB-encoded in the
/// format. Which formats are is for `wgpu` to say, and nothing is claimed of
/// the answer.
#[verifier::external_body]
fn is_srgb(format: wgpu::TextureFormat) -> (r: bool) {
    format.is_srgb()
}

/// Which output conversion the shader program is compiled with. The choice is
/// part of the shader text, so it is made once, when the pipeline is built.
#[derive(Clone, Copy, Debug, PartialEq, Eq, Structural)]
pub enum Output {
    /// The program writes linear colour; the render target encodes it.
    Linear,
    /// The program encodes its colour for a target that stores it as is.
    Gamma,
}

impl Output {
    pub open spec fn for_target_spec(srgb_target: bool) -> Output {
        if srgb_target {
            Output::Linear
        } else {
            Output::Gamma
        }
    }

    /// The conversion that goes with a render target of the given format.
    pub(crate) fn for_format(format: wgpu::TextureFormat) -> (r: Output) {
        Output::for_target(is_srgb(format))
    }

    /// The conversion that goes with a render target: an sRGB target encodes
    /// by itself and so takes linear colour, any other takes encoded colour.
    #[verifier::when_used_as_spec(for_target_spec)]
    pub fn for_target(srgb_target: bool) -> (r: Output)
        ensures
            r == Output::for_target_spec(srgb_target),
    {
        if srgb_target {
            Output::Linear
        } else {
            Output::Gamma
        }
    }
}

/// `String::push_str` appends `more` to the end of `text`.
#[verifier::external_body]
fn push_str(text: &mut String, more: &str)
    ensures
        final(text)@ == old(text)@ + more@,
{
    text.push_str(more)
}

/// The shader text that is compiled: the program, a line break, and the
/// conversion that goes with `output`.
pub open spec fn shader_text(
    program: Seq<char>,
    linear_rgb: Seq<char>,
    srgb: Seq<char>,
    output: Output,
) -> Seq<char> {
    program + seq!['\n'] + match output {
        Output::Linear => linear_rgb,
        Output::Gamma => srgb,
    }
}

/// Puts the shader text together: `program`, followed by `linear_rgb` where
/// the program is to write linear colour, and by `srgb` where it is to encode
/// its colour itself.
pub fn shader_source(program: &str, linear_rgb: &str, srgb: &str, output: Output) -> (r: String)
    ensures
        r@ == shader_text(program@, linear_rgb@, srgb@, output),
{
    let mut text = program.to_owned();
    push_str(&mut text, "\n");
    proof {
        reveal_strlit("\n");
    }
    match output {
        Output::Linear => push_str(&mut text, linear_rgb),
        Output::Gamma => push_str(&mut text, srgb),
    }
    text
}

/// What a binding slot holds. Every slot is visible to the fragment stage
/// only.
#[derive(Clone, Copy, Debug, PartialEq, Eq, Structural)]
pub enum Resource {
    /// A filtering sampler.
    Sampler,
    /// A two-dimensional texture of filterable numbers, one sample per texel.
    Texture,
    /// A uniform buffer, bound whole and at a fixed offset.
    Uniform,
}

/// One entry of a binding layout.
#[derive(Clone, Copy, Debug, PartialEq, Eq, Structural)]
pub struct Slot {
    pub binding: u32,
    pub resource: Resource,
}

/// The layout shared by all cards: the sampler, the texture shown behind
/// translucent regions, and the configuration.
pub open spec fn uniforms_layout_spec() -> Seq<Slot> {
    seq![
        Slot { binding: 0, resource: Resource::Sampler },
        Slot { binding: 1, resource: Resource::Texture },
        Slot { binding: 2, resource: Resource::Uniform },
    ]
}

/// The layout that every card's own binding set is built against: colour,
/// foil and etching, always all three.
pub open spec fn textures_layout_spec() -> Seq<Slot> {
    seq![
        Slot { binding: 0, resource: Resource::Texture },
        Slot { binding: 1, resource: Resource::Texture },
        Slot { binding: 2, resource: Resource::Texture },
    ]
}

/// The layout shared by all cards.
pub fn uniforms_layout() -> (r: Vec<Slot>)
    ensures
        r@ == uniforms_layout_spec(),
{
    let r = vec![
        Slot { binding: 0, resource: Resource::Sampler },
        Slot { binding: 1, resource: Resource::Texture },
        Slot { binding: 2, resource: Resource::Uniform },
    ];
    r
}

/// The layout of a card's own binding set.
pub fn textures_layout() -> (r: Vec<Slot>)
    ensures
        r@ == textures_layout_spec(),
{
    let r = vec![
        Slot { binding: 0, resource: Resource::Texture },
        Slot { binding: 1, resource: Resource::Texture },
        Slot { binding: 2, resource: Resource::Texture },
    ];
    r
}

/// The shape of one vertex attribute.
#[derive(Clone, Copy, Debug, PartialEq, Eq, Structural)]
pub enum VertexFormat {
    /// Two single-precision numbers.
    Float32x2,
    /// Four single-precision numbers.
    Float32x4,
}

impl VertexFormat {
    pub open spec fn words(self) -> nat {
        match self {
            VertexFormat::Float32x2 => 2,
            VertexFormat::Float32x4 => 4,
        }
    }

    /// The number of bytes the attribute takes.
    pub fn size(self) -> (r: u64)
        ensures
            r == 4 * self.words(),
    {
        match self {
            VertexFormat::Float32x2 => 8,
            VertexFormat::Float32x4 => 16,
        }
    }
}

/// One attribute of the instance record as the vertex stage sees it.
#[derive(Clone, Copy, Debug, PartialEq, Eq, Structural)]
pub struct Attribute {
    pub location: u32,
    pub format: VertexFormat,
    /// Where the attribute starts in the record, in bytes.
    pub offset: u64,
}

/// The number of words that the first `n` formats take together.
pub open spec fn words_before(formats: Seq<VertexFormat>, n: int) -> nat
    decreases n,
{
    if n <= 0 || n > formats.len() {
        0
    } else {
        words_before(formats, n - 1) + formats[n - 1].words()
    }
}

/// Whether `attributes` lays `formats` out one after the other without gaps,
/// at locations counted from zero.
pub open spec fn packed(attributes: Seq<Attribute>, formats: Seq<VertexFormat>) -> bool {
    &&& attributes.len() == formats.len()
    &&& forall|i: int|
        0 <= i < formats.len() ==> (#[trigger] attributes[i]) == (Attribute {
            location: i as u32,
            format: formats[i],
            offset: (4 * words_before(formats, i)) as u64,
        })
}

/// Lays the given formats out one after the other, at locations counted from
/// zero, and returns the attributes with the size of the whole record in
/// bytes.
pub fn pack(formats: &Vec<VertexFormat>) -> (r: (Vec<Attribute>, u64))
    requires
        formats.len() <= 0xffff_ffff,
    ensures
        packed(r.0@, formats@),
        r.1 == 4 * words_before(formats@, formats.len() as int),
{
    let mut attributes: Vec<Attribute> = Vec::new();
    let mut offset: u64 = 0;
    let mut i: usize = 0;
    while i < formats.len()
        invariant
            i <= formats.len() <= 0xffff_ffff,
            attributes.len() == i,
            offset == 4 * words_before(formats@, i as int),
            offset <= 16 * i,
            forall|j: int|
                0 <= j < i ==> (#[trigger] attributes[j]) == (Attribute {
                    location: j as u32,
                    format: formats[j],
                    offset: (4 * words_before(formats@, j)) as u64,
                }),
        decreases formats.len() - i,
    {
        let format = formats[i];
        attributes.push(Attribute { location: i as u32, format, offset });
        offset = offset + format.size();
        i = i + 1;
    }
    (attributes, offset)
}

/// The formats of the instance record's three attributes: the viewport, the
/// card's size and its rotation.
pub open spec fn instance_formats() -> Seq<VertexFormat> {
    seq![VertexFormat::Float32x4, VertexFormat::Float32x2, VertexFormat::Float32x4]
}

/// The attributes of the instance record and its stride in bytes, which is
/// the size of one record. The record advances once per instance, not once per
/// vertex.
pub fn instance_attributes() -> (r: (Vec<Attribute>, u64))
    ensures
        packed(r.0@, instance_formats()),
        r.0@ == seq![
            Attribute { location: 0, format: VertexFormat::Float32x4, offset: 0 },
            Attribute { location: 1, format: VertexFormat::Float32x2, offset: 16 },
            Attribute { location: 2, format: VertexFormat::Float32x4, offset: 24 },
        ],
        r.1 == INSTANCE_SIZE,
{
    let formats = vec![VertexFormat::Float32x4, VertexFormat::Float32x2, VertexFormat::Float32x4];
    let r = pack(&formats);
    proof {
        reveal_with_fuel(words_before, 4);
        assert(r.0@ =~= seq![
            Attribute { location: 0, format: VertexFormat::Float32x4, offset: 0 },
            Attribute { location: 1, format: VertexFormat::Float32x2, offset: 16 },
            Attribute { location: 2, format: VertexFormat::Float32x4, offset: 24 },
        ]);
    }
    r
}

/// Which binding set a command binds.
#[derive(Clone, Copy, Debug, PartialEq, Eq, Structural)]
pub enum Group {
    /// The set shared by all cards.
    Uniforms,
    /// The textures of the card being drawn.
    Textures,
}

/// One step of drawing a card, to be recorded into a render pass.
#[derive(Clone, Copy, Debug, PartialEq, Eq, Structural)]
pub enum Command {
    /// Make the compiled program current.
    SetPipeline,
    /// Bind a set at the given index, with no dynamic offsets.
    SetBindGroup { index: u32, group: Group },
    /// Bind the whole instance buffer of the card at the given slot.
    SetVertexBuffer { slot: u32 },
    /// Draw vertices `0..vertices` of instances `0..instances`.
    Draw { vertices: u32, instances: u32 },
}

/// The steps that draw one card: the program, the shared set, the card's
/// textures, the card's instance record, and one draw of the two triangles
/// that make up its quad.
pub open spec fn draw_commands() -> Seq<Command> {
    seq![
        Command::SetPipeline,
        Command::SetBindGroup { index: 0, group: Group::Uniforms },
        Command::SetBindGroup { index: 1, group: Group::Textures },
        Command::SetVertexBuffer { slot: 0 },
        Command::Draw { vertices: 6, instances: 1 },
    ]
}

} // verus!
