//! The pipeline: its configuration, the record that carries the configuration
//! to the shader, and the writes that configuring issues.

use crate::buffer::{image_of, memory_image};
use crate::card::{Card, Image, Source, Structure, TexelFormat, Texture};
use crate::plan::{draw_commands, Command, Group, Output};
use crate::scalar::Scalar;
use crate::vector::Vector;
use vstd::prelude::*;

verus! {

/// The light that the card is lit by.
#[derive(Debug, Clone, Copy)]
pub struct Light {
    pub position: Vector,
    pub power: Scalar,
}

impl Light {
    /// Whether two lights compare equal field by field, as numbers.
    pub open spec fn same_numbers(self, other: Light) -> bool {
        self.position.same_numbers(other.position) && self.power.same_number(other.power)
    }
}

impl PartialEq for Light {
    fn eq(&self, other: &Self) -> (r: bool) {
        self.position == other.position && self.power == other.power
    }
}

impl vstd::std_specs::cmp::PartialEqSpecImpl for Light {
    open spec fn obeys_eq_spec() -> bool {
        true
    }

    open spec fn eq_spec(&self, other: &Self) -> bool {
        self.same_numbers(*other)
    }
}

/// The settings shared by all cards of a pipeline.
#[derive(Debug, Clone, Copy)]
pub struct Configuration {
    /// Samples per pixel, meant to lie between 1 and 8.
    pub n_samples: u32,
    /// Upper bound on the steps of the shader's march, meant to lie between
    /// 32 and 256.
    pub max_iterations: u32,
    pub light: Light,
}

impl Configuration {
    /// Whether two configurations compare equal: the counts agree and the
    /// lights are the same numbers. A configuration that holds a NaN equals
    /// none, not even itself.
    pub open spec fn same_as(self, other: Configuration) -> bool {
        &&& self.n_samples == other.n_samples
        &&& self.max_iterations == other.max_iterations
        &&& self.light.same_numbers(other.light)
    }

    /// Whether any number of the light is a NaN.
    pub open spec fn has_nan(self) -> bool {
        self.light.position.has_nan() || self.light.power.is_nan_spec()
    }

    pub open spec fn in_range_spec(self) -> bool {
        1 <= self.n_samples <= 8 && 32 <= self.max_iterations <= 256
    }

    /// Whether both counts lie in the range they are meant for.
    #[verifier::when_used_as_spec(in_range_spec)]
    pub fn in_range(self) -> (r: bool)
        ensures
            r == self.in_range_spec(),
    {
        1 <= self.n_samples && self.n_samples <= 8 && 32 <= self.max_iterations
            && self.max_iterations <= 256
    }

    /// Two samples, 128 steps, and a light of power 400 at (3, 4, -20).
    pub open spec fn default_spec() -> Configuration {
        Configuration {
            n_samples: 2,
            max_iterations: 128,
            light: Light {
                position: Vector {
                    x: Scalar { bits: 0x4040_0000 },
                    y: Scalar { bits: 0x4080_0000 },
                    z: Scalar { bits: 0xc1a0_0000 },
                },
                power: Scalar { bits: 0x43c8_0000 },
            },
        }
    }
}

impl Default for Configuration {
    fn default() -> (r: Configuration)
        ensures
            r == Configuration::default_spec(),
            r.in_range_spec(),
            !r.has_nan(),
    {
        Configuration {
            n_samples: 2,
            max_iterations: 128,
            light: Light {
                position: Vector {
                    x: Scalar { bits: 0x4040_0000 },
                    y: Scalar { bits: 0x4080_0000 },
                    z: Scalar { bits: 0xc1a0_0000 },
                },
                power: Scalar { bits: 0x43c8_0000 },
            },
        }
    }
}

impl PartialEq for Configuration {
    fn eq(&self, other: &Self) -> (r: bool) {
        self.n_samples == other.n_samples && self.max_iterations == other.max_iterations
            && self.light == other.light
    }
}

impl vstd::std_specs::cmp::PartialEqSpecImpl for Configuration {
    open spec fn obeys_eq_spec() -> bool {
        true
    }

    open spec fn eq_spec(&self, other: &Self) -> bool {
        self.same_as(*other)
    }
}

/// The eight words of the configuration record, in the order the shader reads
/// them: the two counts, two words of padding that bring the light to a
/// sixteen-byte boundary, the light's position, and its power.
pub open spec fn parameter_words(configuration: Configuration) -> Seq<u32> {
    seq![
        configuration.n_samples,
        configuration.max_iterations,
        0u32,
        0u32,
        configuration.light.position.x.bits,
        configuration.light.position.y.bits,
        configuration.light.position.z.bits,
        configuration.light.power.bits,
    ]
}

/// The configuration as it lies in the uniform buffer.
#[derive(Debug, Clone, Copy)]
pub struct Parameters {
    n_samples: u32,
    max_iterations: u32,
    _padding: [u32; 2],
    light_position: [Scalar; 3],
    light_power: Scalar,
}

/// Size of the configuration record, in bytes.
pub const PARAMETERS_SIZE: u64 = 32;

impl Parameters {
    /// The record, word by word.
    pub closed spec fn words(self) -> Seq<u32> {
        seq![
            self.n_samples,
            self.max_iterations,
            self._padding[0],
            self._padding[1],
            self.light_position[0].bits,
            self.light_position[1].bits,
            self.light_position[2].bits,
            self.light_power.bits,
        ]
    }

    /// The record, word by word.
    pub fn to_words(&self) -> (r: Vec<u32>)
        ensures
            r@ == self.words(),
    {
        let r = vec![
            self.n_samples,
            self.max_iterations,
            self._padding[0],
            self._padding[1],
            self.light_position[0].bits,
            self.light_position[1].bits,
            self.light_position[2].bits,
            self.light_power.bits,
        ];
        r
    }

    /// The record as it lies in the uniform buffer: thirty-two bytes, each
    /// word in the machine's byte order.
    pub fn to_bytes(&self) -> (r: Vec<u8>)
        ensures
            image_of(r@, self.words()),
            r@.len() == PARAMETERS_SIZE,
    {
        let words = self.to_words();
        memory_image(&words)
    }
}

impl From<Configuration> for Parameters {
    fn from(configuration: Configuration) -> (r: Parameters)
        ensures
            r.words() == parameter_words(configuration),
    {
        Parameters {
            n_samples: configuration.n_samples,
            max_iterations: configuration.max_iterations,
            light_position: [
                configuration.light.position.x,
                configuration.light.position.y,
                configuration.light.position.z,
            ],
            light_power: configuration.light.power,
            _padding: [0, 0],
        }
    }
}

impl vstd::std_specs::convert::FromSpecImpl<Configuration> for Parameters {
    open spec fn obeys_from_spec() -> bool {
        true
    }

    closed spec fn from_spec(configuration: Configuration) -> Parameters {
        Parameters {
            n_samples: configuration.n_samples,
            max_iterations: configuration.max_iterations,
            light_position: [
                configuration.light.position.x,
                configuration.light.position.y,
                configuration.light.position.z,
            ],
            light_power: configuration.light.power,
            _padding: [0, 0],
        }
    }
}

/// What a pipeline is, seen from outside.
pub struct PipelineView {
    /// The output conversion its program was compiled with.
    pub output: Output,
    /// The configuration that its uniform buffer holds.
    pub configuration: Configuration,
    /// The texture shown behind translucent regions of a card.
    pub back_texture: Texture,
}

impl PipelineView {
    /// Whether configuring with `configuration` writes to the uniform buffer:
    /// it does unless the buffer already holds an equal configuration.
    pub open spec fn writes(self, configuration: Configuration) -> bool {
        !self.configuration.same_as(configuration)
    }

    /// The pipeline after configuring with `configuration`.
    pub open spec fn configured(self, configuration: Configuration) -> PipelineView {
        if self.writes(configuration) {
            PipelineView { configuration, ..self }
        } else {
            self
        }
    }

    /// The number of writes to the uniform buffer that configuring with each
    /// of `configurations` in turn issues.
    pub open spec fn write_count(self, configurations: Seq<Configuration>) -> nat
        decreases configurations.len(),
    {
        if configurations.len() == 0 {
            0
        } else {
            let first = configurations[0];
            let rest = configurations.subrange(1, configurations.len() as int);
            (if self.writes(first) {
                1nat
            } else {
                0nat
            }) + self.configured(first).write_count(rest)
        }
    }
}

/// Configuring twice in a row with the same configuration writes to the
/// uniform buffer once, where the first of the two writes at all: the
/// configuration holds no NaN and differs from what the buffer held before.
pub proof fn lemma_equal_configurations_write_once(
    pipeline: PipelineView,
    configuration: Configuration,
)
    requires
        !configuration.has_nan(),
        pipeline.writes(configuration),
    ensures
        pipeline.write_count(seq![configuration, configuration]) == 1,
{
    reveal_with_fuel(PipelineView::write_count, 3);
}

/// Configuring with one configuration and then with a different one writes
/// to the uniform buffer twice, where the first differs from what the buffer
/// held before.
pub proof fn lemma_differing_configurations_write_twice(
    pipeline: PipelineView,
    first: Configuration,
    second: Configuration,
)
    requires
        pipeline.writes(first),
        !first.same_as(second),
    ensures
        pipeline.write_count(seq![first, second]) == 2,
{
    reveal_with_fuel(PipelineView::write_count, 3);
}

/// Configuring with a configuration that equals the one the uniform buffer
/// holds writes nothing and changes nothing, however often it is repeated.
pub proof fn lemma_unchanged_configuration_writes_nothing(
    pipeline: PipelineView,
    configurations: Seq<Configuration>,
)
    requires
        forall|i: int|
            0 <= i < configurations.len() ==> pipeline.configuration.same_as(
                #[trigger] configurations[i],
            ),
    ensures
        pipeline.write_count(configurations) == 0,
    decreases configurations.len(),
{
    if configurations.len() > 0 {
        let rest = configurations.subrange(1, configurations.len() as int);
        lemma_unchanged_configuration_writes_nothing(pipeline, rest);
    }
}

/// The state of the rendering pipeline that decides what is sent to the GPU:
/// which program variant is compiled, what the uniform buffer holds, and
/// what stands behind the cards.
#[derive(Debug)]
pub struct Pipeline {
    output: Output,
    configuration: Configuration,
    back_texture: Texture,
}

impl View for Pipeline {
    type V = PipelineView;

    closed spec fn view(&self) -> PipelineView {
        PipelineView {
            output: self.output,
            configuration: self.configuration,
            back_texture: self.back_texture,
        }
    }
}

impl Pipeline {
    /// What a pipeline compiled with `output` is when it is new: its uniform
    /// buffer holds the default configuration, and `back_texture` stands
    /// behind the cards.
    pub open spec fn fresh(output: Output, back_texture: Image) -> PipelineView {
        PipelineView {
            output,
            configuration: Configuration::default_spec(),
            back_texture: Texture { size: back_texture.size, format: TexelFormat::Rgba8UnormSrgb },
        }
    }

    /// A pipeline for render targets of `format`, with `back_texture` behind
    /// the cards. The format decides the output conversion, which is then
    /// fixed for the life of the pipeline.
    pub fn new(format: wgpu::TextureFormat, back_texture: Image) -> (r: Pipeline)
        requires
            back_texture.is_complete_spec(),
        ensures
            r@ == Pipeline::fresh(r@.output, back_texture),
    {
        Pipeline::with_output(Output::for_format(format), back_texture)
    }

    /// As [`Pipeline::new`], for a back texture of which nothing is known:
    /// nothing is built where its pixel data falls short of its size.
    pub fn try_new(format: wgpu::TextureFormat, back_texture: Image) -> (r: Option<Pipeline>)
        ensures
            r.is_some() == back_texture.is_complete_spec(),
            r matches Some(pipeline) ==> pipeline@ == Pipeline::fresh(
                pipeline@.output,
                back_texture,
            ),
    {
        if back_texture.is_complete() {
            Some(Pipeline::new(format, back_texture))
        } else {
            None
        }
    }

    /// A pipeline whose program is compiled with `output`, with `back_texture`
    /// behind the cards.
    pub fn with_output(output: Output, back_texture: Image) -> (r: Pipeline)
        requires
            back_texture.is_complete_spec(),
        ensures
            r@ == Pipeline::fresh(output, back_texture),
    {
        Pipeline {
            output,
            configuration: Configuration::default(),
            back_texture: back_texture.upload(),
        }
    }

    /// The output conversion the program is compiled with.
    pub fn output(&self) -> (r: Output)
        ensures
            r == self@.output,
    {
        self.output
    }

    /// The configuration that the uniform buffer holds.
    pub fn configuration(&self) -> (r: Configuration)
        ensures
            r == self@.configuration,
    {
        self.configuration
    }

    /// The texture shown behind translucent regions of a card.
    pub fn back_texture(&self) -> (r: Texture)
        ensures
            r == self@.back_texture,
    {
        self.back_texture
    }

    /// The bytes that the uniform buffer holds: the record of the
    /// configuration written last.
    pub fn uniforms(&self) -> (r: Vec<u8>)
        ensures
            image_of(r@, parameter_words(self@.configuration)),
            r@.len() == PARAMETERS_SIZE,
    {
        Parameters::from(self.configuration).to_bytes()
    }

    /// Makes `configuration` the current one. Returns the bytes to write at
    /// the start of the uniform buffer, or nothing where the buffer already
    /// holds an equal configuration.
    pub fn configure(&mut self, configuration: Configuration) -> (r: Option<Vec<u8>>)
        ensures
            final(self)@ == old(self)@.configured(configuration),
            r.is_some() == old(self)@.writes(configuration),
            r matches Some(bytes) ==> image_of(bytes@, parameter_words(configuration))
                && bytes@.len() == PARAMETERS_SIZE,
    {
        if self.configuration == configuration {
            return None;
        }
        self.configuration = configuration;
        Some(Parameters::from(configuration).to_bytes())
    }

    /// The card that `structure` becomes on the GPU. A slot whose mask is
    /// absent samples the colour layer.
    pub fn upload(&self, structure: &Structure) -> (r: Card)
        requires
            structure.is_complete_spec(),
        ensures
            r@ == Card::of(*structure),
            structure.foil.is_none() && structure.etching.is_none() ==> r@.binding == seq![
                Source::Base,
                Source::Base,
                Source::Base,
            ],
    {
        Card::assemble(structure)
    }

    /// As [`Pipeline::upload`], for a structure of which nothing is known:
    /// there is no card where the pixel data of a layer falls short of the
    /// layer's size.
    pub fn try_upload(&self, structure: &Structure) -> (r: Option<Card>)
        ensures
            r.is_some() == structure.is_complete_spec(),
            r matches Some(card) ==> card@ == Card::of(*structure),
    {
        if structure.is_complete() {
            Some(self.upload(structure))
        } else {
            None
        }
    }

    /// The steps that draw `card`, in the order they are recorded.
    pub fn render(&self, card: &Card) -> (r: Vec<Command>)
        ensures
            r@ == draw_commands(),
    {
        let r = vec![
            Command::SetPipeline,
            Command::SetBindGroup { index: 0, group: Group::Uniforms },
            Command::SetBindGroup { index: 1, group: Group::Textures },
            Command::SetVertexBuffer { slot: 0 },
            Command::Draw { vertices: 6, instances: 1 },
        ];
        r
    }
}

} // verus!
