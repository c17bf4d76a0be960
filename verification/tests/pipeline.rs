use holofoil::card::{Image, TexelFormat, Texture};
use holofoil::pipeline::PARAMETERS_SIZE;
use holofoil::plan::{Command, Group, Output};
use holofoil::scalar::Scalar;
use holofoil::wgpu::TextureFormat;
use holofoil::{Bytes, Configuration, Light, Parameters, Pipeline, Vector};

fn back() -> Image {
    Image { rgba: Bytes::from(vec![7u8; 64]), size: 4 }
}

fn light(x: f32, y: f32, z: f32, power: f32) -> Light {
    Light {
        position: Vector::from_bits(x.to_bits(), y.to_bits(), z.to_bits()),
        power: Scalar::from_bits(power.to_bits()),
    }
}

fn words(bytes: &[u8]) -> Vec<u32> {
    bytes.chunks(4).map(|c| u32::from_ne_bytes([c[0], c[1], c[2], c[3]])).collect()
}

#[test]
fn default_configuration() {
    let configuration = Configuration::default();
    assert_eq!(configuration.n_samples, 2);
    assert_eq!(configuration.max_iterations, 128);
    assert_eq!(f32::from_bits(configuration.light.position.x.bits), 3.0);
    assert_eq!(f32::from_bits(configuration.light.position.y.bits), 4.0);
    assert_eq!(f32::from_bits(configuration.light.position.z.bits), -20.0);
    assert_eq!(f32::from_bits(configuration.light.power.bits), 400.0);
    assert!(configuration.in_range());
}

#[test]
fn configuration_ranges() {
    let base = Configuration::default();
    assert!(Configuration { n_samples: 1, max_iterations: 32, ..base }.in_range());
    assert!(Configuration { n_samples: 8, max_iterations: 256, ..base }.in_range());
    assert!(!Configuration { n_samples: 0, ..base }.in_range());
    assert!(!Configuration { n_samples: 9, ..base }.in_range());
    assert!(!Configuration { max_iterations: 31, ..base }.in_range());
    assert!(!Configuration { max_iterations: 257, ..base }.in_range());
}

#[test]
fn configuration_equality() {
    let a = Configuration { n_samples: 4, max_iterations: 64, light: light(1.0, 0.0, 2.0, 5.0) };
    let b = Configuration { n_samples: 4, max_iterations: 64, light: light(1.0, -0.0, 2.0, 5.0) };
    assert!(a == b);
    assert!(a != Configuration { n_samples: 5, ..a });
    assert!(a != Configuration { max_iterations: 65, ..a });
    assert!(a != Configuration { light: light(1.0, 0.0, 2.0, 6.0), ..a });
    assert!(a != Configuration { light: light(1.0, 0.5, 2.0, 5.0), ..a });
    let nan = Configuration { light: light(1.0, 0.0, 2.0, f32::NAN), ..a };
    assert!(nan != nan);
}

#[test]
fn parameters_record_layout() {
    let configuration =
        Configuration { n_samples: 3, max_iterations: 200, light: light(1.5, -2.0, 8.0, 100.0) };
    let parameters = Parameters::from(configuration);
    let expected = vec![
        3,
        200,
        0,
        0,
        1.5f32.to_bits(),
        (-2.0f32).to_bits(),
        8.0f32.to_bits(),
        100.0f32.to_bits(),
    ];
    assert_eq!(parameters.to_words(), expected);
    let bytes = parameters.to_bytes();
    assert_eq!(bytes.len() as u64, PARAMETERS_SIZE);
    assert_eq!(words(&bytes), expected);
    assert_eq!(&bytes[0..4], &3u32.to_ne_bytes());
    assert_eq!(&bytes[4..8], &200u32.to_ne_bytes());
    assert_eq!(&bytes[8..16], &[0u8; 8]);
    assert_eq!(&bytes[16..20], &1.5f32.to_ne_bytes());
    assert_eq!(&bytes[28..32], &100.0f32.to_ne_bytes());
}

#[test]
fn new_pipeline_holds_the_default_configuration() {
    let pipeline = Pipeline::new(TextureFormat::Bgra8Unorm, back());
    assert!(pipeline.configuration() == Configuration::default());
    assert_eq!(
        pipeline.back_texture(),
        Texture { size: 4, format: TexelFormat::Rgba8UnormSrgb }
    );
    let expected = vec![
        2,
        128,
        0,
        0,
        3.0f32.to_bits(),
        4.0f32.to_bits(),
        (-20.0f32).to_bits(),
        400.0f32.to_bits(),
    ];
    assert_eq!(words(&pipeline.uniforms()), expected);
}

#[test]
fn output_follows_the_target() {
    assert_eq!(Output::for_target(true), Output::Linear);
    assert_eq!(Output::for_target(false), Output::Gamma);
    assert_eq!(Pipeline::with_output(Output::Linear, back()).output(), Output::Linear);
    assert_eq!(Pipeline::with_output(Output::Gamma, back()).output(), Output::Gamma);
}

#[test]
fn output_follows_the_format() {
    assert_eq!(Pipeline::new(TextureFormat::Rgba8UnormSrgb, back()).output(), Output::Linear);
    assert_eq!(Pipeline::new(TextureFormat::Bgra8UnormSrgb, back()).output(), Output::Linear);
    assert_eq!(Pipeline::new(TextureFormat::Rgba8Unorm, back()).output(), Output::Gamma);
    assert_eq!(Pipeline::new(TextureFormat::Bgra8Unorm, back()).output(), Output::Gamma);
    assert_eq!(Pipeline::new(TextureFormat::Rgba16Float, back()).output(), Output::Gamma);
}

#[test]
fn pipelines_differ_in_their_output_only() {
    let linear = Pipeline::new(TextureFormat::Bgra8UnormSrgb, back());
    let gamma = Pipeline::new(TextureFormat::Bgra8Unorm, back());
    assert!(linear.configuration() == gamma.configuration());
    assert_eq!(linear.back_texture(), gamma.back_texture());
    assert_eq!(linear.uniforms(), gamma.uniforms());
}

#[test]
fn equal_configurations_are_written_once() {
    let mut pipeline = Pipeline::new(TextureFormat::Bgra8UnormSrgb, back());
    let configuration =
        Configuration { n_samples: 4, max_iterations: 64, light: light(1.0, 2.0, 3.0, 50.0) };
    let first = pipeline.configure(configuration);
    let second = pipeline.configure(configuration);
    assert_eq!(
        first.map(|bytes| words(&bytes)),
        Some(vec![
            4,
            64,
            0,
            0,
            1.0f32.to_bits(),
            2.0f32.to_bits(),
            3.0f32.to_bits(),
            50.0f32.to_bits()
        ])
    );
    assert_eq!(second, None);
    assert!(pipeline.configuration() == configuration);
    assert_eq!(pipeline.configure(configuration), None);
}

#[test]
fn differing_configurations_are_written_twice() {
    let mut pipeline = Pipeline::new(TextureFormat::Bgra8UnormSrgb, back());
    let one = Configuration { n_samples: 4, max_iterations: 64, light: light(1.0, 2.0, 3.0, 50.0) };
    let two = Configuration { n_samples: 5, ..one };
    assert!(pipeline.configure(one).is_some());
    let second = pipeline.configure(two);
    assert_eq!(second.map(|bytes| words(&bytes)[0]), Some(5));
    assert!(pipeline.configuration() == two);
    assert!(pipeline.configure(one).is_some());
}

#[test]
fn the_default_is_not_written_again_after_construction() {
    let mut pipeline = Pipeline::new(TextureFormat::Bgra8UnormSrgb, back());
    assert_eq!(pipeline.configure(Configuration::default()), None);
    assert!(pipeline.configuration() == Configuration::default());
}

#[test]
fn a_configuration_with_a_nan_is_written_every_time() {
    let mut pipeline = Pipeline::new(TextureFormat::Bgra8UnormSrgb, back());
    let nan = Configuration { light: light(f32::NAN, 0.0, 0.0, 1.0), ..Configuration::default() };
    assert!(pipeline.configure(nan).is_some());
    assert!(pipeline.configure(nan).is_some());
}

#[test]
fn zeros_of_either_sign_are_not_written_again() {
    let mut pipeline = Pipeline::new(TextureFormat::Bgra8UnormSrgb, back());
    let plus = Configuration { light: light(0.0, 0.0, 0.0, 1.0), ..Configuration::default() };
    let minus = Configuration { light: light(-0.0, 0.0, -0.0, 1.0), ..Configuration::default() };
    assert!(pipeline.configure(plus).is_some());
    assert_eq!(pipeline.configure(minus), None);
    assert_eq!(pipeline.configuration().light.position.x.bits, 0);
}

#[test]
fn render_records_one_draw_of_the_quad() {
    let pipeline = Pipeline::new(TextureFormat::Bgra8UnormSrgb, back());
    let card = pipeline.upload(&holofoil::card::Structure {
        base: back(),
        foil: None,
        etching: None,
        width: 3,
    });
    assert_eq!(
        pipeline.render(&card),
        vec![
            Command::SetPipeline,
            Command::SetBindGroup { index: 0, group: Group::Uniforms },
            Command::SetBindGroup { index: 1, group: Group::Textures },
            Command::SetVertexBuffer { slot: 0 },
            Command::Draw { vertices: 6, instances: 1 },
        ]
    );
}

#[test]
fn nothing_is_built_on_a_short_back_texture() {
    let short = Image { rgba: Bytes::from(vec![7u8; 63]), size: 4 };
    assert!(Pipeline::try_new(TextureFormat::Bgra8Unorm, short).is_none());
    let whole = Pipeline::try_new(TextureFormat::Bgra8Unorm, back());
    assert_eq!(whole.map(|pipeline| pipeline.output()), Some(Output::Gamma));
}
