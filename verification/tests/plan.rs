use holofoil::plan::{
    instance_attributes, pack, shader_source, textures_layout, uniforms_layout, Attribute, Output,
    Resource, Slot, VertexFormat,
};

#[test]
fn shared_layout_has_sampler_texture_and_uniform() {
    assert_eq!(
        uniforms_layout(),
        vec![
            Slot { binding: 0, resource: Resource::Sampler },
            Slot { binding: 1, resource: Resource::Texture },
            Slot { binding: 2, resource: Resource::Uniform },
        ]
    );
}

#[test]
fn card_layout_has_three_textures() {
    assert_eq!(
        textures_layout(),
        vec![
            Slot { binding: 0, resource: Resource::Texture },
            Slot { binding: 1, resource: Resource::Texture },
            Slot { binding: 2, resource: Resource::Texture },
        ]
    );
}

#[test]
fn vertex_format_sizes() {
    assert_eq!(VertexFormat::Float32x2.size(), 8);
    assert_eq!(VertexFormat::Float32x4.size(), 16);
}

#[test]
fn instance_record_attributes() {
    let (attributes, stride) = instance_attributes();
    assert_eq!(
        attributes,
        vec![
            Attribute { location: 0, format: VertexFormat::Float32x4, offset: 0 },
            Attribute { location: 1, format: VertexFormat::Float32x2, offset: 16 },
            Attribute { location: 2, format: VertexFormat::Float32x4, offset: 24 },
        ]
    );
    assert_eq!(stride, 40);
    assert_eq!(stride, holofoil::card::INSTANCE_SIZE);
}

#[test]
fn pack_lays_formats_out_without_gaps() {
    let (attributes, size) = pack(&vec![
        VertexFormat::Float32x2,
        VertexFormat::Float32x2,
        VertexFormat::Float32x4,
        VertexFormat::Float32x2,
    ]);
    assert_eq!(
        attributes,
        vec![
            Attribute { location: 0, format: VertexFormat::Float32x2, offset: 0 },
            Attribute { location: 1, format: VertexFormat::Float32x2, offset: 8 },
            Attribute { location: 2, format: VertexFormat::Float32x4, offset: 16 },
            Attribute { location: 3, format: VertexFormat::Float32x2, offset: 32 },
        ]
    );
    assert_eq!(size, 40);
}

#[test]
fn pack_of_nothing_is_empty() {
    let (attributes, size) = pack(&Vec::new());
    assert_eq!(attributes, Vec::new());
    assert_eq!(size, 0);
}

#[test]
fn shader_source_appends_the_conversion_that_goes_with_the_output() {
    assert_eq!(shader_source("program", "linear", "gamma", Output::Linear), "program\nlinear");
    assert_eq!(shader_source("program", "linear", "gamma", Output::Gamma), "program\ngamma");
}

#[test]
fn shader_source_keeps_empty_parts_and_line_breaks() {
    assert_eq!(shader_source("", "", "", Output::Linear), "\n");
    assert_eq!(shader_source("a\n", "b\n", "c", Output::Linear), "a\n\nb\n");
    assert_eq!(shader_source("fn f() {}", "x", "// y", Output::Gamma), "fn f() {}\n// y");
}
