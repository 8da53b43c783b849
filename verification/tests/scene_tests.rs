use glutin_opengl_demo::cube::{Cube, CUBE_VERTEX_COUNT, CUBE_VERTEX_STRIDE};
use glutin_opengl_demo::fx::FX_ONE;
use glutin_opengl_demo::renderer::{attrib_layout, gl_polygon_mode, AttribConfig, PolygonMode};
use glutin_opengl_demo::shader::{binding_name_str, BindingName};
use glutin_opengl_demo::texture::{gl_pixel_format, Texture, TextureFormat};
use glutin_opengl_demo::vec3::Vec3;
use glutin_opengl_demo::world::World;
use glutin_opengl_demo::game_specs::{POLYGON_MODE, TITLE, WINDOW_HEIGHT, WINDOW_WIDTH};

/// End-to-end scenario: a new world holds exactly one drawable,
/// anchored at the origin, with 36 vertices.
#[test]
fn world_has_one_cube_at_origin() {
    let w = World::new();
    assert_eq!(w.objects.len(), 1);
    assert_eq!(w.objects[0].anchor_position, Vec3::new(0, 0, 0));
    assert_eq!(w.objects[0].vertex_count(), 36);
    assert_eq!(w.objects[0].vertices.len(), 180);
}

#[test]
fn cube_mesh_shape() {
    let c = Cube::new(Vec3::new(FX_ONE, 0, -FX_ONE));
    assert_eq!(c.anchor_position, Vec3::new(FX_ONE, 0, -FX_ONE));
    assert_eq!(c.vertices.len(), (CUBE_VERTEX_COUNT * CUBE_VERTEX_STRIDE) as usize);
    // first vertex row: position (-0.5,-0.5,-0.5), texture (0,0)
    assert_eq!(&c.vertices[0..5], &[-500_000, -500_000, -500_000, 0, 0]);
    // every position component is inside [-0.5, 0.5]; every texture
    // coordinate is 0 or 1
    for v in 0..36 {
        for k in 0..3 {
            let p = c.vertices[v * 5 + k];
            assert!(p == -500_000 || p == 500_000);
        }
        for k in 3..5 {
            let t = c.vertices[v * 5 + k];
            assert!(t == 0 || t == FX_ONE);
        }
    }
}

/// The original demo's layout: position plus texture coordinates,
/// stride of five floats, offsets 0 and 12 bytes.
#[test]
fn attrib_layout_position_texture() {
    let (attribs, stride) = attrib_layout(AttribConfig { colour: false, texture: true });
    assert_eq!(stride, 20);
    assert_eq!(attribs.len(), 2);
    assert_eq!(attribs[0].name, BindingName::Position);
    assert_eq!(attribs[0].components, 3);
    assert_eq!(attribs[0].offset, 0);
    assert_eq!(attribs[1].name, BindingName::TextureCoord);
    assert_eq!(attribs[1].components, 2);
    assert_eq!(attribs[1].offset, 12);
}

#[test]
fn attrib_layout_all_attributes() {
    let (attribs, stride) = attrib_layout(AttribConfig { colour: true, texture: true });
    assert_eq!(stride, 32);
    assert_eq!(attribs.len(), 3);
    assert_eq!(attribs[1].name, BindingName::Colour);
    assert_eq!(attribs[1].offset, 12);
    assert_eq!(attribs[2].name, BindingName::TextureCoord);
    assert_eq!(attribs[2].offset, 24);
}

#[test]
fn attrib_layout_position_only() {
    let (attribs, stride) = attrib_layout(AttribConfig { colour: false, texture: false });
    assert_eq!(stride, 12);
    assert_eq!(attribs.len(), 1);
    assert_eq!(attribs[0].offset, 0);
}

#[test]
fn platform_constants() {
    assert_eq!(gl_polygon_mode(PolygonMode::Point), 0x1B00);
    assert_eq!(gl_polygon_mode(PolygonMode::Line), 0x1B01);
    assert_eq!(gl_polygon_mode(PolygonMode::Fill), 0x1B02);
    assert_eq!(gl_pixel_format(TextureFormat::Rgb), 0x1907);
    assert_eq!(gl_pixel_format(TextureFormat::Rgba), 0x1908);
}

#[test]
fn texture_model() {
    let t = Texture::new(7, TextureFormat::Rgb, true);
    assert_eq!(t.id, 7);
    assert_eq!(t.channels(), 3);
    let t2 = Texture::new(8, TextureFormat::Rgba, false);
    assert_eq!(t2.channels(), 4);
}

#[test]
fn binding_names_follow_convention() {
    assert_eq!(binding_name_str(BindingName::View), "view");
    assert_eq!(binding_name_str(BindingName::Projection), "projection");
    assert_eq!(binding_name_str(BindingName::Model), "model");
    assert_eq!(binding_name_str(BindingName::Texture1), "texture1");
    assert_eq!(binding_name_str(BindingName::Position), "position");
    assert_eq!(binding_name_str(BindingName::Colour), "colour");
    assert_eq!(binding_name_str(BindingName::TextureCoord), "texture");
}

#[test]
fn game_settings() {
    assert_eq!(TITLE, "OpenGL Demo");
    assert_eq!(WINDOW_WIDTH, 800);
    assert_eq!(WINDOW_HEIGHT, 600);
    assert_eq!(POLYGON_MODE, PolygonMode::Line);
}
