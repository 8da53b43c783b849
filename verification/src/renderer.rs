use vstd::prelude::*;
use vstd::arithmetic::div_mod::lemma_div_pos_is_pos;
use crate::cube::Cube;
use crate::mat4::{Mat4, is_translation_of};
use crate::shader::{Shader, BindingName};
use crate::texture::Texture;
use crate::vec3::vec3i;
use crate::world::World;

verus! {

/// The polygon rasterization modes the demo can select.
#[derive(Clone, Copy, PartialEq, Eq, Structural, Debug)]
pub enum PolygonMode {
    Point,
    Line,
    Fill,
}

/// The platform constant for a polygon mode: `GL_POINT`, `GL_LINE` or
/// `GL_FILL`.
pub fn gl_polygon_mode(mode: PolygonMode) -> (v: u32)
    ensures
        mode == PolygonMode::Point ==> v == 0x1B00,
        mode == PolygonMode::Line ==> v == 0x1B01,
        mode == PolygonMode::Fill ==> v == 0x1B02,
{
    match mode {
        PolygonMode::Point => 0x1B00,
        PolygonMode::Line => 0x1B01,
        PolygonMode::Fill => 0x1B02,
    }
}

/// Bytes per vertex scalar on the GPU.
pub const FLOAT_BYTES: u32 = 4;

/// Which optional vertex attributes the layout enables; the position
/// attribute is always present, at offset zero.
#[derive(Clone, Copy, PartialEq, Eq, Structural, Debug)]
pub struct AttribConfig {
    pub colour: bool,
    pub texture: bool,
}

/// One attribute of the interleaved vertex layout: the named shader
/// input it feeds, its component count and its byte offset into a
/// vertex.
#[derive(Clone, Copy, PartialEq, Eq, Structural, Debug)]
pub struct AttribPointer {
    pub name: BindingName,
    pub components: u32,
    pub offset: u32,
}

/// Bytes between consecutive vertices: the sum of the widths of all
/// enabled attributes.
pub open spec fn stride_of(config: AttribConfig) -> int {
    (3 + (if config.colour {
        3int
    } else {
        0int
    }) + (if config.texture {
        2int
    } else {
        0int
    })) * FLOAT_BYTES as int
}

/// The interleaved attribute layout for a configuration: position at
/// offset 0, then colour, then texture coordinates, each at the byte
/// offset where the previous attribute ends, with the common stride.
pub fn attrib_layout(config: AttribConfig) -> (r: (Vec<AttribPointer>, u32))
    ensures
        r.1 == stride_of(config),
        r.0@.len() == 1 + (if config.colour {
            1int
        } else {
            0int
        }) + (if config.texture {
            1int
        } else {
            0int
        }),
        r.0@[0] == (AttribPointer { name: BindingName::Position, components: 3, offset: 0 }),
        config.colour ==> r.0@[1] == (AttribPointer {
            name: BindingName::Colour,
            components: 3,
            offset: 12,
        }),
        config.texture ==> r.0@[r.0@.len() - 1] == (AttribPointer {
            name: BindingName::TextureCoord,
            components: 2,
            offset: (if config.colour {
                24u32
            } else {
                12u32
            }),
        }),
{
    let mut attribs: Vec<AttribPointer> = Vec::new();
    attribs.push(AttribPointer { name: BindingName::Position, components: 3, offset: 0 });
    let mut offset: u32 = 12;
    if config.colour {
        attribs.push(AttribPointer { name: BindingName::Colour, components: 3, offset });
        offset = offset + 12;
    }
    if config.texture {
        attribs.push(AttribPointer { name: BindingName::TextureCoord, components: 2, offset });
        offset = offset + 8;
    }
    (attribs, offset)
}

/// One step of the per-frame submission sequence, for the platform
/// layer to carry out in order.
#[derive(Clone, Copy, PartialEq, Eq, Structural, Debug)]
pub enum DrawCommand {
    /// Clear the colour and depth buffers.
    Clear,
    /// Make this texture unit current.
    ActivateTexture { unit: u32 },
    /// Bind this texture handle to the current unit.
    BindTexture { id: u32 },
    /// Push a matrix into the uniform at this cached location.
    SetMat4 { loc: i32, mat: Mat4 },
    /// Bind the vertex array the geometry was uploaded under.
    BindVertexArray { vao: u32 },
    /// Draw `count` vertices starting at vertex `first`.
    DrawArrays { first: u32, count: u32 },
}

/// The renderer is either freshly constructed or fully initialized;
/// only `init` leaves the first state, and only `render` is meaningful
/// in the second.
#[derive(Clone, Copy, PartialEq, Eq, Structural, Debug)]
pub enum RendererState {
    Uninitialized,
    Ready,
}

/// The renderer: the scene snapshot it consumed, the shader with its
/// cached uniform locations, the textures in texture-unit order (the
/// unit index is the position), and the vertex-array handle the
/// geometry was uploaded under.
#[derive(Debug)]
pub struct Renderer {
    pub state: RendererState,
    pub shader: Option<Shader>,
    pub objects: Vec<Cube>,
    pub textures: Vec<Texture>,
    pub vao: u32,
}

/// Vertices contributed by the first `j` drawables: where drawable `j`
/// starts in the packed vertex buffer.
pub open spec fn prefix_vertices(objects: Seq<Cube>, j: int) -> int
    decreases j,
{
    if j <= 0 {
        0
    } else {
        prefix_vertices(objects, j - 1) + objects[j - 1].vertices@.len() as int / 5
    }
}

/// The vertex prefix counts never decrease.
pub proof fn lemma_prefix_mono(objects: Seq<Cube>, j: int, k: int)
    requires
        0 <= j <= k,
    ensures
        prefix_vertices(objects, j) <= prefix_vertices(objects, k),
    decreases k - j,
{
    if j < k {
        lemma_prefix_mono(objects, j, k - 1);
        lemma_div_pos_is_pos(objects[k - 1].vertices@.len() as int, 5);
    }
}

/// Texture `k` is activated on unit `k` and bound there.
pub open spec fn texture_commands_ok(cmds: Seq<DrawCommand>, textures: Seq<Texture>, k: int) -> bool {
    cmds[1 + 2 * k] == (DrawCommand::ActivateTexture { unit: k as u32 })
    && cmds[2 + 2 * k] == (DrawCommand::BindTexture { id: textures[k].id })
}

/// Drawable `j` gets its own model matrix (the translation to its
/// anchor) pushed to the model uniform, then a draw call covering
/// exactly its vertex range in the packed buffer.
pub open spec fn object_commands_ok(
    cmds: Seq<DrawCommand>,
    objects: Seq<Cube>,
    base: int,
    model_loc: i32,
    j: int,
) -> bool {
    (cmds[base + 2 * j] matches DrawCommand::SetMat4 { loc, mat } && loc == model_loc
        && is_translation_of(mat, vec3i(objects[j].anchor_position)))
    && (cmds[base + 2 * j + 1] matches DrawCommand::DrawArrays { first, count }
        && first as int == prefix_vertices(objects, j)
        && count as int == objects[j].vertices@.len() as int / 5)
}

impl Renderer {
    /// A renderer before `init`: it holds no resources and may not draw.
    pub fn new() -> (r: Renderer)
        ensures
            r.state == RendererState::Uninitialized,
            r.shader is None,
            r.objects@.len() == 0,
            r.textures@.len() == 0,
    {
        Renderer {
            state: RendererState::Uninitialized,
            shader: None,
            objects: Vec::new(),
            textures: Vec::new(),
            vao: 0,
        }
    }

    /// Takes the one-time scene snapshot (the world is consumed), the
    /// validated shader, the loaded textures in texture-unit order and
    /// the vertex-array handle, and becomes Ready. Valid only once,
    /// in the Uninitialized state.
    pub fn init(&mut self, scene: World, shader: Shader, textures: Vec<Texture>, vao: u32)
        requires
            old(self).state == RendererState::Uninitialized,
        ensures
            final(self).state == RendererState::Ready,
            final(self).shader == Some(shader),
            final(self).objects == scene.objects,
            final(self).textures == textures,
            final(self).vao == vao,
    {
        self.shader = Some(shader);
        self.objects = scene.objects;
        self.textures = textures;
        self.vao = vao;
        self.state = RendererState::Ready;
    }

    /// The per-frame submission sequence: clear, bind each texture on
    /// its unit, push the view and projection matrices to their cached
    /// uniforms, bind the geometry, then for every drawable push its
    /// model matrix and draw exactly its vertex range. Valid only in
    /// the Ready state.
    pub fn render(&self, projection: Mat4, view: Mat4) -> (cmds: Vec<DrawCommand>)
        requires
            self.state == RendererState::Ready,
            self.shader is Some,
            self.textures@.len() <= 0xFFFF_FFFF,
            prefix_vertices(self.objects@, self.objects@.len() as int) <= 0xFFFF_FFFF,
        ensures
            cmds@.len() == 4 + 2 * self.textures@.len() + 2 * self.objects@.len(),
            cmds@[0] == DrawCommand::Clear,
            forall|k: int|
                0 <= k < self.textures@.len() ==> #[trigger] texture_commands_ok(
                    cmds@,
                    self.textures@,
                    k,
                ),
            cmds@[1 + 2 * self.textures@.len() as int] == (DrawCommand::SetMat4 {
                loc: self.shader->Some_0.view_loc,
                mat: view,
            }),
            cmds@[2 + 2 * self.textures@.len() as int] == (DrawCommand::SetMat4 {
                loc: self.shader->Some_0.projection_loc,
                mat: projection,
            }),
            cmds@[3 + 2 * self.textures@.len() as int] == (DrawCommand::BindVertexArray { vao: self.vao }),
            forall|j: int|
                0 <= j < self.objects@.len() ==> #[trigger] object_commands_ok(
                    cmds@,
                    self.objects@,
                    4 + 2 * self.textures@.len() as int,
                    self.shader->Some_0.model_loc,
                    j,
                ),
    {
        let sh: Shader = self.shader.unwrap();
        let mut cmds: Vec<DrawCommand> = Vec::new();
        cmds.push(DrawCommand::Clear);
        let mut i: usize = 0;
        while i < self.textures.len()
            invariant
                0 <= i <= self.textures@.len(),
                self.textures@.len() <= 0xFFFF_FFFF,
                cmds@.len() == 1 + 2 * i,
                cmds@[0] == DrawCommand::Clear,
                forall|k: int|
                    0 <= k < i ==> #[trigger] texture_commands_ok(cmds@, self.textures@, k),
            decreases self.textures@.len() - i,
        {
            let ghost prev = cmds@;
            cmds.push(DrawCommand::ActivateTexture { unit: i as u32 });
            cmds.push(DrawCommand::BindTexture { id: self.textures[i].id });
            proof {
                assert forall|k: int|
                    0 <= k < i + 1 implies texture_commands_ok(cmds@, self.textures@, k) by {
                    if k < i {
                        assert(texture_commands_ok(prev, self.textures@, k));
                        assert(cmds@[1 + 2 * k] == prev[1 + 2 * k]);
                        assert(cmds@[2 + 2 * k] == prev[2 + 2 * k]);
                    } else {
                        assert(cmds@[1 + 2 * k] == (DrawCommand::ActivateTexture {
                            unit: k as u32,
                        }));
                    }
                }
            }
            i = i + 1;
        }
        let ghost after_textures = cmds@;
        cmds.push(DrawCommand::SetMat4 { loc: sh.view_loc, mat: view });
        cmds.push(DrawCommand::SetMat4 { loc: sh.projection_loc, mat: projection });
        cmds.push(DrawCommand::BindVertexArray { vao: self.vao });
        proof {
            assert forall|k: int|
                0 <= k < self.textures@.len() implies texture_commands_ok(
                cmds@,
                self.textures@,
                k,
            ) by {
                assert(texture_commands_ok(after_textures, self.textures@, k));
                assert(cmds@[1 + 2 * k] == after_textures[1 + 2 * k]);
                assert(cmds@[2 + 2 * k] == after_textures[2 + 2 * k]);
            }
        }
        let base: usize = cmds.len();
        let mut first: u32 = 0;
        let mut j: usize = 0;
        while j < self.objects.len()
            invariant
                0 <= j <= self.objects@.len(),
                self.textures@.len() <= 0xFFFF_FFFF,
                prefix_vertices(self.objects@, self.objects@.len() as int) <= 0xFFFF_FFFF,
                base == 4 + 2 * self.textures@.len(),
                cmds@.len() == base + 2 * j,
                cmds@[0] == DrawCommand::Clear,
                forall|k: int|
                    0 <= k < self.textures@.len() ==> #[trigger] texture_commands_ok(
                        cmds@,
                        self.textures@,
                        k,
                    ),
                cmds@[1 + 2 * self.textures@.len() as int] == (DrawCommand::SetMat4 {
                    loc: sh.view_loc,
                    mat: view,
                }),
                cmds@[2 + 2 * self.textures@.len() as int] == (DrawCommand::SetMat4 {
                    loc: sh.projection_loc,
                    mat: projection,
                }),
                cmds@[3 + 2 * self.textures@.len() as int] == (DrawCommand::BindVertexArray {
                    vao: self.vao,
                }),
                forall|k: int|
                    0 <= k < j ==> #[trigger] object_commands_ok(
                        cmds@,
                        self.objects@,
                        base as int,
                        sh.model_loc,
                        k,
                    ),
                first as int == prefix_vertices(self.objects@, j as int),
                sh == self.shader->Some_0,
            decreases self.objects@.len() - j,
        {
            proof {
                lemma_prefix_mono(self.objects@, 0, j as int);
                lemma_prefix_mono(self.objects@, j as int + 1, self.objects@.len() as int);
                lemma_div_pos_is_pos(self.objects@[j as int].vertices@.len() as int, 5);
            }
            let ghost prev = cmds@;
            let model = Mat4::from_translation(self.objects[j].anchor_position);
            cmds.push(DrawCommand::SetMat4 { loc: sh.model_loc, mat: model });
            let count_usize: usize = self.objects[j].vertex_count();
            let count: u32 = count_usize as u32;
            cmds.push(DrawCommand::DrawArrays { first, count });
            proof {
                assert forall|k: int|
                    0 <= k < self.textures@.len() implies texture_commands_ok(
                    cmds@,
                    self.textures@,
                    k,
                ) by {
                    assert(texture_commands_ok(prev, self.textures@, k));
                    assert(cmds@[1 + 2 * k] == prev[1 + 2 * k]);
                    assert(cmds@[2 + 2 * k] == prev[2 + 2 * k]);
                }
                assert forall|k: int|
                    0 <= k < j + 1 implies object_commands_ok(
                    cmds@,
                    self.objects@,
                    base as int,
                    sh.model_loc,
                    k,
                ) by {
                    if k < j {
                        assert(object_commands_ok(prev, self.objects@, base as int, sh.model_loc, k));
                        assert(cmds@[base + 2 * k] == prev[base + 2 * k]);
                        assert(cmds@[base + 2 * k + 1] == prev[base + 2 * k + 1]);
                    } else {
                        assert(cmds@[base + 2 * k] == (DrawCommand::SetMat4 {
                            loc: sh.model_loc,
                            mat: model,
                        }));
                        assert(cmds@[base + 2 * k + 1] == (DrawCommand::DrawArrays {
                            first,
                            count,
                        }));
                    }
                }
            }
            first = first + count;
            j = j + 1;
        }
        cmds
    }
}

} // verus!
