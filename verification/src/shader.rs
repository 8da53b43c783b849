use vstd::prelude::*;

verus! {

/// The shader inputs the pipeline supplies by name convention: the
/// three transform uniforms, the texture sampler, and the vertex
/// attributes.
#[derive(Clone, Copy, PartialEq, Eq, Structural, Debug)]
pub enum BindingName {
    View,
    Projection,
    Model,
    Texture1,
    Position,
    Colour,
    TextureCoord,
}

/// The exact variable name a binding is looked up under in the linked
/// program; a lookup under any other spelling silently fails.
pub fn binding_name_str(name: BindingName) -> (r: &'static str)
    ensures
        name == BindingName::View ==> r@ == "view"@,
        name == BindingName::Projection ==> r@ == "projection"@,
        name == BindingName::Model ==> r@ == "model"@,
        name == BindingName::Texture1 ==> r@ == "texture1"@,
        name == BindingName::Position ==> r@ == "position"@,
        name == BindingName::Colour ==> r@ == "colour"@,
        name == BindingName::TextureCoord ==> r@ == "texture"@,
{
    match name {
        BindingName::View => "view",
        BindingName::Projection => "projection",
        BindingName::Model => "model",
        BindingName::Texture1 => "texture1",
        BindingName::Position => "position",
        BindingName::Colour => "colour",
        BindingName::TextureCoord => "texture",
    }
}

/// What can go fatally wrong while building the pipeline: a missing or
/// unreadable asset, a stage that failed to compile or link (with the
/// diagnostic log), or a name lookup the linked program answered with
/// its not-found sentinel.
#[derive(Debug)]
pub enum RenderError {
    ResourceLoadFailure(String),
    CompileOrLinkFailure(String),
    AttributeBindingMismatch(BindingName),
}

/// A linked shader program: the handle the platform returned and the
/// uniform locations cached once at construction, so no frame repeats
/// the by-name lookup and no invalid location survives construction.
#[derive(Clone, Copy, PartialEq, Eq, Structural, Debug)]
pub struct Shader {
    pub id: u32,
    pub view_loc: i32,
    pub projection_loc: i32,
    pub model_loc: i32,
    pub texture1_loc: i32,
}

/// One verdict over the three shader build stages: success exactly
/// when both stages and the final link succeeded; otherwise the first
/// failing stage's diagnostic log, which the caller must surface.
pub fn check_compile_link(
    vertex_ok: bool,
    vertex_log: String,
    fragment_ok: bool,
    fragment_log: String,
    link_ok: bool,
    link_log: String,
) -> (r: Result<(), RenderError>)
    ensures
        r is Ok <==> (vertex_ok && fragment_ok && link_ok),
        !vertex_ok ==> r == Result::<(), RenderError>::Err(
            RenderError::CompileOrLinkFailure(vertex_log),
        ),
        vertex_ok && !fragment_ok ==> r == Result::<(), RenderError>::Err(
            RenderError::CompileOrLinkFailure(fragment_log),
        ),
        vertex_ok && fragment_ok && !link_ok ==> r == Result::<(), RenderError>::Err(
            RenderError::CompileOrLinkFailure(link_log),
        ),
{
    if !vertex_ok {
        Err(RenderError::CompileOrLinkFailure(vertex_log))
    } else if !fragment_ok {
        Err(RenderError::CompileOrLinkFailure(fragment_log))
    } else if !link_ok {
        Err(RenderError::CompileOrLinkFailure(link_log))
    } else {
        Ok(())
    }
}

impl Shader {
    /// Caches the four uniform locations looked up against the linked
    /// program `id`. The platform answers a missing name with a
    /// negative sentinel; rather than draw garbage, construction fails
    /// loudly on the first missing binding, so a `Shader` value only
    /// ever holds valid locations.
    pub fn new(
        id: u32,
        view_loc: i32,
        projection_loc: i32,
        model_loc: i32,
        texture1_loc: i32,
    ) -> (r: Result<Shader, RenderError>)
        ensures
            r is Ok <==> (view_loc >= 0 && projection_loc >= 0 && model_loc >= 0 && texture1_loc
                >= 0),
            r is Ok ==> r->Ok_0 == (Shader { id, view_loc, projection_loc, model_loc, texture1_loc }),
            view_loc < 0 ==> r == Result::<Shader, RenderError>::Err(
                RenderError::AttributeBindingMismatch(BindingName::View),
            ),
            view_loc >= 0 && projection_loc < 0 ==> r == Result::<Shader, RenderError>::Err(
                RenderError::AttributeBindingMismatch(BindingName::Projection),
            ),
            view_loc >= 0 && projection_loc >= 0 && model_loc < 0 ==> r == Result::<
                Shader,
                RenderError,
            >::Err(RenderError::AttributeBindingMismatch(BindingName::Model)),
            view_loc >= 0 && projection_loc >= 0 && model_loc >= 0 && texture1_loc < 0 ==> r
                == Result::<Shader, RenderError>::Err(
                RenderError::AttributeBindingMismatch(BindingName::Texture1),
            ),
    {
        if view_loc < 0 {
            Err(RenderError::AttributeBindingMismatch(BindingName::View))
        } else if projection_loc < 0 {
            Err(RenderError::AttributeBindingMismatch(BindingName::Projection))
        } else if model_loc < 0 {
            Err(RenderError::AttributeBindingMismatch(BindingName::Model))
        } else if texture1_loc < 0 {
            Err(RenderError::AttributeBindingMismatch(BindingName::Texture1))
        } else {
            Ok(Shader { id, view_loc, projection_loc, model_loc, texture1_loc })
        }
    }
}

} // verus!
