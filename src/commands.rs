use vstd::prelude::*;

use crate::mesh::MeshLayout;

verus! {

/// A linked shader program, as named by the GL driver.
#[derive(Clone, Copy, Debug, PartialEq, Eq, Structural)]
pub struct ProgramHandle(pub u32);

/// A vertex-array object, as named by the GL driver.
#[derive(Clone, Copy, Debug, PartialEq, Eq, Structural)]
pub struct VertexArrayHandle(pub u32);

/// A buffer object, as named by the GL driver.
#[derive(Clone, Copy, Debug, PartialEq, Eq, Structural)]
pub struct BufferHandle(pub u32);

/// The three GL objects that make up one mesh: they are created together and
/// deleted together.
#[derive(Clone, Copy, Debug, PartialEq, Eq, Structural)]
pub struct DrawableObject {
    pub vertex_array: VertexArrayHandle,
    pub vertex_buffer: BufferHandle,
    pub index_buffer: BufferHandle,
}

#[derive(Clone, Copy, Debug, PartialEq, Eq, Structural)]
pub enum ShaderStage {
    Vertex,
    Fragment,
}

#[derive(Clone, Copy, Debug, PartialEq, Eq, Structural)]
pub enum BufferTarget {
    /// Vertex storage (`GL_ARRAY_BUFFER`).
    Array,
    /// Index storage (`GL_ELEMENT_ARRAY_BUFFER`).
    ElementArray,
}

/// A color with one byte per channel; 255 stands for full intensity.
#[derive(Clone, Copy, Debug, PartialEq, Eq, Structural)]
pub struct Rgba8 {
    pub r: u8,
    pub g: u8,
    pub b: u8,
    pub a: u8,
}

/// One GL call for the host to issue. Data that only the host holds (shader
/// text for a stage, the vertex and index arrays for a target, a uniform's
/// value) is named by the command, not carried in it.
#[derive(Clone, Copy, Debug, PartialEq, Eq, Structural)]
pub enum GlCommand {
    /// Hands the source text of `stage` to `shader`.
    ShaderSource { shader: u32, stage: ShaderStage },
    CompileShader { shader: u32 },
    AttachShader { program: ProgramHandle, shader: u32 },
    LinkProgram { program: ProgramHandle },
    UseProgram { program: ProgramHandle },
    BindVertexArray { vertex_array: VertexArrayHandle },
    BindBuffer { target: BufferTarget, buffer: BufferHandle },
    /// Uploads the host's data for `target`, `byte_len` bytes, as static
    /// draw-once storage.
    BufferData { target: BufferTarget, byte_len: u64 },
    /// Describes attribute slot `index` as `components` tightly packed,
    /// unnormalized floats per vertex, starting at offset 0.
    VertexAttribPointer { index: u32, components: i32 },
    EnableVertexAttribArray { index: u32 },
    ClearColor { color: Rgba8 },
    /// Clears the color and depth buffers of the whole surface.
    ClearColorAndDepth,
    /// Draws a triangle list of `count` unsigned 32-bit indices from offset 0.
    DrawElements { count: i32 },
    /// Sets the float uniform at `location` to the host's value.
    SetUniformFloat { location: i32 },
    DeleteVertexArray { vertex_array: VertexArrayHandle },
    DeleteBuffer { buffer: BufferHandle },
    DeleteProgram { program: ProgramHandle },
}

/// The clear color of every frame: magenta, with zero alpha.
pub open spec fn magenta() -> Rgba8 {
    Rgba8 { r: 255, g: 0, b: 255, a: 0 }
}

/// The one vertex attribute of every mesh: a 3-float position in slot 0.
pub open spec fn position_slot() -> u32 {
    0
}

pub open spec fn link_commands(vertex_shader: u32, fragment_shader: u32, program: ProgramHandle) -> Seq<GlCommand> {
    seq![
        GlCommand::ShaderSource { shader: vertex_shader, stage: ShaderStage::Vertex },
        GlCommand::CompileShader { shader: vertex_shader },
        GlCommand::ShaderSource { shader: fragment_shader, stage: ShaderStage::Fragment },
        GlCommand::CompileShader { shader: fragment_shader },
        GlCommand::AttachShader { program, shader: vertex_shader },
        GlCommand::AttachShader { program, shader: fragment_shader },
        GlCommand::LinkProgram { program },
    ]
}

pub open spec fn upload_commands(object: DrawableObject, layout: MeshLayout) -> Seq<GlCommand> {
    seq![
        GlCommand::BindVertexArray { vertex_array: object.vertex_array },
        GlCommand::BindBuffer { target: BufferTarget::Array, buffer: object.vertex_buffer },
        GlCommand::BufferData { target: BufferTarget::Array, byte_len: layout.vertex_bytes },
        GlCommand::BindBuffer { target: BufferTarget::ElementArray, buffer: object.index_buffer },
        GlCommand::BufferData { target: BufferTarget::ElementArray, byte_len: layout.index_bytes },
        GlCommand::VertexAttribPointer { index: position_slot(), components: 3 },
        GlCommand::EnableVertexAttribArray { index: position_slot() },
    ]
}

pub open spec fn draw_commands(program: ProgramHandle, vertex_array: VertexArrayHandle, count: i32) -> Seq<GlCommand> {
    seq![
        GlCommand::UseProgram { program },
        GlCommand::BindVertexArray { vertex_array },
        GlCommand::DrawElements { count },
    ]
}

pub open spec fn clear_commands() -> Seq<GlCommand> {
    seq![GlCommand::ClearColor { color: magenta() }, GlCommand::ClearColorAndDepth]
}

pub open spec fn delete_object_commands(object: DrawableObject) -> Seq<GlCommand> {
    seq![
        GlCommand::DeleteVertexArray { vertex_array: object.vertex_array },
        GlCommand::DeleteBuffer { buffer: object.vertex_buffer },
        GlCommand::DeleteBuffer { buffer: object.index_buffer },
    ]
}

/// `-1` is the location of a uniform that the program does not declare:
/// setting it issues nothing.
pub open spec fn uniform_commands(location: i32) -> Seq<GlCommand> {
    if location == -1 {
        seq![]
    } else {
        seq![GlCommand::SetUniformFloat { location }]
    }
}

/// Commands `cmds` hold exactly one draw, and it names `count` indices.
pub open spec fn single_draw_of(cmds: Seq<GlCommand>, count: i32) -> bool {
    exists|j: int|
        0 <= j < cmds.len() && cmds[j] == (GlCommand::DrawElements { count }) && forall|k: int|
            0 <= k < cmds.len() && k != j ==> !(#[trigger] cmds[k] is DrawElements)
}

/// Hands each stage its source, compiles both, attaches both to `program`
/// and links it.
pub fn link_plan(vertex_shader: u32, fragment_shader: u32, program: ProgramHandle) -> (r: Vec<GlCommand>)
    ensures
        r@ == link_commands(vertex_shader, fragment_shader, program),
{
    let mut r: Vec<GlCommand> = Vec::new();
    r.push(GlCommand::ShaderSource { shader: vertex_shader, stage: ShaderStage::Vertex });
    r.push(GlCommand::CompileShader { shader: vertex_shader });
    r.push(GlCommand::ShaderSource { shader: fragment_shader, stage: ShaderStage::Fragment });
    r.push(GlCommand::CompileShader { shader: fragment_shader });
    r.push(GlCommand::AttachShader { program, shader: vertex_shader });
    r.push(GlCommand::AttachShader { program, shader: fragment_shader });
    r.push(GlCommand::LinkProgram { program });
    assert(r@ =~= link_commands(vertex_shader, fragment_shader, program));
    r
}

/// Fills the object's vertex and index buffers and describes attribute slot 0
/// as a 3-float position.
pub fn upload_plan(object: DrawableObject, layout: MeshLayout) -> (r: Vec<GlCommand>)
    ensures
        r@ == upload_commands(object, layout),
{
    let mut r: Vec<GlCommand> = Vec::new();
    r.push(GlCommand::BindVertexArray { vertex_array: object.vertex_array });
    r.push(GlCommand::BindBuffer { target: BufferTarget::Array, buffer: object.vertex_buffer });
    r.push(GlCommand::BufferData { target: BufferTarget::Array, byte_len: layout.vertex_bytes });
    r.push(GlCommand::BindBuffer { target: BufferTarget::ElementArray, buffer: object.index_buffer });
    r.push(GlCommand::BufferData { target: BufferTarget::ElementArray, byte_len: layout.index_bytes });
    r.push(GlCommand::VertexAttribPointer { index: 0, components: 3 });
    r.push(GlCommand::EnableVertexAttribArray { index: 0 });
    assert(r@ =~= upload_commands(object, layout));
    r
}

/// Draws `count` indices of `vertex_array` with `program`.
pub fn draw_plan(program: ProgramHandle, vertex_array: VertexArrayHandle, count: i32) -> (r: Vec<GlCommand>)
    ensures
        r@ == draw_commands(program, vertex_array, count),
{
    let mut r: Vec<GlCommand> = Vec::new();
    r.push(GlCommand::UseProgram { program });
    r.push(GlCommand::BindVertexArray { vertex_array });
    r.push(GlCommand::DrawElements { count });
    assert(r@ =~= draw_commands(program, vertex_array, count));
    r
}

/// Clears color and depth to magenta.
pub fn clear_plan() -> (r: Vec<GlCommand>)
    ensures
        r@ == clear_commands(),
{
    let mut r: Vec<GlCommand> = Vec::new();
    r.push(GlCommand::ClearColor { color: Rgba8 { r: 255, g: 0, b: 255, a: 0 } });
    r.push(GlCommand::ClearColorAndDepth);
    assert(r@ =~= clear_commands());
    r
}

/// Releases the vertex array and both buffers of `object`.
pub fn delete_object_plan(object: DrawableObject) -> (r: Vec<GlCommand>)
    ensures
        r@ == delete_object_commands(object),
{
    let mut r: Vec<GlCommand> = Vec::new();
    r.push(GlCommand::DeleteVertexArray { vertex_array: object.vertex_array });
    r.push(GlCommand::DeleteBuffer { buffer: object.vertex_buffer });
    r.push(GlCommand::DeleteBuffer { buffer: object.index_buffer });
    assert(r@ =~= delete_object_commands(object));
    r
}

/// What setting a float uniform at `location` issues.
pub fn set_uniform_float(location: i32) -> (r: Vec<GlCommand>)
    ensures
        r@ == uniform_commands(location),
{
    let mut r: Vec<GlCommand> = Vec::new();
    if location != -1 {
        r.push(GlCommand::SetUniformFloat { location });
    }
    assert(r@ =~= uniform_commands(location));
    r
}

/// A draw plan issues exactly one draw, of the `count` indices it was given.
pub proof fn lemma_draw_commands_draw_once(program: ProgramHandle, vertex_array: VertexArrayHandle, count: i32)
    ensures
        single_draw_of(draw_commands(program, vertex_array, count), count),
{
    let cmds = draw_commands(program, vertex_array, count);
    assert(cmds[2] == (GlCommand::DrawElements { count }));
    assert forall|k: int| 0 <= k < cmds.len() && k != 2 implies !(#[trigger] cmds[k] is DrawElements) by {
        if k == 0 {
            assert(cmds[0] == (GlCommand::UseProgram { program }));
        } else {
            assert(cmds[1] == (GlCommand::BindVertexArray { vertex_array }));
        }
    }
}

} // verus!
