use vstd::prelude::*;

use crate::commands::{draw_commands, single_draw_of, DrawableObject, ProgramHandle};
use crate::mesh::{fits_buffer, indices_within, mesh_result, MAX_INDEX_COUNT};
use crate::session::{is_null, DrawCall, Session, SessionError};

verus! {

/// An object created from well-formed mesh data (whole vertices, every index
/// naming one of them, sizes within GL's limits) can then be drawn with the
/// live program for any index count up to the mesh's: the draw issues exactly
/// one draw command, of that count, and every index it reads names a vertex.
pub proof fn lemma_created_object_draws_once(
    s: Session,
    object: DrawableObject,
    float_count: usize,
    indices: Seq<u32>,
    count: i32,
    program: ProgramHandle,
)
    requires
        s.wf(),
        !(s.window is Destroyed),
        s.frame is Cleared,
        s.program == Some(program),
        s.object is None,
        !is_null(object),
        float_count % 3 == 0,
        indices_within(indices, float_count as int / 3),
        indices.len() <= MAX_INDEX_COUNT,
        fits_buffer(float_count as int),
        0 <= count <= indices.len(),
    ensures
        s.create_result(object, float_count as int, indices) matches Ok(layout) && ({
            let s2 = s.created(object, layout);
            &&& s2.wf()
            &&& s2.draw_result(object, count, program) == Ok::<DrawCall, SessionError>(
                DrawCall { program, vertex_array: object.vertex_array, count },
            )
            &&& single_draw_of(draw_commands(program, object.vertex_array, count), count)
            &&& forall|i: int| 0 <= i < count ==> (#[trigger] indices[i] as int) < layout.vertex_count
        }),
{
    crate::commands::lemma_draw_commands_draw_once(program, object.vertex_array, count);
    let layout = mesh_result(float_count as int, indices)->Ok_0;
}

/// Each frame is presented on its own: beginning a frame, clearing, drawing
/// and beginning the next presents one frame that holds exactly that draw and
/// starts an empty one, while a frame cleared and not drawn into is presented
/// with no draw (the clear color alone).
pub proof fn lemma_frames_independent(s: Session, object: DrawableObject, count: i32, program: ProgramHandle)
    requires
        s.wf(),
        !(s.window is Destroyed),
        s.program == Some(program),
        s.object matches Some(lo) && lo.object == object && 0 <= count <= lo.index_count,
    ensures
        ({
            let call = DrawCall { program, vertex_array: object.vertex_array, count };
            let s1 = s.began().cleared();
            let s2 = s1.drew(call).began();
            &&& s1.draw_result(object, count, program) == Ok::<DrawCall, SessionError>(call)
            &&& s2.presented@ == s.presented@.push(s.current@).push(seq![call])
            &&& s2.current@ == Seq::<DrawCall>::empty()
            &&& s1.began().presented@.last() == Seq::<DrawCall>::empty()
        }),
{
    let s1 = s.began().cleared();
    assert(s1.current@ == Seq::<DrawCall>::empty());
    assert(Seq::<DrawCall>::empty().push(DrawCall { program, vertex_array: object.vertex_array, count })
        =~= seq![DrawCall { program, vertex_array: object.vertex_array, count }]);
}

/// Deleting an object invalidates it: a later draw naming it is refused, and
/// so is a second delete.
pub proof fn lemma_deleted_object_rejected(s: Session, object: DrawableObject, count: i32, program: ProgramHandle)
    requires
        s.delete_object_result(object) is Ok,
    ensures
        s.with_object(None).draw_result(object, count, program) is Err,
        s.with_object(None).delete_object_result(object) == Err::<(), SessionError>(SessionError::StaleObject),
        !(s.window is Destroyed) && s.frame is Cleared && s.program == Some(program) ==>
            s.with_object(None).draw_result(object, count, program) == Err::<DrawCall, SessionError>(SessionError::StaleObject),
{
}

} // verus!
