use gl_sandbox::commands::{
    BufferHandle, DrawableObject, GlCommand, ProgramHandle, VertexArrayHandle,
};
use gl_sandbox::mesh::MeshError;
use gl_sandbox::session::{
    FramePhase, Key, KeyAction, Session, SessionError, WindowEvent, WindowPhase,
};

fn quad_object() -> DrawableObject {
    DrawableObject {
        vertex_array: VertexArrayHandle(1),
        vertex_buffer: BufferHandle(2),
        index_buffer: BufferHandle(3),
    }
}

fn quad_indices() -> Vec<u32> {
    vec![0, 1, 3, 1, 2, 3]
}

/// A session with the quad and a program, inside a cleared frame.
fn ready_session() -> Session {
    let mut s = Session::new();
    s.create_obj(quad_object(), 12, &quad_indices()).unwrap();
    s.compile_shader_program(4, 5, ProgramHandle(9)).unwrap();
    s.begin_frame().unwrap();
    s.clear().unwrap();
    s
}

fn escape_press() -> WindowEvent {
    WindowEvent::Key { key: Key::Escape, action: KeyAction::Press }
}

#[test]
fn new_session_is_empty() {
    let s = Session::new();
    assert_eq!(s.program, None);
    assert_eq!(s.object, None);
    assert_eq!(s.frame, FramePhase::Idle);
    assert_eq!(s.window, WindowPhase::Ready);
}

#[test]
fn created_object_draws_exactly_once() {
    let mut s = ready_session();
    let cmds = s.draw(quad_object(), 6, ProgramHandle(9)).unwrap();
    let draws: Vec<&GlCommand> =
        cmds.iter().filter(|c| matches!(c, GlCommand::DrawElements { .. })).collect();
    assert_eq!(draws, vec![&GlCommand::DrawElements { count: 6 }]);
}

#[test]
fn draw_of_fewer_indices_is_allowed() {
    let mut s = ready_session();
    assert!(s.draw(quad_object(), 3, ProgramHandle(9)).is_ok());
    assert!(s.draw(quad_object(), 0, ProgramHandle(9)).is_ok());
}

#[test]
fn draw_past_the_mesh_is_refused() {
    let mut s = ready_session();
    assert_eq!(s.draw(quad_object(), 7, ProgramHandle(9)), Err(SessionError::IndexCountOutOfRange));
    assert_eq!(s.draw(quad_object(), -1, ProgramHandle(9)), Err(SessionError::IndexCountOutOfRange));
}

#[test]
fn draw_before_clear_is_refused() {
    let mut s = Session::new();
    s.create_obj(quad_object(), 12, &quad_indices()).unwrap();
    s.compile_shader_program(4, 5, ProgramHandle(9)).unwrap();
    assert_eq!(s.draw(quad_object(), 6, ProgramHandle(9)), Err(SessionError::FrameNotCleared));
    s.begin_frame().unwrap();
    assert_eq!(s.draw(quad_object(), 6, ProgramHandle(9)), Err(SessionError::FrameNotCleared));
}

#[test]
fn clear_before_begin_is_refused() {
    let mut s = Session::new();
    assert_eq!(s.clear(), Err(SessionError::FrameNotBegun));
}

#[test]
fn draw_with_unknown_program_is_refused() {
    let mut s = ready_session();
    assert_eq!(s.draw(quad_object(), 6, ProgramHandle(8)), Err(SessionError::StaleProgram));
}

#[test]
fn begin_clear_draw_begin_presents_two_frames() {
    let mut s = Session::new();
    s.create_obj(quad_object(), 12, &quad_indices()).unwrap();
    s.compile_shader_program(4, 5, ProgramHandle(9)).unwrap();
    s.begin_frame().unwrap();
    assert_eq!(s.frame, FramePhase::Begun);
    s.clear().unwrap();
    assert_eq!(s.frame, FramePhase::Cleared);
    assert!(s.draw(quad_object(), 6, ProgramHandle(9)).is_ok());
    s.begin_frame().unwrap();
    assert_eq!(s.frame, FramePhase::Begun);
    assert_eq!(s.draw(quad_object(), 6, ProgramHandle(9)), Err(SessionError::FrameNotCleared));
}

#[test]
fn deleted_object_cannot_be_drawn_or_deleted_again() {
    let mut s = ready_session();
    let cmds = s.delete_obj(quad_object()).unwrap();
    assert_eq!(cmds.len(), 3);
    assert_eq!(s.draw(quad_object(), 6, ProgramHandle(9)), Err(SessionError::StaleObject));
    assert_eq!(s.delete_obj(quad_object()), Err(SessionError::StaleObject));
}

#[test]
fn program_is_deleted_after_object() {
    let mut s = ready_session();
    assert_eq!(s.delete_shader_program(ProgramHandle(9)), Err(SessionError::ObjectStillLive));
    s.delete_obj(quad_object()).unwrap();
    assert_eq!(
        s.delete_shader_program(ProgramHandle(9)),
        Ok(vec![GlCommand::DeleteProgram { program: ProgramHandle(9) }])
    );
    assert_eq!(s.delete_shader_program(ProgramHandle(9)), Err(SessionError::StaleProgram));
    assert_eq!(s.program, None);
}

#[test]
fn null_handles_are_refused() {
    let mut s = Session::new();
    let mut o = quad_object();
    o.index_buffer = BufferHandle(0);
    assert_eq!(s.create_obj(o, 12, &quad_indices()), Err(SessionError::NullHandle));
    assert_eq!(s.compile_shader_program(0, 5, ProgramHandle(9)), Err(SessionError::NullHandle));
    assert_eq!(s.compile_shader_program(4, 5, ProgramHandle(0)), Err(SessionError::NullHandle));
}

#[test]
fn second_object_or_program_is_refused() {
    let mut s = ready_session();
    assert_eq!(s.create_obj(quad_object(), 12, &quad_indices()), Err(SessionError::ObjectSlotTaken));
    assert_eq!(s.compile_shader_program(4, 5, ProgramHandle(10)), Err(SessionError::ProgramSlotTaken));
}

#[test]
fn bad_mesh_is_refused_and_leaves_slot_free() {
    let mut s = Session::new();
    assert_eq!(
        s.create_obj(quad_object(), 12, &vec![0, 1, 4]),
        Err(SessionError::Mesh(MeshError::IndexOutOfRange))
    );
    assert_eq!(s.object, None);
}

#[test]
fn escape_press_requests_close() {
    let mut s = Session::new();
    assert!(!s.should_close(false));
    s.handle_window_event(WindowEvent::Key { key: Key::Escape, action: KeyAction::Release });
    s.handle_window_event(WindowEvent::Key { key: Key::Other, action: KeyAction::Press });
    s.handle_window_event(WindowEvent::Other);
    assert!(!s.should_close(false));
    assert!(s.should_close(true));
    s.handle_window_event(escape_press());
    assert_eq!(s.window, WindowPhase::Closing);
    assert!(s.should_close(false));
}

#[test]
fn tick_beginning_presents_reacts_and_clears() {
    let mut s = Session::new();
    let cmds = s.tick_beginning(&vec![WindowEvent::Other]).unwrap();
    assert_eq!(cmds.len(), 2);
    assert_eq!(s.frame, FramePhase::Cleared);
    assert_eq!(s.window, WindowPhase::Ready);
    s.tick_beginning(&vec![WindowEvent::Other, escape_press()]).unwrap();
    assert_eq!(s.window, WindowPhase::Closing);
}

#[test]
fn destroyed_window_has_no_frames() {
    let mut s = ready_session();
    s.destroy();
    assert_eq!(s.begin_frame(), Err(SessionError::WindowDestroyed));
    assert_eq!(s.clear(), Err(SessionError::WindowDestroyed));
    assert_eq!(s.tick_beginning(&Vec::new()), Err(SessionError::WindowDestroyed));
    assert_eq!(s.draw(quad_object(), 6, ProgramHandle(9)), Err(SessionError::WindowDestroyed));
    assert!(s.should_close(false));
}

#[test]
fn quad_scene_uploads_and_draws_six_indices() {
    let vertices: [f32; 12] = [
        0.5, 0.5, 0.0, 0.5, -0.5, 0.0, -0.5, -0.5, 0.0, -0.5, 0.5, 0.0,
    ];
    let mut s = Session::new();
    let upload = s.create_obj(quad_object(), vertices.len(), &quad_indices()).unwrap();
    assert!(upload.contains(&GlCommand::BufferData {
        target: gl_sandbox::commands::BufferTarget::Array,
        byte_len: 48
    }));
    s.compile_shader_program(4, 5, ProgramHandle(9)).unwrap();
    let clear = s.tick_beginning(&Vec::new()).unwrap();
    assert_eq!(
        clear[0],
        GlCommand::ClearColor { color: gl_sandbox::commands::Rgba8 { r: 255, g: 0, b: 255, a: 0 } }
    );
    let draw = s.draw(quad_object(), 6, ProgramHandle(9)).unwrap();
    assert_eq!(draw[2], GlCommand::DrawElements { count: 6 });
}
