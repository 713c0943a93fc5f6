use vstd::prelude::*;

use crate::commands::{
    clear_commands, clear_plan, delete_object_commands, delete_object_plan, draw_commands,
    draw_plan, link_commands, link_plan, upload_commands, upload_plan, DrawableObject, GlCommand,
    ProgramHandle, VertexArrayHandle,
};
use crate::mesh::{check_mesh, mesh_result, MeshError, MeshLayout};

verus! {

/// Where the current loop iteration stands.
#[derive(Clone, Copy, Debug, PartialEq, Eq, Structural)]
pub enum FramePhase {
    /// No frame has begun yet.
    Idle,
    /// The previous frame was presented; the surface is not cleared yet.
    Begun,
    /// The surface is cleared: draws may follow.
    Cleared,
}

/// The window's life: no way leads back to `Ready`.
#[derive(Clone, Copy, Debug, PartialEq, Eq, Structural)]
pub enum WindowPhase {
    Ready,
    /// A close was requested: the loop ends when it next asks.
    Closing,
    /// Torn down: no more frames.
    Destroyed,
}

#[derive(Clone, Copy, Debug, PartialEq, Eq, Structural)]
pub enum Key {
    /// The close key.
    Escape,
    Other,
}

#[derive(Clone, Copy, Debug, PartialEq, Eq, Structural)]
pub enum KeyAction {
    Press,
    Release,
    Repeat,
}

/// An input event, reduced to what the session reacts to.
#[derive(Clone, Copy, Debug, PartialEq, Eq, Structural)]
pub enum WindowEvent {
    Key { key: Key, action: KeyAction },
    Other,
}

/// One issued draw: which program, which vertex array, how many indices.
#[derive(Clone, Copy, Debug, PartialEq, Eq, Structural)]
pub struct DrawCall {
    pub program: ProgramHandle,
    pub vertex_array: VertexArrayHandle,
    pub count: i32,
}

/// A created object together with the shape of the mesh it holds.
#[derive(Clone, Copy, Debug, PartialEq, Eq, Structural)]
pub struct LiveObject {
    pub object: DrawableObject,
    pub vertex_count: usize,
    pub index_count: usize,
}

#[derive(Clone, Copy, Debug, PartialEq, Eq, Structural)]
pub enum SessionError {
    /// A handle of 0, which GL never hands out for a live object.
    NullHandle,
    /// A program is live already.
    ProgramSlotTaken,
    /// An object is live already.
    ObjectSlotTaken,
    /// The object is still live: delete it before the program.
    ObjectStillLive,
    /// The program is not the live one (never created, or deleted).
    StaleProgram,
    /// The object is not the live one (never created, or deleted).
    StaleObject,
    /// No frame has begun.
    FrameNotBegun,
    /// The surface was not cleared in this frame.
    FrameNotCleared,
    /// The draw names more indices than the object holds, or fewer than none.
    IndexCountOutOfRange,
    /// The window was torn down.
    WindowDestroyed,
    /// The mesh data was refused.
    Mesh(MeshError),
}

/// The whole rendering state of one window: at most one program and one
/// object, the frame order, and the frames presented so far.
pub struct Session {
    pub program: Option<ProgramHandle>,
    pub object: Option<LiveObject>,
    pub frame: FramePhase,
    pub window: WindowPhase,
    /// The draws of each presented frame, oldest first.
    pub presented: Ghost<Seq<Seq<DrawCall>>>,
    /// The draws of the frame being built.
    pub current: Ghost<Seq<DrawCall>>,
}

pub open spec fn is_null(object: DrawableObject) -> bool {
    object.vertex_array.0 == 0 || object.vertex_buffer.0 == 0 || object.index_buffer.0 == 0
}

/// The event asks to close the window: a press of the close key.
pub open spec fn is_close_request(event: WindowEvent) -> bool {
    event == (WindowEvent::Key { key: Key::Escape, action: KeyAction::Press })
}

pub open spec fn any_close_request(events: Seq<WindowEvent>) -> bool {
    exists|i: int| 0 <= i < events.len() && is_close_request(#[trigger] events[i])
}

impl Session {
    pub open spec fn wf(self) -> bool {
        self.object matches Some(lo) ==> lo.index_count <= crate::mesh::MAX_INDEX_COUNT
    }

    pub open spec fn with_window(self, window: WindowPhase) -> Session {
        Session { window, ..self }
    }

    pub open spec fn with_program(self, program: Option<ProgramHandle>) -> Session {
        Session { program, ..self }
    }

    pub open spec fn with_object(self, object: Option<LiveObject>) -> Session {
        Session { object, ..self }
    }

    /// The state after a close request arrives.
    pub open spec fn close_requested(self) -> Session {
        if self.window is Ready {
            self.with_window(WindowPhase::Closing)
        } else {
            self
        }
    }

    /// The state after the frame being built is presented and a new one begun.
    pub open spec fn began(self) -> Session {
        Session {
            frame: FramePhase::Begun,
            presented: Ghost(self.presented@.push(self.current@)),
            current: Ghost(Seq::empty()),
            ..self
        }
    }

    pub open spec fn cleared(self) -> Session {
        Session { frame: FramePhase::Cleared, ..self }
    }

    pub open spec fn drew(self, call: DrawCall) -> Session {
        Session { current: Ghost(self.current@.push(call)), ..self }
    }

    /// What a draw of `count` indices of `object` with `program` decides.
    pub open spec fn draw_result(self, object: DrawableObject, count: i32, program: ProgramHandle) -> Result<DrawCall, SessionError> {
        if self.window is Destroyed {
            Err(SessionError::WindowDestroyed)
        } else if !(self.frame is Cleared) {
            Err(SessionError::FrameNotCleared)
        } else if self.program != Some(program) {
            Err(SessionError::StaleProgram)
        } else if !(self.object matches Some(lo) && lo.object == object) {
            Err(SessionError::StaleObject)
        } else if count < 0 || count > self.object.unwrap().index_count {
            Err(SessionError::IndexCountOutOfRange)
        } else {
            Ok(DrawCall { program, vertex_array: object.vertex_array, count })
        }
    }

    /// What creating `object` over the given mesh data decides.
    pub open spec fn create_result(self, object: DrawableObject, float_count: int, indices: Seq<u32>) -> Result<MeshLayout, SessionError> {
        if is_null(object) {
            Err(SessionError::NullHandle)
        } else if self.object is Some {
            Err(SessionError::ObjectSlotTaken)
        } else {
            match mesh_result(float_count, indices) {
                Ok(layout) => Ok(layout),
                Err(e) => Err(SessionError::Mesh(e)),
            }
        }
    }

    pub open spec fn created(self, object: DrawableObject, layout: MeshLayout) -> Session {
        self.with_object(
            Some(LiveObject { object, vertex_count: layout.vertex_count, index_count: layout.index_count }),
        )
    }

    pub open spec fn delete_object_result(self, object: DrawableObject) -> Result<(), SessionError> {
        if self.object matches Some(lo) && lo.object == object {
            Ok(())
        } else {
            Err(SessionError::StaleObject)
        }
    }

    pub open spec fn create_program_result(self, vertex_shader: u32, fragment_shader: u32, program: ProgramHandle) -> Result<(), SessionError> {
        if vertex_shader == 0 || fragment_shader == 0 || program.0 == 0 {
            Err(SessionError::NullHandle)
        } else if self.program is Some {
            Err(SessionError::ProgramSlotTaken)
        } else {
            Ok(())
        }
    }

    pub open spec fn delete_program_result(self, program: ProgramHandle) -> Result<(), SessionError> {
        if self.program != Some(program) {
            Err(SessionError::StaleProgram)
        } else if self.object is Some {
            Err(SessionError::ObjectStillLive)
        } else {
            Ok(())
        }
    }

    /// A session for a freshly opened window: nothing created, no frame begun.
    pub fn new() -> (r: Session)
        ensures
            r.wf(),
            r.program is None,
            r.object is None,
            r.frame == FramePhase::Idle,
            r.window == WindowPhase::Ready,
            r.presented@ == Seq::<Seq<DrawCall>>::empty(),
            r.current@ == Seq::<DrawCall>::empty(),
    {
        Session {
            program: None,
            object: None,
            frame: FramePhase::Idle,
            window: WindowPhase::Ready,
            presented: Ghost(Seq::empty()),
            current: Ghost(Seq::empty()),
        }
    }

    /// Reacts to one input event: a press of the close key asks to close;
    /// every other event is ignored.
    pub fn handle_window_event(&mut self, event: WindowEvent)
        ensures
            is_close_request(event) ==> *final(self) == old(self).close_requested(),
            !is_close_request(event) ==> *final(self) == *old(self),
    {
        if let WindowEvent::Key { key: Key::Escape, action: KeyAction::Press } = event {
            if let WindowPhase::Ready = self.window {
                self.window = WindowPhase::Closing;
            }
        }
    }

    /// The loop must end: the OS asked to close, or a close was requested, or
    /// the window is gone.
    pub fn should_close(&self, os_close_requested: bool) -> (r: bool)
        ensures
            r == (os_close_requested || !(self.window is Ready)),
    {
        os_close_requested || !matches!(self.window, WindowPhase::Ready)
    }

    /// Presents the frame being built and begins a new, empty one.
    pub fn begin_frame(&mut self) -> (r: Result<(), SessionError>)
        ensures
            old(self).window is Destroyed ==> r == Err::<(), _>(SessionError::WindowDestroyed)
                && *final(self) == *old(self),
            !(old(self).window is Destroyed) ==> r is Ok && *final(self) == old(self).began(),
    {
        if let WindowPhase::Destroyed = self.window {
            return Err(SessionError::WindowDestroyed);
        }
        self.frame = FramePhase::Begun;
        self.presented = Ghost(self.presented@.push(self.current@));
        self.current = Ghost(Seq::empty());
        Ok(())
    }

    /// Clears the whole surface; allowed once a frame has begun.
    pub fn clear(&mut self) -> (r: Result<Vec<GlCommand>, SessionError>)
        ensures
            old(self).window is Destroyed ==> r == Err::<Vec<GlCommand>, _>(SessionError::WindowDestroyed)
                && *final(self) == *old(self),
            !(old(self).window is Destroyed) && old(self).frame is Idle ==> r == Err::<Vec<GlCommand>, _>(SessionError::FrameNotBegun)
                && *final(self) == *old(self),
            !(old(self).window is Destroyed) && !(old(self).frame is Idle) ==> (r matches Ok(c)
                && c@ == clear_commands() && *final(self) == old(self).cleared()),
    {
        if let WindowPhase::Destroyed = self.window {
            return Err(SessionError::WindowDestroyed);
        }
        if let FramePhase::Idle = self.frame {
            return Err(SessionError::FrameNotBegun);
        }
        self.frame = FramePhase::Cleared;
        Ok(clear_plan())
    }

    /// One loop iteration's start: presents the previous frame, reacts to the
    /// events polled since, and clears the surface.
    pub fn tick_beginning(&mut self, events: &Vec<WindowEvent>) -> (r: Result<Vec<GlCommand>, SessionError>)
        ensures
            old(self).window is Destroyed ==> r == Err::<Vec<GlCommand>, _>(SessionError::WindowDestroyed)
                && *final(self) == *old(self),
            !(old(self).window is Destroyed) ==> (r matches Ok(c) && c@ == clear_commands()
                && *final(self) == (if any_close_request(events@) {
                    old(self).began().close_requested().cleared()
                } else {
                    old(self).began().cleared()
                })),
    {
        if let Err(e) = self.begin_frame() {
            return Err(e);
        }
        let ghost begun = *self;
        let mut i: usize = 0;
        while i < events.len()
            invariant
                i <= events@.len(),
                *self == (if any_close_request(events@.take(i as int)) {
                    begun.close_requested()
                } else {
                    begun
                }),
                begun.window is Ready || begun.window is Closing,
            decreases events@.len() - i,
        {
            let ghost before = *self;
            self.handle_window_event(events[i]);
            proof {
                let prefix = events@.take(i as int);
                let next = events@.take(i as int + 1);
                assert(next == prefix.push(events@[i as int]));
                if is_close_request(events@[i as int]) {
                    assert(is_close_request(next[i as int]));
                } else if any_close_request(next) {
                    let j = choose|j: int| 0 <= j < next.len() && is_close_request(#[trigger] next[j]);
                    assert(prefix[j] == next[j]);
                }
            }
            i = i + 1;
        }
        assert(events@.take(i as int) == events@);
        self.clear()
    }

    /// Records a linked program; the host made the three GL objects.
    pub fn compile_shader_program(&mut self, vertex_shader: u32, fragment_shader: u32, program: ProgramHandle) -> (r: Result<Vec<GlCommand>, SessionError>)
        ensures
            old(self).create_program_result(vertex_shader, fragment_shader, program) is Ok ==> (
                r matches Ok(c) && c@ == link_commands(vertex_shader, fragment_shader, program)
                && *final(self) == old(self).with_program(Some(program))),
            old(self).create_program_result(vertex_shader, fragment_shader, program) matches Err(e) ==>
                r == Err::<Vec<GlCommand>, _>(e) && *final(self) == *old(self),
    {
        if vertex_shader == 0 || fragment_shader == 0 || program.0 == 0 {
            return Err(SessionError::NullHandle);
        }
        if self.program.is_some() {
            return Err(SessionError::ProgramSlotTaken);
        }
        self.program = Some(program);
        Ok(link_plan(vertex_shader, fragment_shader, program))
    }

    /// Releases the live program; the object must be deleted first.
    pub fn delete_shader_program(&mut self, program: ProgramHandle) -> (r: Result<Vec<GlCommand>, SessionError>)
        ensures
            old(self).delete_program_result(program) is Ok ==> (r matches Ok(c)
                && c@ == seq![GlCommand::DeleteProgram { program }]
                && *final(self) == old(self).with_program(None)),
            old(self).delete_program_result(program) matches Err(e) ==>
                r == Err::<Vec<GlCommand>, _>(e) && *final(self) == *old(self),
    {
        let is_live = match self.program {
            Some(p) => p == program,
            None => false,
        };
        if !is_live {
            return Err(SessionError::StaleProgram);
        }
        if self.object.is_some() {
            return Err(SessionError::ObjectStillLive);
        }
        self.program = None;
        let mut c: Vec<GlCommand> = Vec::new();
        c.push(GlCommand::DeleteProgram { program });
        assert(c@ =~= seq![GlCommand::DeleteProgram { program }]);
        Ok(c)
    }

    /// Records `object`, whose three GL objects the host made, as holding
    /// `float_count` vertex floats and `indices`, and plans their upload.
    pub fn create_obj(&mut self, object: DrawableObject, float_count: usize, indices: &Vec<u32>) -> (r: Result<Vec<GlCommand>, SessionError>)
        requires
            old(self).wf(),
        ensures
            final(self).wf(),
            old(self).create_result(object, float_count as int, indices@) matches Ok(layout) ==> (
                r matches Ok(c) && c@ == upload_commands(object, layout)
                && *final(self) == old(self).created(object, layout)),
            old(self).create_result(object, float_count as int, indices@) matches Err(e) ==>
                r == Err::<Vec<GlCommand>, _>(e) && *final(self) == *old(self),
    {
        if object.vertex_array.0 == 0 || object.vertex_buffer.0 == 0 || object.index_buffer.0 == 0 {
            return Err(SessionError::NullHandle);
        }
        if self.object.is_some() {
            return Err(SessionError::ObjectSlotTaken);
        }
        let layout = match check_mesh(float_count, indices) {
            Ok(layout) => layout,
            Err(e) => return Err(SessionError::Mesh(e)),
        };
        self.object = Some(
            LiveObject { object, vertex_count: layout.vertex_count, index_count: layout.index_count },
        );
        Ok(upload_plan(object, layout))
    }

    /// Releases the live object's three GL objects together.
    pub fn delete_obj(&mut self, object: DrawableObject) -> (r: Result<Vec<GlCommand>, SessionError>)
        requires
            old(self).wf(),
        ensures
            final(self).wf(),
            old(self).delete_object_result(object) is Ok ==> (r matches Ok(c)
                && c@ == delete_object_commands(object) && *final(self) == old(self).with_object(None)),
            old(self).delete_object_result(object) matches Err(e) ==>
                r == Err::<Vec<GlCommand>, _>(e) && *final(self) == *old(self),
    {
        let is_live = match self.object {
            Some(lo) => lo.object == object,
            None => false,
        };
        if !is_live {
            return Err(SessionError::StaleObject);
        }
        self.object = None;
        Ok(delete_object_plan(object))
    }

    /// Draws the first `count` indices of the live object with the live
    /// program, in a cleared frame.
    pub fn draw(&mut self, object: DrawableObject, count: i32, program: ProgramHandle) -> (r: Result<Vec<GlCommand>, SessionError>)
        requires
            old(self).wf(),
        ensures
            final(self).wf(),
            old(self).draw_result(object, count, program) matches Ok(call) ==> (r matches Ok(c)
                && c@ == draw_commands(program, object.vertex_array, count)
                && *final(self) == old(self).drew(call)),
            old(self).draw_result(object, count, program) matches Err(e) ==>
                r == Err::<Vec<GlCommand>, _>(e) && *final(self) == *old(self),
    {
        if let WindowPhase::Destroyed = self.window {
            return Err(SessionError::WindowDestroyed);
        }
        if !matches!(self.frame, FramePhase::Cleared) {
            return Err(SessionError::FrameNotCleared);
        }
        let is_live = match self.program {
            Some(p) => p == program,
            None => false,
        };
        if !is_live {
            return Err(SessionError::StaleProgram);
        }
        let held = match self.object {
            Some(lo) => {
                if lo.object != object {
                    return Err(SessionError::StaleObject);
                }
                lo.index_count
            },
            None => return Err(SessionError::StaleObject),
        };
        if count < 0 || count as usize > held {
            return Err(SessionError::IndexCountOutOfRange);
        }
        let ghost call = DrawCall { program, vertex_array: object.vertex_array, count };
        self.current = Ghost(self.current@.push(call));
        Ok(draw_plan(program, object.vertex_array, count))
    }

    /// Ends the window's life: no frame begins after this.
    pub fn destroy(&mut self)
        ensures
            *final(self) == old(self).with_window(WindowPhase::Destroyed),
    {
        self.window = WindowPhase::Destroyed;
    }
}

} // verus!
