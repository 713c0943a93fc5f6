//! GPU resource and frame lifecycle for a minimal OpenGL sandbox.
//!
//! The library decides; the host executes. Every operation checks the
//! handles and the frame order it is given and answers with the exact list of
//! GL commands to issue, so that the host program only performs the calls.
pub mod commands;
pub mod lemmas;
pub mod mesh;
pub mod session;

