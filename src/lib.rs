//! Window and rendering-context core for a desktop graphics sandbox.
//!
//! The library holds the decisions of the X11/GLX setup and of the frame loop
//! as functions on plain values; the program around it performs the protocol
//! round trips and the driver calls and hands their results in.
pub mod desktop;
pub mod frame_loop;
pub mod glx;
pub mod opengl;
pub mod protocol;
pub mod world;
