//! The decisions of a small instanced-cube viewer: which window of instances
//! is drawn in each frame, how input events steer the session, the layout of
//! the instance grid and the cube's index buffer.

pub mod cube;
pub mod cycler;
pub mod instance;
pub mod session;
