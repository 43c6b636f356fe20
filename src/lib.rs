//! A single-triangle renderer: the vertex layout and GPU command sequences,
//! the per-frame decision of the render loop, and the fixed scene parameters,
//! all stated over integers and checked by Verus. The program that owns the
//! window and the GL context executes what this library plans.

pub mod vertex;
pub mod scene;
pub mod frame;
