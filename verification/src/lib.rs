//! The verified core of a small solar-system viewer.
//!
//! Two pieces of logic live here, both free of any windowing or graphics
//! concern: the state machine that turns key, button and pointer events into
//! what each frame is to do ([`interaction`]), and the hierarchy of bodies
//! along which world transforms are composed ([`scene`]).
//!
//! Neither piece computes with real numbers. Pointer positions, body
//! parameters and transforms are values of the caller's own types, and the
//! arithmetic on them is the caller's.
pub mod interaction;
pub mod scene;
