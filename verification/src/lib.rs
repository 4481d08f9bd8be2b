//! Verified decision core of a fly-camera render loop.

pub mod action;
pub mod binary32;
pub mod geometry;
pub mod input;
pub mod motion;
pub mod pitch;
pub mod state;
