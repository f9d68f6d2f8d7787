//! The Elpis widget protocol and sandbox bridge logic.

pub mod float;
pub mod facet;
pub mod style;
pub mod json;
pub mod json_text;
pub mod animation;
pub mod canvas;
pub mod scene3d;
pub mod node;
pub mod diff;
pub mod roundtrip;
pub mod hostcall;
pub mod event;
pub mod backend;
pub mod bridge;
pub mod lower;
pub mod sandbox;
