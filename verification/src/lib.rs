//! Core of an in-application tile-map level editor.
//!
//! A map is an ordered stack of typed layers bound to nodes of a scene
//! graph; an editing session navigates it with a pan/zoom camera and
//! mutates it only through a deferred command queue, so that structural
//! changes never race with an in-progress UI traversal.

pub mod camera;
pub mod commands;
pub mod export;
pub mod geometry;
pub mod map;
pub mod matchmaker_proto;
pub mod scene;
pub mod session;
pub mod ui;
pub mod world;
