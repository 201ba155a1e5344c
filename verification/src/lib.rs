//! Decision core of an audio clip editor and its floating tool windows.

pub mod actions;
pub mod adapter;
pub mod canvas;
pub mod editor;
pub mod editor_laws;
pub mod gesture_laws;
pub mod graph;
pub mod host;
pub mod inspector;
pub mod mask;
pub mod navigator;
pub mod panel;
pub mod panel_laws;
pub mod paths;
pub mod preview;
pub mod render;
pub mod repair;
pub mod repair_actions;
pub mod samples;
pub mod stretch;
pub mod target;
pub mod text;
pub mod timeline;
pub mod tool_window;
pub mod tools;
pub mod view_model;
pub mod viz;
pub mod window_items;
pub mod window_laws;
pub mod workspace;
