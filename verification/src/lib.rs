//! A scene-graph renderer for character terminals.
//!
//! Nodes carry text, patterns, animations, colour areas and children. A layout
//! pass resolves their dimensions, a compositing pass rasterises them into
//! grids of styled cells, and the frame driver turns the difference between
//! two frames into ANSI escape sequences.
pub mod color;
pub mod color_area;
pub mod color_text;
pub mod colors;
pub mod decimal;
pub mod geometry;
pub mod misc;
pub mod palette_laws;
pub mod pixel;
pub mod renderer;
pub mod renderer_laws;
pub mod renderer_object;
pub mod renderer_object_border;
pub mod renderer_object_edit;
pub mod renderer_object_paint;
pub mod renderer_object_style;
pub mod text;
