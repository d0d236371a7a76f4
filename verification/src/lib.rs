//! Verified core of a terrain editor: the scheduling of the asynchronous
//! terrain loading commands, progress tracking, clipmap bookkeeping, heightmap
//! data handling and the texturing toolbox rules.
pub mod cmds;
pub mod clipmap;
pub mod config;
pub mod environment;
pub mod gui_state;
pub mod heightmap;
pub mod loader;
pub mod progresstracking;
pub mod terrain_clipmap;
pub mod terrain_material;
pub mod terrain_painting;
pub mod terrain_render;
pub mod text;
pub mod toolbox;
