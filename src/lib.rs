//! Entity/component update runtime and frame planning for a small arena
//! scene: a fixed list of per-object components advanced once per frame, the
//! draw commands of one frame derived from the elapsed ticks, the recipes of
//! the textures baked once at startup, and the decisions of the frame loop.
pub mod actor;
pub mod bake;
pub mod frame;
pub mod game_loop;
pub mod paint;
