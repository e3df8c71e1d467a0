//! Aurex-X runtime core: render bootstrap planning, the mock renderer,
//! boot framebuffers and glyph drawing, music step scheduling, prime
//! factions, pulse graphs, procedural world seeds and renderer caches.

pub mod bootstrap;
pub mod text;
pub mod resonance;
pub mod renderer;
pub mod framebuffer;
pub mod music;
pub mod world;
pub mod sdf;
pub mod pulse;
pub mod boot;
pub mod rhythm;
pub mod scenes;
