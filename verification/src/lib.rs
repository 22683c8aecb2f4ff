//! Pointer interaction for the objects of a 3D scene.
//!
//! Once per frame the resolver learns which edges the pointer had, whether a
//! flat element in front of the scene has the pointer, and what the ray of
//! each camera meets. From these it decides for every interactive object
//! whether it is idle, hovered or pressed, and which objects the next frame
//! has to clear.

pub mod config;
pub mod frame;
pub mod input;
pub mod interaction;
pub mod laws;
pub mod node;
pub mod point;
pub mod ray_cast;
mod steps;
pub mod ui_2d;
pub mod ui_3d;
pub mod ui_state;

pub use config::PluginConfig;
pub use interaction::Interaction3d;
pub use node::NodeQuery;
