//! A minimal real-time rendering bootstrap, with its resource lifecycle and
//! frame-loop logic verified.
//!
//! The library holds the decision logic of the engine: the error taxonomy,
//! vertex-count derivation, the uniform-location cache, projection and
//! viewport bookkeeping, the shader build outcomes, and the event-driven
//! state machine of the application loop. The thin layer that talks to the
//! window system and the graphics device lives outside the library and is
//! driven by the values and actions this library computes.

pub mod animation;
pub mod app_loop;
pub mod context;
pub mod errors;
pub mod mesh;
pub mod projection;
pub mod renderer;
pub mod shader;

pub use app_loop::{AppAction, AppCore, AppEvent, AppPhase};
pub use context::GlContextBuilder;
pub use errors::{ShaderStage, TemplateError};
pub use mesh::Mesh;
pub use projection::Projection;
pub use renderer::Viewport;
pub use shader::Shader;
