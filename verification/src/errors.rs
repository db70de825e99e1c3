//! Error taxonomy of the engine.
//!
//! Every failure the engine can report is one of these kinds. Startup-phase
//! failures (window, device, shader) are fatal and abort before the frame
//! loop begins; only a presentation failure is recoverable once the loop
//! runs: the frame is dropped and the loop continues.

use vstd::prelude::*;
use vstd::string::StringExecFns;

verus! {

/// The shader stage a compilation diagnostic belongs to.
#[derive(Clone, Copy, Debug, PartialEq, Eq, Structural)]
pub enum ShaderStage {
    Vertex,
    Fragment,
}

/// The error kinds of the engine.
///
/// Each variant carries the diagnostic text of the failure it reports,
/// exactly as the backend produced it.
#[derive(Debug, PartialEq, Eq)]
pub enum TemplateError {
    /// A resource file (a shader source) could not be read.
    Io(String),
    /// The windowing backend could not produce a window, negotiate a
    /// framebuffer configuration, or create and activate a context/surface.
    WindowCreation(String),
    /// The graphics-function dispatch table could not be bootstrapped.
    DeviceInit(String),
    /// One shader stage failed to compile; `log` is the backend's
    /// diagnostic text, unmodified.
    ShaderCompile { stage: ShaderStage, log: String },
    /// Linking the compiled stages failed; `log` is the backend's
    /// diagnostic text, unmodified.
    ShaderLink { log: String },
    /// The backend reported a buffer-swap failure.
    Presentation(String),
}

impl TemplateError {
    /// The fixed prefix under which an error of this kind is reported.
    pub open spec fn spec_prefix(self) -> Seq<char> {
        match self {
            TemplateError::Io(_) => "I/O error: "@,
            TemplateError::WindowCreation(_) => "window creation error: "@,
            TemplateError::DeviceInit(_) => "device init error: "@,
            TemplateError::ShaderCompile { stage: ShaderStage::Vertex, .. } => (
                "vertex shader compilation error: "@
            ),
            TemplateError::ShaderCompile { stage: ShaderStage::Fragment, .. } => (
                "fragment shader compilation error: "@
            ),
            TemplateError::ShaderLink { .. } => "shader link error: "@,
            TemplateError::Presentation(_) => "presentation error: "@,
        }
    }

    /// The diagnostic text carried by this error.
    pub open spec fn spec_detail(self) -> Seq<char> {
        match self {
            TemplateError::Io(s) => s@,
            TemplateError::WindowCreation(s) => s@,
            TemplateError::DeviceInit(s) => s@,
            TemplateError::ShaderCompile { log, .. } => log@,
            TemplateError::ShaderLink { log } => log@,
            TemplateError::Presentation(s) => s@,
        }
    }

    /// The fixed prefix under which an error of this kind is reported.
    pub fn prefix(&self) -> (r: &'static str)
        ensures
            r@ == self.spec_prefix(),
    {
        match self {
            TemplateError::Io(_) => "I/O error: ",
            TemplateError::WindowCreation(_) => "window creation error: ",
            TemplateError::DeviceInit(_) => "device init error: ",
            TemplateError::ShaderCompile { stage: ShaderStage::Vertex, .. } => (
                "vertex shader compilation error: "
            ),
            TemplateError::ShaderCompile { stage: ShaderStage::Fragment, .. } => (
                "fragment shader compilation error: "
            ),
            TemplateError::ShaderLink { .. } => "shader link error: ",
            TemplateError::Presentation(_) => "presentation error: ",
        }
    }

    /// The diagnostic text carried by this error, unmodified.
    pub fn detail(&self) -> (r: &str)
        ensures
            r@ == self.spec_detail(),
    {
        match self {
            TemplateError::Io(s) => s.as_str(),
            TemplateError::WindowCreation(s) => s.as_str(),
            TemplateError::DeviceInit(s) => s.as_str(),
            TemplateError::ShaderCompile { log, .. } => log.as_str(),
            TemplateError::ShaderLink { log } => log.as_str(),
            TemplateError::Presentation(s) => s.as_str(),
        }
    }

    /// A human-readable report: the kind's fixed prefix followed by the
    /// backend's diagnostic text, unmodified.
    pub fn message(&self) -> (r: String)
        ensures
            r@ == self.spec_prefix() + self.spec_detail(),
    {
        let mut s = String::from_str(self.prefix());
        s.append(self.detail());
        s
    }

    /// Whether the frame loop may continue after this error.
    ///
    /// Only a presentation failure is recoverable: a single missed present
    /// drops one frame. Every other kind is a fatal startup failure.
    pub fn is_recoverable(&self) -> (r: bool)
        ensures
            r <==> *self is Presentation,
    {
        match self {
            TemplateError::Presentation(_) => true,
            _ => false,
        }
    }
}

} // verus!
