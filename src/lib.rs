pub mod auto_binder;
pub mod binding;
pub mod buffer;
pub mod clear_buffers;
pub mod color_buffer;
pub mod context;
pub mod error;
pub mod framebuffer;
pub mod gl;
pub mod prelude;
pub mod shader;
pub mod texture;
pub mod variant;
pub mod viewport;

pub use auto_binder::{AutoBinder, SlotBinder};
pub use binding::Binding;
pub use buffer::{Buffer, VertexArray, VertexAttrib};
pub use clear_buffers::ClearBuffers;
pub use color_buffer::ColorBuffer;
pub use context::{Command, Context};
pub use error::Error;
pub use framebuffer::{Framebuffer, FramebufferAttachment, FramebufferObject};
pub use prelude::Bindable;
pub use shader::{Parameter, PendingProgram, PendingShader, Program, Shader, UniformValue};
pub use texture::{
    Texture, TextureFilter, TextureFormat, TextureLoadOptions, TextureLoader, TextureTarget,
    TextureTexel, TextureWrap,
};
pub use variant::Variant;
pub use viewport::Viewport;
