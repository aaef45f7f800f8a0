//! Scoped, ownership-checked access to a handle-based graphics API.
//!
//! Every native object is owned by one wrapper, which acquires its handle when
//! created and gives it back once when released. Operations on an object
//! require it to be current; the scopes of `context` make it current and then
//! run a block against it.
pub mod native;
pub mod tags;
pub mod context;
pub mod buffer;
pub mod vertex_array;
pub mod status;
pub mod shader;
pub mod program;
pub mod texture;

pub use buffer::{Buffer, Freq, Mode};
pub use context::{Context, ContextMut, MutContext};
pub use native::{Call, Category, Gl};
pub use program::Program;
pub use shader::Shader;
pub use status::check_status;
pub use texture::Texture;
pub use vertex_array::{DrawMode, VertexArray};
