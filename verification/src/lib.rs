//! Turns a parsed HTML document, optionally written as Markdown, into a tree of visual
//! elements for a GUI toolkit to show. The tree is rebuilt from the document state for
//! every frame; what the user does comes back as messages that update the state.
pub mod context;
pub mod dom;
pub mod html;
pub mod laws;
pub mod layout;
pub mod markdown;
pub mod renderer;
pub mod span;
pub mod state;
pub mod tags;
pub mod text;
pub mod visual;
pub mod widgets;

pub use renderer::MarkWidget;
pub use state::{MarkState, UpdateMsg};
