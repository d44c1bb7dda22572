//! Zero-size separator values for joining sequences of renderable items into
//! text, together with the sink they render into and the join that
//! interleaves items with a separator.
pub mod join;
pub mod render;
pub mod separators;
pub mod sink;

pub use join::{join_into, join_with};
pub use render::{Render, signed_text, unsigned_text};
pub use separators::{Comma, CommaSpace, Dash, Dot, NoSeparator, Slash, Space, Underscore};
pub use sink::{BoundedSink, Sink, WriteError};
