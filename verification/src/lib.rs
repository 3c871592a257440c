//! Directory-navigation state engine of a desktop file browser.
//!
//! The engine owns which directory is on display, the entries of that
//! directory, the hidden-items toggle and a single selection slot. It does
//! no input or output: the host reads directories and hands files to their
//! default handler, and feeds the outcomes back. Everything the engine
//! decides is stated over mathematical models of its data and verified.
//!
//! - [`entry`] and [`text_order`]: one child of a directory, and the order
//!   in which children are listed.
//! - [`listing`]: the ordered entries of one directory, and the
//!   hidden-items filter.
//! - [`loader`]: from what the host read to the outcome of a load.
//! - [`navigation`]: the state and its operations.
//! - [`messages`] and [`presentation`]: the messages that the parts of the
//!   browser exchange, and the seeds of its widgets.
//! - [`laws`]: what holds of the state whatever happens.
//! - [`path`]: the two path operations that are left to the standard
//!   library, and the rules by which a platform hides an entry.

pub mod entry;
pub mod errors;
pub mod laws;
pub mod listing;
pub mod loader;
pub mod messages;
pub mod navigation;
pub mod path;
pub mod presentation;
pub mod text_order;

pub use entry::{DirectoryEntry, EntryView};
pub use errors::{Error, ErrorKind};
pub use listing::Listing;
pub use loader::load_items;
pub use messages::{AppInput, ItemOutput, ItemsBoxInput, ItemsBoxOutput, TopPanelOutput};
pub use navigation::{Effect, LoadRequest, NavigationEvent, NavigationState, NavigationView};
pub use presentation::{ItemInit, ItemsBoxInit, TopPanelInit};
pub use text_order::{compare_bytes, compare_text, Precedence};
