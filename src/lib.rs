//! State and command dispatch for the rows of a song list.
//!
//! A row shows one song. Clicking its "like" button builds a command for the
//! application's controller; the command carries a completion that names the row
//! through a non-owning handle. The rows live in a registry that hands out those
//! handles, so a completion that arrives after its row was destroyed resolves to
//! nothing and changes nothing.
pub mod song;

pub use song::{SongInfo, SongList};
pub mod row;

pub use row::{Action, LikeCompletion, RowId, SonglistRow};
pub mod registry;

pub use registry::RowRegistry;
pub mod laws;
