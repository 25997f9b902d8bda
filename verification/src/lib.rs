//! A local music catalog: track records keyed by id, the rules by which
//! metadata from several tag readers is merged into one record, and the
//! decisions behind import, delete and favorite operations.

pub mod catalog;
pub mod duration;
pub mod encode;
pub mod error;
pub mod extract;
pub mod ident;
pub mod laws;
pub mod ops;
pub mod resolver;
pub mod state;
pub mod track;

pub use catalog::MusicDatabase;
pub use track::MusicMetadata;
