//! Configuration persistence: where a settings record lives on disk, in which
//! format it is written, and how loading and storing it proceed.
//!
//! - `location` and `path` resolve the place of a configuration file from its
//!   declared name, an optional directory and the application's name.
//! - `format` selects toml, yaml or json from the file's extension.
//! - `load` and `store` are the two procedures as machines: they decide what
//!   is done next and which error a refusal becomes, and leave the work on
//!   files and the encoders to a driver.
//! - `model` states what loading and storing come to on a disk on which
//!   nothing goes wrong.
//! - `error` holds the errors, `configure` the interface of a record that
//!   loads and stores itself.

pub mod configure;
pub mod error;
pub mod format;
pub mod load;
pub mod location;
pub mod model;
pub mod path;
mod platform;
pub mod store;
pub mod text;

pub use configure::Configure;
pub use error::FondantError;
pub use format::{pick_serializer, Format, Style};
pub use location::{resolve, ConfigLocation, ConfigPath};
pub use load::{LoadAction, LoadEvent, LoadState};
pub use path::expand_tilde;
pub use store::{StoreAction, StoreEvent, StoreState};
