//! A single-target vault: seals a packed file or directory into an
//! authenticated, passphrase-keyed container and opens it again.

pub mod container;
pub mod display;
pub mod erase;
pub mod error;
pub mod path;
pub mod pipeline;
pub mod primitives;
pub mod session;
pub mod vault;

pub use container::{frame, unframe, Container, HEADER_LEN, NONCE_LEN, SALT_LEN};
pub use erase::{
    erase_action, EntryKind, EraseAction, EraseJob, EraseWork, Overwrite, OverwriteStep, CHUNK_LEN,
    OVERWRITE_PASSES,
};
pub use display::{fit_head, fit_tail};
pub use error::{ErrorKind, VaultError};
pub use path::{
    archive_name, clean_path, container_path_for, is_container_path, is_white_space,
    temp_archive_name,
};
pub use pipeline::{advance, direction_of, success_message, Direction, Event, Stage};
pub use session::{App, Command, Key, MAX_LOGS};
pub use vault::{open_container, seal_archive, seal_with};
