//! A local credential keystore: named signing keypairs, kept as one JSON file
//! each in a per-user directory that only the owner may read.
//!
//! The library never touches the file system itself. It decides: where a
//! credential lives, what its file holds, which permission bits are too loose,
//! and what its driver has to do next. The driver performs the file operations
//! and reports how they ended.

pub mod permissions;
pub mod cli;
pub mod codec;
pub mod generator;
pub mod json;
pub mod record;
pub mod session;
pub mod store;

pub use cli::{Dispatch, KeystoreBundle, KeystoreBundleSubcommand};
pub use generator::{generate, KEY_LENGTH};
pub use record::{Keystore, KeystoreError, KEYPAIR_LENGTH};
pub use session::{Action, Event, Progress, Session, SourceStage, TargetStage};
pub use store::{
    credential_name, get_bin_name, get_file_path, get_keypairs_list, get_keypairs_path,
    get_prog_without_ext, listed_names, program_identity, Store,
};
