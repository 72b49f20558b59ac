//! Client-side driver for the volume shadow-copy service: the handshake state
//! machine of a backup session, the decoder of native snapshot property
//! records, and the command-line model of the `vshadow` tool.

pub mod args;
pub mod error;
pub mod guid;
pub mod utils;
pub mod vssclient;
pub mod vssprop;

pub use args::{panic_on_key_empty, parse_args, split_kv, Args, ArgsError};
pub use error::{Operation, ServiceError};
pub use guid::Guid;
pub use utils::{get_string_for_snapshot_state, volsnap_attrs_to_str, Timestamp};
pub use vssclient::{DeleteStep, SetupCall, Stage, VssClient};
pub use vssprop::{NativeSnapshotProp, VSSProp};
