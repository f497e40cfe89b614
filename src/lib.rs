//! Client library for JK battery management systems reached over Bluetooth Low Energy.
//!
//! The verified core covers the wire protocol: splitting notification payloads into
//! messages, classifying and checksumming them, assembling multi-fragment responses,
//! decoding the fixed-offset device-info and cell-data records, and the decisions of a
//! device session (which peripheral handle to use, when to re-discover it).
pub mod actions;
pub mod buffer;
pub mod error;
pub mod exporter;
pub mod format;
pub mod gatt;
pub mod protocol;
pub mod records;
pub mod session;
pub mod types;
pub mod utils;

pub use actions::Actions;
pub use buffer::DataBuffer;
pub use error::{Error, Result};
pub use exporter::{idx2str, Encoding, Route};
pub use format::Format;
pub use protocol::{MessageIter, MessageType, RawRecord, RawRequest, RawResponse};
pub use session::{ResponseAssembler, Session, SessionAction, SessionEvent};
pub use types::{CellData, DeviceId, DeviceInfo, MacAddr, Options};
pub use utils::{ascii_to_string, ascii_to_string_safe, checksum, u32le_to_count};
