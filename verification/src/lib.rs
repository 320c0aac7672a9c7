//! Host-side model of a raw CAN bus channel.
//!
//! The crate holds the classic CAN frame in its wire layout, decodes error
//! frames into a typed error, matches identifiers against filters, and
//! decides what a blocking or non-blocking channel reports for a transfer.
//! It performs no I/O itself: a transport hands it plain values and carries
//! out what it asks for.
pub mod canid;
pub mod channel;
pub mod error;
pub mod filter;
pub mod frame;

pub use canid::{
    CAN_EFF_FLAG, CAN_EFF_MASK, CAN_ERR_FLAG, CAN_ERR_MASK, CAN_RTR_FLAG, CAN_SFF_MASK,
};
pub use channel::{BlockingMode, Channel, IoReport};
pub use error::{
    get_data, CanError, ConstructionError, ControllerProblem, ControllerSpecificErrorInformation,
    DecodingError, Location, SocketError, TransceiverError, ViolationType,
};
pub use filter::{
    Filter, FilterError, FilterGroup, FilterGroups, FilterTable, CAN_RAW_FILTER_MAX,
};
pub use frame::{Frame, FRAME_SIZE, MAX_DATA_LEN};
