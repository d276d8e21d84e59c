//! The items most callers need, in one place.
pub use crate::attr::{RawTensorAttr, RknnModelInfo, RknnTensorAttr};
pub use crate::error::Error;
pub use crate::memory::{ByteRegion, MemInfo, RknnTensorMemory};
pub use crate::output::{OutputBatch, OutputFetch, OutputRequest, RawOutput};
pub use crate::session::Rknn;
pub use crate::tensor::{
    get_format_string, RknnCoreMask, RknnInput, RknnInputOutputNum, RknnMemAllocFlags,
    RknnMemSyncMode, RknnSdkVersion, RknnTensorFormat, RknnTensorQntType, RknnTensorType,
};
