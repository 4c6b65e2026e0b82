//! XCM decode and inspect helpers.

pub mod commands;
pub mod decode;
pub mod params;
pub mod report;
pub mod scale;
pub mod text;
pub mod types;
pub mod util;
pub mod v3;
pub mod v4;
pub mod v5;

pub use decode::{decode_xcm_message, try_decode_xcm_message};
pub use types::{CError, XcmInstruction, XcmMessage, XcmParser};
