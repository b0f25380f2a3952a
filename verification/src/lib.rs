//! A safe, verified facade over a native AIFF (Audio Interchange File
//! Format) decoding session.
//!
//! The native decoder does the file I/O, chunk parsing and sample
//! decoding; this crate owns everything the wrapper layer itself
//! decides: the flag values handed to the decoder, the validation of
//! paths before they cross the boundary, the interpretation of the
//! decoder's reported sample counts, the seek-target arithmetic, and
//! the ownership discipline that makes use-after-release impossible.

pub mod duration;
pub mod flags;
pub mod format;
pub mod handle;
pub mod session;

pub use duration::Duration;
pub use flags::OpenFlags;
pub use format::AIFFFormat;
pub use handle::AIFF;
pub use handle::path_is_c_representable;
pub use session::Session;
