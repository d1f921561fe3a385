//! Verified core of an AirPlay mirroring receiver: codec configuration
//! parsing, the video capture file format, backend selection and the
//! decisions taken by the video and event loops.

pub mod error;
pub mod bytes;
pub mod parameter_sets;
pub mod codec;
pub mod capture;
pub mod text;
pub mod backend;
pub mod options;
pub mod pipeline;
pub mod core_media;
pub mod receiver;
pub mod events;

pub use events::AppEvent;
pub use backend::VideoBackend;
pub use options::{RunOptions, VideoInput};
