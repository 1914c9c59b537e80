//! The output-plugin bridge.

pub mod config;
pub mod error;
pub mod frame;
pub mod frames;
pub mod output_info;
pub mod output_plugin;
pub mod sys;
pub mod timestamp;

pub use self::config::{get_config, set_config, ConfigBuffer, ConfigRead};
pub use self::error::Error;
pub use self::frame::Image;
pub use self::frames::{Event, Frames, Phase, Step};
pub use self::output_info::{OutputInfo, OutputInfoFlag};
pub use self::timestamp::{FrameRate, Timestamp};
pub use self::output_plugin::{FileFilterEntry, OutputPluginTableInfo, Registry, _init};
