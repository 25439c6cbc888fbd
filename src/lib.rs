//! Screen capture on an X11 display: the pixel formats, frames, display
//! geometry, monitor records and the shared-memory capture session, with
//! the decisions that surround each call into the display server.

pub mod display;
pub mod graphics;
pub mod image;
pub mod monitor;
pub mod pixel;
mod png;
pub mod shm;

pub use display::{pointer_position, validate_identifier, Display, DisplayCreationError, DisplayErrorKind, Region, RootGeometry};
pub use graphics::WindowBuilder;
pub use image::{CaptureReply, Image, SaveError};
pub use monitor::{collect_monitors, Monitor, MonitorInfo};
pub use pixel::{bgrx_to_rgb, decode_bgrx, Bgr8, Rgb8};
pub use shm::{Held, ImageLayout, Release, SetupStage, SharedSession, ShmBuilder, ShmError, ShmFailure, ShmSetup};
