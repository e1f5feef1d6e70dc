//! Gateway core for a networked 64x64 LED-matrix display.
//!
//! The library holds the verified logic of the gateway: the command
//! catalog and payload building, the device response envelope, error
//! classification, retry decisions, the pixel pipeline (uniform fills,
//! alpha compositing, wire encoding), image decoding and animation
//! dispatch planning, remote asset ingestion limits, and configuration
//! parsing. Network and process edges live outside the library and
//! hand it plain values.

pub mod actions;
pub mod client;
pub mod commands;
pub mod config;
pub mod dispatch;
pub mod error;
pub mod imaging;
pub mod numbers;
pub mod pixels;
pub mod protocol;
pub mod remote;
pub mod request_id;
pub mod text;
pub mod transport;

pub use pixels::encode_pic_data;
pub use pixels::uniform_pixel_buffer;
pub use pixels::PIXOO_FRAME_DIM;
pub use pixels::PIXOO_FRAME_HEIGHT;
pub use pixels::PIXOO_FRAME_LEN;
pub use pixels::PIXOO_FRAME_WIDTH;
pub use pixels::PIXOO_PIXEL_BYTES;
