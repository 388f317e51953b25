//! Verified core of an audio-reactive 16x16 LED matrix controller: the
//! configuration document and its wire format, audio framing, pattern
//! rendering, WS2812 line coding, and the GATT server with its
//! firmware-update state machine.

pub mod adpcm;
pub mod advert;
pub mod audio;
pub mod config;
pub mod convert;
pub mod editor;
pub mod gatt;
pub mod matrix;
pub mod ota;
pub mod pixel;
pub mod presets;
pub mod rgb_command;
pub mod util;
pub mod wave;
pub mod wire;
pub mod ws2812;
