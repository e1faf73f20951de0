//! Host side of the Sony DualSense and DualSense Edge controllers.
//!
//! The library holds what the host decides: how reports are framed over
//! USB and Bluetooth ([`output`], [`report`], [`crc32`]), what a session
//! with one controller sends and reads ([`dualsense`]), how firmware is
//! flashed ([`firmware`], [`updater`]), what the daemon answers its
//! clients ([`ipc`], [`daemon`]) and how decoded input is remapped
//! ([`transform`]). It moves no bytes itself: every function takes what
//! was read and returns what is to be written.

pub mod bytes;
pub mod common;
pub mod crc32;
pub mod daemon;
pub mod download;
pub mod dualsense;
pub mod firmware;
pub mod frontend;
pub mod inputs;
pub mod ipc;
pub mod output;
pub mod profiles;
pub mod report;
pub mod settings;
pub mod text;
pub mod theme;
pub mod transform;
pub mod updater;
