//! Verified core of a desktop tool that records device screens over ADB or
//! the iOS simulator, clips the recordings into frames and hands images to
//! the clipboard. Everything here computes on plain values; the program that
//! runs commands, touches files and talks to the window lives around it.

pub mod adb;
pub mod command;
pub mod device;
pub mod flow;
pub mod image;
pub mod locate;
pub mod media;
pub mod pairing;
pub mod response;
pub mod session;
pub mod simctl;
pub mod text;
