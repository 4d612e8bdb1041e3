//! Ambient-light driven backlight control: the transfer functions that turn a
//! sensor reading into a hardware level, and the rule that a level is written
//! only when it differs from what the device holds now.
//!
//! Reading sysfs attributes and issuing the session's brightness call are left
//! to the caller: each controller takes the level it last read and answers
//! with the level to write, if any.
pub mod policy;
pub mod kbd_brightness;
pub mod screen_brightness;
