//! Verified core of the MyceliumVR world journal, its WIT-style script
//! front end, and the mode and session decisions of the XR shell.

mod text;
pub mod journal;
pub mod wats;
pub mod app_mode;
pub mod xr;
pub mod oxr;
