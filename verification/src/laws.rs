//! What the operations of the client do, told by what goes into a call and what comes out of it.
//! Each law speaks of calls of the functions themselves, of whatever `call_ensures` says of them.

pub mod api;
pub mod capture;
pub mod geometry;
pub mod overlay;
pub mod platforms;
pub mod popover;
pub mod recorder;
pub mod recording;
pub mod settings;
pub mod signin;
pub mod texts;
pub mod uploads;
