//! Logging of frames, events and requests to Redis streams: which streams a
//! log entry goes to, and how stored entries are read back.
pub mod event;
pub mod frame;
pub mod targets;
