//! Client-side syslog message formatting and sender dispatch.
//!
//! The crate renders a log event in one of three wire encodings (the BSD
//! layout of RFC 3164, the structured layout of RFC 5424, and the
//! octet-counted frame of RFC 5425) and decides, per transport kind, what a
//! sender asks of its sink. Every function carries a contract over byte
//! sequences, and the contracts are machine-checked.

pub mod text;
pub mod priority;
pub mod timestamp;
pub mod structured;
pub mod format;
pub mod sender;
pub mod frame;
