//! A gateway between face, eye and pose trackers and an avatar runtime.
//!
//! Backends queue updates; once per tick they are taken into one canonical
//! state, the combined channels are derived from the unified ones, and the
//! state is encoded for whatever parameters the avatar has announced:
//! as a real number, or packed into a sign and up to eight bits. A
//! scheduler decides who starts the ticks, and a watchdog takes them back
//! when the avatar runtime falls silent.
//!
//! Every channel value is a fixed-point number, a `level::Level` in
//! millionths, so that all arithmetic is exact integer arithmetic: sums and
//! products by a coefficient are exact, and a result is rounded down once,
//! when it is stored. Times are whole milliseconds since the start; the time
//! between two ticks is in microseconds. Sockets, files, threads and the
//! conversion between real numbers and levels are left to the caller.

pub mod autopilot;
pub mod babble;
pub mod blend;
pub mod bundle;
pub mod cli;
pub mod discovery;
pub mod encoder;
pub mod expressions;
pub mod face2_fb;
pub mod gogo;
pub mod htc;
pub mod inbound;
pub mod level;
pub mod manager;
pub mod names;
pub mod oscjson;
pub mod params;
pub mod pattern;
pub mod receiver;
pub mod service;
pub mod sranipal;
pub mod storage;
pub mod text;
pub mod tracking;
pub mod transport;
pub mod unified;
pub mod watchdog;
