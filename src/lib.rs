//! Supervision logic for per-network chain followers: when to start a
//! follower, where it resumes, how each chain event is handled, and when the
//! whole fleet is restarted after a configuration change.

pub mod hexcodec;
pub mod checkpoint;
pub mod worker;
pub mod supervisor;
