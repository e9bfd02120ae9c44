use vstd::prelude::*;

pub mod bench;
pub mod logger;
pub mod roundtrip;

pub use bench::bench_used;
pub use logger::{ItestErrorLogger, LoggerState};
pub use roundtrip::{check_roundtrip, RoundtripFailure};
