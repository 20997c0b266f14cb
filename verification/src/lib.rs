//! Verified core of a display-presentation latency capture tool.
//!
//! The library models the frame-presentation timing loop: deciding what to
//! draw each frame, detecting the display-side present event from hardware
//! counter samples, correlating hardware and CPU time bases, accumulating a
//! log of timing records, encoding the external corroboration signal, and
//! exporting the log as delimited text. The platform collaborators (window
//! events, GPU surface, high-resolution clocks, the serial channel, the
//! output file) live outside the library and hand it plain values.

pub mod capture;
pub mod export;
pub mod records;
pub mod signal;
