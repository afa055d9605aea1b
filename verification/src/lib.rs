//! Coordination logic of a desktop video trimmer.
//!
//! A thin GUI shell (not part of this library) shows a video preview with
//! transport buttons, two trim markers and an export action, and delegates all
//! media work to an external multimedia framework. Everything that framework
//! does (decoding, encoding, muxing, seeking) stays outside; this library owns
//! the decisions around it:
//!
//! * the editor state machine: which file is loaded, the trim bounds, and how
//!   each UI event translates into backend commands and status notices;
//! * the playback backend adapter: tracking the single installed pipeline
//!   handle and phrasing state-change and seek commands for it;
//! * the duration-discovery policy: a bounded poll whose exhaustion is a
//!   reported error, never a silent default;
//! * the textual description of the trim/encode graph handed to the framework
//!   for export.
//!
//! The GUI shell performs each returned command (it owns the real pipeline
//! objects and the event loop) and feeds the outcome back in as the next
//! event. All times are integer nanoseconds, the external framework's native
//! clock unit.

pub mod editor;
pub mod errors;
pub mod launch;
pub mod playback;
pub mod poll;
