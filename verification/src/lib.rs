//! Line framing and role sequencing for a command-line messaging tool.
//!
//! A line of text is turned into the frames of one message and back
//! (`codec`, over the splitting and joining of `split`), command-line words
//! are turned into an endpoint configuration (`cmdline`, `endpoint`), and
//! each role's order of operations is a small state machine (`runner`).
//! Reading input, printing and the transport itself are left to the caller.

pub mod text;
pub mod split;
pub mod codec;
pub mod endpoint;
pub mod cmdline;
pub mod runner;
