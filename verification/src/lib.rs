//! Builds a personal profile page in markdown from records served by a
//! data backend and a code host.
//!
//! The crate holds everything that can be decided without touching the
//! network, the clock or the disk: which requests to send and in which
//! order, how a reply is judged and decoded, and what the finished page
//! looks like. A thin program around it performs the requests, reads the
//! clock and writes the file.

pub mod badges;
pub mod clock;
pub mod decode;
pub mod failure;
pub mod json;
pub mod model;
pub mod page;
pub mod pipeline;
pub mod reader;
pub mod reply;
pub mod request;
pub mod roundtrip;
pub mod table;
pub mod text;
