//! A decoder for Source engine demo files: the header, the frames and the
//! net/svc messages inside packets, each specified over the bit stream it
//! reads and verified against that specification.
pub mod error;
pub mod bits;
pub mod text;
pub mod header;
pub mod message;
pub mod messages;
pub mod svcnetmessage;
pub mod demo;
pub mod laws;
pub mod sizes;
pub mod fields;

pub use demo::Demo;
pub use error::{DemError, ParseFail};
pub use header::{Game, Header};
pub use message::{Frame, FrameData};
pub use messages::NetSvcMessage;
