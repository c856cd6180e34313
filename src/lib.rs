//! Shared-resource core of an HTTP/WebSocket client binding: the reusable
//! response-body cell and the command protocol of the WebSocket actor.

pub mod body;
pub mod buffer;
pub mod emulation;
pub mod error;
pub mod message;
pub mod request;
pub mod response;
pub mod websocket;

pub use body::{BodyAccess, BodySlot, ResponseBody};
pub use error::Error;
pub use message::{CloseFrame, Message};
pub use websocket::{Action, Actor, Command};
