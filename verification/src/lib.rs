//! GameSir G7 Pro 8K controller tools: the private HID protocol of the
//! controller and the decisions of the command-line sessions built on it.

pub mod protocol;
pub mod text;
pub mod device;
pub mod session;
