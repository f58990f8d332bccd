//! Smart-card APDU logic: status words of card responses, the command APDUs
//! that this client sends, and the decision logic of the GET DATA and
//! file-reading exchanges. Talking to the card itself is left to the caller.

pub mod application;
pub mod commands;
pub mod exchange;
pub mod get_data;
pub mod get_file;
pub mod mycard;
pub mod status;

pub use status::{get_SW, get_SW1, get_SW2};
