//! Transport core for exchanging files with a BLE cycling computer.
//!
//! The library is organised leaf-first:
//! - [`crc`]: the 16-bit cyclic redundancy check that guards every block;
//! - [`decimal`]: the ASCII decimal codec used by the file header;
//! - [`ctl`]: the control-message request/reply codec;
//! - [`tunnel`]: demultiplexing of one frame channel into control replies
//!   and a virtual serial byte stream;
//! - [`block`]: block framing with sequence numbers and check bytes;
//! - [`header`]: the header block's file descriptor;
//! - [`chunks`]: how file content is cut into block payloads, and how the
//!   receiver trims the padding back off;
//! - [`receive`]: the receiver state machine of the transfer engine;
//! - [`send`]: the sender state machine of the transfer engine;
//! - [`facade`]: the control-channel round trips that open and close a
//!   transfer;
//! - [`options`]: plain option records consumed by the command surface.
//!
//! All I/O (BLE writes, notifications, timers) lives outside the library:
//! the state machines consume events and return the bytes to put on the
//! wire, so a thin driver loop can run them over any link.

pub mod block;
pub mod chunks;
pub mod crc;
pub mod ctl;
pub mod decimal;
pub mod error;
pub mod facade;
pub mod header;
pub mod options;
pub mod receive;
pub mod send;
pub mod tunnel;
