//! Half-duplex packet pipe over a LoRa radio module that is driven through a
//! line-oriented serial command interface.
//!
//! Two peers take turns on the air. Each packet starts with a flag byte by
//! which its sender says whether more is coming and whether it yields the
//! floor; frames that are queued for transmission are cut to the radio's
//! packet size and, where there is room, sent together.
//!
//! The heart of the crate is the radio engine in `lorastik`, a state machine
//! that is told what happened and says what is to be done next. Its
//! behaviour is defined in `machine`, and `laws` holds what is proved of it,
//! with `whole` for frames that are not packed and `drain` for what the
//! engine holds leaving it.
//! `packet`, `turn`, `wire` and `hexcode` are the parts it is made of. `link`
//! performs the engine's operations on the channels to the tasks around it,
//! `ser` frames the lines on the serial port, and `kiss`, `pipe` and `ping`
//! hold the rules of the adapters that feed the engine. Serial I/O, sleeping
//! and the clock are left to the caller.

pub mod drain;
pub mod error;
pub mod hexcode;
pub mod kiss;
pub mod laws;
pub mod link;
pub mod lorastik;
pub mod machine;
pub mod packet;
pub mod ping;
pub mod pipe;
pub mod ser;
pub mod turn;
pub mod whole;
pub mod wire;
