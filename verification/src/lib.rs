//! Drives a relay board over a serial link: four-byte command frames with an
//! XOR checksum, validated four-byte acknowledgements, and a name-to-pin
//! registry that turns a relay name plus an action into one exchange.

pub mod control;
pub mod frame;
pub mod protocol;
pub mod registry;
pub mod transport;
