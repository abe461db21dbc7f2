//! Communication layer of ABB externally-guided motion (EGM).
//!
//! The library holds the EGM message schema, the checks that a message passes
//! before it is sent, the bookkeeping of a datagram transfer, clock arithmetic
//! and the conversions between wire poses and rigid transforms.
//!
//! Floating-point values are held by their IEEE-754 bit pattern ([`Double`]),
//! which is also how the wire format carries them.
pub mod builders;
pub mod clock;
pub mod convert;
pub mod double;
pub mod error;
pub mod msg;
pub mod purge;
pub mod robot;
pub mod validate;

pub use double::Double;
pub use error::check_transfer;
pub use error::IncompleteTransmissionError;
pub use error::InvalidMessageError;
pub use error::ReceiveError;
pub use error::SendError;
