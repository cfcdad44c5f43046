//! Decoder for LDAP messages (RFC 4511) in BER encoding.
//!
//! [`parse_ldap_message`] decodes one message from the start of a buffer and
//! returns it with the unconsumed tail; [`parse_ldap_messages`] decodes the
//! messages that fill a buffer. The decoded values borrow their strings and
//! octets from the buffer. The types of the messages are in
//! [`ldap`] and [`filter`], the decoders in [`parser`] and [`filter_parser`],
//! and the BER layer under them in [`ber`].

pub mod ber;
pub mod combinator;
pub mod error;
pub mod filter;
pub mod filter_parser;
pub mod laws;
pub mod ldap;
pub mod parser;

pub use crate::combinator::FromBer;
pub use crate::parser::{parse_ldap_message, parse_ldap_messages};
