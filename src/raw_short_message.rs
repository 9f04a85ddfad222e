//! A short message stored as its three bytes.
use crate::short_message::{is_status_byte, ShortMessage};
use crate::short_message_factory::ShortMessageFactory;
use crate::u7::U7;
use vstd::prelude::*;

verus! {

/// A short message implemented as a tuple of bytes: the status byte and the two data bytes.
#[derive(Copy, Clone, Eq, PartialEq, Structural, Hash, Debug)]
pub struct RawShortMessage {
    status_byte: u8,
    data_byte_1: U7,
    data_byte_2: U7,
}

impl RawShortMessage {
    #[verifier::type_invariant]
    spec fn inv(self) -> bool {
        is_status_byte(self.status_byte)
    }
}

impl ShortMessage for RawShortMessage {
    closed spec fn spec_status_byte(&self) -> u8 {
        self.status_byte
    }

    closed spec fn spec_data_byte_1(&self) -> u8 {
        self.data_byte_1@
    }

    closed spec fn spec_data_byte_2(&self) -> u8 {
        self.data_byte_2@
    }

    fn status_byte(&self) -> (r: u8) {
        proof {
            use_type_invariant(self);
        }
        self.status_byte
    }

    fn data_byte_1(&self) -> (r: U7) {
        self.data_byte_1
    }

    fn data_byte_2(&self) -> (r: U7) {
        self.data_byte_2
    }
}

impl ShortMessageFactory for RawShortMessage {
    fn from_bytes_unchecked(bytes: (u8, U7, U7)) -> (r: Self)
        ensures
            r.spec_status_byte() == bytes.0,
            r.spec_data_byte_1() == bytes.1@,
            r.spec_data_byte_2() == bytes.2@,
    {
        RawShortMessage { status_byte: bytes.0, data_byte_1: bytes.1, data_byte_2: bytes.2 }
    }
}

} // verus!
