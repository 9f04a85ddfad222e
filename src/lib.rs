//! Data structures and scanners for MIDI 1.0 short messages, 14-bit Control Change messages and
//! (N)RPN messages.
pub mod bits;
pub mod channel;
pub mod channels;
pub mod clock;
pub mod control_change_14_bit_message;
pub mod control_change_14_bit_message_scanner;
pub mod controller_number;
pub mod conversion_error;
pub mod key_number;
pub mod parameter_number_message;
pub mod parameter_number_message_scanner;
pub mod polling_parameter_number_message_scanner;
pub mod program_number;
pub mod raw_short_message;
pub mod short_message;
pub mod short_message_factory;
pub mod structured_short_message;
pub mod test_util;
pub mod time_code;
pub mod u14;
pub mod u4;
pub mod u7;

pub use channel::{ch, Channel};
pub use control_change_14_bit_message::ControlChange14BitMessage;
pub use control_change_14_bit_message_scanner::ControlChange14BitMessageScanner;
pub use controller_number::{controller_number, ControllerNumber};
pub use conversion_error::TryFromGreaterError;
pub use key_number::KeyNumber;
pub use parameter_number_message::{DataEntryByteOrder, DataType, ParameterNumberMessage};
pub use parameter_number_message_scanner::ParameterNumberMessageScanner;
pub use polling_parameter_number_message_scanner::PollingParameterNumberMessageScanner;
pub use program_number::{program_number, ProgramNumber};
pub use raw_short_message::RawShortMessage;
pub use short_message::{
    FuzzyMessageSuperType, InvalidStatusByteError, MessageMainCategory, MessageSuperType,
    ShortMessage, ShortMessageType,
};
pub use short_message_factory::{FromBytesError, ShortMessageFactory};
pub use structured_short_message::StructuredShortMessage;
pub use time_code::{TimeCodeQuarterFrame, TimeCodeType};
pub use u14::{u14, U14};
pub use u4::U4;
pub use u7::{u7, U7};
