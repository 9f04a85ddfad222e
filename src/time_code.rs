//! Contents of MIDI Time Code Quarter Frame messages.
use crate::u4::U4;
use crate::u7::U7;
use vstd::prelude::*;

verus! {

/// Possible time code types of a MIDI Time Code Quarter Frame message.
#[derive(Copy, Clone, Eq, PartialEq, Structural, Ord, PartialOrd, Hash, Debug)]
pub enum TimeCodeType {
    Fps24,
    Fps25,
    Fps30DropFrame,
    Fps30NonDrop,
}

/// The 2-bit code of a time code type.
pub open spec fn time_code_type_code(t: TimeCodeType) -> u8 {
    match t {
        TimeCodeType::Fps24 => 0,
        TimeCodeType::Fps25 => 1,
        TimeCodeType::Fps30DropFrame => 2,
        TimeCodeType::Fps30NonDrop => 3,
    }
}

impl TimeCodeType {
    /// Returns the 2-bit code of this time code type.
    pub fn code(self) -> (r: u8)
        ensures
            r == time_code_type_code(self),
    {
        match self {
            TimeCodeType::Fps24 => 0,
            TimeCodeType::Fps25 => 1,
            TimeCodeType::Fps30DropFrame => 2,
            TimeCodeType::Fps30NonDrop => 3,
        }
    }

    /// Returns the time code type with the given 2-bit code.
    pub fn from_code(code: u8) -> (r: TimeCodeType)
        requires
            code < 4,
        ensures
            time_code_type_code(r) == code,
    {
        if code == 0 {
            TimeCodeType::Fps24
        } else if code == 1 {
            TimeCodeType::Fps25
        } else if code == 2 {
            TimeCodeType::Fps30DropFrame
        } else {
            TimeCodeType::Fps30NonDrop
        }
    }
}

/// Possible contents of a MIDI Time Code Quarter Frame message: one of 8 pieces of the MIDI
/// Time Code.
#[derive(Copy, Clone, Eq, PartialEq, Structural, Ord, PartialOrd, Hash, Debug)]
pub enum TimeCodeQuarterFrame {
    FrameCountLsNibble(U4),
    FrameCountMsNibble(U4),
    SecondsCountLsNibble(U4),
    SecondsCountMsNibble(U4),
    MinutesCountLsNibble(U4),
    MinutesCountMsNibble(U4),
    HoursCountLsNibble(U4),
    Last { hours_count_ms_bit: bool, time_code_type: TimeCodeType },
}

/// The data byte of a quarter frame message: the piece number (0 - 7) in the high nibble, its
/// data in the low nibble.
pub open spec fn frame_data_byte(f: TimeCodeQuarterFrame) -> u8 {
    match f {
        TimeCodeQuarterFrame::FrameCountLsNibble(v) => v@,
        TimeCodeQuarterFrame::FrameCountMsNibble(v) => (16 + v@) as u8,
        TimeCodeQuarterFrame::SecondsCountLsNibble(v) => (32 + v@) as u8,
        TimeCodeQuarterFrame::SecondsCountMsNibble(v) => (48 + v@) as u8,
        TimeCodeQuarterFrame::MinutesCountLsNibble(v) => (64 + v@) as u8,
        TimeCodeQuarterFrame::MinutesCountMsNibble(v) => (80 + v@) as u8,
        TimeCodeQuarterFrame::HoursCountLsNibble(v) => (96 + v@) as u8,
        TimeCodeQuarterFrame::Last { hours_count_ms_bit, time_code_type } => (112 + 2
            * time_code_type_code(time_code_type) + if hours_count_ms_bit {
            1int
        } else {
            0int
        }) as u8,
    }
}

/// What a quarter frame message keeps of a data byte `d`: all of it, except bit 3 of the last
/// piece, which carries nothing.
pub open spec fn kept_frame_data_byte(d: u8) -> u8 {
    if d >= 112 {
        (112 + d % 8) as u8
    } else {
        d
    }
}

impl TimeCodeQuarterFrame {
    /// Returns the data byte that encodes this piece.
    pub fn to_data_byte(self) -> (r: U7)
        ensures
            r@ == frame_data_byte(self),
    {
        match self {
            TimeCodeQuarterFrame::FrameCountLsNibble(v) => build_mtc_quarter_frame_data_byte(0, v),
            TimeCodeQuarterFrame::FrameCountMsNibble(v) => build_mtc_quarter_frame_data_byte(1, v),
            TimeCodeQuarterFrame::SecondsCountLsNibble(v) => build_mtc_quarter_frame_data_byte(
                2,
                v,
            ),
            TimeCodeQuarterFrame::SecondsCountMsNibble(v) => build_mtc_quarter_frame_data_byte(
                3,
                v,
            ),
            TimeCodeQuarterFrame::MinutesCountLsNibble(v) => build_mtc_quarter_frame_data_byte(
                4,
                v,
            ),
            TimeCodeQuarterFrame::MinutesCountMsNibble(v) => build_mtc_quarter_frame_data_byte(
                5,
                v,
            ),
            TimeCodeQuarterFrame::HoursCountLsNibble(v) => build_mtc_quarter_frame_data_byte(6, v),
            TimeCodeQuarterFrame::Last { hours_count_ms_bit, time_code_type } => {
                let bit_0: u8 = if hours_count_ms_bit {
                    1
                } else {
                    0
                };
                let bit_1_and_2: u8 = time_code_type.code() * 2;
                build_mtc_quarter_frame_data_byte(7, U4::new(bit_1_and_2 + bit_0))
            },
        }
    }

    /// Returns the piece that a data byte encodes.
    pub fn from_data_byte(data_byte_1: U7) -> (r: TimeCodeQuarterFrame)
        ensures
            frame_data_byte(r) == kept_frame_data_byte(data_byte_1@),
    {
        let data = data_byte_1.get();
        let high = data / 16;
        let low = U4::new(data % 16);
        if high == 0 {
            TimeCodeQuarterFrame::FrameCountLsNibble(low)
        } else if high == 1 {
            TimeCodeQuarterFrame::FrameCountMsNibble(low)
        } else if high == 2 {
            TimeCodeQuarterFrame::SecondsCountLsNibble(low)
        } else if high == 3 {
            TimeCodeQuarterFrame::SecondsCountMsNibble(low)
        } else if high == 4 {
            TimeCodeQuarterFrame::MinutesCountLsNibble(low)
        } else if high == 5 {
            TimeCodeQuarterFrame::MinutesCountMsNibble(low)
        } else if high == 6 {
            TimeCodeQuarterFrame::HoursCountLsNibble(low)
        } else {
            TimeCodeQuarterFrame::Last {
                hours_count_ms_bit: data % 2 != 0,
                time_code_type: TimeCodeType::from_code((data % 8) / 2),
            }
        }
    }
}

/// Builds a quarter frame data byte from a piece number and its data.
fn build_mtc_quarter_frame_data_byte(frame_type: u8, data: U4) -> (r: U7)
    requires
        frame_type < 8,
    ensures
        r@ == frame_type * 16 + data@,
{
    let d = data.get();
    U7::new(frame_type * 16 + d)
}

} // verus!
