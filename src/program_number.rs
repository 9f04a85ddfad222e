use crate::conversion_error::TryFromGreaterError;
use crate::u7::U7;
use vstd::prelude::*;

verus! {

/// A program number (0 - 127) of a MIDI Program Change message.
#[derive(Copy, Clone, Debug, Default, Eq, Hash, PartialEq, Structural, PartialOrd, Ord)]
pub struct ProgramNumber(pub(crate) u8);

impl View for ProgramNumber {
    type V = u8;

    closed spec fn view(&self) -> u8 {
        self.0
    }
}

impl ProgramNumber {
    #[verifier::type_invariant]
    spec fn inv(self) -> bool {
        self.0 < 128
    }

    /// The number of representable values.
    pub const COUNT: u8 = 128;

    /// Creates a value.
    ///
    /// The given number must be lower than `128`.
    pub fn new(number: u8) -> (r: ProgramNumber)
        requires
            number < 128,
        ensures
            r@ == number,
    {
        ProgramNumber(number)
    }

    /// Returns the value as a primitive type.
    pub fn get(self) -> (r: u8)
        ensures
            r == self@,
            r < 128,
    {
        proof {
            use_type_invariant(&self);
        }
        self.0
    }
}

/// Creates a value (shorthand for `ProgramNumber::new`).
pub fn program_number(number: u8) -> (r: ProgramNumber)
    requires
        number < 128,
    ensures
        r@ == number,
{
    ProgramNumber::new(number)
}

impl vstd::std_specs::convert::TryFromSpecImpl<u8> for ProgramNumber {
    open spec fn obeys_try_from_spec() -> bool {
        true
    }

    closed spec fn try_from_spec(v: u8) -> Result<ProgramNumber, TryFromGreaterError> {
        if v < 128 {
            Ok(ProgramNumber(v))
        } else {
            Err(TryFromGreaterError(()))
        }
    }
}

impl TryFrom<u8> for ProgramNumber {
    type Error = TryFromGreaterError;

    /// Converts a primitive value, failing if it is 128 or above.
    fn try_from(v: u8) -> (r: Result<ProgramNumber, TryFromGreaterError>)
        ensures
            r is Ok <==> v < 128,
            r is Ok ==> r->Ok_0@ == v,
    {
        if v < 128 {
            Ok(ProgramNumber(v))
        } else {
            Err(TryFromGreaterError(()))
        }
    }
}

impl vstd::std_specs::convert::FromSpecImpl<ProgramNumber> for u8 {
    open spec fn obeys_from_spec() -> bool {
        true
    }

    open spec fn from_spec(v: ProgramNumber) -> u8 {
        v@
    }
}

impl From<ProgramNumber> for u8 {
    fn from(v: ProgramNumber) -> (r: u8) {
        v.get()
    }
}

impl vstd::std_specs::convert::FromSpecImpl<U7> for ProgramNumber {
    open spec fn obeys_from_spec() -> bool {
        true
    }

    closed spec fn from_spec(v: U7) -> ProgramNumber {
        ProgramNumber(v@ as _)
    }
}

impl From<U7> for ProgramNumber {
    fn from(v: U7) -> (r: ProgramNumber)
        ensures
            r@ == v@,
    {
        ProgramNumber(v.get() as _)
    }
}

} // verus!
