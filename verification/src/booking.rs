//! The booking method that an account declares.

use vstd::prelude::*;
use crate::error::ErrorKind;
use crate::text::{chars_of, same_text};

verus! {

/// The declared policy by which lots of an account are matched.
#[allow(non_camel_case_types)]
#[derive(Clone, Copy, Debug, PartialEq, Eq, Structural)]
pub enum Booking {
    STRICT,
    STRICT_WITH_SIZE,
    NONE,
    AVERAGE,
    FIFO,
    LIFO,
    HIFO,
}

/// The booking method that a name stands for.
pub open spec fn booking_of_name(name: Seq<char>) -> Option<Booking> {
    if name == "STRICT"@ {
        Some(Booking::STRICT)
    } else if name == "STRICT_WITH_SIZE"@ {
        Some(Booking::STRICT_WITH_SIZE)
    } else if name == "NONE"@ {
        Some(Booking::NONE)
    } else if name == "AVERAGE"@ {
        Some(Booking::AVERAGE)
    } else if name == "FIFO"@ {
        Some(Booking::FIFO)
    } else if name == "LIFO"@ {
        Some(Booking::LIFO)
    } else if name == "HIFO"@ {
        Some(Booking::HIFO)
    } else {
        Option::None
    }
}

/// The booking method named by the characters of `name`.
pub fn booking_of_chars(name: &[char]) -> (out: Option<Booking>)
    ensures
        out == booking_of_name(name@),
{
    let n = name.len();
    assert(name@.subrange(0, n as int) =~= name@);
    if same_text(name, 0, n, "STRICT") {
        Some(Booking::STRICT)
    } else if same_text(name, 0, n, "STRICT_WITH_SIZE") {
        Some(Booking::STRICT_WITH_SIZE)
    } else if same_text(name, 0, n, "NONE") {
        Some(Booking::NONE)
    } else if same_text(name, 0, n, "AVERAGE") {
        Some(Booking::AVERAGE)
    } else if same_text(name, 0, n, "FIFO") {
        Some(Booking::FIFO)
    } else if same_text(name, 0, n, "LIFO") {
        Some(Booking::LIFO)
    } else if same_text(name, 0, n, "HIFO") {
        Some(Booking::HIFO)
    } else {
        Option::None
    }
}

impl Booking {
    /// The name of the method, as a sequence of characters.
    pub open spec fn spec_name(self) -> Seq<char> {
        match self {
            Booking::STRICT => "STRICT"@,
            Booking::STRICT_WITH_SIZE => "STRICT_WITH_SIZE"@,
            Booking::NONE => "NONE"@,
            Booking::AVERAGE => "AVERAGE"@,
            Booking::FIFO => "FIFO"@,
            Booking::LIFO => "LIFO"@,
            Booking::HIFO => "HIFO"@,
        }
    }

    /// The method that `value` names; the invalid-booking failure for every
    /// string that is none of the seven names.
    pub fn try_from(value: &str) -> (out: Result<Booking, ErrorKind>)
        ensures
            out == (match booking_of_name(value@) {
                Some(b) => Ok::<Booking, ErrorKind>(b),
                Option::None => Err::<Booking, ErrorKind>(ErrorKind::InvalidBooking),
            }),
    {
        let chars = chars_of(value);
        match booking_of_chars(chars.as_slice()) {
            Some(b) => Ok(b),
            Option::None => Err(ErrorKind::InvalidBooking),
        }
    }

    /// The name of the method.
    pub fn name(&self) -> (out: &'static str)
        ensures
            out@ == self.spec_name(),
    {
        match self {
            Booking::STRICT => "STRICT",
            Booking::STRICT_WITH_SIZE => "STRICT_WITH_SIZE",
            Booking::NONE => "NONE",
            Booking::AVERAGE => "AVERAGE",
            Booking::FIFO => "FIFO",
            Booking::LIFO => "LIFO",
            Booking::HIFO => "HIFO",
        }
    }

    /// The value of the method: its name.
    pub fn value(&self) -> (out: &'static str)
        ensures
            out@ == self.spec_name(),
    {
        self.name()
    }
}

/// The name of a booking method names that method, and a string that names a
/// method is that method's name.
pub proof fn lemma_booking_names(b: Booking, name: Seq<char>)
    ensures
        booking_of_name(b.spec_name()) == Some(b),
        booking_of_name(name) == Some(b) ==> name == b.spec_name(),
{
    reveal_strlit("STRICT");
    reveal_strlit("STRICT_WITH_SIZE");
    reveal_strlit("NONE");
    reveal_strlit("AVERAGE");
    reveal_strlit("FIFO");
    reveal_strlit("LIFO");
    reveal_strlit("HIFO");
    assert("STRICT"@.len() == 6);
    assert("STRICT_WITH_SIZE"@.len() == 16);
    assert("NONE"@.len() == 4);
    assert("AVERAGE"@.len() == 7);
    assert("FIFO"@[0] == 'F');
    assert("LIFO"@[0] == 'L');
    assert("HIFO"@[0] == 'H');
    
}

} // verus!
