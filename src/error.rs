use vstd::prelude::*;

verus! {

/// Conditions met while acquiring the device and reading frames from it.
#[derive(Debug, Clone, Copy, PartialEq, Eq, Structural)]
pub enum StationError {
    /// Opening the port failed for a reason other than the device being absent (fatal).
    ConnectionError,
    /// The device went away mid-session (recovered by searching again).
    DisconnectError,
    /// Discarding already buffered input failed for a reason other than absence (fatal).
    ClearDataError,
    /// A read failed with something other than a timeout or a broken pipe (fatal).
    ReadError,
    /// A read returned this many bytes instead of one frame (the frame is skipped).
    BufferLenError(usize),
    /// A frame could not be decoded (fatal: the host and firmware layouts disagree).
    DeserializeError,
}

/// The decimal digit character for `d < 10`.
pub open spec fn digit_char(d: int) -> char {
    seq!['0', '1', '2', '3', '4', '5', '6', '7', '8', '9'][d]
}

/// The decimal representation of `n`, without leading zeros.
pub open spec fn decimal(n: nat) -> Seq<char>
    decreases n,
{
    if n < 10 {
        seq![digit_char(n as int)]
    } else {
        decimal(n / 10).push(digit_char((n % 10) as int))
    }
}

/// The human-readable description of a condition.
pub open spec fn message_spec(e: StationError) -> Seq<char> {
    match e {
        StationError::ConnectionError => "Error when opening serial port"@,
        StationError::DisconnectError => "Teensy disconnected"@,
        StationError::ClearDataError => "Unable to clear existing accumulated data"@,
        StationError::ReadError => "Read error"@,
        StationError::BufferLenError(l) => "Mismatched buffer length: "@ + decimal(l as nat),
        StationError::DeserializeError => "Error in initial parse"@,
    }
}

/// Relies on `String::push`: the character is appended at the end.
#[verifier::external_body]
fn push_char(s: &mut String, c: char)
    ensures
        final(s)@ == old(s)@.push(c),
{
    s.push(c)
}

fn digit(d: usize) -> (r: char)
    requires
        d < 10,
    ensures
        r == digit_char(d as int),
{
    let digits: [char; 10] = ['0', '1', '2', '3', '4', '5', '6', '7', '8', '9'];
    assert(digits@ == seq!['0', '1', '2', '3', '4', '5', '6', '7', '8', '9']);
    digits[d]
}

/// Appends the decimal representation of `n` to `s`.
pub fn push_decimal(s: &mut String, n: usize)
    ensures
        final(s)@ == old(s)@ + decimal(n as nat),
    decreases n,
{
    if n >= 10 {
        push_decimal(s, n / 10);
    }
    push_char(s, digit(n % 10));
    assert(final(s)@ =~= old(s)@ + decimal(n as nat));
}

impl StationError {
    /// Whether the condition ends the run rather than being recovered locally.
    pub open spec fn spec_is_fatal(self) -> bool {
        match self {
            StationError::DisconnectError => false,
            StationError::BufferLenError(_) => false,
            _ => true,
        }
    }

    /// Whether the condition ends the run rather than being recovered locally.
    pub fn is_fatal(&self) -> (r: bool)
        ensures
            r == self.spec_is_fatal(),
    {
        match self {
            StationError::DisconnectError => false,
            StationError::BufferLenError(_) => false,
            _ => true,
        }
    }

    /// The human-readable description of the condition.
    pub fn message(&self) -> (r: String)
        ensures
            r@ == message_spec(*self),
    {
        match self {
            StationError::ConnectionError => "Error when opening serial port".to_owned(),
            StationError::DisconnectError => "Teensy disconnected".to_owned(),
            StationError::ClearDataError => "Unable to clear existing accumulated data".to_owned(),
            StationError::ReadError => "Read error".to_owned(),
            StationError::BufferLenError(l) => {
                let mut m = "Mismatched buffer length: ".to_owned();
                push_decimal(&mut m, *l);
                m
            },
            StationError::DeserializeError => "Error in initial parse".to_owned(),
        }
    }
}

} // verus!
