use vstd::prelude::*;

verus! {

/// An error reported by a real FFT.
///
/// The buffer variants carry the expected size first and the received size
/// second. `InputValues` reports, for the first and the last bin of an
/// inverse transform's spectrum, whether that bin held a non-zero imaginary
/// part; the transform was still performed.
#[derive(Clone, Copy, Debug, PartialEq, Eq, Structural)]
pub enum FftError {
    InputBuffer(usize, usize),
    OutputBuffer(usize, usize),
    ScratchBuffer(usize, usize),
    InputValues(bool, bool),
}

/// The error returned by a double-double transform: the engine's error,
/// carried unchanged.
#[derive(Clone, Copy, Debug, PartialEq, Eq, Structural)]
pub struct DdFftError(pub FftError);

/// Hands the engine's error on as the error type of the real FFT interface,
/// variant for variant and field for field.
pub fn map_error(e: DdFftError) -> (mapped: FftError)
    ensures
        mapped == e.0,
{
    match e.0 {
        FftError::InputBuffer(expected, got) => FftError::InputBuffer(expected, got),
        FftError::OutputBuffer(expected, got) => FftError::OutputBuffer(expected, got),
        FftError::ScratchBuffer(expected, got) => FftError::ScratchBuffer(expected, got),
        FftError::InputValues(first, last) => FftError::InputValues(first, last),
    }
}

/// The character of a decimal digit `d < 10`.
pub open spec fn digit_char(d: nat) -> char {
    (48 + d) as char
}

/// The decimal representation of `n`, without sign or leading zeros, as
/// integers are displayed.
pub open spec fn decimal(n: nat) -> Seq<char>
    decreases n,
{
    if n < 10 {
        seq![digit_char(n)]
    } else {
        decimal(n / 10).push(digit_char(n % 10))
    }
}

/// The message that describes an error.
pub open spec fn error_message(e: FftError) -> Seq<char> {
    match e {
        FftError::InputBuffer(expected, got) => "Wrong length of input, expected "@ + decimal(
            expected as nat,
        ) + ", got "@ + decimal(got as nat),
        FftError::OutputBuffer(expected, got) => "Wrong length of output, expected "@ + decimal(
            expected as nat,
        ) + ", got "@ + decimal(got as nat),
        FftError::ScratchBuffer(expected, got) => "Scratch buffer of size "@ + decimal(got as nat)
            + " is too small, must be at least "@ + decimal(expected as nat) + " long"@,
        FftError::InputValues(first, last) => if first && last {
            "Imaginary parts of both first and last values were non-zero."@
        } else if first {
            "Imaginary part of first value was non-zero."@
        } else {
            "Imaginary part of last value was non-zero."@
        },
    }
}

/// Whether an error can be described: a report on the spectrum's values that
/// flags neither bin has no message.
pub open spec fn has_message(e: FftError) -> bool {
    !(e matches FftError::InputValues(false, false))
}

/// Describes the error through the `Display` impl of `realfft::FftError`,
/// after building the variant with the same fields. That impl formats the
/// sizes in decimal into the fixed sentences that `error_message` spells out,
/// and panics on an `InputValues` error that flags neither bin, which
/// `requires` leaves out.
#[verifier::external_body]
fn realfft_error_text(e: FftError) -> (text: String)
    requires
        has_message(e),
    ensures
        text@ == error_message(e),
{
    let outside = match e {
        FftError::InputBuffer(a, b) => realfft::FftError::InputBuffer(a, b),
        FftError::OutputBuffer(a, b) => realfft::FftError::OutputBuffer(a, b),
        FftError::ScratchBuffer(a, b) => realfft::FftError::ScratchBuffer(a, b),
        FftError::InputValues(a, b) => realfft::FftError::InputValues(a, b),
    };
    outside.to_string()
}

impl DdFftError {
    /// The message that describes this error, as the real FFT interface
    /// displays it.
    pub fn message(&self) -> (text: String)
        requires
            has_message(self.0),
        ensures
            text@ == error_message(self.0),
    {
        realfft_error_text(self.0)
    }
}

} // verus!
