use vstd::prelude::*;

use crate::error::{has_message, FftError};
use crate::shape::{
    forward_buffer_error,
    inverse_buffer_error,
    spectrum_len,
    spectrum_values_error,
};

verus! {

/// The buffers that a transform makes for its callers are the buffers it
/// accepts: a forward transform of `len` samples accepts `len` samples and
/// `len / 2 + 1` bins, and the inverse transform of the same length accepts
/// the same spectrum and signal lengths the other way round.
pub proof fn lemma_made_buffers_accepted(len: usize)
    ensures
        forward_buffer_error(len, len, spectrum_len(len as nat) as usize) is None,
        inverse_buffer_error(len, spectrum_len(len as nat) as usize, len) is None,
{
}

/// A round trip fits: the spectrum that a forward transform of `len` samples
/// writes is a valid input for the inverse transform of the same length, with
/// an output as long as the forward transform's input; and a buffer pair is
/// accepted by the forward transform exactly when the swapped pair is accepted
/// by the inverse transform.
pub proof fn lemma_round_trip_buffers(len: usize, signal_len: usize, bins: usize)
    ensures
        forward_buffer_error(len, signal_len, bins) is None <==> inverse_buffer_error(
            len,
            bins,
            signal_len,
        ) is None,
{
}

/// A transform reports a buffer only when its size differs from the size the
/// transform expects, and every such report can be described.
pub proof fn lemma_buffer_errors_name_a_mismatch(len: usize, input_len: usize, output_len: usize)
    ensures
        forward_buffer_error(len, input_len, output_len) matches Some(e) ==> match e {
            FftError::InputBuffer(expected, got) => expected != got && got == input_len,
            FftError::OutputBuffer(expected, got) => expected != got && got == output_len,
            _ => false,
        },
        inverse_buffer_error(len, input_len, output_len) matches Some(e) ==> match e {
            FftError::InputBuffer(expected, got) => expected != got && got == input_len,
            FftError::OutputBuffer(expected, got) => expected != got && got == output_len,
            _ => false,
        },
        forward_buffer_error(len, input_len, output_len) matches Some(e) ==> has_message(e),
        inverse_buffer_error(len, input_len, output_len) matches Some(e) ==> has_message(e),
{
}

/// A report on the spectrum's values always flags at least one bin, so it can
/// always be described, and it never flags a bin whose imaginary part was
/// zero; a spectrum whose first and last bins are real is never reported.
pub proof fn lemma_values_error_flags_a_bin(len: usize, first_nonzero: bool, last_nonzero: bool)
    ensures
        spectrum_values_error(len, first_nonzero, last_nonzero) matches Some(e) ==> match e {
            FftError::InputValues(first, last) => (first || last) && (first ==> first_nonzero) && (
            last ==> last_nonzero),
            _ => false,
        },
        spectrum_values_error(len, first_nonzero, last_nonzero) matches Some(e) ==> has_message(e),
        spectrum_values_error(len, false, false) is None,
{
}

/// The spectrum of a real signal of `len` samples has `len / 2 + 1` bins: the
/// fewest bins `n` with `len < 2 * n`, and at least `len / 2` beyond the first
/// one, so that bin `len / 2` (the Nyquist bin of an even length) is included.
pub proof fn lemma_spectrum_len_counts_bins(len: nat)
    ensures
        spectrum_len(len) == len / 2 + 1,
        2 * (spectrum_len(len) - 1) <= len < 2 * spectrum_len(len),
{
}

/// A forward transform of `len` samples reports a wrong input buffer before
/// it looks at the output buffer, with the expected size `len` first; with a
/// right input it reports an output buffer of other than `len / 2 + 1` bins;
/// and it accepts exactly the buffers of `len` samples and `len / 2 + 1` bins.
pub proof fn lemma_forward_buffer_errors(len: usize, input_len: usize, output_len: usize)
    ensures
        input_len != len ==> forward_buffer_error(len, input_len, output_len) == Some(
            FftError::InputBuffer(len, input_len),
        ),
        input_len == len && output_len != len / 2 + 1 ==> forward_buffer_error(
            len,
            input_len,
            output_len,
        ) == Some(FftError::OutputBuffer((len / 2 + 1) as usize, output_len)),
        forward_buffer_error(len, input_len, output_len) is None <==> (input_len == len
            && output_len == len / 2 + 1),
{
}

/// An inverse transform of length `len` reports a spectrum buffer of other
/// than `len / 2 + 1` bins before it looks at the output buffer, with the
/// expected size first; with a right spectrum it reports an output buffer of
/// other than `len` samples; and it accepts exactly those two lengths.
pub proof fn lemma_inverse_buffer_errors(len: usize, input_len: usize, output_len: usize)
    ensures
        input_len != len / 2 + 1 ==> inverse_buffer_error(len, input_len, output_len) == Some(
            FftError::InputBuffer((len / 2 + 1) as usize, input_len),
        ),
        input_len == len / 2 + 1 && output_len != len ==> inverse_buffer_error(
            len,
            input_len,
            output_len,
        ) == Some(FftError::OutputBuffer(len, output_len)),
        inverse_buffer_error(len, input_len, output_len) is None <==> (input_len == len / 2 + 1
            && output_len == len),
{
}

/// After an inverse transform of length `len`, a report on the spectrum's
/// values flags the first bin exactly when its imaginary part was non-zero,
/// and the last bin exactly when its imaginary part was non-zero and it is the
/// Nyquist bin of an even, non-zero length; a report comes exactly when the
/// length is non-zero and some bin is flagged.
pub proof fn lemma_spectrum_values_errors(len: usize, first_nonzero: bool, last_nonzero: bool)
    ensures
        spectrum_values_error(len, first_nonzero, last_nonzero) matches Some(e) ==> e
            == FftError::InputValues(first_nonzero, last_nonzero && len % 2 == 0 && len > 0),
        spectrum_values_error(len, first_nonzero, last_nonzero) is Some <==> (len > 0 && (
        first_nonzero || (last_nonzero && len % 2 == 0))),
{
}

} // verus!
