use vstd::prelude::*;

use crate::error::{DdFftError, FftError};

verus! {

/// Number of complex bins in the spectrum of a real signal of `len` samples:
/// the bins from zero up to and including the Nyquist bin.
pub open spec fn spectrum_len(len: nat) -> nat {
    len / 2 + 1
}

/// The error a forward transform of length `len` reports for an input buffer
/// of `input_len` samples and an output buffer of `output_len` bins, if any.
/// The input buffer is checked first.
pub open spec fn forward_buffer_error(len: usize, input_len: usize, output_len: usize) -> Option<
    FftError,
> {
    if input_len != len {
        Some(FftError::InputBuffer(len, input_len))
    } else if output_len != spectrum_len(len as nat) {
        Some(FftError::OutputBuffer(spectrum_len(len as nat) as usize, output_len))
    } else {
        None
    }
}

/// The error an inverse transform of length `len` reports for an input buffer
/// of `input_len` bins and an output buffer of `output_len` samples, if any.
/// The input buffer is checked first.
pub open spec fn inverse_buffer_error(len: usize, input_len: usize, output_len: usize) -> Option<
    FftError,
> {
    if input_len != spectrum_len(len as nat) {
        Some(FftError::InputBuffer(spectrum_len(len as nat) as usize, input_len))
    } else if output_len != len {
        Some(FftError::OutputBuffer(len, output_len))
    } else {
        None
    }
}

/// Whether the last bin of the spectrum counts as invalid for an inverse
/// transform of length `len`, given that its imaginary part is non-zero.
/// Only an even, non-zero length has a Nyquist bin of its own.
pub open spec fn last_bin_invalid(len: usize, last_nonzero: bool) -> bool {
    last_nonzero && len % 2 == 0 && len > 0
}

/// The error an inverse transform of length `len` reports after it has run,
/// given whether the imaginary parts of the first and the last bin of its
/// spectrum were non-zero, if any. A transform of length zero has a single
/// bin and nothing to transform: it returns before it reports anything.
pub open spec fn spectrum_values_error(len: usize, first_nonzero: bool, last_nonzero: bool) -> Option<
    FftError,
> {
    if len == 0 {
        None
    } else if first_nonzero || last_bin_invalid(len, last_nonzero) {
        Some(FftError::InputValues(first_nonzero, last_bin_invalid(len, last_nonzero)))
    } else {
        None
    }
}

/// Computes `len / 2 + 1` without overflow.
fn spectrum_len_of(len: usize) -> (n: usize)
    ensures
        n == spectrum_len(len as nat),
        n == len / 2 + 1,
        2 * (n - 1) <= len < 2 * n,
{
    len / 2 + 1
}

/// The buffer geometry of a forward (real-to-complex) transform of a fixed
/// length: it takes `len` real samples and produces `len / 2 + 1` bins.
pub struct RealToComplexShape {
    len: usize,
}

impl View for RealToComplexShape {
    type V = usize;

    /// The length of the real signal that the transform takes.
    closed spec fn view(&self) -> usize {
        self.len
    }
}

impl RealToComplexShape {
    /// The geometry of a forward transform of `len` samples.
    pub fn new(len: usize) -> (shape: Self)
        ensures
            shape@ == len,
    {
        RealToComplexShape { len }
    }

    /// The length of the real input signal.
    pub fn len(&self) -> (n: usize)
        ensures
            n == self@,
    {
        self.len
    }

    /// The number of complex bins in the output spectrum.
    pub fn complex_len(&self) -> (n: usize)
        ensures
            n == spectrum_len(self@ as nat),
            n == self@ / 2 + 1,
            2 * (n - 1) <= self@ < 2 * n,
    {
        spectrum_len_of(self.len)
    }

    /// The scratch length the transform asks of its callers: none, since it
    /// keeps its own working buffers.
    pub fn get_scratch_len(&self) -> (n: usize)
        ensures
            n == 0,
    {
        0
    }

    /// Length of the input buffer the transform makes for its callers.
    pub fn input_vec_len(&self) -> (n: usize)
        ensures
            n == self@,
    {
        self.len
    }

    /// Length of the output buffer the transform makes for its callers.
    pub fn output_vec_len(&self) -> (n: usize)
        ensures
            n == spectrum_len(self@ as nat),
            n == self@ / 2 + 1,
            2 * (n - 1) <= self@ < 2 * n,
    {
        spectrum_len_of(self.len)
    }

    /// Checks the buffers handed to the transform: an input of `input_len`
    /// samples and an output of `output_len` bins. Succeeds exactly when both
    /// have the transform's lengths; else reports the first buffer that is
    /// wrong, with the expected and the received size.
    pub fn check_buffers(&self, input_len: usize, output_len: usize) -> (r: Result<(), DdFftError>)
        ensures
            r is Ok <==> (input_len == self@ && output_len == spectrum_len(self@ as nat)),
            r is Ok <==> forward_buffer_error(self@, input_len, output_len) is None,
            r matches Err(e) ==> forward_buffer_error(self@, input_len, output_len) == Some(e.0),
            r is Ok <==> (input_len == self@ && output_len == self@ / 2 + 1),
            input_len != self@ ==> r == Err::<(), DdFftError>(
                DdFftError(FftError::InputBuffer(self@, input_len)),
            ),
            input_len == self@ && output_len != self@ / 2 + 1 ==> r == Err::<(), DdFftError>(
                DdFftError(FftError::OutputBuffer((self@ / 2 + 1) as usize, output_len)),
            ),
    {
        let complex_len = spectrum_len_of(self.len);
        if input_len != self.len {
            Err(DdFftError(FftError::InputBuffer(self.len, input_len)))
        } else if output_len != complex_len {
            Err(DdFftError(FftError::OutputBuffer(complex_len, output_len)))
        } else {
            Ok(())
        }
    }
}

/// The buffer geometry of an inverse (complex-to-real) transform of a fixed
/// length: it takes `len / 2 + 1` bins and produces `len` real samples.
pub struct ComplexToRealShape {
    len: usize,
}

impl View for ComplexToRealShape {
    type V = usize;

    /// The length of the real signal that the transform produces.
    closed spec fn view(&self) -> usize {
        self.len
    }
}

impl ComplexToRealShape {
    /// The geometry of an inverse transform that produces `len` samples.
    pub fn new(len: usize) -> (shape: Self)
        ensures
            shape@ == len,
    {
        ComplexToRealShape { len }
    }

    /// The length of the real output signal.
    pub fn len(&self) -> (n: usize)
        ensures
            n == self@,
    {
        self.len
    }

    /// The number of complex bins in the input spectrum.
    pub fn complex_len(&self) -> (n: usize)
        ensures
            n == spectrum_len(self@ as nat),
            n == self@ / 2 + 1,
            2 * (n - 1) <= self@ < 2 * n,
    {
        spectrum_len_of(self.len)
    }

    /// The scratch length the transform asks of its callers: none, since it
    /// keeps its own working buffers.
    pub fn get_scratch_len(&self) -> (n: usize)
        ensures
            n == 0,
    {
        0
    }

    /// Length of the input buffer the transform makes for its callers.
    pub fn input_vec_len(&self) -> (n: usize)
        ensures
            n == spectrum_len(self@ as nat),
            n == self@ / 2 + 1,
            2 * (n - 1) <= self@ < 2 * n,
    {
        spectrum_len_of(self.len)
    }

    /// Length of the output buffer the transform makes for its callers.
    pub fn output_vec_len(&self) -> (n: usize)
        ensures
            n == self@,
    {
        self.len
    }

    /// Checks the buffers handed to the transform: an input of `input_len`
    /// bins and an output of `output_len` samples. Succeeds exactly when both
    /// have the transform's lengths; else reports the first buffer that is
    /// wrong, with the expected and the received size.
    pub fn check_buffers(&self, input_len: usize, output_len: usize) -> (r: Result<(), DdFftError>)
        ensures
            r is Ok <==> (input_len == spectrum_len(self@ as nat) && output_len == self@),
            r is Ok <==> inverse_buffer_error(self@, input_len, output_len) is None,
            r matches Err(e) ==> inverse_buffer_error(self@, input_len, output_len) == Some(e.0),
            r is Ok <==> (input_len == self@ / 2 + 1 && output_len == self@),
            input_len != self@ / 2 + 1 ==> r == Err::<(), DdFftError>(
                DdFftError(FftError::InputBuffer((self@ / 2 + 1) as usize, input_len)),
            ),
            input_len == self@ / 2 + 1 && output_len != self@ ==> r == Err::<(), DdFftError>(
                DdFftError(FftError::OutputBuffer(self@, output_len)),
            ),
    {
        let complex_len = spectrum_len_of(self.len);
        if input_len != complex_len {
            Err(DdFftError(FftError::InputBuffer(complex_len, input_len)))
        } else if output_len != self.len {
            Err(DdFftError(FftError::OutputBuffer(self.len, output_len)))
        } else {
            Ok(())
        }
    }

    /// The outcome of a transform that has run on a spectrum whose first bin
    /// had a non-zero imaginary part (`first_nonzero`) and whose last bin had
    /// one (`last_nonzero`). Such parts cannot belong to the spectrum of a real
    /// signal: the transform treats them as zero and reports them. The last
    /// bin only counts for an even, non-zero length, where it is the Nyquist
    /// bin. A transform of length zero reports nothing.
    pub fn check_spectrum_values(&self, first_nonzero: bool, last_nonzero: bool) -> (r: Result<
        (),
        DdFftError,
    >)
        ensures
            r is Ok <==> (self@ == 0 || (!first_nonzero && !(last_nonzero && self@ % 2 == 0))),
            r is Ok <==> spectrum_values_error(self@, first_nonzero, last_nonzero) is None,
            r matches Err(e) ==> spectrum_values_error(self@, first_nonzero, last_nonzero) == Some(
                e.0,
            ),
            r matches Err(e) ==> e.0 == FftError::InputValues(
                first_nonzero,
                last_nonzero && self@ % 2 == 0 && self@ > 0,
            ),
    {
        let last_invalid = last_nonzero && self.len % 2 == 0 && self.len > 0;
        if self.len > 0 && (first_nonzero || last_invalid) {
            Err(DdFftError(FftError::InputValues(first_nonzero, last_invalid)))
        } else {
            Ok(())
        }
    }
}

} // verus!
