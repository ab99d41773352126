use dd_fft::error::{map_error, DdFftError, FftError};
use dd_fft::shape::{ComplexToRealShape, RealToComplexShape};

#[test]
fn complex_len_counts_bins_up_to_nyquist() {
    for (len, bins) in [(0usize, 1usize), (1, 1), (2, 2), (3, 2), (7, 4), (8, 5), (17, 9), (4000, 2001)] {
        assert_eq!(RealToComplexShape::new(len).complex_len(), bins);
        assert_eq!(ComplexToRealShape::new(len).complex_len(), bins);
    }
}

#[test]
fn complex_len_of_largest_length_does_not_overflow() {
    let shape = RealToComplexShape::new(usize::MAX);
    assert_eq!(shape.complex_len(), usize::MAX / 2 + 1);
}

#[test]
fn shapes_report_their_length_and_no_scratch() {
    let forward = RealToComplexShape::new(12);
    let inverse = ComplexToRealShape::new(12);
    assert_eq!(forward.len(), 12);
    assert_eq!(inverse.len(), 12);
    assert_eq!(forward.get_scratch_len(), 0);
    assert_eq!(inverse.get_scratch_len(), 0);
    assert_eq!(forward.input_vec_len(), 12);
    assert_eq!(forward.output_vec_len(), 7);
    assert_eq!(inverse.input_vec_len(), 7);
    assert_eq!(inverse.output_vec_len(), 12);
}

#[test]
fn forward_accepts_matching_buffers() {
    assert_eq!(RealToComplexShape::new(8).check_buffers(8, 5), Ok(()));
    assert_eq!(RealToComplexShape::new(0).check_buffers(0, 1), Ok(()));
}

#[test]
fn forward_reports_wrong_input_first() {
    let shape = RealToComplexShape::new(8);
    assert_eq!(shape.check_buffers(7, 5), Err(DdFftError(FftError::InputBuffer(8, 7))));
    assert_eq!(shape.check_buffers(9, 3), Err(DdFftError(FftError::InputBuffer(8, 9))));
}

#[test]
fn forward_reports_wrong_output() {
    let shape = RealToComplexShape::new(8);
    assert_eq!(shape.check_buffers(8, 4), Err(DdFftError(FftError::OutputBuffer(5, 4))));
    assert_eq!(shape.check_buffers(8, 8), Err(DdFftError(FftError::OutputBuffer(5, 8))));
}

#[test]
fn inverse_accepts_matching_buffers() {
    assert_eq!(ComplexToRealShape::new(7).check_buffers(4, 7), Ok(()));
    assert_eq!(ComplexToRealShape::new(0).check_buffers(1, 0), Ok(()));
}

#[test]
fn inverse_reports_wrong_input_first() {
    let shape = ComplexToRealShape::new(7);
    assert_eq!(shape.check_buffers(7, 4), Err(DdFftError(FftError::InputBuffer(4, 7))));
    assert_eq!(shape.check_buffers(3, 7), Err(DdFftError(FftError::InputBuffer(4, 3))));
}

#[test]
fn inverse_reports_wrong_output() {
    let shape = ComplexToRealShape::new(7);
    assert_eq!(shape.check_buffers(4, 6), Err(DdFftError(FftError::OutputBuffer(7, 6))));
}

#[test]
fn real_edge_bins_are_accepted() {
    for len in [0usize, 1, 2, 7, 8] {
        assert_eq!(ComplexToRealShape::new(len).check_spectrum_values(false, false), Ok(()));
    }
}

#[test]
fn odd_length_reports_only_the_first_bin() {
    let shape = ComplexToRealShape::new(7);
    assert_eq!(shape.check_spectrum_values(true, false), Err(DdFftError(FftError::InputValues(true, false))));
    assert_eq!(shape.check_spectrum_values(true, true), Err(DdFftError(FftError::InputValues(true, false))));
    assert_eq!(shape.check_spectrum_values(false, true), Ok(()));
}

#[test]
fn even_length_reports_first_and_nyquist_bins() {
    let shape = ComplexToRealShape::new(8);
    assert_eq!(shape.check_spectrum_values(true, false), Err(DdFftError(FftError::InputValues(true, false))));
    assert_eq!(shape.check_spectrum_values(false, true), Err(DdFftError(FftError::InputValues(false, true))));
    assert_eq!(shape.check_spectrum_values(true, true), Err(DdFftError(FftError::InputValues(true, true))));
}

#[test]
fn zero_length_reports_nothing() {
    let shape = ComplexToRealShape::new(0);
    assert_eq!(shape.check_spectrum_values(false, true), Ok(()));
    assert_eq!(shape.check_spectrum_values(true, false), Ok(()));
    assert_eq!(shape.check_spectrum_values(true, true), Ok(()));
}

#[test]
fn map_error_keeps_every_variant() {
    for e in [
        FftError::InputBuffer(3, 4),
        FftError::OutputBuffer(5, 6),
        FftError::ScratchBuffer(7, 1),
        FftError::InputValues(true, false),
        FftError::InputValues(false, true),
    ] {
        assert_eq!(map_error(DdFftError(e)), e);
    }
}

#[test]
fn made_buffers_are_accepted() {
    for len in [0usize, 1, 2, 3, 100, 101, 257, 1024] {
        let forward = RealToComplexShape::new(len);
        let inverse = ComplexToRealShape::new(len);
        assert_eq!(forward.check_buffers(forward.input_vec_len(), forward.output_vec_len()), Ok(()));
        assert_eq!(inverse.check_buffers(inverse.input_vec_len(), inverse.output_vec_len()), Ok(()));
    }
}

#[test]
fn forward_spectrum_fits_inverse_of_same_length() {
    for len in [1usize, 2, 3, 4, 5, 7, 8, 12, 17, 32, 100, 101, 257, 1024, 4000] {
        let forward = RealToComplexShape::new(len);
        let inverse = ComplexToRealShape::new(len);
        assert_eq!(inverse.check_buffers(forward.output_vec_len(), forward.input_vec_len()), Ok(()));
    }
}

#[test]
fn swapped_buffers_agree_between_directions() {
    let forward = RealToComplexShape::new(10);
    let inverse = ComplexToRealShape::new(10);
    for (signal, bins) in [(10usize, 6usize), (10, 5), (9, 6), (6, 10)] {
        assert_eq!(forward.check_buffers(signal, bins).is_ok(), inverse.check_buffers(bins, signal).is_ok());
    }
}
