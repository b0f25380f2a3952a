use aiff::AIFF;
use aiff::AIFFFormat;
use aiff::Duration;
use aiff::OpenFlags;
use aiff::path_is_c_representable;

#[test]
fn flag_values_match_decoder_constants() {
    assert_eq!(OpenFlags::read_only().bits(), 1);
    assert_eq!(OpenFlags::write_only().bits(), 2);
    assert_eq!(OpenFlags::aifc().bits(), 16);
    assert_eq!(OpenFlags::optimize_size().bits(), 24);
    assert_eq!(OpenFlags::not_seekable().bits(), 32);
    assert_eq!(OpenFlags::empty().bits(), 0);
}

#[test]
fn flags_compose_bit_for_bit() {
    let combined = OpenFlags::read_only().union(OpenFlags::aifc());
    assert_eq!(combined.bits(), 17);
    assert!(combined.contains(OpenFlags::read_only()));
    assert!(combined.contains(OpenFlags::aifc()));
    assert!(!combined.contains(OpenFlags::write_only()));
    assert_eq!(OpenFlags::from_bits(17), combined);
}

#[test]
fn duration_keeps_whole_seconds_and_remainder() {
    let d = Duration::new(2, 500_000_000);
    assert_eq!(d.as_secs(), 2);
    assert_eq!(d.subsec_nanos(), 500_000_000);
    let carried = Duration::new(1, 2_500_000_000);
    assert_eq!(carried.as_secs(), 3);
    assert_eq!(carried.subsec_nanos(), 500_000_000);
    let whole = Duration::from_secs(5);
    assert_eq!(whole.as_secs(), 5);
    assert_eq!(whole.subsec_nanos(), 0);
}

#[test]
fn path_with_embedded_null_is_rejected() {
    assert!(path_is_c_representable("noise.aiff"));
    assert!(path_is_c_representable(""));
    assert!(!path_is_c_representable("noise\0.aiff"));
    assert!(!path_is_c_representable("\0"));
}

#[test]
fn null_reference_yields_no_handle() {
    assert!(AIFF::from_native_ref(0).is_none());
}

#[test]
fn nonzero_reference_is_claimed() {
    let handle = AIFF::from_native_ref(42).unwrap();
    assert_eq!(handle.native_ref(), 42);
    handle.close();
}

#[test]
fn read_outcome_keeps_reported_count() {
    let handle = AIFF::from_native_ref(7).unwrap();
    let full = handle.read_outcome(vec![10i32, 20, 30, 40, 50], 5).unwrap();
    assert_eq!(full, vec![10, 20, 30, 40, 50]);
    let partial = handle.read_outcome(vec![10i32, 20, 30, 40, 50], 3).unwrap();
    assert_eq!(partial, vec![10, 20, 30]);
    let empty = handle.read_outcome(vec![10i32, 20, 30], 0).unwrap();
    assert!(empty.is_empty());
    handle.close();
}

#[test]
fn read_error_sentinel_yields_no_samples() {
    let handle = AIFF::from_native_ref(7).unwrap();
    assert!(handle.read_outcome(vec![0i32; 4], -1).is_none());
    handle.close();
}

#[test]
fn split_reads_across_representations_cover_the_total() {
    // Half the stream decoded as integers, the other half as floats:
    // the two counts must cover the file's total sample count.
    let total: usize = 10;
    let handle = AIFF::from_native_ref(3).unwrap();
    let as_i32 = handle.read_outcome(vec![0i32; total / 2], (total / 2) as i32).unwrap();
    let as_f32 = handle.read_outcome(vec![0f32; total / 2], (total / 2) as i32).unwrap();
    assert_eq!(as_i32.len() + as_f32.len(), total);
    handle.close();
}

#[test]
fn seek_duration_drops_subsecond_part() {
    let handle = AIFF::from_native_ref(5).unwrap();
    let format = AIFFFormat {
        samples: 441_000,
        channels: 2,
        sampling_rate: 44_100,
        bits_per_sample: 16,
        segment_size: 4,
    };
    // 2.75 s at 44100 frames/s targets frame 88200, not 121275:
    // the 0.75 s remainder is dropped before the multiplication.
    let frame = handle.seek_duration(&format, &Duration::new(2, 750_000_000));
    assert_eq!(frame, 88_200);
    let exact = handle.seek_duration(&format, &Duration::from_secs(3));
    assert_eq!(exact, 132_300);
    handle.close();
}
