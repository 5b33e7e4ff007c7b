use gpu_singleshot::compute::{
    buffers_equal, check_multiplied, copy_buffer, groups_for, make_range_data, make_zero_data,
    multiply,
};

#[test]
fn dispatch_geometry() {
    // The multiply flow spans its 65536 elements with 1024 workgroups of 64
    // invocations; the image flows span 1024 pixels per axis with groups of
    // 8.
    assert_eq!(groups_for(65536, 64), 1024);
    assert_eq!(groups_for(1024, 8), 128);
    assert_eq!(groups_for(1024, 8) * 8, 1024);
}

#[test]
fn multiply_full_range() {
    // The multiply flow: 65536 elements 0, 1, ..., 65535; every output
    // element is 12 times its index.
    let input = make_range_data(65536);
    let output = multiply(&input);
    assert_eq!(output.len(), 65536);
    for (n, val) in output.iter().enumerate() {
        assert_eq!(*val, n as u32 * 12);
    }
    assert!(check_multiplied(&input, &output));
}

#[test]
fn multiply_wraps_like_the_shader() {
    let input = vec![u32::MAX, 0x1555_5556];
    let output = multiply(&input);
    assert_eq!(output[0], u32::MAX.wrapping_mul(12));
    assert_eq!(output[0], 4294967284);
    assert_eq!(output[1], 0x1555_5556u32.wrapping_mul(12));
}

#[test]
fn check_multiplied_rejects_wrong_output() {
    let input = make_range_data(8);
    let mut output = multiply(&input);
    output[3] = output[3] + 1;
    assert!(!check_multiplied(&input, &output));
    let short = vec![0u32; 7];
    assert!(!check_multiplied(&input, &short));
}

#[test]
fn copy_roundtrip() {
    // The copy flow end to end: source 0..64, destination zeroed, and after
    // the copy the destination holds exactly 0..64.
    let source = make_range_data(64);
    let mut dest = make_zero_data(64);
    assert!(dest.iter().all(|v| *v == 0));
    copy_buffer(&source, &mut dest);
    let expected: Vec<u32> = (0..64).collect();
    assert_eq!(dest, expected);
    for i in 0..64 {
        assert_eq!(source[i], dest[i]);
    }
    assert!(buffers_equal(&source, &dest));
}

#[test]
fn buffers_equal_detects_difference() {
    let a = make_range_data(16);
    let mut b = make_range_data(16);
    assert!(buffers_equal(&a, &b));
    b[15] = 99;
    assert!(!buffers_equal(&a, &b));
    let c = make_range_data(15);
    assert!(!buffers_equal(&a, &c));
}
