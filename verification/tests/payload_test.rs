use bpf_bootstrap::payload::entrypoint;

#[test]
fn test() {
    let input_data: [i128; 2] = [10, 20];
    let _ = entrypoint(input_data[0] as u128, input_data[1] as u128);
}

#[test]
fn entrypoint_exact_values() {
    // 2^10000 wraps to zero in 128 bits.
    assert_eq!(entrypoint(1, 2), 0);
    // multiplying by one keeps the low word low.
    assert_eq!(entrypoint(123, 1), 0);
    // a value already in the upper half stays there under factor one.
    assert_eq!(entrypoint(1u128 << 64, 1), 1);
    // the first doubling already pushes the top bit out.
    assert_eq!(entrypoint(1u128 << 127, 2), 0);
}
