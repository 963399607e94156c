use cranelift_bump::building::{dec_string, make_arg, parallelism, DEFAULT_PARALLELISM};

#[test]
fn failed_processor_query_falls_back_to_the_default() {
    assert_eq!(parallelism(None), DEFAULT_PARALLELISM);
    assert_eq!(parallelism(None), 8);
}

#[test]
fn processor_count_is_parsed_with_whitespace_removed() {
    assert_eq!(parallelism(Some("8\n")), 8);
    assert_eq!(parallelism(Some("  12 \n")), 12);
    assert_eq!(parallelism(Some("1 2 8")), 128);
}

#[test]
fn misparsed_processor_count_falls_back_to_the_default() {
    assert_eq!(parallelism(Some("")), 8);
    assert_eq!(parallelism(Some("   \n")), 8);
    assert_eq!(parallelism(Some("abc")), 8);
    assert_eq!(parallelism(Some("12cores")), 8);
    assert_eq!(parallelism(Some("-4")), 8);
}

#[test]
fn oversized_processor_count_falls_back_to_the_default() {
    assert_eq!(parallelism(Some("4294967295")), u32::MAX);
    assert_eq!(parallelism(Some("4294967296")), 8);
    assert_eq!(parallelism(Some("99999999999999999999")), 8);
}

#[test]
fn decimal_rendering() {
    assert_eq!(dec_string(0), "0");
    assert_eq!(dec_string(7), "7");
    assert_eq!(dec_string(10), "10");
    assert_eq!(dec_string(1234567890), "1234567890");
    assert_eq!(dec_string(u32::MAX), "4294967295");
}

#[test]
fn make_argument_carries_the_parallelism() {
    assert_eq!(make_arg(8), "-sj8");
    assert_eq!(make_arg(128), "-sj128");
}
