use rotating_cube::launch::{
    banner, parse_samples, samples_from_args, window_settings, WindowSettings, WINDOW_TITLE,
};

fn args(list: &[&str]) -> Vec<String> {
    list.iter().map(|s| s.to_string()).collect()
}

#[test]
fn a_sample_count_that_is_no_number_reads_as_zero() {
    assert_eq!(parse_samples("abc"), 0);
    assert_eq!(samples_from_args(&args(&["cube", "abc"])), 0);
}

#[test]
fn a_sample_count_is_read_from_the_first_argument() {
    assert_eq!(parse_samples("4"), 4);
    assert_eq!(samples_from_args(&args(&["cube", "4"])), 4);
    assert_eq!(samples_from_args(&args(&["cube", "16", "2.5"])), 16);
}

#[test]
fn a_missing_sample_count_is_zero() {
    assert_eq!(samples_from_args(&args(&["cube"])), 0);
    assert_eq!(samples_from_args(&args(&[])), 0);
}

#[test]
fn sample_counts_at_the_edges() {
    assert_eq!(parse_samples("0"), 0);
    assert_eq!(parse_samples("65535"), 65535);
    assert_eq!(parse_samples("65536"), 0);
    assert_eq!(parse_samples("99999999999999999999999"), 0);
    assert_eq!(parse_samples("0000000000000000000000065535"), 65535);
    assert_eq!(parse_samples("+8"), 8);
    assert_eq!(parse_samples("+"), 0);
    assert_eq!(parse_samples("++8"), 0);
    assert_eq!(parse_samples("-8"), 0);
    assert_eq!(parse_samples("-0"), 0);
    assert_eq!(parse_samples(""), 0);
    assert_eq!(parse_samples(" 8"), 0);
    assert_eq!(parse_samples("8 "), 0);
    assert_eq!(parse_samples("8x"), 0);
    assert_eq!(parse_samples("1_000"), 0);
    assert_eq!(parse_samples("4.0"), 0);
    assert_eq!(parse_samples("٤"), 0);
    assert_eq!(parse_samples("４"), 0);
}

#[test]
fn sample_counts_read_as_the_standard_parser_reads_them() {
    let texts = [
        "", "+", "-", "0", "00", "7", "+7", "-7", "7+", "12", "255", "256", "4096", "65534",
        "65535", "65536", "65537", "655350", "100000", "+65535", "+65536", "+0", "0x10", "1e3",
        "१२", "12\n", "\t12", "1 2", "18446744073709551616", "+00000000000000000000001",
    ];
    for text in texts {
        assert_eq!(parse_samples(text), text.parse::<u16>().unwrap_or(0), "{:?}", text);
    }
    for n in 0..=u16::MAX {
        assert_eq!(parse_samples(&n.to_string()), n);
    }
}

#[test]
fn the_banner_names_samples_and_speed() {
    assert_eq!(banner(0, b"1"), b"running 0x AA, at 1x speed.\n\n".to_vec());
    assert_eq!(banner(4, b"2.5"), b"running 4x AA, at 2.5x speed.\n\n".to_vec());
    assert_eq!(banner(65535, b"0"), b"running 65535x AA, at 0x speed.\n\n".to_vec());
    assert_eq!(banner(16, b""), b"running 16x AA, at x speed.\n\n".to_vec());
}

#[test]
fn the_banner_writes_numbers_as_the_standard_formatter_does() {
    for samples in [0u16, 1, 9, 10, 99, 100, 101, 999, 1000, 4096, 9999, 10000, 65535] {
        let speed: f32 = 1.0;
        let expected = format!("running {}x AA, at {}x speed.\n\n", samples, speed);
        assert_eq!(banner(samples, format!("{}", speed).as_bytes()), expected.into_bytes());
    }
}

#[test]
fn the_window_is_eight_hundred_by_six_hundred_without_vsync() {
    assert_eq!(
        window_settings(4),
        WindowSettings { width: 800, height: 600, vsync: false, samples: 4 }
    );
    assert_eq!(window_settings(0).samples, 0);
    assert_eq!(WINDOW_TITLE, "Rotating Cube");
}
