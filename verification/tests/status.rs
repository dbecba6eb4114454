use rotating_cube::status::{
    fit_to_width, render_status, status_line, status_line_for_terminal, status_line_in_columns,
};

#[test]
fn the_status_line_names_frame_cursor_flag_and_state() {
    assert_eq!(
        render_status(1, b"0", b"0", false, b"position: []"),
        b"\rframe: 1, mouse: (0, 0), dragging? false, position: []".to_vec()
    );
    assert_eq!(
        render_status(42, b"400", b"-3", true, b"x"),
        b"\rframe: 42, mouse: (400, -3), dragging? true, x".to_vec()
    );
    assert_eq!(
        render_status(0, b"", b"", false, b""),
        b"\rframe: 0, mouse: (, ), dragging? false, ".to_vec()
    );
}

#[test]
fn the_frame_count_is_grouped_by_thousands() {
    let cases: [(i32, &str); 14] = [
        (0, "0"),
        (9, "9"),
        (999, "999"),
        (1000, "1,000"),
        (1001, "1,001"),
        (12345, "12,345"),
        (100000, "100,000"),
        (999999, "999,999"),
        (1000000, "1,000,000"),
        (1234567, "1,234,567"),
        (i32::MAX, "2,147,483,647"),
        (-1, "-1"),
        (-1000, "-1,000"),
        (i32::MIN, "-2,147,483,648"),
    ];
    for (frames, text) in cases {
        let expected = format!("\rframe: {}, mouse: (1, 2), dragging? true, s", text);
        assert_eq!(render_status(frames, b"1", b"2", true, b"s"), expected.into_bytes());
    }
}

#[test]
fn a_long_line_is_cut_to_the_width() {
    let raw = b"\rframe: 1, mouse: (0, 0), dragging? false, position: []";
    assert_eq!(fit_to_width(raw, 10), b"\rframe: 1,".to_vec());
    assert_eq!(fit_to_width(raw, 1), b"\r".to_vec());
    assert_eq!(fit_to_width(raw, 0), Vec::<u8>::new());
    assert_eq!(fit_to_width(raw, raw.len() - 1), raw[..raw.len() - 1].to_vec());
}

#[test]
fn a_short_line_is_padded_with_spaces() {
    assert_eq!(fit_to_width(b"abc", 3), b"abc".to_vec());
    assert_eq!(fit_to_width(b"abc", 4), b"abc ".to_vec());
    assert_eq!(fit_to_width(b"abc", 8), b"abc     ".to_vec());
    assert_eq!(fit_to_width(b"", 2), b"  ".to_vec());
    assert_eq!(fit_to_width(b"", 0), Vec::<u8>::new());
}

#[test]
fn a_fitted_line_is_exactly_as_wide_as_the_terminal() {
    let raw = render_status(1234, b"10", b"20", true, b"position: [[1.0, 0.0]]");
    for width in 1..200usize {
        let line = status_line(1234, b"10", b"20", true, b"position: [[1.0, 0.0]]", width);
        let kept = width.min(raw.len());
        assert_eq!(line.len(), width);
        assert_eq!(&line[..kept], &raw[..kept]);
        assert!(line[kept..].iter().all(|b| *b == b' '));
        assert_eq!(line, fit_to_width(&raw, width));
    }
}

#[test]
fn bytes_are_cut_as_bytes() {
    let raw = "né".as_bytes();
    assert_eq!(fit_to_width(raw, 2), vec![b'n', 0xc3]);
    assert_eq!(fit_to_width(raw, 4), vec![b'n', 0xc3, 0xa9, b' ']);
}

#[test]
fn the_terminal_line_is_fitted_to_its_own_width() {
    let raw = render_status(7, b"1", b"2", false, b"position: []");
    match status_line_for_terminal(7, b"1", b"2", false, b"position: []") {
        Some(line) => {
            assert!(line.len() <= u16::MAX as usize);
            assert_eq!(line, fit_to_width(&raw, line.len()));
        }
        None => {}
    }
}

#[test]
fn a_failed_size_query_gives_no_line() {
    assert_eq!(status_line_in_columns(7, b"1", b"2", false, b"position: []", None), None);
    assert_eq!(status_line_in_columns(0, b"", b"", true, b"", None), None);
}

#[test]
fn a_size_query_that_succeeds_gives_the_line_in_its_columns() {
    let raw = render_status(7, b"1", b"2", false, b"position: []");
    assert_eq!(
        status_line_in_columns(7, b"1", b"2", false, b"position: []", Some(10)),
        Some(b"\rframe: 7,".to_vec())
    );
    assert_eq!(
        status_line_in_columns(7, b"1", b"2", false, b"position: []", Some(0)),
        Some(Vec::new())
    );
    for columns in [1u16, 2, 40, 80, 200, u16::MAX] {
        let line = status_line_in_columns(7, b"1", b"2", false, b"position: []", Some(columns));
        assert_eq!(line, Some(fit_to_width(&raw, columns as usize)));
        assert_eq!(line.unwrap().len(), columns as usize);
    }
}
