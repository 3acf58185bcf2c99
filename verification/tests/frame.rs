use sysstats::frame::{frame_line, FrameError, LINE_FEED};

#[test]
fn a_record_gets_one_line_feed() {
    assert_eq!(frame_line(b"{\"mem\":{}}".to_vec()), Ok(b"{\"mem\":{}}\n".to_vec()));
    assert_eq!(frame_line(vec![b'0']), Ok(vec![b'0', LINE_FEED]));
    assert_eq!(LINE_FEED, b'\n');
}

#[test]
fn inner_blanks_are_kept() {
    assert_eq!(frame_line(b"{\"a\": \"b\tc\"}".to_vec()), Ok(b"{\"a\": \"b\tc\"}\n".to_vec()));
    assert_eq!(frame_line(b" x".to_vec()), Ok(b" x\n".to_vec()));
}

#[test]
fn an_empty_record_is_refused() {
    assert_eq!(frame_line(Vec::new()), Err(FrameError::Empty));
}

#[test]
fn a_line_break_is_refused() {
    assert_eq!(frame_line(b"{\n}".to_vec()), Err(FrameError::LineBreak));
    assert_eq!(frame_line(b"{}\n".to_vec()), Err(FrameError::LineBreak));
    assert_eq!(frame_line(b"\r{}".to_vec()), Err(FrameError::LineBreak));
    assert_eq!(frame_line(b"{} \n ".to_vec()), Err(FrameError::LineBreak));
}

#[test]
fn a_trailing_blank_is_refused() {
    assert_eq!(frame_line(b"{} ".to_vec()), Err(FrameError::TrailingBlank));
    assert_eq!(frame_line(b"{}\t".to_vec()), Err(FrameError::TrailingBlank));
    assert_eq!(frame_line(b" ".to_vec()), Err(FrameError::TrailingBlank));
}

#[test]
fn a_framed_line_splits_back_into_its_record() {
    let line = frame_line(b"{\"cpu\":{\"cpus\":[]}}".to_vec()).unwrap();
    let text = String::from_utf8(line).unwrap();
    let lines: Vec<&str> = text.lines().collect();
    assert_eq!(lines, vec!["{\"cpu\":{\"cpus\":[]}}"]);
    assert!(text.ends_with('\n'));
    assert_eq!(text.matches('\n').count(), 1);
}
