use inference_runtime::events::StreamOrigin;
use inference_runtime::logs::{line_event, LineSplitter, LINE_LIMIT};

fn all_lines(chunks: &[&[u8]]) -> Vec<Vec<u8>> {
    let mut splitter = LineSplitter::new();
    let mut lines = Vec::new();
    for chunk in chunks {
        lines.extend(splitter.feed(chunk));
    }
    lines.extend(splitter.finish());
    lines
}

#[test]
fn hello_world_without_trailing_newline() {
    let mut splitter = LineSplitter::new();
    let lines = splitter.feed(b"hello\nworld");
    assert_eq!(lines, vec![b"hello".to_vec()]);
    assert_eq!(splitter.pending, b"world".to_vec());
    assert_eq!(splitter.finish(), Some(b"world".to_vec()));
    assert!(splitter.pending.is_empty());
    assert_eq!(splitter.finish(), None);
}

#[test]
fn both_terminators_end_a_line_and_empty_lines_are_dropped() {
    assert_eq!(all_lines(&[b"a\r\nb\n\n\rc\r"]), vec![b"a".to_vec(), b"b".to_vec(), b"c".to_vec()]);
    assert_eq!(all_lines(&[b"\n\n\n"]), Vec::<Vec<u8>>::new());
    assert_eq!(all_lines(&[b""]), Vec::<Vec<u8>>::new());
    assert_eq!(all_lines(&[]), Vec::<Vec<u8>>::new());
}

#[test]
fn chunk_boundaries_do_not_matter() {
    let whole: &[u8] = b"first line\nsecond\r\nthird without end";
    let expected = all_lines(&[whole]);
    assert_eq!(expected.len(), 3);
    for cut in 0..=whole.len() {
        assert_eq!(all_lines(&[&whole[..cut], &whole[cut..]]), expected, "cut at {}", cut);
    }
    let bytewise: Vec<&[u8]> = whole.chunks(1).collect();
    assert_eq!(all_lines(&bytewise), expected);
}

#[test]
fn overlong_line_is_flushed_past_the_limit() {
    assert_eq!(LINE_LIMIT, 32 * 1024);
    let mut splitter = LineSplitter::new();
    let exactly = vec![b'x'; LINE_LIMIT];
    assert!(splitter.feed(&exactly).is_empty());
    assert_eq!(splitter.pending.len(), LINE_LIMIT);
    let lines = splitter.feed(b"y");
    assert_eq!(lines.len(), 1);
    assert_eq!(lines[0].len(), LINE_LIMIT + 1);
    assert_eq!(lines[0][LINE_LIMIT], b'y');
    assert!(splitter.pending.is_empty());
    assert_eq!(splitter.finish(), None);
}

#[test]
fn long_stream_without_terminator_is_cut_into_pieces() {
    let data = vec![b'z'; 3 * (LINE_LIMIT + 1) + 5];
    let lines = all_lines(&[&data]);
    assert_eq!(lines.len(), 4);
    assert_eq!(lines[0].len(), LINE_LIMIT + 1);
    assert_eq!(lines[1].len(), LINE_LIMIT + 1);
    assert_eq!(lines[2].len(), LINE_LIMIT + 1);
    assert_eq!(lines[3].len(), 5);
}

#[test]
fn line_event_decodes_utf8() {
    let event = line_event("llama: готово".as_bytes().to_vec(), StreamOrigin::Stderr).unwrap();
    assert_eq!(event.line, "llama: готово");
    assert_eq!(event.origin, StreamOrigin::Stderr);
    let event = line_event(b"hello".to_vec(), StreamOrigin::Stdout).unwrap();
    assert_eq!(event.line, "hello");
    assert_eq!(event.origin, StreamOrigin::Stdout);
}

#[test]
fn line_that_is_not_utf8_is_dropped() {
    assert!(line_event(vec![0xff, 0xfe, b'a'], StreamOrigin::Stdout).is_none());
    assert!(line_event(vec![0xe2, 0x82], StreamOrigin::Stdout).is_none());
}
