use bh_agent::agent_error::AgentError;
use bh_agent::types::FileOpenType;
use bh_agent::util::read_chars::{
    join_graphemes, read_event, read_generic, read_graphemes, read_next, ReadEvent, ReadState,
    ReadStep,
};

/// Feeds `data` to a read one byte at a time, then the end of the stream,
/// and returns the result together with the number of bytes it asked for.
fn run_text_read(data: &[u8], n: u32) -> (Result<Vec<u8>, AgentError>, usize) {
    let mut step = read_generic(Some(n), FileOpenType::Text, true);
    let mut taken = 0;
    loop {
        match step {
            ReadStep::Return(result) => return (result, taken),
            ReadStep::Read { state, limit } => {
                assert_eq!(limit, Some(1));
                if taken < data.len() {
                    step = read_next(state, ReadEvent::Data(vec![data[taken]]));
                    taken += 1;
                } else {
                    step = read_next(state, ReadEvent::End);
                }
            }
        }
    }
}

#[test]
fn text_read_of_emoji_returns_four_graphemes() {
    let text = "a\u{1F600}b\u{1F602}c";
    assert_eq!(text.len(), 11);
    let (result, taken) = run_text_read(text.as_bytes(), 4);
    assert_eq!(result, Ok("a\u{1F600}b\u{1F602}".as_bytes().to_vec()));
    assert_eq!(taken, 11);
}

#[test]
fn whole_buffer_read_of_emoji_returns_four_graphemes() {
    let text = "a\u{1F600}b\u{1F602}c";
    let result = read_graphemes(&text.as_bytes().to_vec(), 4);
    assert_eq!(result, Ok("a\u{1F600}b\u{1F602}".as_bytes().to_vec()));
}

#[test]
fn text_read_counts_a_combining_sequence_once() {
    let text = "He\u{302}\u{320}llo";
    let (result, _) = run_text_read(text.as_bytes(), 2);
    assert_eq!(result, Ok("He\u{302}\u{320}".as_bytes().to_vec()));
}

#[test]
fn text_read_returns_what_is_available_at_the_end() {
    let (result, taken) = run_text_read("ab".as_bytes(), 5);
    assert_eq!(result, Ok(b"ab".to_vec()));
    assert_eq!(taken, 2);
}

#[test]
fn text_read_of_a_truncated_character_fails() {
    let (result, _) = run_text_read(&[b'a', 0xF0, 0x9F], 3);
    assert!(matches!(result, Err(AgentError::IoError(_))));
}

#[test]
fn join_graphemes_stops_at_the_limit_and_at_an_error() {
    let items = vec![Ok(b"a".to_vec()), Ok(b"bc".to_vec()), Err("bad".to_string()), Ok(b"d".to_vec())];
    assert_eq!(join_graphemes(&items, 0), Ok(vec![]));
    assert_eq!(join_graphemes(&items, 1), Ok(b"a".to_vec()));
    assert_eq!(join_graphemes(&items, 2), Ok(b"abc".to_vec()));
    assert_eq!(join_graphemes(&items, 3), Err(AgentError::IoError("bad".to_string())));
    assert_eq!(join_graphemes(&items, 9), Err(AgentError::IoError("bad".to_string())));
}

#[test]
fn read_of_length_zero_returns_nothing_without_reading() {
    assert!(matches!(read_generic(Some(0), FileOpenType::Binary, true), ReadStep::Return(Ok(v)) if v.is_empty()));
    assert!(matches!(read_generic(Some(0), FileOpenType::Text, true), ReadStep::Return(Ok(v)) if v.is_empty()));
}

#[test]
fn read_without_length_asks_for_everything_when_blocking() {
    match read_generic(None, FileOpenType::Text, true) {
        ReadStep::Read { state: ReadState::Whole { limit: None }, limit: None } => {}
        _ => panic!("a blocking read without a length reads to the end"),
    }
}

#[test]
fn read_without_length_is_capped_when_not_blocking() {
    match read_generic(None, FileOpenType::Binary, false) {
        ReadStep::Read { state: ReadState::Whole { limit: Some(1_048_576) }, limit: Some(1_048_576) } => {}
        _ => panic!("a non-blocking read without a length asks for one mebibyte"),
    }
}

#[test]
fn would_block_is_an_empty_success() {
    for file_type in [FileOpenType::Binary, FileOpenType::Text] {
        match read_generic(Some(8), file_type, false) {
            ReadStep::Read { state, .. } => match read_next(state, ReadEvent::WouldBlock) {
                ReadStep::Return(result) => assert_eq!(result, Ok(vec![])),
                _ => panic!("a read that would block is over"),
            },
            _ => panic!("a read of eight asks for bytes"),
        }
    }
}

#[test]
fn failed_read_is_an_io_error_with_the_message() {
    match read_generic(Some(8), FileOpenType::Binary, true) {
        ReadStep::Read { state, .. } => match read_next(state, ReadEvent::Failed("boom".to_string())) {
            ReadStep::Return(result) => assert_eq!(result, Err(AgentError::IoError("boom".to_string()))),
            _ => panic!("a failed read is over"),
        },
        _ => panic!("a read of eight asks for bytes"),
    }
}

#[test]
fn binary_read_is_cut_at_its_length() {
    match read_generic(Some(3), FileOpenType::Binary, true) {
        ReadStep::Read { state, limit } => {
            assert_eq!(limit, Some(3));
            match read_next(state, ReadEvent::Data(b"hello".to_vec())) {
                ReadStep::Return(result) => assert_eq!(result, Ok(b"hel".to_vec())),
                _ => panic!("a binary read is over after one answer"),
            }
        }
        _ => panic!("a read of three asks for bytes"),
    }
}

#[test]
fn read_event_tells_the_outcomes_apart() {
    assert!(matches!(read_event(Ok(b"ab".to_vec())), ReadEvent::Data(data) if data == b"ab"));
    assert!(matches!(read_event(Ok(vec![])), ReadEvent::End));
    let would_block = std::io::Error::new(std::io::ErrorKind::WouldBlock, "try again");
    assert!(matches!(read_event(Err(would_block)), ReadEvent::WouldBlock));
    let broken = std::io::Error::new(std::io::ErrorKind::BrokenPipe, "broken pipe");
    assert!(matches!(read_event(Err(broken)), ReadEvent::Failed(detail) if detail == "broken pipe"));
}

#[test]
fn a_non_blocking_read_with_no_data_is_an_empty_success() {
    let nothing = std::io::Error::new(std::io::ErrorKind::WouldBlock, "no data");
    match read_generic(None, FileOpenType::Binary, false) {
        ReadStep::Read { state, .. } => match read_next(state, read_event(Err(nothing))) {
            ReadStep::Return(result) => assert_eq!(result, Ok(vec![])),
            _ => panic!("a read that would block is over"),
        },
        _ => panic!("a read without a length asks for bytes"),
    }
}

/// Feeds `data` to a read in chunks of `size` bytes, then the end of the
/// stream.
fn run_chunked_text_read(data: &[u8], n: u32, size: usize) -> Result<Vec<u8>, AgentError> {
    let mut step = read_generic(Some(n), FileOpenType::Text, true);
    let mut chunks = data.chunks(size);
    loop {
        match step {
            ReadStep::Return(result) => return result,
            ReadStep::Read { state, .. } => {
                step = match chunks.next() {
                    Some(chunk) => read_next(state, ReadEvent::Data(chunk.to_vec())),
                    None => read_next(state, ReadEvent::End),
                };
            }
        }
    }
}

#[test]
fn text_read_does_not_depend_on_how_the_bytes_arrive() {
    let text = "e\u{301}a\u{1F600}\r\nb\u{1F1E9}\u{1F1EA}c\u{1F602}d";
    let data = text.as_bytes();
    for n in 0..9 {
        let whole = read_graphemes(&data.to_vec(), n as usize);
        for size in [1, 2, 3, 5, 64] {
            assert_eq!(run_chunked_text_read(data, n, size), whole, "n = {}, size = {}", n, size);
        }
    }
}

#[test]
fn text_read_returns_the_first_clusters() {
    let text = "e\u{301}a\u{1F600}\r\nb\u{1F1E9}\u{1F1EA}c";
    let data = text.as_bytes().to_vec();
    assert_eq!(read_graphemes(&data, 1), Ok("e\u{301}".as_bytes().to_vec()));
    assert_eq!(read_graphemes(&data, 2), Ok("e\u{301}a".as_bytes().to_vec()));
    assert_eq!(read_graphemes(&data, 3), Ok("e\u{301}a\u{1F600}".as_bytes().to_vec()));
    assert_eq!(read_graphemes(&data, 4), Ok("e\u{301}a\u{1F600}\r\n".as_bytes().to_vec()));
    assert_eq!(read_graphemes(&data, 6), Ok("e\u{301}a\u{1F600}\r\nb\u{1F1E9}\u{1F1EA}".as_bytes().to_vec()));
    assert_eq!(read_graphemes(&data, 7), Ok(data.clone()));
    assert_eq!(read_graphemes(&data, 100), Ok(data.clone()));
}

#[test]
fn text_read_of_invalid_bytes_fails_with_the_message_of_the_decoder() {
    let data = vec![b'a', 0xFF, b'b', b'c', b'd', b'e'];
    assert_eq!(read_graphemes(&data, 1), Ok(b"a".to_vec()));
    assert_eq!(
        read_graphemes(&data, 2),
        Err(AgentError::IoError("Bad UTF-8: [255]".to_string()))
    );
    let (result, _) = run_text_read(&data, 2);
    assert_eq!(result, Err(AgentError::IoError("Bad UTF-8: [255]".to_string())));
}

#[test]
fn text_read_stops_asking_once_the_clusters_are_complete() {
    let (result, taken) = run_text_read(b"abcdef", 2);
    assert_eq!(result, Ok(b"ab".to_vec()));
    assert_eq!(taken, 3);
}

#[test]
fn text_read_that_would_block_is_an_empty_success() {
    match read_generic(Some(3), FileOpenType::Text, false) {
        ReadStep::Read { state, .. } => match read_next(state, ReadEvent::Data(b"a".to_vec())) {
            ReadStep::Read { state, limit } => {
                assert_eq!(limit, Some(1));
                match read_next(state, ReadEvent::WouldBlock) {
                    ReadStep::Return(result) => assert_eq!(result, Ok(vec![])),
                    _ => panic!("a read that would block is over"),
                }
            }
            _ => panic!("one character of three is not the end of the read"),
        },
        _ => panic!("a read of three characters asks for bytes"),
    }
}

#[test]
fn binary_read_at_the_end_of_the_stream_is_empty() {
    match read_generic(Some(4), FileOpenType::Binary, true) {
        ReadStep::Read { state, .. } => match read_next(state, ReadEvent::End) {
            ReadStep::Return(result) => assert_eq!(result, Ok(vec![])),
            _ => panic!("a read at the end of the stream is over"),
        },
        _ => panic!("a read of four asks for bytes"),
    }
}
