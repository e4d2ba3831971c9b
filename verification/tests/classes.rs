use workspace_labels::classes::{wm_classes, ChunkReply, ClassQuery, NextRead, CHUNK_LENGTH};

fn chunk(value: &[u8], bytes_after: u32) -> ChunkReply {
    ChunkReply::Chunk { value: value.to_vec(), value_len: value.len() as u32, bytes_after }
}

#[test]
fn classes_are_the_pieces_between_zero_characters() {
    assert_eq!(
        wm_classes(b"Navigator\0Firefox\0".to_vec()),
        Some(vec!["Navigator".to_string(), "Firefox".to_string(), String::new()])
    );
    assert_eq!(wm_classes(b"a\0\0b".to_vec()), Some(vec!["a".to_string(), String::new(), "b".to_string()]));
    assert_eq!(wm_classes("grüße\0".as_bytes().to_vec()), Some(vec!["grüße".to_string(), String::new()]));
}

#[test]
fn classes_of_an_empty_property_are_one_empty_piece() {
    assert_eq!(wm_classes(Vec::new()), Some(vec![String::new()]));
}

#[test]
fn classes_of_bytes_that_are_no_text_are_none() {
    assert_eq!(wm_classes(vec![b'a', 0xff, 0]), None);
    assert_eq!(wm_classes(vec![0xc3]), None);
}

#[test]
fn query_reads_chunk_after_chunk() {
    let (mut query, first) = ClassQuery::new();
    assert_eq!(CHUNK_LENGTH, 8);
    assert_eq!(first, NextRead::Ask { offset: 0, length: 8 });
    let next = query.advance(&chunk(&[b'x'; 32], 11));
    assert_eq!(next, NextRead::Ask { offset: 8, length: 8 });
    assert!(!query.finished);
    let next = query.advance(&chunk(b"yyyyyyyyyy\0", 0));
    assert_eq!(next, NextRead::Stop);
    assert!(query.finished);
    assert_eq!(query.offset, 8);
    assert_eq!(query.buf.len(), 43);
    let expected = vec![format!("{}{}", "x".repeat(32), "y".repeat(10)), String::new()];
    assert_eq!(query.classes(), Some(expected));
}

#[test]
fn query_stops_at_a_failure_and_keeps_what_it_read() {
    let (mut query, _) = ClassQuery::new();
    assert_eq!(query.advance(&chunk(b"abcd\0efg", 4)), NextRead::Ask { offset: 2, length: 8 });
    assert_eq!(query.advance(&ChunkReply::Failed), NextRead::Stop);
    assert!(query.finished);
    assert_eq!(query.classes(), Some(vec!["abcd".to_string(), "efg".to_string()]));
}

#[test]
fn query_offset_counts_whole_units_of_four() {
    let (mut query, _) = ClassQuery::new();
    assert_eq!(query.advance(&chunk(b"abcdefg", 1)), NextRead::Ask { offset: 1, length: 8 });
    assert_eq!(query.advance(&chunk(b"ab", 1)), NextRead::Ask { offset: 1, length: 8 });
}
