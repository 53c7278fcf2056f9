use icy_metadata::error::EmptyMetadataError;
use radio_player::metadata::{
    decode_block, event_of_parse, strip_padding, MetadataSplitter, BLOCK_UNIT,
};

fn padded(text: &str, units: usize) -> Vec<u8> {
    let mut block = text.as_bytes().to_vec();
    assert!(block.len() <= units * 16);
    block.resize(units * 16, 0);
    block
}

fn audio_bytes(count: usize, seed: u8) -> Vec<u8> {
    (0..count).map(|i| (i as u8).wrapping_mul(31).wrapping_add(seed)).collect()
}

#[test]
fn splitter_separates_audio_from_one_title_block() {
    let audio = audio_bytes(8192, 3);
    let block = padded("StreamTitle='Test Song';", 2);
    assert_eq!(block.len(), 32);
    let mut stream = audio.clone();
    stream.push(2);
    stream.extend_from_slice(&block);
    let mut splitter = MetadataSplitter::new(Some(8192));
    let output = splitter.push(&stream);
    assert_eq!(output.audio, audio);
    assert_eq!(output.blocks.len(), 1);
    assert_eq!(output.blocks[0], block);
    let events: Vec<_> = output.blocks.iter().map(|b| decode_block(b)).collect();
    assert_eq!(events.len(), 1);
    assert_eq!(events[0].title.as_deref(), Some("Test Song"));
}

#[test]
fn feed_emits_the_audio_and_exactly_one_title() {
    let audio = audio_bytes(8192, 9);
    let mut stream = audio.clone();
    stream.push(2);
    stream.extend_from_slice(&padded("StreamTitle='Test Song';", 2));
    let mut splitter = MetadataSplitter::new(Some(8192));
    let fed = splitter.feed(&stream);
    assert_eq!(fed.audio, audio);
    assert_eq!(fed.events.len(), 1);
    assert_eq!(fed.events[0].title.as_deref(), Some("Test Song"));
    let more = splitter.feed(&audio);
    assert_eq!(more.audio, audio);
    assert!(more.events.is_empty());
}

#[test]
fn feed_without_interval_emits_no_event() {
    let mut stream = audio_bytes(8192, 4);
    stream.push(2);
    stream.extend_from_slice(&padded("StreamTitle='Test Song';", 2));
    let mut splitter = MetadataSplitter::new(None);
    let fed = splitter.feed(&stream);
    assert_eq!(fed.audio, stream);
    assert!(fed.events.is_empty());
}

#[test]
fn feed_goes_on_after_a_block_that_cannot_be_read() {
    let mut stream = vec![1u8, 2, 1];
    let mut broken = padded("StreamTitle='x';", 1);
    broken[0] = 0xff;
    stream.extend_from_slice(&broken);
    stream.extend_from_slice(&[3, 4, 2]);
    stream.extend_from_slice(&padded("StreamTitle='ok';", 2));
    stream.extend_from_slice(&[5, 6, 0, 7]);
    let mut splitter = MetadataSplitter::new(Some(2));
    let fed = splitter.feed(&stream);
    assert_eq!(fed.audio, vec![1, 2, 3, 4, 5, 6, 7]);
    assert_eq!(fed.events.len(), 2);
    assert_eq!(fed.events[0].title, None);
    assert_eq!(fed.events[1].title.as_deref(), Some("ok"));
}

#[test]
fn splitter_without_interval_passes_everything_through() {
    let mut stream = audio_bytes(8192, 5);
    stream.push(2);
    stream.extend_from_slice(&padded("StreamTitle='Test Song';", 2));
    let mut splitter = MetadataSplitter::new(Some(0));
    let output = splitter.push(&stream);
    assert_eq!(output.audio, stream);
    assert!(output.blocks.is_empty());
    let mut absent = MetadataSplitter::new(None);
    let output = absent.push(&stream);
    assert_eq!(output.audio, stream);
    assert!(output.blocks.is_empty());
    assert_eq!(absent.interval(), 0);
}

#[test]
fn splitter_gives_the_same_result_for_any_chunking() {
    let mut stream = Vec::new();
    let mut audio = Vec::new();
    let mut blocks = Vec::new();
    for round in 0..6u8 {
        let part = audio_bytes(10, round);
        stream.extend_from_slice(&part);
        audio.extend_from_slice(&part);
        let units = [0usize, 2, 3][(round % 3) as usize];
        stream.push(units as u8);
        if units > 0 {
            let block = padded(&format!("StreamTitle='Song {}';", round), units);
            stream.extend_from_slice(&block);
            blocks.push(block);
        }
    }
    stream.extend_from_slice(&[1, 2, 3]);
    audio.extend_from_slice(&[1, 2, 3]);
    for size in [1usize, 2, 3, 7, 16, 17, 1000] {
        let mut splitter = MetadataSplitter::new(Some(10));
        let mut got_audio = Vec::new();
        let mut got_blocks = Vec::new();
        for chunk in stream.chunks(size) {
            let output = splitter.push(chunk);
            got_audio.extend(output.audio);
            got_blocks.extend(output.blocks);
        }
        assert_eq!(got_audio, audio, "chunks of {}", size);
        assert_eq!(got_blocks, blocks, "chunks of {}", size);
    }
}

#[test]
fn splitter_skips_an_empty_metadata_block() {
    let mut splitter = MetadataSplitter::new(Some(4));
    let output = splitter.push(&[1, 2, 3, 4, 0, 5, 6, 7, 8, 0, 9]);
    assert_eq!(output.audio, vec![1, 2, 3, 4, 5, 6, 7, 8, 9]);
    assert!(output.blocks.is_empty());
}

#[test]
fn splitter_keeps_a_block_that_is_cut_off() {
    let block = padded("StreamTitle='Cut';", 2);
    let mut splitter = MetadataSplitter::new(Some(2));
    let mut first = vec![10u8, 11, 2];
    first.extend_from_slice(&block[..5]);
    let output = splitter.push(&first);
    assert_eq!(output.audio, vec![10, 11]);
    assert!(output.blocks.is_empty());
    let mut second = block[5..].to_vec();
    second.extend_from_slice(&[12, 13]);
    let output = splitter.push(&second);
    assert_eq!(output.audio, vec![12, 13]);
    assert_eq!(output.blocks, vec![block.clone()]);
    assert_eq!(decode_block(&output.blocks[0]).title.as_deref(), Some("Cut"));
}

#[test]
fn splitter_takes_the_longest_block() {
    let block = audio_bytes(255 * 16, 1);
    let mut stream = vec![1u8, 255];
    stream.extend_from_slice(&block);
    stream.push(2);
    let mut splitter = MetadataSplitter::new(Some(1));
    let output = splitter.push(&stream);
    assert_eq!(output.audio, vec![1, 2]);
    assert_eq!(output.blocks, vec![block]);
    assert_eq!(BLOCK_UNIT, 16);
}

#[test]
fn splitter_of_empty_chunk_gives_nothing() {
    let mut splitter = MetadataSplitter::new(Some(3));
    let output = splitter.push(&[]);
    assert!(output.audio.is_empty());
    assert!(output.blocks.is_empty());
    assert_eq!(splitter.interval(), 3);
}

#[test]
fn padding_is_stripped_from_the_end_only() {
    assert_eq!(strip_padding(&[65, 0, 66, 0, 0]), &[65, 0, 66]);
    assert_eq!(strip_padding(&[65, 66]), &[65, 66]);
    assert_eq!(strip_padding(&[0, 0, 0]), &[] as &[u8]);
    assert_eq!(strip_padding(&[]), &[] as &[u8]);
    assert_eq!(strip_padding(&[0, 1]), &[0, 1]);
}

#[test]
fn block_with_title_gives_the_title() {
    let event = decode_block(&padded("StreamTitle='Artist - Track';StreamUrl='http://x';", 4));
    assert_eq!(event.title.as_deref(), Some("Artist - Track"));
}

#[test]
fn block_with_empty_title_gives_an_empty_title() {
    let event = decode_block(&padded("StreamTitle='';", 1));
    assert_eq!(event.title.as_deref(), Some(""));
}

#[test]
fn block_without_title_field_gives_no_title() {
    let event = decode_block(&padded("StreamUrl='http://example.org';", 2));
    assert_eq!(event.title, None);
}

#[test]
fn block_without_any_field_gives_no_title() {
    assert_eq!(decode_block(&padded("no fields here", 1)).title, None);
    assert_eq!(decode_block(&padded("", 1)).title, None);
}

#[test]
fn block_that_is_not_text_gives_no_title() {
    let mut block = padded("StreamTitle='x';", 2);
    block[3] = 0xff;
    assert_eq!(decode_block(&block).title, None);
    assert_eq!(decode_block(&[0xc3, 0x28, 0, 0]).title, None);
}

#[test]
fn event_takes_the_title_of_a_parse() {
    assert_eq!(event_of_parse(Ok(Some("T".to_string()))).title.as_deref(), Some("T"));
    assert_eq!(event_of_parse(Ok(None)).title, None);
    assert_eq!(event_of_parse(Err(EmptyMetadataError("junk".to_string()))).title, None);
}

#[test]
fn lone_title_field_gives_the_text_between_its_quotes() {
    let titles = [
        "Test Song",
        "",
        " ",
        "  padded with spaces  ",
        "it's",
        "'",
        "''",
        "a=b",
        "=",
        "StreamUrl='http://example.org'",
        "streamtitle=again",
        "Bj\u{f6}rk \u{2013} J\u{f3}ga",
        "tab\there",
        "nul\u{0}inside",
    ];
    for title in titles {
        let closed = format!("StreamTitle='{}';", title);
        let units = closed.len() / 16 + 1;
        let event = decode_block(&padded(&closed, units));
        assert_eq!(event.title.as_deref(), Some(title), "with a semicolon: {:?}", title);
        let open = format!("StreamTitle='{}'", title);
        let event = decode_block(&padded(&open, units));
        assert_eq!(event.title.as_deref(), Some(title), "without a semicolon: {:?}", title);
        let event = decode_block(closed.as_bytes());
        assert_eq!(event.title.as_deref(), Some(title), "without padding: {:?}", title);
    }
}

#[test]
fn text_without_an_equals_sign_gives_no_title() {
    for text in ["", ";", ";;;", "StreamTitle", "StreamTitle 'x';", "'quoted';", " \t "] {
        assert_eq!(decode_block(&padded(text, 2)).title, None, "{:?}", text);
        assert_eq!(decode_block(text.as_bytes()).title, None, "{:?}", text);
    }
}
