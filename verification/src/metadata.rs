//! The stream metadata splitter.
//!
//! A server that sends in-band metadata interrupts the audio every
//! `interval` bytes with one length byte and a block of sixteen times that
//! many bytes. The splitter takes the raw stream in chunks of any size, hands
//! on the audio bytes alone, and gives back each metadata block whole. The
//! text of a block is read by `icy_metadata`.

use icy_metadata::error::EmptyMetadataError;
use icy_metadata::IcyMetadata;
use vstd::prelude::*;
use vstd::slice::slice_subrange;
use vstd::string::*;
use vstd::utf8::{decode_utf8, encode_utf8_decode_utf8, valid_utf8};

verus! {

/// The number of block bytes that one unit of the length byte stands for.
pub const BLOCK_UNIT: usize = 16;

/// Where a splitter stands in the stream.
pub struct SplitState {
    /// The metadata interval; zero when the stream carries no metadata.
    pub interval: nat,
    /// Audio bytes still to pass before the next length byte.
    pub audio_left: nat,
    /// Bytes of the current metadata block still to come.
    pub block_left: nat,
    /// The bytes of the current metadata block read so far.
    pub block: Seq<u8>,
}

/// What one byte does: the next state, the byte if it is audio, and the
/// metadata block if the byte completes one.
pub struct SplitStep {
    pub state: SplitState,
    pub audio: Option<u8>,
    pub block: Option<Seq<u8>>,
}

/// What a run of bytes does: the state after it, the audio bytes in it, and
/// the metadata blocks completed in it, each in stream order.
pub struct SplitRun {
    pub state: SplitState,
    pub audio: Seq<u8>,
    pub blocks: Seq<Seq<u8>>,
}

/// The state at the start of a stream with the given interval.
pub open spec fn split_start(interval: nat) -> SplitState {
    SplitState { interval, audio_left: interval, block_left: 0, block: Seq::empty() }
}

/// The effect of a single byte. With no interval every byte is audio.
/// Otherwise a byte is audio while audio is due; the byte after that is a
/// length byte, which opens a block of sixteen times its value, or none at
/// all when it is zero; the bytes of a block are collected until it is whole.
pub open spec fn split_byte(state: SplitState, byte: u8) -> SplitStep {
    if state.interval == 0 {
        SplitStep { state, audio: Some(byte), block: None }
    } else if state.audio_left > 0 {
        SplitStep {
            state: SplitState { audio_left: (state.audio_left - 1) as nat, ..state },
            audio: Some(byte),
            block: None,
        }
    } else if state.block_left == 0 {
        if byte == 0 {
            SplitStep {
                state: SplitState { audio_left: state.interval, ..state },
                audio: None,
                block: None,
            }
        } else {
            SplitStep {
                state: SplitState {
                    block_left: (BLOCK_UNIT * byte) as nat,
                    block: Seq::empty(),
                    ..state
                },
                audio: None,
                block: None,
            }
        }
    } else if state.block_left == 1 {
        SplitStep {
            state: SplitState {
                audio_left: state.interval,
                block_left: 0,
                block: Seq::empty(),
                ..state
            },
            audio: None,
            block: Some(state.block.push(byte)),
        }
    } else {
        SplitStep {
            state: SplitState {
                block_left: (state.block_left - 1) as nat,
                block: state.block.push(byte),
                ..state
            },
            audio: None,
            block: None,
        }
    }
}

/// The effect of a run of bytes, one byte after the other.
pub open spec fn split_run(state: SplitState, bytes: Seq<u8>) -> SplitRun
    decreases bytes.len(),
{
    if bytes.len() == 0 {
        SplitRun { state, audio: Seq::empty(), blocks: Seq::empty() }
    } else {
        let before = split_run(state, bytes.drop_last());
        let step = split_byte(before.state, bytes.last());
        SplitRun {
            state: step.state,
            audio: match step.audio {
                Some(byte) => before.audio.push(byte),
                None => before.audio,
            },
            blocks: match step.block {
                Some(block) => before.blocks.push(block),
                None => before.blocks,
            },
        }
    }
}

/// Splitting does not depend on how the stream is cut into chunks: a run
/// over `first` followed by `second` is the run over `first`, continued by
/// the run over `second` from the state that `first` left.
pub proof fn lemma_split_concat(state: SplitState, first: Seq<u8>, second: Seq<u8>)
    ensures
        split_run(state, first + second) == (SplitRun {
            state: split_run(split_run(state, first).state, second).state,
            audio: split_run(state, first).audio + split_run(
                split_run(state, first).state,
                second,
            ).audio,
            blocks: split_run(state, first).blocks + split_run(
                split_run(state, first).state,
                second,
            ).blocks,
        }),
    decreases second.len(),
{
    if second.len() > 0 {
        lemma_split_concat(state, first, second.drop_last());
        assert((first + second).drop_last() =~= first + second.drop_last());
    }
}

/// With no metadata interval the splitter passes every byte through
/// unchanged, finds no metadata block, and stays as it was.
pub proof fn lemma_pass_through(bytes: Seq<u8>)
    ensures
        split_run(split_start(0), bytes) == (SplitRun {
            state: split_start(0),
            audio: bytes,
            blocks: Seq::empty(),
        }),
    decreases bytes.len(),
{
    if bytes.len() > 0 {
        lemma_pass_through(bytes.drop_last());
        assert(bytes.drop_last().push(bytes.last()) =~= bytes);
    } else {
        assert(bytes =~= Seq::<u8>::empty());
    }
}

/// While audio is due, bytes pass through and count down to the next
/// length byte.
proof fn lemma_audio_run(state: SplitState, bytes: Seq<u8>)
    requires
        state.interval > 0,
        bytes.len() <= state.audio_left,
    ensures
        split_run(state, bytes) == (SplitRun {
            state: SplitState { audio_left: (state.audio_left - bytes.len()) as nat, ..state },
            audio: bytes,
            blocks: Seq::empty(),
        }),
    decreases bytes.len(),
{
    if bytes.len() > 0 {
        lemma_audio_run(state, bytes.drop_last());
        assert(bytes.drop_last().push(bytes.last()) =~= bytes);
    } else {
        assert(bytes =~= Seq::<u8>::empty());
    }
}

/// Inside a metadata block, bytes short of its end are collected and give
/// no output.
proof fn lemma_block_part(state: SplitState, bytes: Seq<u8>)
    requires
        state.interval > 0,
        state.audio_left == 0,
        bytes.len() < state.block_left,
    ensures
        split_run(state, bytes) == (SplitRun {
            state: SplitState {
                block_left: (state.block_left - bytes.len()) as nat,
                block: state.block + bytes,
                ..state
            },
            audio: Seq::empty(),
            blocks: Seq::empty(),
        }),
    decreases bytes.len(),
{
    if bytes.len() > 0 {
        lemma_block_part(state, bytes.drop_last());
        assert((state.block + bytes.drop_last()).push(bytes.last()) =~= state.block + bytes);
    }
}

/// One whole frame of a stream with metadata: `interval` audio bytes, a
/// length byte, and a block of sixteen times the length byte. From the start
/// of a frame the splitter hands on exactly the audio bytes, gives back the
/// block when it is not empty, and stands at the start of the next frame.
pub proof fn lemma_frame(interval: nat, audio: Seq<u8>, length: u8, block: Seq<u8>)
    requires
        interval > 0,
        audio.len() == interval,
        block.len() == BLOCK_UNIT * length,
    ensures
        split_run(split_start(interval), audio + seq![length] + block) == (SplitRun {
            state: split_start(interval),
            audio,
            blocks: if length == 0 {
                Seq::empty()
            } else {
                seq![block]
            },
        }),
{
    let start = split_start(interval);
    let marker = seq![length];
    lemma_audio_run(start, audio);
    let at_length = split_run(start, audio).state;
    assert(split_run(at_length, marker.drop_last()).state == at_length);
    lemma_split_concat(start, audio, marker);
    lemma_split_concat(start, audio + marker, block);
    if length != 0 {
        let in_block = split_run(start, audio + marker).state;
        lemma_block_part(in_block, block.drop_last());
        assert(block.drop_last().push(block.last()) =~= block);
    }
}

/// The contents of a list of byte vectors, in order.
pub open spec fn block_views(blocks: Seq<Vec<u8>>) -> Seq<Seq<u8>> {
    Seq::new(blocks.len(), |i: int| blocks[i]@)
}

/// What one call of [`MetadataSplitter::push`] hands back.
pub struct SplitOutput {
    /// The audio bytes of the chunk, in order.
    pub audio: Vec<u8>,
    /// The metadata blocks that the chunk completed, in order.
    pub blocks: Vec<Vec<u8>>,
}

/// A splitter for one stream.
pub struct MetadataSplitter {
    interval: usize,
    audio_left: usize,
    block_left: usize,
    block: Vec<u8>,
}

impl View for MetadataSplitter {
    type V = SplitState;

    closed spec fn view(&self) -> SplitState {
        SplitState {
            interval: self.interval as nat,
            audio_left: self.audio_left as nat,
            block_left: self.block_left as nat,
            block: self.block@,
        }
    }
}

impl MetadataSplitter {
    /// A splitter at the start of a stream. Without an interval, or with an
    /// interval of zero, the stream carries no metadata.
    pub fn new(interval: Option<usize>) -> (splitter: MetadataSplitter)
        ensures
            splitter@ == split_start(
                match interval {
                    Some(n) => n as nat,
                    None => 0,
                },
            ),
    {
        let interval = match interval {
            Some(n) => n,
            None => 0,
        };
        MetadataSplitter { interval, audio_left: interval, block_left: 0, block: Vec::new() }
    }

    /// The metadata interval; zero when the stream carries no metadata.
    pub fn interval(&self) -> (interval: usize)
        ensures
            interval == self@.interval,
    {
        self.interval
    }

    /// Takes the next chunk of the raw stream and returns its audio bytes
    /// and the metadata blocks it completed. Chunks may end anywhere: a
    /// block that is cut off is kept and finished by the chunks that follow.
    pub fn push(&mut self, chunk: &[u8]) -> (output: SplitOutput)
        ensures
            split_run(old(self)@, chunk@) == (SplitRun {
                state: final(self)@,
                audio: output.audio@,
                blocks: block_views(output.blocks@),
            }),
    {
        let ghost start = self@;
        let mut audio: Vec<u8> = Vec::new();
        let mut blocks: Vec<Vec<u8>> = Vec::new();
        let mut i: usize = 0;
        assert(block_views(blocks@) =~= Seq::<Seq<u8>>::empty());
        while i < chunk.len()
            invariant
                i <= chunk.len(),
                split_run(start, chunk@.take(i as int)) == (SplitRun {
                    state: self@,
                    audio: audio@,
                    blocks: block_views(blocks@),
                }),
            decreases chunk.len() - i,
        {
            let byte = chunk[i];
            let ghost before = block_views(blocks@);
            assert(chunk@.take(i + 1).drop_last() =~= chunk@.take(i as int));
            if self.interval == 0 || self.audio_left > 0 {
                if self.interval != 0 {
                    self.audio_left = self.audio_left - 1;
                }
                audio.push(byte);
            } else if self.block_left == 0 {
                if byte == 0 {
                    self.audio_left = self.interval;
                } else {
                    self.block_left = BLOCK_UNIT * (byte as usize);
                    self.block = Vec::new();
                }
            } else {
                self.block.push(byte);
                if self.block_left == 1 {
                    let mut whole: Vec<u8> = Vec::new();
                    std::mem::swap(&mut self.block, &mut whole);
                    blocks.push(whole);
                    self.audio_left = self.interval;
                    self.block_left = 0;
                    assert(block_views(blocks@) =~= before.push(whole@));
                } else {
                    self.block_left = self.block_left - 1;
                }
            }
            i += 1;
        }
        assert(chunk@.take(chunk@.len() as int) =~= chunk@);
        SplitOutput { audio, blocks }
    }
}

/// A metadata block without the zero bytes that pad its end.
pub open spec fn unpadded(block: Seq<u8>) -> Seq<u8>
    decreases block.len(),
{
    if block.len() > 0 && block.last() == 0 {
        unpadded(block.drop_last())
    } else {
        block
    }
}

/// The text part of a metadata block: the block up to the zero bytes that
/// pad its end.
pub fn strip_padding(block: &[u8]) -> (text: &[u8])
    ensures
        text@ == unpadded(block@),
{
    let mut end: usize = block.len();
    assert(block@.take(end as int) =~= block@);
    while end > 0 && block[end - 1] == 0
        invariant
            end <= block.len(),
            unpadded(block@) == unpadded(block@.take(end as int)),
        decreases end,
    {
        assert(block@.take(end as int).drop_last() =~= block@.take(end - 1));
        end = end - 1;
    }
    slice_subrange(block, 0, end)
}

/// `icy_metadata`'s error for a metadata text without a single field,
/// carried as an opaque value.
#[verifier::external_type_specification]
#[verifier::external_body]
pub struct ExEmptyMetadataError(EmptyMetadataError);

/// Calls `core::str::from_utf8`. The claim: it gives a text exactly when
/// the bytes are valid UTF-8, and the text then has these bytes.
#[verifier::external_body]
fn text_of(bytes: &[u8]) -> (text: Option<&str>)
    ensures
        text is Some <==> valid_utf8(bytes@),
        text matches Some(t) ==> t.spec_bytes() == bytes@,
{
    match core::str::from_utf8(bytes) {
        Ok(text) => Some(text),
        Err(_) => None,
    }
}

/// The text of a metadata block: its bytes without the padding, read as
/// UTF-8; `None` when they are not valid UTF-8.
pub open spec fn block_text(block: Seq<u8>) -> Option<Seq<char>> {
    if valid_utf8(unpadded(block)) {
        Some(decode_utf8(unpadded(block)))
    } else {
        None
    }
}

/// The title of a text that holds one title field and nothing else: the
/// text is `StreamTitle='`, the title, and a closing quote, with or without
/// a semicolon at its end, and has no other semicolon. `None` for a text of
/// any other shape.
pub open spec fn lone_title(text: Seq<char>) -> Option<Seq<char>> {
    let opening = "StreamTitle='"@;
    let field = if text.len() > 0 && text.last() == ';' {
        text.drop_last()
    } else {
        text
    };
    if field.len() > opening.len() && field.take(opening.len() as int) == opening && field.last()
        == '\'' && !field.contains(';') {
        Some(field.subrange(opening.len() as int, field.len() - 1))
    } else {
        None
    }
}

/// Whether a text holds a field at all: a key and a value with an equals
/// sign between them.
pub open spec fn has_field(text: Seq<char>) -> bool {
    text.contains('=')
}

/// The title that a parse found, as a sequence of characters.
pub open spec fn parsed_title(parsed: Result<Option<String>, EmptyMetadataError>) -> Option<
    Seq<char>,
> {
    match parsed {
        Ok(Some(title)) => Some(title@),
        _ => None,
    }
}

/// Calls `IcyMetadata::from_str` through `str::parse`, and picks the
/// `stream_title` of what it returns. Two claims are made of it. A text
/// without an equals sign holds no field, and the parse fails. A text that
/// is one title field and nothing else, as [`lone_title`] says, gives that
/// title, the text between the quotes as it stands. Of any other text
/// nothing is claimed: `icy_metadata` walks a hash map while it reads the
/// fields, so a text that names the title twice may give either.
#[verifier::external_body]
fn parse_stream_title(text: &str) -> (parsed: Result<Option<String>, EmptyMetadataError>)
    ensures
        !has_field(text@) ==> parsed is Err,
        lone_title(text@) is Some ==> parsed is Ok && parsed_title(parsed) == lone_title(text@),
{
    match text.parse::<IcyMetadata>() {
        Ok(metadata) => Ok(metadata.stream_title().map(str::to_owned)),
        Err(error) => Err(error),
    }
}

/// What the splitter tells its listener of one metadata block.
#[derive(Debug)]
pub struct MetadataEvent {
    /// The track title that the block announced; `None` when the block
    /// has no title field or could not be read.
    pub title: Option<String>,
}

/// The event for a metadata text that has been parsed: the title that the
/// parse found, and no title when it found none or failed. A block that
/// cannot be read never stops the stream.
pub fn event_of_parse(parsed: Result<Option<String>, EmptyMetadataError>) -> (event: MetadataEvent)
    ensures
        event.title == match parsed {
            Ok(title) => title,
            Err(_) => None::<String>,
        },
{
    match parsed {
        Ok(title) => MetadataEvent { title },
        Err(_) => MetadataEvent { title: None },
    }
}

/// Reads one metadata block: strips its padding, takes it as text and has
/// the text parsed. A block that is not valid UTF-8, or whose text has no
/// equals sign and so no field, gives an event without a title. A block
/// whose text is one title field and nothing else gives an event with that
/// title. For any other block the event is [`event_of_parse`] of what the
/// parser returned.
pub fn decode_block(block: &[u8]) -> (event: MetadataEvent)
    ensures
        block_text(block@) is None ==> event.title is None,
        block_text(block@) matches Some(text) ==> {
            &&& !has_field(text) ==> event.title is None
            &&& lone_title(text) matches Some(title) ==> (event.title matches Some(found) && found@
                == title)
        },
{
    match text_of(strip_padding(block)) {
        Some(text) => {
            proof {
                encode_utf8_decode_utf8(text@);
            }
            event_of_parse(parse_stream_title(text))
        },
        None => MetadataEvent { title: None },
    }
}

/// What one call of [`MetadataSplitter::feed`] hands back.
#[derive(Debug)]
pub struct Feed {
    /// The audio bytes of the chunk, in order.
    pub audio: Vec<u8>,
    /// One event for each metadata block that the chunk completed, in order.
    pub events: Vec<MetadataEvent>,
}

impl MetadataSplitter {
    /// Takes the next chunk of the raw stream, and returns its audio bytes
    /// and one event for each metadata block that it completed. The audio is
    /// that of [`MetadataSplitter::push`]; every block is read with
    /// [`decode_block`], so a block that cannot be read costs its title and
    /// nothing else.
    pub fn feed(&mut self, chunk: &[u8]) -> (fed: Feed)
        ensures
            final(self)@ == split_run(old(self)@, chunk@).state,
            fed.audio@ == split_run(old(self)@, chunk@).audio,
            fed.events@.len() == split_run(old(self)@, chunk@).blocks.len(),
            forall|i: int|
                0 <= i < fed.events@.len() && !valid_utf8(
                    unpadded(split_run(old(self)@, chunk@).blocks[i]),
                ) ==> (#[trigger] fed.events@[i]).title is None,
    {
        let SplitOutput { audio, blocks } = self.push(chunk);
        let mut events: Vec<MetadataEvent> = Vec::new();
        let mut i: usize = 0;
        while i < blocks.len()
            invariant
                i <= blocks.len(),
                events@.len() == i,
                forall|j: int|
                    0 <= j < i && !valid_utf8(unpadded(blocks@[j]@)) ==> (
                    #[trigger] events@[j]).title is None,
            decreases blocks.len() - i,
        {
            let event = decode_block(blocks[i].as_slice());
            events.push(event);
            i += 1;
        }
        Feed { audio, events }
    }
}

} // verus!
