//! Reading from a file or a stream: how much to ask the operating system
//! for, and what to return to the client from what came back.
//!
//! A read in binary mode is one request for bytes. A read of `n` characters
//! in text mode asks for one byte after the other and assembles whole
//! grapheme clusters from them, until `n` clusters are known to be complete
//! or the stream ends. Where the clusters of a buffer lie is decided by the
//! `unicode_reader` crate.

use vstd::prelude::*;
use unicode_reader::{CodePoints, Graphemes};
use crate::agent_error::AgentError;
use crate::types::FileOpenType;

verus! {

/// What `unicode_reader` makes of a buffer that holds all of a stream: the
/// grapheme clusters of the text that the bytes encode as UTF-8, each as its
/// bytes and in their order, with the message of a decoding error in the
/// place of bytes that are no UTF-8.
pub uninterp spec fn grapheme_items(bytes: Seq<u8>) -> Seq<Result<Seq<u8>, Seq<char>>>;

/// The plain value of one item.
pub open spec fn item_view(item: Result<Vec<u8>, String>) -> Result<Seq<u8>, Seq<char>> {
    match item {
        Ok(cluster) => Ok(cluster@),
        Err(detail) => Err(detail@),
    }
}

/// The plain values of a sequence of items.
pub open spec fn items_view(items: Seq<Result<Vec<u8>, String>>) -> Seq<
    Result<Seq<u8>, Seq<char>>,
> {
    items.map_values(|item: Result<Vec<u8>, String>| item_view(item))
}

/// Iterates `unicode_reader::Graphemes` over `unicode_reader::CodePoints`
/// over the bytes of `bytes`, to the end. Each item of that iteration is
/// handed out as it came: a cluster as the bytes of its string, an error as
/// its message. The contract only gives the outcome its name.
#[verifier::external_body]
pub(crate) fn segment(bytes: &Vec<u8>) -> (items: Vec<Result<Vec<u8>, String>>)
    ensures
        items_view(items@) == grapheme_items(bytes@),
{
    let input: Vec<std::io::Result<u8>> = bytes.iter().map(|byte| Ok(*byte)).collect();
    Graphemes::from(CodePoints::from(input.into_iter()))
        .map(|item| item.map(String::into_bytes).map_err(|error| error.to_string()))
        .collect()
}

/// The bytes of the first `limit` items, one after the other, or of all
/// items where there are fewer. The first error among them is the outcome
/// instead.
pub open spec fn join_items(items: Seq<Result<Seq<u8>, Seq<char>>>, limit: nat) -> Result<
    Seq<u8>,
    Seq<char>,
>
    decreases items.len(),
{
    if limit == 0 || items.len() == 0 {
        Ok(Seq::empty())
    } else {
        match items[0] {
            Err(detail) => Err(detail),
            Ok(cluster) => match join_items(items.skip(1), (limit - 1) as nat) {
                Ok(rest) => Ok(cluster + rest),
                Err(detail) => Err(detail),
            },
        }
    }
}

/// `result` reports `outcome`: the same bytes, or an I/O error with the
/// same message.
pub open spec fn reports(result: Result<Vec<u8>, AgentError>, outcome: Result<Seq<u8>, Seq<char>>) -> bool {
    match outcome {
        Ok(bytes) => result matches Ok(data) && data@ == bytes,
        Err(detail) => result matches Err(AgentError::IoError(text)) && text@ == detail,
    }
}

fn extend(target: &mut Vec<u8>, bytes: &Vec<u8>)
    ensures
        final(target)@ == old(target)@ + bytes@,
{
    let mut i: usize = 0;
    while i < bytes.len()
        invariant
            0 <= i <= bytes@.len(),
            target@ == old(target)@ + bytes@.take(i as int),
        decreases bytes@.len() - i,
    {
        target.push(bytes[i]);
        i = i + 1;
    }
}

/// Joins the first `limit` clusters of `items`, stopping at the first error.
pub fn join_graphemes(items: &Vec<Result<Vec<u8>, String>>, limit: usize) -> (r: Result<
    Vec<u8>,
    AgentError,
>)
    ensures
        reports(r, join_items(items_view(items@), limit as nat)),
{
    let ghost all = items_view(items@);
    let mut joined: Vec<u8> = Vec::new();
    let mut i: usize = 0;
    assert(all.skip(0) =~= all);
    while i < items.len() && i < limit
        invariant
            0 <= i <= items@.len(),
            i <= limit,
            all == items_view(items@),
            join_items(all, limit as nat) == (match join_items(all.skip(i as int), (limit - i) as nat) {
                Ok(rest) => Ok::<Seq<u8>, Seq<char>>(joined@ + rest),
                Err(detail) => Err(detail),
            }),
        decreases items@.len() - i,
    {
        assert(all.skip(i as int).skip(1) =~= all.skip(i + 1));
        match &items[i] {
            Err(detail) => {
                return Err(AgentError::IoError(detail.clone()));
            },
            Ok(cluster) => {
                let ghost before = joined@;
                extend(&mut joined, cluster);
                proof {
                    match join_items(all.skip(i + 1), (limit - i - 1) as nat) {
                        Ok(tail) => {
                            assert(before + (cluster@ + tail) =~= joined@ + tail);
                        },
                        Err(_) => {},
                    }
                }
            },
        }
        i = i + 1;
    }
    Ok(joined)
}

/// The first `n` grapheme clusters of the text that `data` holds, where
/// `data` is all there is to read.
pub fn read_graphemes(data: &Vec<u8>, n: usize) -> (r: Result<Vec<u8>, AgentError>)
    ensures
        reports(r, join_items(grapheme_items(data@), n as nat)),
{
    let items = segment(data);
    join_graphemes(&items, n)
}

/// The most bytes or characters that a read without a length returns from
/// a descriptor that does not block.
pub const NONBLOCKING_READ_LIMIT: u32 = 1_048_576;

/// Where a read stands between two requests to the operating system.
pub enum ReadState {
    /// One request for bytes is outstanding; of what comes back at most
    /// `limit` bytes are returned, where there is a limit.
    Whole { limit: Option<usize> },
    /// Bytes are requested one by one. `count` of the `wanted` clusters are
    /// complete and their bytes are in `assembled`; `pending` holds the
    /// bytes read since the last complete cluster.
    Text { wanted: usize, count: usize, assembled: Vec<u8>, pending: Vec<u8> },
}

/// What the operating system answered to a request for bytes.
pub enum ReadEvent {
    /// These bytes were read.
    Data(Vec<u8>),
    /// The stream is at its end.
    End,
    /// The descriptor does not block and has nothing to read now.
    WouldBlock,
    /// The read failed, with this message.
    Failed(String),
}

/// What a read does next.
pub enum ReadStep {
    /// The caller asks the operating system for bytes, at most `limit` of
    /// them where there is a limit and up to the end of the stream where
    /// there is none, and hands the answer to `read_next` with `state`.
    Read { state: ReadState, limit: Option<usize> },
    /// The read is over, with this result for the client.
    Return(Result<Vec<u8>, AgentError>),
}

/// The plain value of a `ReadState`.
pub enum StateView {
    Whole { limit: Option<usize> },
    Text { wanted: usize, count: usize, assembled: Seq<u8>, pending: Seq<u8> },
}

/// The plain value of a `ReadEvent`.
pub enum EventView {
    Data(Seq<u8>),
    End,
    WouldBlock,
    Failed(Seq<char>),
}

/// The plain value of a `ReadStep`; a failure stands for an I/O error with
/// that message.
pub enum StepView {
    Read { state: StateView, limit: Option<usize> },
    Return(Result<Seq<u8>, Seq<char>>),
}

impl View for ReadState {
    type V = StateView;

    open spec fn view(&self) -> StateView {
        match self {
            ReadState::Whole { limit } => StateView::Whole { limit: *limit },
            ReadState::Text { wanted, count, assembled, pending } => StateView::Text {
                wanted: *wanted,
                count: *count,
                assembled: assembled@,
                pending: pending@,
            },
        }
    }
}

impl View for ReadEvent {
    type V = EventView;

    open spec fn view(&self) -> EventView {
        match self {
            ReadEvent::Data(bytes) => EventView::Data(bytes@),
            ReadEvent::End => EventView::End,
            ReadEvent::WouldBlock => EventView::WouldBlock,
            ReadEvent::Failed(detail) => EventView::Failed(detail@),
        }
    }
}

impl ReadStep {
    /// This step is the one that `step` describes.
    pub open spec fn shows(self, step: StepView) -> bool {
        match step {
            StepView::Read { state, limit } => self matches ReadStep::Read {
                state: own_state,
                limit: own_limit,
            } && own_state@ == state && own_limit == limit,
            StepView::Return(outcome) => self matches ReadStep::Return(result) && reports(
                result,
                outcome,
            ),
        }
    }
}

/// The length that governs a read: the one the client gave, or the default
/// limit where the client gave none and the descriptor does not block.
pub open spec fn effective_length(n: Option<u32>, blocking: bool) -> Option<u32> {
    if n is None && !blocking {
        Some(NONBLOCKING_READ_LIMIT)
    } else {
        n
    }
}

/// `std::io::Error::kind`, told apart: whether the error is the one that a
/// descriptor that does not block reports when it has nothing to read.
/// Nothing is claimed of the answer.
#[verifier::external_body]
fn is_would_block(error: &std::io::Error) -> bool {
    matches!(error.kind(), std::io::ErrorKind::WouldBlock)
}

/// The event that stands for a failed request for bytes: that the
/// descriptor would block, or else the failure with its message.
pub fn failure_event(would_block: bool, detail: String) -> (event: ReadEvent)
    ensures
        event == (if would_block {
            ReadEvent::WouldBlock
        } else {
            ReadEvent::Failed(detail)
        }),
{
    if would_block {
        ReadEvent::WouldBlock
    } else {
        ReadEvent::Failed(detail)
    }
}

/// The event that stands for the outcome `outcome` of a request for bytes:
/// the bytes that were read, the end of the stream where none were, and for
/// a failure either that the descriptor would block or the description of
/// the failure.
pub fn read_event(outcome: Result<Vec<u8>, std::io::Error>) -> (event: ReadEvent)
    ensures
        match outcome {
            Ok(data) => event@ == (if data@.len() == 0 {
                EventView::End
            } else {
                EventView::Data(data@)
            }),
            Err(error) => event is WouldBlock || (event matches ReadEvent::Failed(detail)
                && vstd::string::to_string_from_display_ensures::<std::io::Error>(&error, detail)),
        },
{
    match outcome {
        Ok(data) => {
            if data.len() == 0 {
                ReadEvent::End
            } else {
                ReadEvent::Data(data)
            }
        },
        Err(error) => {
            let would_block = is_would_block(&error);
            failure_event(would_block, error.to_string())
        },
    }
}

/// How a read begins. A read of length zero returns nothing without asking
/// for anything. A read without a length asks for all there is. A read of
/// `n` bytes asks for at most `n` bytes. A read of `n` characters asks for
/// the first byte.
pub open spec fn start_of(n: Option<u32>, file_type: FileOpenType, blocking: bool) -> StepView {
    match effective_length(n, blocking) {
        None => StepView::Read { state: StateView::Whole { limit: None }, limit: None },
        Some(length) => if length == 0 {
            StepView::Return(Ok(Seq::empty()))
        } else {
            match file_type {
                FileOpenType::Binary => StepView::Read {
                    state: StateView::Whole { limit: Some(length as usize) },
                    limit: Some(length as usize),
                },
                FileOpenType::Text => StepView::Read {
                    state: StateView::Text {
                        wanted: length as usize,
                        count: 0,
                        assembled: Seq::empty(),
                        pending: Seq::empty(),
                    },
                    limit: Some(1),
                },
            }
        },
    }
}

/// The first of `items` is settled: a further item follows it that is a
/// cluster, or two further items do. A last item that is an error may only
/// be the beginning of a character, so it settles nothing.
pub open spec fn first_settled(items: Seq<Result<Seq<u8>, Seq<char>>>) -> bool {
    items.len() >= 3 || (items.len() == 2 && items[1] is Ok)
}

/// What is left of `pending` behind a first cluster of `length` bytes.
pub open spec fn behind(pending: Seq<u8>, length: nat) -> Seq<u8> {
    if length <= pending.len() {
        pending.skip(length as int)
    } else {
        Seq::empty()
    }
}

/// The step after one more byte of a text. The byte joins the pending
/// bytes. Where their first item is then settled, an error ends the read,
/// and a cluster moves from the pending bytes to the assembled ones, which
/// ends the read if it was the last one wanted.
pub open spec fn push_of(
    wanted: usize,
    count: usize,
    assembled: Seq<u8>,
    pending: Seq<u8>,
    byte: u8,
) -> StepView {
    let pending = pending.push(byte);
    let items = grapheme_items(pending);
    if !first_settled(items) {
        StepView::Read {
            state: StateView::Text { wanted, count, assembled, pending },
            limit: Some(1),
        }
    } else {
        match items[0] {
            Err(detail) => StepView::Return(Err(detail)),
            Ok(cluster) => if wanted - count <= 1 {
                StepView::Return(Ok(assembled + cluster))
            } else {
                StepView::Read {
                    state: StateView::Text {
                        wanted,
                        count: (count + 1) as usize,
                        assembled: assembled + cluster,
                        pending: behind(pending, cluster.len()),
                    },
                    limit: Some(1),
                }
            },
        }
    }
}

/// The step after some more bytes of a text: they are taken one by one, up
/// to the byte that ends the read.
pub open spec fn feed_of(
    wanted: usize,
    count: usize,
    assembled: Seq<u8>,
    pending: Seq<u8>,
    bytes: Seq<u8>,
) -> StepView
    decreases bytes.len(),
{
    if bytes.len() == 0 {
        StepView::Read {
            state: StateView::Text { wanted, count, assembled, pending },
            limit: Some(1),
        }
    } else {
        match push_of(wanted, count, assembled, pending, bytes[0]) {
            StepView::Read {
                state: StateView::Text { wanted, count, assembled, pending },
                ..
            } => feed_of(wanted, count, assembled, pending, bytes.skip(1)),
            step => step,
        }
    }
}

/// The result of a text whose stream has ended: the assembled clusters and,
/// of the clusters in the pending bytes, as many as are still wanted.
pub open spec fn end_of(wanted: usize, count: usize, assembled: Seq<u8>, pending: Seq<u8>) -> Result<
    Seq<u8>,
    Seq<char>,
> {
    let missing = if wanted >= count { (wanted - count) as nat } else { 0 };
    match join_items(grapheme_items(pending), missing) {
        Ok(rest) => Ok(assembled + rest),
        Err(detail) => Err(detail),
    }
}

/// What `limit` leaves of `bytes`.
pub open spec fn limited(bytes: Seq<u8>, limit: Option<usize>) -> Seq<u8> {
    match limit {
        Some(most) => if bytes.len() > most { bytes.take(most as int) } else { bytes },
        None => bytes,
    }
}

/// The step after an answer of the operating system. A descriptor that
/// would block ends the read with no bytes and no error. A failure ends it
/// with an I/O error that carries the message. Otherwise a read of bytes
/// returns the bytes that came, cut at its limit, and a read of characters
/// goes on assembling clusters until the stream ends.
pub open spec fn next_of(state: StateView, event: EventView) -> StepView {
    match event {
        EventView::WouldBlock => StepView::Return(Ok(Seq::empty())),
        EventView::Failed(detail) => StepView::Return(Err(detail)),
        EventView::End => match state {
            StateView::Whole { .. } => StepView::Return(Ok(Seq::empty())),
            StateView::Text { wanted, count, assembled, pending } => StepView::Return(
                end_of(wanted, count, assembled, pending),
            ),
        },
        EventView::Data(bytes) => match state {
            StateView::Whole { limit } => StepView::Return(Ok(limited(bytes, limit))),
            StateView::Text { wanted, count, assembled, pending } => feed_of(
                wanted,
                count,
                assembled,
                pending,
                bytes,
            ),
        },
    }
}

/// Begins a read of `n` bytes or characters, or of all there is where `n`
/// is absent, from a file of type `file_type` whose descriptor blocks or
/// does not.
pub fn read_generic(n: Option<u32>, file_type: FileOpenType, blocking: bool) -> (step: ReadStep)
    ensures
        step.shows(start_of(n, file_type, blocking)),
{
    let length = if n.is_none() && !blocking {
        Some(NONBLOCKING_READ_LIMIT)
    } else {
        n
    };
    match length {
        None => ReadStep::Read { state: ReadState::Whole { limit: None }, limit: None },
        Some(length) => {
            if length == 0 {
                return ReadStep::Return(Ok(Vec::new()));
            }
            let length = length as usize;
            match file_type {
                FileOpenType::Binary => ReadStep::Read {
                    state: ReadState::Whole { limit: Some(length) },
                    limit: Some(length),
                },
                FileOpenType::Text => ReadStep::Read {
                    state: ReadState::Text {
                        wanted: length,
                        count: 0,
                        assembled: Vec::new(),
                        pending: Vec::new(),
                    },
                    limit: Some(1),
                },
            }
        },
    }
}

/// Takes one more byte of a text.
fn push_byte(wanted: usize, count: usize, assembled: Vec<u8>, pending: Vec<u8>, byte: u8) -> (step:
    ReadStep)
    ensures
        step.shows(push_of(wanted, count, assembled@, pending@, byte)),
{
    let mut assembled = assembled;
    let mut pending = pending;
    pending.push(byte);
    let items = segment(&pending);
    let settled = items.len() >= 3 || (items.len() == 2 && items[1].is_ok());
    if !settled {
        return ReadStep::Read {
            state: ReadState::Text { wanted, count, assembled, pending },
            limit: Some(1),
        };
    }
    match &items[0] {
        Err(detail) => ReadStep::Return(Err(AgentError::IoError(detail.clone()))),
        Ok(cluster) => {
            extend(&mut assembled, cluster);
            if count >= wanted || wanted - count <= 1 {
                return ReadStep::Return(Ok(assembled));
            }
            let rest = if cluster.len() <= pending.len() {
                pending.split_off(cluster.len())
            } else {
                Vec::new()
            };
            ReadStep::Read {
                state: ReadState::Text { wanted, count: count + 1, assembled, pending: rest },
                limit: Some(1),
            }
        },
    }
}

/// Cuts `bytes` at `limit`.
fn cut(bytes: Vec<u8>, limit: Option<usize>) -> (r: Vec<u8>)
    ensures
        r@ == limited(bytes@, limit),
{
    let mut bytes = bytes;
    match limit {
        Some(most) => {
            if bytes.len() > most {
                bytes.truncate(most);
            }
        },
        None => {},
    }
    bytes
}

/// Continues the read that stands at `state` with the answer `event` of
/// the operating system.
pub fn read_next(state: ReadState, event: ReadEvent) -> (step: ReadStep)
    ensures
        step.shows(next_of(state@, event@)),
{
    match event {
        ReadEvent::WouldBlock => ReadStep::Return(Ok(Vec::new())),
        ReadEvent::Failed(detail) => ReadStep::Return(Err(AgentError::IoError(detail))),
        ReadEvent::End => match state {
            ReadState::Whole { .. } => ReadStep::Return(Ok(Vec::new())),
            ReadState::Text { wanted, count, assembled, pending } => {
                let missing = if wanted >= count { wanted - count } else { 0 };
                match read_graphemes(&pending, missing) {
                    Ok(rest) => {
                        let mut assembled = assembled;
                        extend(&mut assembled, &rest);
                        ReadStep::Return(Ok(assembled))
                    },
                    Err(e) => ReadStep::Return(Err(e)),
                }
            },
        },
        ReadEvent::Data(bytes) => match state {
            ReadState::Whole { limit } => ReadStep::Return(Ok(cut(bytes, limit))),
            ReadState::Text { wanted, count, assembled, pending } => {
                let ghost goal = feed_of(wanted, count, assembled@, pending@, bytes@);
                let mut wanted = wanted;
                let mut count = count;
                let mut assembled = assembled;
                let mut pending = pending;
                let mut i: usize = 0;
                assert(bytes@.skip(0) =~= bytes@);
                while i < bytes.len()
                    invariant
                        0 <= i <= bytes@.len(),
                        goal == next_of(state@, event@),
                        goal == feed_of(wanted, count, assembled@, pending@, bytes@.skip(i as int)),
                    decreases bytes@.len() - i,
                {
                    assert(bytes@.skip(i as int).skip(1) =~= bytes@.skip(i + 1));
                    match push_byte(wanted, count, assembled, pending, bytes[i]) {
                        ReadStep::Read {
                            state: ReadState::Text {
                                wanted: next_wanted,
                                count: next_count,
                                assembled: next_assembled,
                                pending: next_pending,
                            },
                            ..
                        } => {
                            wanted = next_wanted;
                            count = next_count;
                            assembled = next_assembled;
                            pending = next_pending;
                        },
                        step => {
                            return step;
                        },
                    }
                    i = i + 1;
                }
                ReadStep::Read {
                    state: ReadState::Text { wanted, count, assembled, pending },
                    limit: Some(1),
                }
            },
        },
    }
}

/// A read of length zero returns nothing, whatever the file is and
/// whether its descriptor blocks or not, and asks for nothing.
pub proof fn lemma_read_of_nothing(file_type: FileOpenType, blocking: bool)
    ensures
        start_of(Some(0), file_type, blocking) == StepView::Return(Ok(Seq::empty())),
{
}

/// A read to the end returns the bytes as they were read: what the
/// operating system hands over for a blocking read without a length is what
/// the client gets, byte for byte.
pub proof fn lemma_read_to_end_is_faithful(file_type: FileOpenType, data: Seq<u8>)
    ensures
        start_of(None, file_type, true) == (StepView::Read {
            state: StateView::Whole { limit: None },
            limit: None,
        }),
        next_of(StateView::Whole { limit: None }, EventView::Data(data)) == StepView::Return(
            Ok(data),
        ),
        next_of(StateView::Whole { limit: None }, EventView::End) == StepView::Return(
            Ok(Seq::empty()),
        ),
{
}

/// A read that would block is an empty success in every state of a read.
pub proof fn lemma_would_block_is_empty(state: StateView)
    ensures
        next_of(state, EventView::WouldBlock) == StepView::Return(Ok(Seq::empty())),
{
}

/// A read of bytes never returns more bytes than were asked for.
pub proof fn lemma_binary_read_is_bounded(limit: usize, data: Seq<u8>)
    ensures
        limited(data, Some(limit)).len() <= limit,
        limited(data, Some(limit)) == data.take(limited(data, Some(limit)).len() as int),
{
}

} // verus!
