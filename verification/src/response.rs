//! The head of a response, and the state of its body.
//!
//! A body is read at most once. [`BodyState`] keeps track of what was done
//! with it and refuses a second reading; [`AbortSlot`] is the signal by
//! which a caller breaks off a stream.

use crate::errors::ErrorView;
use crate::errors::ImpitError;
use vstd::prelude::*;

verus! {

/// The ASCII lowercase form of a character.
pub open spec fn ascii_lower(c: char) -> char {
    if 'A' <= c && c <= 'Z' {
        ((c as u8) + 32u8) as char
    } else {
        c
    }
}

/// Whether two texts are equal up to the case of their ASCII letters.
pub open spec fn same_ignoring_ascii_case(a: Seq<char>, b: Seq<char>) -> bool {
    a.len() == b.len() && forall|i: int| 0 <= i < a.len() ==> ascii_lower(a[i]) == ascii_lower(b[i])
}

/// `str::eq_ignore_ascii_case`: the two texts have the same characters once
/// the ASCII letters of both are put in lowercase.
#[verifier::external_body]
fn eq_ignore_ascii_case(a: &str, b: &str) -> (r: bool)
    ensures
        r == same_ignoring_ascii_case(a@, b@),
{
    a.eq_ignore_ascii_case(b)
}

/// The headers of a response, in the order in which they arrived.
#[derive(Debug, PartialEq, Eq)]
pub struct Headers(pub Vec<(String, String)>);

/// The position of the first header whose name matches `key` up to ASCII
/// case; the length where there is none.
pub open spec fn first_match(entries: Seq<(Seq<char>, Seq<char>)>, key: Seq<char>) -> int
    decreases entries.len(),
{
    if entries.len() == 0 {
        0
    } else if same_ignoring_ascii_case(entries[0].0, key) {
        0
    } else {
        1 + first_match(entries.drop_first(), key)
    }
}

/// `first_match` is the least position whose name matches, where one does.
pub proof fn lemma_first_match(entries: Seq<(Seq<char>, Seq<char>)>, key: Seq<char>)
    ensures
        0 <= first_match(entries, key) <= entries.len(),
        first_match(entries, key) < entries.len() ==> same_ignoring_ascii_case(
            entries[first_match(entries, key)].0,
            key,
        ),
        forall|j: int|
            0 <= j < first_match(entries, key) ==> !same_ignoring_ascii_case(
                (#[trigger] entries[j]).0,
                key,
            ),
    decreases entries.len(),
{
    if entries.len() > 0 && !same_ignoring_ascii_case(entries[0].0, key) {
        let tail = entries.drop_first();
        lemma_first_match(tail, key);
        assert forall|j: int| 0 <= j < first_match(entries, key) implies !same_ignoring_ascii_case(
            (#[trigger] entries[j]).0,
            key,
        ) by {
            if j > 0 {
                assert(tail[j - 1] == entries[j]);
            }
        }
    }
}

impl Headers {
    /// The value of the first header of the given name, where the name is
    /// compared without regard to the case of ASCII letters.
    pub fn get(&self, key: &str) -> (r: Option<&str>)
        ensures
            match r {
                Some(value) => first_match(self.0.deep_view(), key@) < self.0.len() && value@
                    == self.0.deep_view()[first_match(self.0.deep_view(), key@)].1,
                None => first_match(self.0.deep_view(), key@) == self.0.len(),
            },
    {
        let ghost all = self.0.deep_view();
        let mut i: usize = 0;
        assert(all.skip(0) =~= all);
        while i < self.0.len()
            invariant
                i <= self.0.len(),
                all == self.0.deep_view(),
                first_match(all, key@) == i + first_match(all.skip(i as int), key@),
            decreases self.0.len() - i,
        {
            proof {
                assert(all.skip(i as int).drop_first() =~= all.skip(i + 1));
                assert(all.skip(i as int)[0] == (self.0[i as int].0@, self.0[i as int].1@));
            }
            if eq_ignore_ascii_case(self.0[i].0.as_str(), key) {
                return Some(self.0[i].1.as_str());
            }
            i += 1;
        }
        None
    }
}

/// A response without its body.
#[derive(Debug, PartialEq, Eq)]
pub struct ImpitResponse {
    /// HTTP status code of the response.
    pub status: u16,
    /// Status text of the response.
    pub status_text: String,
    /// HTTP headers of the response.
    pub headers: Headers,
    /// `true` if the response status code is in the range 200-299.
    pub ok: bool,
    /// URL of the response: after redirects, the last one.
    pub url: String,
}

impl ImpitResponse {
    /// Puts the head of a response together.
    pub fn from_parts(status: u16, status_text: String, headers: Headers, url: String) -> (r: Self)
        ensures
            r.status == status,
            r.status_text == status_text,
            r.headers == headers,
            r.ok == (200 <= status <= 299),
            r.url == url,
    {
        ImpitResponse { status, status_text, headers, ok: is_success(status), url }
    }
}

/// The HTTP version that an exchange was made with.
#[derive(Clone, Copy, Debug, PartialEq, Eq, Hash, Structural)]
pub enum HttpVersion {
    Http09,
    Http10,
    Http11,
    Http2,
    Http3,
    Other,
}

/// The label of an HTTP version.
pub open spec fn version_label(version: HttpVersion) -> Seq<char> {
    match version {
        HttpVersion::Http09 => "HTTP/0.9"@,
        HttpVersion::Http10 => "HTTP/1.0"@,
        HttpVersion::Http11 => "HTTP/1.1"@,
        HttpVersion::Http2 => "HTTP/2"@,
        HttpVersion::Http3 => "HTTP/3"@,
        HttpVersion::Other => "Unknown"@,
    }
}

impl HttpVersion {
    /// The label under which the version is reported.
    pub fn label(&self) -> (r: String)
        ensures
            r@ == version_label(*self),
    {
        match self {
            HttpVersion::Http09 => "HTTP/0.9".to_owned(),
            HttpVersion::Http10 => "HTTP/1.0".to_owned(),
            HttpVersion::Http11 => "HTTP/1.1".to_owned(),
            HttpVersion::Http2 => "HTTP/2".to_owned(),
            HttpVersion::Http3 => "HTTP/3".to_owned(),
            HttpVersion::Other => "Unknown".to_owned(),
        }
    }
}

/// Whether a status reports success: 200 to 299.
pub fn is_success(status: u16) -> (r: bool)
    ensures
        r == (200 <= status <= 299),
{
    200 <= status && status <= 299
}

/// Whether a status is a redirection: 300 to 399.
pub fn is_redirection(status: u16) -> (r: bool)
    ensures
        r == (300 <= status <= 399),
{
    300 <= status && status <= 399
}

/// Fails with the status where it is 400 or above.
pub fn raise_for_status(status: u16) -> (r: Result<(), ImpitError>)
    ensures
        status < 400 ==> r.is_ok(),
        status >= 400 ==> r == Err::<(), ImpitError>(ImpitError::HTTPStatusError(status)),
{
    if status >= 400 {
        Err(ImpitError::HTTPStatusError(status))
    } else {
        Ok(())
    }
}

/// The character encoding that a body is decoded with: the one the caller
/// prefers, else the one the response declares, else the one that the
/// content suggests, else UTF-8. Each argument is the name of a known
/// encoding, or `None`.
pub fn pick_encoding(preferred: Option<String>, declared: Option<String>, sniffed: Option<String>) -> (r:
    String)
    ensures
        r@ == (match preferred {
            Some(p) => p@,
            None => match declared {
                Some(d) => d@,
                None => match sniffed {
                    Some(s) => s@,
                    None => "utf-8"@,
                },
            },
        }),
{
    match preferred {
        Some(p) => p,
        None => match declared {
            Some(d) => d,
            None => match sniffed {
                Some(s) => s,
                None => "utf-8".to_owned(),
            },
        },
    }
}

/// What was done with the body of a response.
#[derive(Debug, Clone, Copy, PartialEq, Eq, Hash, Structural)]
pub enum InnerResponseState {
    /// Nothing was read.
    Unread,
    /// The whole body was read and is kept.
    Read,
    /// The body is being streamed.
    Streaming,
    /// The stream has ended or was closed.
    StreamingClosed,
}

/// Where the bytes of a successful reading come from.
#[derive(Debug, Clone, Copy, PartialEq, Eq, Hash, Structural)]
pub enum BodySource {
    /// From the copy that an earlier reading kept.
    Cached,
    /// From the connection.
    Network,
}

/// The state of the body of one response.
#[derive(Debug, Clone, Copy, PartialEq, Eq, Hash, Structural)]
pub struct BodyState {
    pub state: InnerResponseState,
    pub is_closed: bool,
    pub is_stream_consumed: bool,
}

/// The state after the body was read as a whole, and what the reading gave.
pub open spec fn after_read(body: BodyState) -> (BodyState, Result<BodySource, ErrorView>) {
    match body.state {
        InnerResponseState::Read => (body, Ok(BodySource::Cached)),
        InnerResponseState::Unread => (
            BodyState {
                state: InnerResponseState::Read,
                is_closed: true,
                is_stream_consumed: true,
            },
            Ok(BodySource::Network),
        ),
        _ => (body, Err(ErrorView::StreamAlreadyConsumed)),
    }
}

/// The state after a stream over the body was asked for, and what the
/// request gave.
pub open spec fn after_stream(body: BodyState) -> (BodyState, Result<BodySource, ErrorView>) {
    match body.state {
        InnerResponseState::Read => (body, Ok(BodySource::Cached)),
        InnerResponseState::Unread => (
            BodyState { state: InnerResponseState::Streaming, ..body },
            Ok(BodySource::Network),
        ),
        _ => (body, Err(ErrorView::StreamAlreadyConsumed)),
    }
}

/// The state after the body was closed, or after its stream came to its
/// end.
pub open spec fn after_close(body: BodyState) -> BodyState {
    if body.is_closed {
        body
    } else {
        BodyState {
            state: InnerResponseState::StreamingClosed,
            is_closed: true,
            is_stream_consumed: true,
        }
    }
}

/// Model of the result of a reading.
pub open spec fn source_view(r: Result<BodySource, ImpitError>) -> Result<BodySource, ErrorView> {
    match r {
        Ok(s) => Ok(s),
        Err(e) => Err(e@),
    }
}

impl BodyState {
    /// The state of a body of which nothing was read, or, where the body
    /// was read while the response was made, the state after that reading.
    pub fn new(streaming: bool) -> (r: Self)
        ensures
            r == (if streaming {
                BodyState {
                    state: InnerResponseState::Unread,
                    is_closed: false,
                    is_stream_consumed: false,
                }
            } else {
                BodyState {
                    state: InnerResponseState::Read,
                    is_closed: true,
                    is_stream_consumed: true,
                }
            }),
    {
        if streaming {
            BodyState { state: InnerResponseState::Unread, is_closed: false, is_stream_consumed: false }
        } else {
            BodyState { state: InnerResponseState::Read, is_closed: true, is_stream_consumed: true }
        }
    }

    /// Reads the body as a whole. A body that was read as a whole can be
    /// read again from the copy; one that was streamed or closed cannot.
    pub fn read(&mut self) -> (r: Result<BodySource, ImpitError>)
        ensures
            *final(self) == after_read(*old(self)).0,
            source_view(r) == after_read(*old(self)).1,
    {
        match self.state {
            InnerResponseState::Read => Ok(BodySource::Cached),
            InnerResponseState::Unread => {
                self.state = InnerResponseState::Read;
                self.is_closed = true;
                self.is_stream_consumed = true;
                Ok(BodySource::Network)
            },
            _ => Err(ImpitError::StreamAlreadyConsumed),
        }
    }

    /// Starts a stream over the body.
    pub fn iter_bytes(&mut self) -> (r: Result<BodySource, ImpitError>)
        ensures
            *final(self) == after_stream(*old(self)).0,
            source_view(r) == after_stream(*old(self)).1,
    {
        match self.state {
            InnerResponseState::Read => Ok(BodySource::Cached),
            InnerResponseState::Unread => {
                self.state = InnerResponseState::Streaming;
                Ok(BodySource::Network)
            },
            _ => Err(ImpitError::StreamAlreadyConsumed),
        }
    }

    /// Closes the body. Closing a closed body changes nothing.
    pub fn close(&mut self)
        ensures
            *final(self) == after_close(*old(self)),
    {
        if !self.is_closed {
            self.state = InnerResponseState::StreamingClosed;
            self.is_closed = true;
            self.is_stream_consumed = true;
        }
    }
}

/// A stream can be taken from the connection once: after a stream was
/// started on an unread body, a second stream and a reading of the whole
/// body both fail with the already-consumed error, and leave the state as
/// it is.
pub proof fn lemma_second_consumption_fails(body: BodyState)
    requires
        body.state == InnerResponseState::Unread,
    ensures
        after_stream(after_stream(body).0) == (
            after_stream(body).0,
            Err::<BodySource, ErrorView>(ErrorView::StreamAlreadyConsumed),
        ),
        after_read(after_stream(body).0) == (
            after_stream(body).0,
            Err::<BodySource, ErrorView>(ErrorView::StreamAlreadyConsumed),
        ),
{
}

/// No sequence of two operations takes the body from the connection twice.
pub proof fn lemma_network_read_once(body: BodyState)
    ensures
        after_read(body).1 == Ok::<BodySource, ErrorView>(BodySource::Network) ==> after_read(
            after_read(body).0,
        ).1 != Ok::<BodySource, ErrorView>(BodySource::Network) && after_stream(
            after_read(body).0,
        ).1 != Ok::<BodySource, ErrorView>(BodySource::Network),
        after_stream(body).1 == Ok::<BodySource, ErrorView>(BodySource::Network) ==> after_read(
            after_stream(body).0,
        ).1 != Ok::<BodySource, ErrorView>(BodySource::Network) && after_stream(
            after_stream(body).0,
        ).1 != Ok::<BodySource, ErrorView>(BodySource::Network),
{
}

/// What the connection gave when it was asked for the next chunk.
#[derive(Debug, Clone, Copy, PartialEq, Eq, Hash, Structural)]
pub enum ChunkOutcome {
    /// A chunk of the body.
    Data,
    /// The transfer broke off.
    Failed,
    /// The body has come to its end.
    Finished,
}

/// What an iteration step does.
#[derive(Debug, Clone, Copy, PartialEq, Eq, Hash, Structural)]
pub enum IterAction {
    /// Hand out the copy of the whole body.
    Cached,
    /// Ask the connection for the next chunk.
    Poll,
    /// The iteration is over.
    End,
}

/// An iteration over the bytes of a body: either over the copy that a
/// reading kept, which is handed out in one piece, or over the connection.
#[derive(Debug, Clone, Copy, PartialEq, Eq, Hash, Structural)]
pub struct BytesIterator {
    /// The copy of the whole body is still to be handed out.
    pub has_ready_content: bool,
    /// The iteration reads from the connection.
    pub has_stream: bool,
    /// The iteration is over.
    pub content_returned: bool,
}

/// The step that an iteration takes, and the iteration after it.
/// `parent_closed` says whether the response was closed in the meantime.
pub open spec fn iteration_step(it: BytesIterator, parent_closed: bool) -> (BytesIterator, IterAction) {
    if it.has_ready_content {
        (
            BytesIterator { has_ready_content: false, content_returned: true, ..it },
            IterAction::Cached,
        )
    } else if it.content_returned {
        (it, IterAction::End)
    } else if it.has_stream && parent_closed {
        (BytesIterator { content_returned: true, ..it }, IterAction::End)
    } else if it.has_stream {
        (it, IterAction::Poll)
    } else {
        (BytesIterator { content_returned: true, ..it }, IterAction::End)
    }
}

/// The iteration and the body after the connection answered: a chunk is
/// handed out and leaves both as they are, and everything else ends the
/// iteration; the end of the body also closes the response.
pub open spec fn after_chunk(it: BytesIterator, body: BodyState, outcome: ChunkOutcome) -> (
    BytesIterator,
    BodyState,
) {
    match outcome {
        ChunkOutcome::Data => (it, body),
        ChunkOutcome::Failed => (BytesIterator { content_returned: true, ..it }, body),
        ChunkOutcome::Finished => (
            BytesIterator { content_returned: true, ..it },
            BodyState {
                state: InnerResponseState::StreamingClosed,
                is_closed: true,
                is_stream_consumed: true,
            },
        ),
    }
}

impl BytesIterator {
    /// The iteration that goes with a source.
    pub fn new(source: BodySource) -> (r: Self)
        ensures
            r == (BytesIterator {
                has_ready_content: source == BodySource::Cached,
                has_stream: source == BodySource::Network,
                content_returned: false,
            }),
    {
        match source {
            BodySource::Cached => BytesIterator {
                has_ready_content: true,
                has_stream: false,
                content_returned: false,
            },
            BodySource::Network => BytesIterator {
                has_ready_content: false,
                has_stream: true,
                content_returned: false,
            },
        }
    }

    /// Decides what the next step of the iteration does.
    pub fn next_action(&mut self, parent_closed: bool) -> (r: IterAction)
        ensures
            (*final(self), r) == iteration_step(*old(self), parent_closed),
    {
        if self.has_ready_content {
            self.has_ready_content = false;
            self.content_returned = true;
            IterAction::Cached
        } else if self.content_returned {
            IterAction::End
        } else if self.has_stream && !parent_closed {
            IterAction::Poll
        } else {
            self.content_returned = true;
            IterAction::End
        }
    }

    /// Takes in what the connection gave. Returns whether a chunk is handed
    /// out.
    pub fn on_chunk(&mut self, body: &mut BodyState, outcome: ChunkOutcome) -> (r: bool)
        ensures
            (*final(self), *final(body)) == after_chunk(*old(self), *old(body), outcome),
            r == (outcome == ChunkOutcome::Data),
    {
        match outcome {
            ChunkOutcome::Data => true,
            ChunkOutcome::Failed => {
                self.content_returned = true;
                false
            },
            ChunkOutcome::Finished => {
                self.content_returned = true;
                body.state = InnerResponseState::StreamingClosed;
                body.is_closed = true;
                body.is_stream_consumed = true;
                false
            },
        }
    }
}

/// An iteration that is over stays over: it never asks the connection again
/// and hands nothing out.
pub proof fn lemma_iteration_ends_once(it: BytesIterator, parent_closed: bool)
    requires
        it.content_returned,
        !it.has_ready_content,
    ensures
        iteration_step(it, parent_closed) == (it, IterAction::End),
{
}

/// The copy of a body is handed out exactly once.
pub proof fn lemma_cached_body_once(it: BytesIterator, first: bool, second: bool)
    requires
        it.has_ready_content,
    ensures
        iteration_step(it, first).1 == IterAction::Cached,
        iteration_step(iteration_step(it, first).0, second).1 == IterAction::End,
{
}

/// The signal by which a caller breaks off a stream. It holds one request
/// at most.
#[derive(Debug, Clone, Copy, PartialEq, Eq, Hash, Structural)]
pub struct AbortSlot {
    /// An abort was asked for and was not reported yet.
    pub pending: bool,
    /// The stream has ended, by itself or by an abort.
    pub finished: bool,
}

/// What a reader does next.
#[derive(Debug, Clone, Copy, PartialEq, Eq, Hash, Structural)]
pub enum ReadDecision {
    /// Ask the connection for the next chunk.
    Poll,
    /// Report that the transfer was aborted, without touching the
    /// connection.
    Aborted,
    /// Report the end of the stream.
    End,
}

/// The slot after an abort was asked for: the request is kept unless the
/// stream has ended.
pub open spec fn after_abort(slot: AbortSlot) -> AbortSlot {
    if slot.finished {
        slot
    } else {
        AbortSlot { pending: true, finished: false }
    }
}

/// What the next read does, and the slot after it.
pub open spec fn after_poll(slot: AbortSlot) -> (AbortSlot, ReadDecision) {
    if slot.finished {
        (slot, ReadDecision::End)
    } else if slot.pending {
        (AbortSlot { pending: false, finished: true }, ReadDecision::Aborted)
    } else {
        (slot, ReadDecision::Poll)
    }
}

impl AbortSlot {
    /// The slot of a stream that has just started.
    pub fn new() -> (r: Self)
        ensures
            r == (AbortSlot { pending: false, finished: false }),
    {
        AbortSlot { pending: false, finished: false }
    }

    /// Asks for the stream to be broken off. The call never waits.
    pub fn abort(&mut self)
        ensures
            *final(self) == after_abort(*old(self)),
    {
        if !self.finished {
            self.pending = true;
        }
    }

    /// Decides what the next read does.
    pub fn poll(&mut self) -> (r: ReadDecision)
        ensures
            (*final(self), r) == after_poll(*old(self)),
    {
        if self.finished {
            ReadDecision::End
        } else if self.pending {
            self.pending = false;
            self.finished = true;
            ReadDecision::Aborted
        } else {
            ReadDecision::Poll
        }
    }

    /// Records that the stream has come to its end.
    pub fn finish(&mut self)
        ensures
            *final(self) == (AbortSlot { pending: false, finished: true }),
    {
        self.pending = false;
        self.finished = true;
    }
}

/// An abort is reported by the very next read of a stream that has not
/// ended, and that read ends the stream.
pub proof fn lemma_abort_is_reported(slot: AbortSlot)
    requires
        !slot.finished,
    ensures
        after_poll(after_abort(slot)).1 == ReadDecision::Aborted,
        after_poll(after_poll(after_abort(slot)).0).1 == ReadDecision::End,
{
}

/// Asking twice is asking once, and asking after the end changes nothing.
pub proof fn lemma_abort_is_idempotent(slot: AbortSlot)
    ensures
        after_abort(after_abort(slot)) == after_abort(slot),
        slot.finished ==> after_abort(slot) == slot,
{
}

} // verus!
