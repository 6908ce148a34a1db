//! The read contract of a receive stream.
//!
//! The bytes of a stream arrive piece by piece, as the engine receives and
//! reassembles them. A stream is `Open` while more may arrive, `Finished`
//! once the sender has signalled the end, with what was buffered still to be
//! read, and `Closed` once it is drained. `StreamReader` keeps what has
//! arrived and not been read, and answers the three kinds of read. The
//! caller feeds it what the engine reports (`deliver`, `finish`, `abort`)
//! and waits for the next report whenever a read is `Pending`.
//!
//! One read into a buffer takes what is there, which may be nothing: a read
//! of zero bytes does not mean that the stream has ended. Whoever needs a
//! complete payload uses `read_exact` or `read_to_end`.
use vstd::prelude::*;

verus! {

/// The life of a receive stream.
#[derive(Clone, Copy, Debug, PartialEq, Eq, Structural)]
pub enum StreamState {
    /// More data may arrive.
    Open,
    /// The sender has signalled the end; buffered data is still readable.
    Finished,
    /// Fully drained, or ended by a failure.
    Closed,
}

/// A failed read. It concerns its stream alone.
#[derive(Clone, Copy, Debug, PartialEq, Eq, Structural)]
pub enum StreamError {
    /// The stream ended before the bytes asked for had arrived.
    UnexpectedEnd,
    /// More bytes arrived than the caller allowed for.
    SizeLimitExceeded,
    /// The peer reset the stream.
    Reset,
    /// The connection that carried the stream is gone.
    ConnectionLost,
    /// The engine does not serve the stream: it no longer knows it, or the
    /// peer turned its early data down.
    Unavailable,
}

/// How the engine says that a read of a stream failed.
#[derive(Clone, Copy, Debug, PartialEq, Eq, Structural)]
pub enum ReadFailure {
    /// The peer abandoned the stream.
    Reset,
    /// The connection was closed.
    ConnectionClosed,
    /// The engine does not know the stream.
    UnknownStream,
    /// The stream carried early data and the peer rejected it.
    ZeroRttRejected,
}

impl ReadFailure {
    /// The error that the failure becomes: a reset stays a reset, a closed
    /// connection is a lost connection, and a stream that the engine does
    /// not serve is unavailable.
    pub open spec fn error(self) -> StreamError {
        match self {
            ReadFailure::Reset => StreamError::Reset,
            ReadFailure::ConnectionClosed => StreamError::ConnectionLost,
            ReadFailure::UnknownStream => StreamError::Unavailable,
            ReadFailure::ZeroRttRejected => StreamError::Unavailable,
        }
    }
}

/// The error of a read that the engine reports failed.
pub fn read_error(failure: ReadFailure) -> (error: StreamError)
    ensures
        error == failure.error(),
{
    match failure {
        ReadFailure::Reset => StreamError::Reset,
        ReadFailure::ConnectionClosed => StreamError::ConnectionLost,
        ReadFailure::UnknownStream => StreamError::Unavailable,
        ReadFailure::ZeroRttRejected => StreamError::Unavailable,
    }
}

/// The answer to a read that needs a complete payload.
#[derive(Debug, PartialEq, Eq)]
pub enum ReadStep {
    /// Not decidable yet: the caller waits for the engine's next report and
    /// asks again. Nothing was taken from the stream.
    Pending,
    /// The payload.
    Ready(Vec<u8>),
    /// The read failed.
    Failed(StreamError),
}

/// A `ReadStep` with its payload as a sequence of bytes.
pub enum ReadStepView {
    Pending,
    Ready(Seq<u8>),
    Failed(StreamError),
}

impl View for ReadStep {
    type V = ReadStepView;

    open spec fn view(&self) -> ReadStepView {
        match *self {
            ReadStep::Pending => ReadStepView::Pending,
            ReadStep::Ready(bytes) => ReadStepView::Ready(bytes@),
            ReadStep::Failed(error) => ReadStepView::Failed(error),
        }
    }
}

/// The answer to one read into a buffer, with its bytes as a sequence:
/// `Ok(Some(bytes))` is what was copied, `Ok(None)` the end of the stream.
pub open spec fn read_view(r: Result<Option<Vec<u8>>, StreamError>) -> Result<
    Option<Seq<u8>>,
    StreamError,
> {
    match r {
        Ok(Some(bytes)) => Ok(Some(bytes@)),
        Ok(None) => Ok(None),
        Err(error) => Err(error),
    }
}

/// A receive stream as the read contract sees it.
pub struct StreamView {
    /// Where the stream is in its life.
    pub state: StreamState,
    /// What has arrived and has not been read, in order.
    pub buffered: Seq<u8>,
    /// The failure that ended the stream, where one did.
    pub failure: Option<StreamError>,
}

impl StreamView {
    /// A stream on which nothing has arrived.
    pub open spec fn fresh() -> StreamView {
        StreamView { state: StreamState::Open, buffered: Seq::empty(), failure: None }
    }

    /// A drained stream.
    pub open spec fn drained() -> StreamView {
        StreamView { state: StreamState::Closed, buffered: Seq::empty(), failure: None }
    }

    /// The engine delivers the next bytes of the stream. Only an open stream
    /// takes them.
    pub open spec fn deliver(self, bytes: Seq<u8>) -> StreamView {
        if self.state is Open {
            StreamView { state: self.state, buffered: self.buffered + bytes, failure: self.failure }
        } else {
            self
        }
    }

    /// The engine delivers several pieces, one after the other.
    pub open spec fn deliver_all(self, chunks: Seq<Seq<u8>>) -> StreamView
        decreases chunks.len(),
    {
        if chunks.len() == 0 {
            self
        } else {
            self.deliver(chunks.first()).deliver_all(chunks.drop_first())
        }
    }

    /// The sender signals that no more data comes.
    pub open spec fn finish(self) -> StreamView {
        if self.state is Open {
            StreamView { state: StreamState::Finished, buffered: self.buffered, failure: self.failure }
        } else {
            self
        }
    }

    /// A failure ends the stream: what was buffered is lost, and every read
    /// from now on gives the error. A stream that is closed already stays as
    /// it is.
    pub open spec fn abort(self, error: StreamError) -> StreamView {
        if self.state is Closed {
            self
        } else {
            StreamView { state: StreamState::Closed, buffered: Seq::empty(), failure: Some(error) }
        }
    }

    /// The stream after `count` bytes were read from its front. A finished
    /// stream closes when its last byte is read.
    pub open spec fn consume(self, count: int) -> StreamView {
        let rest = self.buffered.skip(count);
        StreamView {
            state: if self.state is Finished && rest.len() == 0 {
                StreamState::Closed
            } else {
                self.state
            },
            buffered: rest,
            failure: self.failure,
        }
    }

    /// How far the stream is in its life: a stream only moves forward.
    pub open spec fn age(self) -> nat {
        match self.state {
            StreamState::Open => 0,
            StreamState::Finished => 1,
            StreamState::Closed => 2,
        }
    }

    /// What holds of every stream that started fresh: a closed stream holds
    /// no bytes, and a failed stream is closed.
    pub open spec fn settled(self) -> bool {
        &&& self.state is Closed ==> self.buffered.len() == 0
        &&& self.failure is Some ==> self.state is Closed
    }

    /// The stream has ended and nothing is left to read.
    pub open spec fn at_end(self) -> bool {
        self.state is Closed || (self.state is Finished && self.buffered.len() == 0)
    }

    /// One read into a buffer of `max` bytes: the stream afterwards and the
    /// answer. It takes what is buffered, up to `max` bytes, and never waits.
    pub open spec fn read(self, max: nat) -> (StreamView, Result<Option<Seq<u8>>, StreamError>) {
        if let Some(error) = self.failure {
            (self, Err(error))
        } else if self.at_end() {
            (StreamView::drained(), Ok(None))
        } else {
            let count = if max <= self.buffered.len() {
                max as int
            } else {
                self.buffered.len() as int
            };
            (self.consume(count), Ok(Some(self.buffered.take(count))))
        }
    }

    /// A read of exactly `n` bytes: the stream afterwards and the answer.
    pub open spec fn read_exact(self, n: nat) -> (StreamView, ReadStepView) {
        if let Some(error) = self.failure {
            (self, ReadStepView::Failed(error))
        } else if n <= self.buffered.len() {
            (self.consume(n as int), ReadStepView::Ready(self.buffered.take(n as int)))
        } else if self.state is Open {
            (self, ReadStepView::Pending)
        } else {
            (self, ReadStepView::Failed(StreamError::UnexpectedEnd))
        }
    }

    /// A read of the whole stream, of at most `cap` bytes: the stream
    /// afterwards and the answer.
    pub open spec fn read_to_end(self, cap: nat) -> (StreamView, ReadStepView) {
        if let Some(error) = self.failure {
            (self, ReadStepView::Failed(error))
        } else if self.buffered.len() > cap {
            (self, ReadStepView::Failed(StreamError::SizeLimitExceeded))
        } else if self.state is Open {
            (self, ReadStepView::Pending)
        } else {
            (StreamView::drained(), ReadStepView::Ready(self.buffered))
        }
    }
}

/// The receive side of a stream: what has arrived and has not been read.
#[derive(Debug)]
pub struct StreamReader {
    state: StreamState,
    buffered: Vec<u8>,
    failure: Option<StreamError>,
}

impl View for StreamReader {
    type V = StreamView;

    closed spec fn view(&self) -> StreamView {
        StreamView { state: self.state, buffered: self.buffered@, failure: self.failure }
    }
}

/// Takes the first `count` bytes out of a buffer.
fn take_front(buffer: &mut Vec<u8>, count: usize) -> (front: Vec<u8>)
    requires
        count <= old(buffer).len(),
    ensures
        front@ == old(buffer)@.take(count as int),
        final(buffer)@ == old(buffer)@.skip(count as int),
{
    let mut rest = buffer.split_off(count);
    std::mem::swap(buffer, &mut rest);
    rest
}

impl StreamReader {
    /// The reader of a stream on which nothing has arrived.
    pub fn new() -> (reader: Self)
        ensures
            reader@ == StreamView::fresh(),
    {
        StreamReader { state: StreamState::Open, buffered: Vec::new(), failure: None }
    }

    /// Where the stream is in its life.
    pub fn state(&self) -> (state: StreamState)
        ensures
            state == self@.state,
    {
        self.state
    }

    /// How many bytes have arrived and have not been read.
    pub fn buffered_len(&self) -> (len: usize)
        ensures
            len == self@.buffered.len(),
    {
        self.buffered.len()
    }

    /// Takes the next bytes of the stream from the engine.
    pub fn deliver(&mut self, bytes: &[u8])
        ensures
            final(self)@ == old(self)@.deliver(bytes@),
    {
        if let StreamState::Open = self.state {
            self.buffered.extend_from_slice(bytes);
            assert(self.buffered@ =~= old(self).buffered@ + bytes@);
        }
    }

    /// Notes that the sender has signalled the end of the stream.
    pub fn finish(&mut self)
        ensures
            final(self)@ == old(self)@.finish(),
    {
        if let StreamState::Open = self.state {
            self.state = StreamState::Finished;
        }
    }

    /// Notes that the engine has reported a failed read of the stream.
    pub fn abort(&mut self, failure: ReadFailure)
        ensures
            final(self)@ == old(self)@.abort(failure.error()),
    {
        match self.state {
            StreamState::Closed => {},
            _ => {
                self.state = StreamState::Closed;
                self.buffered = Vec::new();
                self.failure = Some(read_error(failure));
            },
        }
    }

    /// Takes `count` bytes from the front of what is buffered.
    fn consume(&mut self, count: usize) -> (front: Vec<u8>)
        requires
            count <= old(self)@.buffered.len(),
        ensures
            final(self)@ == old(self)@.consume(count as int),
            front@ == old(self)@.buffered.take(count as int),
    {
        let front = take_front(&mut self.buffered, count);
        if self.buffered.len() == 0 {
            if let StreamState::Finished = self.state {
                self.state = StreamState::Closed;
            }
        }
        front
    }

    /// Reads into a buffer of `max` bytes what has arrived so far, without
    /// waiting. `Ok(Some(bytes))` holds the bytes copied, which are none
    /// where nothing has arrived yet; `Ok(None)` says that the stream has
    /// ended and is drained.
    pub fn read(&mut self, max: usize) -> (r: Result<Option<Vec<u8>>, StreamError>)
        ensures
            (final(self)@, read_view(r)) == old(self)@.read(max as nat),
    {
        if let Some(error) = self.failure {
            return Err(error);
        }
        let ended = match self.state {
            StreamState::Closed => true,
            StreamState::Finished => self.buffered.len() == 0,
            StreamState::Open => false,
        };
        if ended {
            self.state = StreamState::Closed;
            self.buffered = Vec::new();
            return Ok(None);
        }
        let count = if max <= self.buffered.len() {
            max
        } else {
            self.buffered.len()
        };
        let front = self.consume(count);
        Ok(Some(front))
    }

    /// Reads exactly `n` bytes. The answer is `Pending` while fewer have
    /// arrived and the stream is open, and `UnexpectedEnd` once the stream
    /// has ended with fewer.
    pub fn read_exact(&mut self, n: usize) -> (step: ReadStep)
        ensures
            (final(self)@, step@) == old(self)@.read_exact(n as nat),
    {
        if let Some(error) = self.failure {
            return ReadStep::Failed(error);
        }
        if n <= self.buffered.len() {
            let front = self.consume(n);
            return ReadStep::Ready(front);
        }
        match self.state {
            StreamState::Open => ReadStep::Pending,
            _ => ReadStep::Failed(StreamError::UnexpectedEnd),
        }
    }

    /// Reads the whole stream, of at most `cap` bytes. The answer is
    /// `Pending` until the stream has finished, and `SizeLimitExceeded` as
    /// soon as more than `cap` bytes have arrived.
    pub fn read_to_end(&mut self, cap: usize) -> (step: ReadStep)
        ensures
            (final(self)@, step@) == old(self)@.read_to_end(cap as nat),
    {
        if let Some(error) = self.failure {
            return ReadStep::Failed(error);
        }
        if self.buffered.len() > cap {
            return ReadStep::Failed(StreamError::SizeLimitExceeded);
        }
        match self.state {
            StreamState::Open => ReadStep::Pending,
            _ => {
                let count = self.buffered.len();
                let all = take_front(&mut self.buffered, count);
                self.state = StreamState::Closed;
                assert(all@ =~= old(self)@.buffered);
                assert(self.buffered@ =~= Seq::<u8>::empty());
                ReadStep::Ready(all)
            },
        }
    }
}

/// The life of a stream only moves forward, from open to finished to
/// closed: no report of the engine and no read takes it back.
pub proof fn lemma_life_moves_forward(
    stream: StreamView,
    bytes: Seq<u8>,
    error: StreamError,
    n: nat,
)
    ensures
        stream.age() <= stream.deliver(bytes).age(),
        stream.age() <= stream.finish().age(),
        stream.age() <= stream.abort(error).age(),
        stream.age() <= stream.read(n).0.age(),
        stream.age() <= stream.read_exact(n).0.age(),
        stream.age() <= stream.read_to_end(n).0.age(),
{
}

/// A fresh stream is settled, and whatever the engine reports and whatever
/// is read, a settled stream stays settled.
pub proof fn lemma_stays_settled(stream: StreamView, bytes: Seq<u8>, error: StreamError, n: nat)
    requires
        stream.settled(),
    ensures
        StreamView::fresh().settled(),
        stream.deliver(bytes).settled(),
        stream.finish().settled(),
        stream.abort(error).settled(),
        stream.read(n).0.settled(),
        stream.read_exact(n).0.settled(),
        stream.read_to_end(n).0.settled(),
{
}

/// No read waits on a stream that has ended: once the sender has finished
/// or a failure has ended the stream, a read of a complete payload is
/// answered at once.
pub proof fn lemma_no_wait_after_the_end(stream: StreamView, n: nat)
    requires
        !(stream.state is Open),
    ensures
        !(stream.read_exact(n).1 is Pending),
        !(stream.read_to_end(n).1 is Pending),
{
}

/// A read of a complete payload that has to wait takes nothing from the
/// stream.
pub proof fn lemma_waiting_takes_nothing(stream: StreamView, n: nat)
    ensures
        stream.read_exact(n).1 is Pending ==> stream.read_exact(n).0 == stream,
        stream.read_to_end(n).1 is Pending ==> stream.read_to_end(n).0 == stream,
{
}

/// An open stream that takes pieces from the engine holds, in order, what it
/// held before and then the pieces, and stays open.
pub proof fn lemma_deliver_all_appends(stream: StreamView, chunks: Seq<Seq<u8>>)
    requires
        stream.state is Open,
    ensures
        stream.deliver_all(chunks) == (StreamView {
            state: StreamState::Open,
            buffered: stream.buffered + chunks.flatten(),
            failure: stream.failure,
        }),
    decreases chunks.len(),
{
    if chunks.len() > 0 {
        let next = stream.deliver(chunks.first());
        lemma_deliver_all_appends(next, chunks.drop_first());
        assert(next.buffered + chunks.drop_first().flatten() =~= stream.buffered
            + chunks.flatten());
    }
}

/// Round trip: whatever bytes are sent on a fresh stream and finished, and
/// in whatever pieces they arrive, reading to the end with a cap of at least
/// their number gives exactly those bytes and leaves the stream drained.
pub proof fn lemma_round_trip(sent: Seq<u8>, chunks: Seq<Seq<u8>>, cap: nat)
    requires
        chunks.flatten() == sent,
        sent.len() <= cap,
    ensures
        StreamView::fresh().deliver_all(chunks).finish().read_to_end(cap) == (
            StreamView::drained(),
            ReadStepView::Ready(sent),
        ),
{
    lemma_deliver_all_appends(StreamView::fresh(), chunks);
}

/// Partial read: one read into a buffer on a fresh stream, before any byte
/// has arrived, copies zero bytes and leaves the stream open. Zero bytes do
/// not mean the end of the data.
pub proof fn lemma_read_before_arrival(max: nat)
    ensures
        StreamView::fresh().read(max) == (
            StreamView::fresh(),
            Ok::<_, StreamError>(Some(Seq::<u8>::empty())),
        ),
        StreamView::fresh().read(max).0.state is Open,
{
    let fresh = StreamView::fresh();
    assert(fresh.buffered.take(0) =~= fresh.buffered);
}

} // verus!
