use vstd::prelude::*;
use vstd::string::*;

verus! {

/// The bytes read from a stream so far, in a buffer that always has room
/// for the next read: whenever a read fills it, it doubles.
pub struct ReceiveBuffer {
    buf: Vec<u8>,
    filled: usize,
}

/// Why a client gives up on a response.
#[derive(Debug, Clone, Copy, PartialEq, Eq, Structural)]
pub enum FailureReason {
    /// The stream ended before any byte arrived.
    NoData,
    /// The stream ended and the bytes that arrived do not decode.
    Undecodable,
}

/// What a client does after a read.
#[derive(Debug, Clone, Copy, PartialEq, Eq, Structural)]
pub enum ClientStep {
    /// Read again.
    ReadMore,
    /// Return the decoded response; `pause` first (a moment for the peer to
    /// take in what it sent) when the stream has not ended.
    Finish { pause: bool },
    /// Report the failure.
    Fail(FailureReason),
}

/// What a server does after a read.
#[derive(Debug, Clone, Copy, PartialEq, Eq, Structural)]
pub enum ServerStep {
    /// Read again.
    ReadMore,
    /// Send the response.
    Reply,
}

/// The client's decision after a read. `any_bytes`: something has arrived;
/// `ended`: the read found the end of the stream; `decoded`: the bytes that
/// arrived decode as a response (only tried where something arrived).
pub open spec fn spec_client_step(any_bytes: bool, ended: bool, decoded: bool) -> ClientStep {
    if ended && !any_bytes {
        ClientStep::Fail(FailureReason::NoData)
    } else if decoded {
        ClientStep::Finish { pause: !ended }
    } else if ended {
        ClientStep::Fail(FailureReason::Undecodable)
    } else {
        ClientStep::ReadMore
    }
}

/// The server's decision after a read: it replies once the request decodes
/// or the stream ends, whatever arrived.
pub open spec fn spec_server_step(ended: bool, decoded: bool) -> ServerStep {
    if ended || decoded {
        ServerStep::Reply
    } else {
        ServerStep::ReadMore
    }
}

/// The server's decision after a read: reply once the request decodes or
/// the stream has ended; otherwise read again.
pub fn server_step(ended: bool, decoded: bool) -> (r: ServerStep)
    ensures
        r == spec_server_step(ended, decoded),
{
    if ended || decoded {
        ServerStep::Reply
    } else {
        ServerStep::ReadMore
    }
}

/// A client finishes with the first bytes that decode, wherever they arrive.
pub proof fn lemma_client_finishes_on_first_decode(ended: bool)
    ensures
        spec_client_step(true, ended, true) == (ClientStep::Finish { pause: !ended }),
        spec_client_step(true, false, false) == ClientStep::ReadMore,
{
}

/// Once the stream has ended a client stops: it finishes or fails, and it
/// fails with `NoData` exactly when nothing arrived.
pub proof fn lemma_client_stops_at_end(any_bytes: bool, decoded: bool)
    ensures
        spec_client_step(any_bytes, true, decoded) != ClientStep::ReadMore,
        (spec_client_step(any_bytes, true, decoded) == ClientStep::Fail(FailureReason::NoData))
            <==> !any_bytes,
{
}

/// Once the stream has ended a server replies, whether or not the request
/// decoded: what it sends does not depend on what it read.
pub proof fn lemma_server_replies_at_end(decoded: bool)
    ensures
        spec_server_step(true, decoded) == ServerStep::Reply,
{
}

impl ReceiveBuffer {
    /// The buffer holds at least one byte more than has been received.
    pub closed spec fn wf(&self) -> bool {
        self.filled < self.buf.len()
    }

    /// The bytes received, in order.
    pub closed spec fn received(&self) -> Seq<u8> {
        self.buf@.take(self.filled as int)
    }

    /// How many bytes the buffer holds.
    pub closed spec fn capacity(&self) -> nat {
        self.buf.len() as nat
    }

    /// An empty buffer of the given size.
    pub fn new(capacity: usize) -> (r: Self)
        requires
            capacity > 0,
        ensures
            r.wf(),
            r.received() == Seq::<u8>::empty(),
            r.capacity() == capacity,
    {
        let buf: Vec<u8> = vec![0u8; capacity];
        let r = ReceiveBuffer { buf, filled: 0 };
        assert(r.received() =~= Seq::<u8>::empty());
        r
    }

    /// How many bytes the next read may bring: the room left, never zero.
    pub fn spare(&self) -> (n: usize)
        requires
            self.wf(),
        ensures
            n == self.capacity() - self.received().len(),
            n > 0,
    {
        self.buf.len() - self.filled
    }

    /// How many bytes have been received.
    pub fn len(&self) -> (n: usize)
        requires
            self.wf(),
        ensures
            n == self.received().len(),
    {
        self.filled
    }

    /// The bytes received so far.
    pub fn received_bytes(&self) -> (r: &[u8])
        requires
            self.wf(),
        ensures
            r@ == self.received(),
    {
        let (head, _) = self.buf.as_slice().split_at(self.filled);
        head
    }

    /// Takes the bytes of one read. An empty read means the stream has ended,
    /// and the result is `false`; otherwise the bytes are appended, the
    /// buffer doubles if they fill it, and the result is `true`.
    pub fn receive(&mut self, chunk: &[u8]) -> (more: bool)
        requires
            old(self).wf(),
            chunk@.len() <= old(self).capacity() - old(self).received().len(),
            old(self).capacity() * 2 <= usize::MAX,
        ensures
            final(self).wf(),
            more == (chunk@.len() > 0),
            final(self).received() == old(self).received() + chunk@,
            final(self).capacity() == if more && old(self).received().len() + chunk@.len()
                >= old(self).capacity() {
                old(self).capacity() * 2
            } else {
                old(self).capacity()
            },
    {
        let n = chunk.len();
        if n == 0 {
            assert(self.received() + chunk@ =~= self.received());
            return false;
        }
        let start = self.filled;
        let ghost before = self.buf@;
        let mut k: usize = 0;
        while k < n
            invariant
                n == chunk@.len(),
                start + n <= self.buf.len(),
                self.filled == start,
                self.buf@.len() == before.len(),
                k <= n,
                forall|j: int| 0 <= j < start ==> self.buf@[j] == before[j],
                forall|j: int| 0 <= j < k ==> self.buf@[start + j] == chunk@[j],
            decreases n - k,
        {
            self.buf.set(start + k, chunk[k]);
            k = k + 1;
        }
        self.filled = start + n;
        assert(self.buf@.take(self.filled as int) =~= before.take(start as int) + chunk@);
        let len = self.buf.len();
        if self.filled >= len {
            self.buf.resize(len * 2, 0u8);
            assert(self.buf@.take(self.filled as int) =~= before.take(start as int) + chunk@);
        }
        true
    }

    /// The client's decision after a read, given whether the read found the
    /// end of the stream and whether the bytes received decode.
    pub fn client_step(&self, ended: bool, decoded: bool) -> (r: ClientStep)
        requires
            self.wf(),
        ensures
            r == spec_client_step(self.received().len() > 0, ended, decoded),
    {
        if ended && self.filled == 0 {
            ClientStep::Fail(FailureReason::NoData)
        } else if decoded {
            ClientStep::Finish { pause: !ended }
        } else if ended {
            ClientStep::Fail(FailureReason::Undecodable)
        } else {
            ClientStep::ReadMore
        }
    }
}

/// The kind of an exchange failure, as `std::io::ErrorKind` names it.
#[derive(Debug, Clone, Copy, PartialEq, Eq, Structural)]
pub enum FailureKind {
    InvalidData,
    UnexpectedEof,
}

/// A failed exchange: its kind and its message.
#[derive(Debug, Clone)]
pub struct ExchangeError {
    pub kind: FailureKind,
    pub message: String,
}

/// The stream ended before any byte arrived.
pub fn no_data_received() -> (e: ExchangeError)
    ensures
        e.kind == FailureKind::UnexpectedEof,
        e.message@ == "No data received"@,
{
    ExchangeError { kind: FailureKind::UnexpectedEof, message: String::from_str("No data received") }
}

/// The bytes that arrived do not decode as a response; `detail` says why.
pub fn undecodable_response(detail: &str) -> (e: ExchangeError)
    ensures
        e.kind == FailureKind::InvalidData,
        e.message@ == "Failed to deserialize response: "@ + detail@,
{
    let message = String::from_str("Failed to deserialize response: ").concat(detail);
    ExchangeError { kind: FailureKind::InvalidData, message }
}

/// A message could not be encoded; `detail` says why.
pub fn encoding_failed(detail: &str) -> (e: ExchangeError)
    ensures
        e.kind == FailureKind::InvalidData,
        e.message@ == detail@,
{
    ExchangeError { kind: FailureKind::InvalidData, message: String::from_str(detail) }
}

} // verus!
