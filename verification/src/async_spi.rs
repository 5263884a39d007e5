//! Suspendable reads, writes and in-place transfers on a full-duplex byte
//! bus whose driver only offers try-once operations.
//!
//! The caller makes each attempt on the bus and hands the `nb` result to the
//! operation, which says whether to yield or what it resolved to.

use vstd::prelude::*;

use crate::step::Step;

verus! {

/// `nb`'s error of a try-once operation, read as the plain enum it is.
#[verifier::external_type_specification]
#[verifier::reject_recursive_types(E)]
pub struct ExNbError<E>(nb::Error<E>);

/// What one attempt on the bus came to, whatever the driver's error type.
#[derive(PartialEq, Eq, Clone, Copy, Debug, Structural)]
pub enum Reply {
    /// The byte was accepted for sending.
    Sent,
    /// A byte was received.
    Received(u8),
    /// The bus was not ready: nothing happened.
    WouldBlock,
    /// The driver reported an error.
    Fault,
}

/// What a send attempt came to.
pub open spec fn send_reply<E>(sent: Result<(), nb::Error<E>>) -> Reply {
    match sent {
        Ok(_) => Reply::Sent,
        Err(nb::Error::WouldBlock) => Reply::WouldBlock,
        Err(nb::Error::Other(_)) => Reply::Fault,
    }
}

/// What a receive attempt came to.
pub open spec fn receive_reply<E>(received: Result<u8, nb::Error<E>>) -> Reply {
    match received {
        Ok(byte) => Reply::Received(byte),
        Err(nb::Error::WouldBlock) => Reply::WouldBlock,
        Err(nb::Error::Other(_)) => Reply::Fault,
    }
}

/// What a poll of a read answers to a receive attempt.
pub open spec fn read_step<E>(received: Result<u8, nb::Error<E>>) -> Step<Result<u8, ()>> {
    match received {
        Ok(byte) => Step::Completed(Ok(byte)),
        Err(nb::Error::WouldBlock) => Step::Suspended,
        Err(nb::Error::Other(_)) => Step::Completed(Err(())),
    }
}

/// What a poll of a write answers to a send attempt.
pub open spec fn write_step<E>(sent: Result<(), nb::Error<E>>) -> Step<Result<(), ()>> {
    match sent {
        Ok(_) => Step::Completed(Ok(())),
        Err(nb::Error::WouldBlock) => Step::Suspended,
        Err(nb::Error::Other(_)) => Step::Completed(Err(())),
    }
}

/// A suspendable read of one byte. It keeps nothing between polls, so it
/// may be abandoned at any time.
pub struct AsynSpiRead {}

impl AsynSpiRead {
    /// One poll, given what the receive attempt of this poll returned. A
    /// bus that would block leaves the read suspended; an error resolves it
    /// as a failure at once, with no retry; a byte resolves it.
    pub fn poll<E>(&self, received: Result<u8, nb::Error<E>>) -> (step: Step<Result<u8, ()>>)
        ensures
            step == read_step(received),
    {
        match received {
            Ok(byte) => Step::Completed(Ok(byte)),
            Err(nb::Error::Other(_)) => Step::Completed(Err(())),
            Err(nb::Error::WouldBlock) => Step::Suspended,
        }
    }
}

/// A suspendable write of one byte. It keeps nothing between polls but the
/// byte, so it may be abandoned at any time.
pub struct AsynSpiWrite {
    payload: u8,
}

impl AsynSpiWrite {
    /// The byte this write sends.
    pub closed spec fn byte(&self) -> u8 {
        self.payload
    }

    /// The byte to attempt to send at each poll.
    pub fn payload(&self) -> (byte: u8)
        ensures
            byte == self.byte(),
    {
        self.payload
    }

    /// One poll, given what the send attempt of this poll returned. A bus
    /// that would block leaves the write suspended; an error resolves it as
    /// a failure at once, with no retry; an accepted byte resolves it.
    pub fn poll<E>(&self, sent: Result<(), nb::Error<E>>) -> (step: Step<Result<(), ()>>)
        ensures
            step == write_step(sent),
    {
        match sent {
            Ok(_) => Step::Completed(Ok(())),
            Err(nb::Error::Other(_)) => Step::Completed(Err(())),
            Err(nb::Error::WouldBlock) => Step::Suspended,
        }
    }
}

/// Begins a read of one byte.
pub fn async_read() -> AsynSpiRead {
    AsynSpiRead {  }
}

/// Begins a write of `payload`.
pub fn async_write(payload: u8) -> (write: AsynSpiWrite)
    ensures
        write.byte() == payload,
{
    AsynSpiWrite { payload }
}

/// What a transfer asks of the bus at a poll.
#[derive(PartialEq, Eq, Clone, Copy, Debug, Structural)]
pub enum BusRequest {
    /// Attempt to send this byte.
    Send(u8),
    /// Attempt to receive a byte.
    Receive,
}

/// Where a transfer stands.
#[derive(PartialEq, Eq, Clone, Copy, Debug, Structural)]
pub enum TransferPhase {
    /// The byte at the cursor is to be sent.
    Sending,
    /// The byte at the cursor was sent; its answer is to be received.
    Receiving,
    /// Every position was exchanged.
    Done,
    /// An error ended the transfer.
    Failed,
}

/// A transfer as a value.
pub struct TransferView {
    /// The buffer: received bytes before the cursor, bytes still to be sent
    /// from the cursor on.
    pub buffer: Seq<u8>,
    pub cursor: nat,
    pub phase: TransferPhase,
}

impl TransferView {
    /// A transfer of `buffer` that has just begun. An empty one is done
    /// before any attempt.
    pub open spec fn begin(buffer: Seq<u8>) -> TransferView {
        TransferView {
            buffer,
            cursor: 0,
            phase: if buffer.len() == 0 {
                TransferPhase::Done
            } else {
                TransferPhase::Sending
            },
        }
    }

    pub open spec fn wf(self) -> bool {
        &&& self.cursor <= self.buffer.len()
        &&& self.pending() ==> self.cursor < self.buffer.len()
        &&& self.phase is Done ==> self.cursor == self.buffer.len()
    }

    /// Whether the transfer has not resolved yet.
    pub open spec fn pending(self) -> bool {
        self.phase is Sending || self.phase is Receiving
    }

    /// What the transfer asks of the bus next, if anything.
    pub open spec fn request(self) -> Option<BusRequest> {
        match self.phase {
            TransferPhase::Sending => Some(BusRequest::Send(self.buffer[self.cursor as int])),
            TransferPhase::Receiving => Some(BusRequest::Receive),
            _ => None,
        }
    }

    /// What the transfer resolved to, if it has.
    pub open spec fn outcome(self) -> Option<Result<(), ()>> {
        match self.phase {
            TransferPhase::Done => Some(Ok(())),
            TransferPhase::Failed => Some(Err(())),
            _ => None,
        }
    }

    /// The transfer after an attempt that came to `reply`. A position is
    /// sent before its answer is received, and the answer overwrites it. A
    /// reply that does not answer the request changes nothing.
    pub open spec fn after(self, reply: Reply) -> TransferView {
        match (self.phase, reply) {
            (TransferPhase::Sending, Reply::Sent) => TransferView {
                phase: TransferPhase::Receiving,
                ..self
            },
            (TransferPhase::Receiving, Reply::Received(byte)) => TransferView {
                buffer: self.buffer.update(self.cursor as int, byte),
                cursor: self.cursor + 1,
                phase: if self.cursor + 1 == self.buffer.len() {
                    TransferPhase::Done
                } else {
                    TransferPhase::Sending
                },
            },
            (TransferPhase::Sending, Reply::Fault) => TransferView {
                phase: TransferPhase::Failed,
                ..self
            },
            (TransferPhase::Receiving, Reply::Fault) => TransferView {
                phase: TransferPhase::Failed,
                ..self
            },
            _ => self,
        }
    }
}

/// An in-place full-duplex exchange of a buffer, one position at a time.
pub struct AsyncTransfer {
    buffer: Vec<u8>,
    cursor: usize,
    phase: TransferPhase,
}

impl View for AsyncTransfer {
    type V = TransferView;

    closed spec fn view(&self) -> TransferView {
        TransferView { buffer: self.buffer@, cursor: self.cursor as nat, phase: self.phase }
    }
}

impl AsyncTransfer {
    /// What to attempt on the bus at this poll; `None` once the transfer
    /// has resolved.
    pub fn request(&self) -> (request: Option<BusRequest>)
        requires
            self@.wf(),
        ensures
            request == self@.request(),
    {
        match self.phase {
            TransferPhase::Sending => Some(BusRequest::Send(self.buffer[self.cursor])),
            TransferPhase::Receiving => Some(BusRequest::Receive),
            _ => None,
        }
    }

    /// What the transfer resolved to; `None` while it is pending.
    pub fn outcome(&self) -> (outcome: Option<Result<(), ()>>)
        ensures
            outcome == self@.outcome(),
    {
        match self.phase {
            TransferPhase::Done => Some(Ok(())),
            TransferPhase::Failed => Some(Err(())),
            _ => None,
        }
    }

    /// The buffer as it stands.
    pub fn buffer(&self) -> (bytes: &Vec<u8>)
        ensures
            bytes@ == self@.buffer,
    {
        &self.buffer
    }

    /// Gives the buffer back.
    pub fn into_buffer(self) -> (bytes: Vec<u8>)
        ensures
            bytes@ == self@.buffer,
    {
        self.buffer
    }

    /// Takes what the send attempt for the byte at the cursor returned, and
    /// answers as a write of that byte does. An accepted byte moves the
    /// transfer on to receiving; an error fails the whole transfer.
    pub fn sent<E>(&mut self, sent: Result<(), nb::Error<E>>) -> (step: Step<Result<(), ()>>)
        requires
            old(self)@.wf(),
            old(self)@.phase is Sending,
        ensures
            step == write_step(sent),
            final(self)@ == old(self)@.after(send_reply(sent)),
            final(self)@.wf(),
    {
        let step = async_write(self.buffer[self.cursor]).poll(sent);
        match &step {
            Step::Suspended => {},
            Step::Completed(Ok(_)) => {
                self.phase = TransferPhase::Receiving;
            },
            Step::Completed(Err(_)) => {
                self.phase = TransferPhase::Failed;
            },
        }
        step
    }

    /// Takes what the receive attempt returned, and answers as a read does.
    /// A received byte overwrites the position at the cursor and moves the
    /// transfer on to the next position, or completes it after the last; an
    /// error fails the whole transfer.
    pub fn received<E>(&mut self, received: Result<u8, nb::Error<E>>) -> (step: Step<
        Result<u8, ()>,
    >)
        requires
            old(self)@.wf(),
            old(self)@.phase is Receiving,
        ensures
            step == read_step(received),
            final(self)@ == old(self)@.after(receive_reply(received)),
            final(self)@.wf(),
    {
        let step = async_read().poll(received);
        match &step {
            Step::Suspended => {},
            Step::Completed(Ok(byte)) => {
                let len = self.buffer.len();
                let next = self.cursor + 1;
                self.buffer.set(self.cursor, *byte);
                self.cursor = next;
                self.phase = if next == len {
                    TransferPhase::Done
                } else {
                    TransferPhase::Sending
                };
            },
            Step::Completed(Err(_)) => {
                self.phase = TransferPhase::Failed;
            },
        }
        step
    }
}

/// Begins the in-place exchange of `transfer_buffer`.
pub fn async_transfer(transfer_buffer: Vec<u8>) -> (transfer: AsyncTransfer)
    ensures
        transfer@ == TransferView::begin(transfer_buffer@),
        transfer@.wf(),
{
    let phase = if transfer_buffer.len() == 0 {
        TransferPhase::Done
    } else {
        TransferPhase::Sending
    };
    AsyncTransfer { buffer: transfer_buffer, cursor: 0, phase }
}

/// A transfer after the attempts that came to each of `replies` in turn, up
/// to the one that resolves it.
pub open spec fn transfer_run(t: TransferView, replies: Seq<Reply>) -> TransferView
    decreases replies.len(),
{
    if replies.len() == 0 || !t.pending() {
        t
    } else {
        transfer_run(t.after(replies[0]), replies.drop_first())
    }
}

/// How many of the attempts of `transfer_run` were attempts to send.
pub open spec fn send_attempts(t: TransferView, replies: Seq<Reply>) -> nat
    decreases replies.len(),
{
    if replies.len() == 0 || !t.pending() {
        0
    } else {
        let here: nat = if t.phase is Sending {
            1
        } else {
            0
        };
        here + send_attempts(t.after(replies[0]), replies.drop_first())
    }
}

/// How many of the attempts of `transfer_run` were attempts to receive.
pub open spec fn receive_attempts(t: TransferView, replies: Seq<Reply>) -> nat
    decreases replies.len(),
{
    if replies.len() == 0 || !t.pending() {
        0
    } else {
        let here: nat = if t.phase is Receiving {
            1
        } else {
            0
        };
        here + receive_attempts(t.after(replies[0]), replies.drop_first())
    }
}

/// The replies of a bus that never blocks or fails and answers the byte at
/// position `i` with `responses[i]`.
pub open spec fn echo_script(responses: Seq<u8>) -> Seq<Reply>
    decreases responses.len(),
{
    if responses.len() == 0 {
        Seq::empty()
    } else {
        seq![Reply::Sent, Reply::Received(responses[0])] + echo_script(responses.drop_first())
    }
}

/// Against a bus that never blocks or fails, a transfer at the start of a
/// position exchanges every remaining position: it ends done, what was
/// before the cursor is kept and the rest holds the responses in order,
/// after exactly one send attempt and one receive attempt per position.
pub proof fn lemma_transfer_echoes_from(t: TransferView, responses: Seq<u8>)
    requires
        t.wf(),
        t.phase is Sending || t.phase is Done,
        responses.len() == t.buffer.len() - t.cursor,
    ensures
        transfer_run(t, echo_script(responses)) == (TransferView {
            buffer: t.buffer.take(t.cursor as int) + responses,
            cursor: t.buffer.len(),
            phase: TransferPhase::Done,
        }),
        send_attempts(t, echo_script(responses)) == responses.len(),
        receive_attempts(t, echo_script(responses)) == responses.len(),
        echo_script(responses).len() == 2 * responses.len(),
    decreases responses.len(),
{
    let script = echo_script(responses);
    if responses.len() == 0 {
        assert(t.buffer.take(t.cursor as int) + responses =~= t.buffer);
    } else {
        let rest = responses.drop_first();
        let tail = echo_script(rest);
        let t1 = t.after(Reply::Sent);
        let t2 = t1.after(Reply::Received(responses[0]));
        let s1 = script.drop_first();
        assert(script[0] == Reply::Sent);
        assert(s1 =~= seq![Reply::Received(responses[0])] + tail);
        assert(s1[0] == Reply::Received(responses[0]));
        assert(s1.drop_first() =~= tail);
        lemma_transfer_echoes_from(t2, rest);
        assert(transfer_run(t, script) == transfer_run(t1, s1));
        assert(transfer_run(t1, s1) == transfer_run(t2, tail));
        assert(send_attempts(t, script) == 1 + send_attempts(t1, s1));
        assert(send_attempts(t1, s1) == send_attempts(t2, tail));
        assert(receive_attempts(t, script) == receive_attempts(t1, s1));
        assert(receive_attempts(t1, s1) == 1 + receive_attempts(t2, tail));
        assert(t2.buffer.take(t2.cursor as int) + rest =~= t.buffer.take(t.cursor as int)
            + responses);
    }
}

/// Against a bus that never blocks or fails and answers position `i` with
/// `responses[i]`, the transfer of a buffer of `N` bytes ends done with the
/// buffer holding exactly the responses, after exactly `N` send attempts
/// and `N` receive attempts. For an empty buffer that is no attempt at all.
pub proof fn lemma_transfer_echoes(buffer: Seq<u8>, responses: Seq<u8>)
    requires
        responses.len() == buffer.len(),
    ensures
        transfer_run(TransferView::begin(buffer), echo_script(responses)).buffer == responses,
        transfer_run(TransferView::begin(buffer), echo_script(responses)).outcome() == Some(
            Ok::<(), ()>(()),
        ),
        send_attempts(TransferView::begin(buffer), echo_script(responses)) == buffer.len(),
        receive_attempts(TransferView::begin(buffer), echo_script(responses)) == buffer.len(),
        buffer.len() == 0 ==> TransferView::begin(buffer).request() is None,
{
    let t = TransferView::begin(buffer);
    lemma_transfer_echoes_from(t, responses);
    assert(t.buffer.take(0) + responses =~= responses);
}

/// Whatever the bus replies, a transfer only moves forward and never
/// touches a position it has not exchanged yet: from its cursor on, the
/// buffer is as it was. That holds in particular after the error that
/// aborts it.
pub proof fn lemma_unprocessed_suffix_untouched(t: TransferView, replies: Seq<Reply>)
    requires
        t.wf(),
    ensures
        transfer_run(t, replies).wf(),
        transfer_run(t, replies).cursor >= t.cursor,
        transfer_run(t, replies).buffer.len() == t.buffer.len(),
        transfer_run(t, replies).buffer.skip(transfer_run(t, replies).cursor as int)
            == t.buffer.skip(transfer_run(t, replies).cursor as int),
    decreases replies.len(),
{
    if replies.len() > 0 && t.pending() {
        let n = t.after(replies[0]);
        lemma_unprocessed_suffix_untouched(n, replies.drop_first());
        let r = transfer_run(t, replies);
        assert(r == transfer_run(n, replies.drop_first()));
        assert(r.buffer.skip(r.cursor as int) =~= t.buffer.skip(r.cursor as int)) by {
            assert(r.buffer.skip(r.cursor as int) == n.buffer.skip(r.cursor as int));
            assert forall|i: int| r.cursor <= i < t.buffer.len() implies n.buffer[i]
                == t.buffer[i] by {}
            assert(n.buffer.skip(r.cursor as int) =~= t.buffer.skip(r.cursor as int));
        }
    } else {
        let r = transfer_run(t, replies);
        assert(r.buffer.skip(r.cursor as int) =~= t.buffer.skip(r.cursor as int));
    }
}

/// An attempt that would block is a plain retry: it changes nothing, so
/// the run goes on as if it had not been made.
pub proof fn lemma_would_block_is_retry(t: TransferView, replies: Seq<Reply>)
    ensures
        t.after(Reply::WouldBlock) == t,
        transfer_run(t, seq![Reply::WouldBlock] + replies) == transfer_run(t, replies),
{
    let all = seq![Reply::WouldBlock] + replies;
    assert(all[0] == Reply::WouldBlock);
    assert(all.drop_first() =~= replies);
    if !t.pending() {
        assert(transfer_run(t, all) == t);
        assert(transfer_run(t, replies) == t);
    }
}

} // verus!
