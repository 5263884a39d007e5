use vstd::prelude::*;

use crate::step::Step;
use vstd::slice::slice_to_vec;
use stm32f3xx_hal::i2c::Error;

verus! {

/// The HAL's I2C fault kinds, read as the plain enum they are.
#[verifier::external_type_specification]
pub struct ExI2cError(Error);

/// Who has the bus, as far as this controller is concerned.
#[derive(PartialEq, Eq, Clone, Copy, Debug, Structural)]
pub enum Line {
    /// No transaction is open and the bus is released.
    Free,
    /// A transaction is in flight.
    Busy,
    /// The last write completed without a stop condition: the controller
    /// still owns the bus and stretches the clock until the next start.
    Held,
}

#[derive(PartialEq, Eq, Clone, Copy, Debug, Structural)]
pub enum Direction {
    Write,
    Read,
}

/// How a transaction ends once all its bytes have moved.
#[derive(PartialEq, Eq, Clone, Copy, Debug, Structural)]
pub enum StopMode {
    /// The controller issues the stop condition by itself.
    Automatic,
    /// No stop condition: the bus stays held for a following transaction.
    Software,
}

/// The start condition of one transaction, for the caller to program into
/// the controller (7-bit addressing, no reload).
#[derive(PartialEq, Eq, Clone, Copy, Debug, Structural)]
pub struct Start {
    /// The slave address field: the 7-bit address shifted left by one.
    pub sadd: u16,
    pub direction: Direction,
    /// How many bytes the transaction moves.
    pub nbytes: u8,
    pub stop_mode: StopMode,
}

/// The controller's status flags as sampled at one poll.
#[derive(PartialEq, Eq, Clone, Copy, Debug, Structural)]
pub struct BusStatus {
    /// The data register wants the next byte (write) or holds one (read).
    pub byte_ready: bool,
    pub arbitration_lost: bool,
    pub bus_error: bool,
    pub not_acknowledged: bool,
    /// A stop condition has been seen on the bus.
    pub stop_complete: bool,
}

/// What the caller is to do to the controller after a poll.
#[derive(PartialEq, Eq, Clone, Copy, Debug, Structural)]
pub enum Command {
    Nothing,
    /// Put this byte into the transmit register.
    Transmit(u8),
    /// Clear the arbitration-lost latch.
    ClearArbitrationLost,
    /// Clear the bus-error latch.
    ClearBusError,
    /// Clear the not-acknowledged latch, then the stop latch.
    ClearNackAndStop,
    /// Sample the status again and poll again, without yielding: the target
    /// did not acknowledge and the bus has not come to rest yet.
    AwaitStop,
}

/// The answer of one poll: what to do to the controller, and whether the
/// transaction resolved.
#[derive(Debug)]
pub struct Turn {
    pub command: Command,
    pub step: Step<Result<(), Error>>,
}

/// Where a transaction stands.
#[derive(PartialEq, Eq, Clone, Copy, Debug, Structural)]
pub enum Phase {
    /// Bytes are still to be moved.
    Moving,
    /// The target did not acknowledge; waiting for the stop condition.
    AwaitingStop,
    /// All bytes moved.
    Done,
    /// A fault ended the transaction.
    Failed,
}

/// The slave address field for a 7-bit address: shifted left by one within
/// eight bits.
pub open spec fn address_field(adr: u8) -> int {
    (2 * adr) % 256
}

pub open spec fn stop_mode_for(hold_bus: bool) -> StopMode {
    if hold_bus {
        StopMode::Software
    } else {
        StopMode::Automatic
    }
}

/// The start condition of a transaction of `len` bytes with the target.
pub open spec fn start_of(adr: u8, direction: Direction, len: nat, stop_mode: StopMode) -> Start {
    Start { sadd: address_field(adr) as u16, direction, nbytes: len as u8, stop_mode }
}

/// The turn once the target has not acknowledged: resolve only when the stop
/// condition has been seen.
pub open spec fn nack_turn(status: BusStatus) -> Turn {
    if status.stop_complete {
        Turn { command: Command::ClearNackAndStop, step: Step::Completed(Err(Error::Nack)) }
    } else {
        Turn { command: Command::AwaitStop, step: Step::Suspended }
    }
}

/// The turn when no byte is ready: the fault flags in their order of
/// precedence, arbitration loss before bus error before not-acknowledged.
pub open spec fn fault_turn(status: BusStatus) -> Turn {
    if status.arbitration_lost {
        Turn {
            command: Command::ClearArbitrationLost,
            step: Step::Completed(Err(Error::Arbitration)),
        }
    } else if status.bus_error {
        Turn { command: Command::ClearBusError, step: Step::Completed(Err(Error::Bus)) }
    } else if status.not_acknowledged {
        nack_turn(status)
    } else {
        Turn { command: Command::Nothing, step: Step::Suspended }
    }
}

/// The phase a transaction that moved no byte is in after `turn`.
pub open spec fn phase_after(turn: Turn) -> Phase {
    if turn.step is Completed {
        Phase::Failed
    } else if turn.command == Command::AwaitStop {
        Phase::AwaitingStop
    } else {
        Phase::Moving
    }
}

/// Who has the bus after a poll of a transaction that was in flight.
pub open spec fn line_after(hold_bus: bool, step: Step<Result<(), Error>>) -> Line {
    match step {
        Step::Suspended => Line::Busy,
        Step::Completed(Ok(_)) => if hold_bus {
            Line::Held
        } else {
            Line::Free
        },
        Step::Completed(Err(_)) => Line::Free,
    }
}

/// A write transaction as a value.
pub struct WriteView {
    pub bytes: Seq<u8>,
    /// How many bytes have been handed to the controller.
    pub sent: nat,
    pub hold_bus: bool,
    pub phase: Phase,
}

impl WriteView {
    /// A write that has just been started.
    pub open spec fn begin(bytes: Seq<u8>, hold_bus: bool) -> WriteView {
        WriteView { bytes, sent: 0, hold_bus, phase: Phase::Moving }
    }

    /// Whether the transaction may still be polled.
    pub open spec fn pending(self) -> bool {
        self.phase is Moving || self.phase is AwaitingStop
    }

    pub open spec fn wf(self) -> bool {
        &&& 1 <= self.bytes.len() <= 255
        &&& self.sent <= self.bytes.len()
        &&& self.phase is Moving ==> self.sent < self.bytes.len()
        &&& self.phase is Done ==> self.sent == self.bytes.len()
    }

    /// What a poll with `status` answers.
    pub open spec fn turn(self, status: BusStatus) -> Turn {
        if self.phase is AwaitingStop {
            nack_turn(status)
        } else if status.byte_ready {
            Turn {
                command: Command::Transmit(self.bytes[self.sent as int]),
                step: if self.sent + 1 == self.bytes.len() {
                    Step::Completed(Ok(()))
                } else {
                    Step::Suspended
                },
            }
        } else {
            fault_turn(status)
        }
    }

    /// The transaction after a poll with `status`.
    pub open spec fn next(self, status: BusStatus) -> WriteView {
        if self.phase is AwaitingStop {
            WriteView { phase: phase_after(nack_turn(status)), ..self }
        } else if status.byte_ready {
            WriteView {
                sent: self.sent + 1,
                phase: if self.sent + 1 == self.bytes.len() {
                    Phase::Done
                } else {
                    Phase::Moving
                },
                ..self
            }
        } else {
            WriteView { phase: phase_after(fault_turn(status)), ..self }
        }
    }
}

/// A read transaction as a value.
pub struct ReadView {
    /// The buffer: its first `received` bytes came from the target.
    pub bytes: Seq<u8>,
    pub received: nat,
    pub phase: Phase,
}

impl ReadView {
    /// A read into `bytes` that has just been started.
    pub open spec fn begin(bytes: Seq<u8>) -> ReadView {
        ReadView { bytes, received: 0, phase: Phase::Moving }
    }

    pub open spec fn pending(self) -> bool {
        self.phase is Moving || self.phase is AwaitingStop
    }

    pub open spec fn wf(self) -> bool {
        &&& 1 <= self.bytes.len() <= 255
        &&& self.received <= self.bytes.len()
        &&& self.phase is Moving ==> self.received < self.bytes.len()
        &&& self.phase is Done ==> self.received == self.bytes.len()
    }

    /// What a poll with `status` answers.
    pub open spec fn turn(self, status: BusStatus) -> Turn {
        if self.phase is AwaitingStop {
            nack_turn(status)
        } else if status.byte_ready {
            Turn {
                command: Command::Nothing,
                step: if self.received + 1 == self.bytes.len() {
                    Step::Completed(Ok(()))
                } else {
                    Step::Suspended
                },
            }
        } else {
            fault_turn(status)
        }
    }

    /// The transaction after a poll with `status`, `data` being what the
    /// receive register held.
    pub open spec fn next(self, status: BusStatus, data: u8) -> ReadView {
        if self.phase is AwaitingStop {
            ReadView { phase: phase_after(nack_turn(status)), ..self }
        } else if status.byte_ready {
            ReadView {
                bytes: self.bytes.update(self.received as int, data),
                received: self.received + 1,
                phase: if self.received + 1 == self.bytes.len() {
                    Phase::Done
                } else {
                    Phase::Moving
                },
            }
        } else {
            ReadView { phase: phase_after(fault_turn(status)), ..self }
        }
    }
}

/// The turn for a transaction that has no byte to move: one flag at most is
/// acted on, and a not-acknowledged resolves only once the bus is at rest.
fn inspect_faults(status: BusStatus) -> (turn: Turn)
    ensures
        turn == fault_turn(status),
{
    if status.arbitration_lost {
        Turn {
            command: Command::ClearArbitrationLost,
            step: Step::Completed(Err(Error::Arbitration)),
        }
    } else if status.bus_error {
        Turn { command: Command::ClearBusError, step: Step::Completed(Err(Error::Bus)) }
    } else if status.not_acknowledged {
        await_stop(status)
    } else {
        Turn { command: Command::Nothing, step: Step::Suspended }
    }
}

/// The turn after a not-acknowledged, from the stop flag alone.
fn await_stop(status: BusStatus) -> (turn: Turn)
    ensures
        turn == nack_turn(status),
{
    if status.stop_complete {
        Turn { command: Command::ClearNackAndStop, step: Step::Completed(Err(Error::Nack)) }
    } else {
        Turn { command: Command::AwaitStop, step: Step::Suspended }
    }
}

/// An I2C controller used without interrupts: a poll moves one byte when the
/// controller is ready, and the controller stretches the clock while the
/// task is away.
///
/// The handle owns the controller `B` for the caller to reach, the address
/// of the one target it talks to, and the state of the bus.
pub struct I2cNoIrq<B> {
    i2c: B,
    adr: u8,
    line: Line,
}

impl<B> I2cNoIrq<B> {
    /// The address of the target.
    pub closed spec fn address(&self) -> u8 {
        self.adr
    }

    /// Who has the bus.
    pub closed spec fn line(&self) -> Line {
        self.line
    }

    /// The controller the handle was built with.
    pub closed spec fn bus_view(&self) -> B {
        self.i2c
    }

    /// Takes over an initialised controller to talk to the target at `adr`.
    pub fn new(i2c: B, adr: u8) -> (handle: Self)
        ensures
            handle.address() == adr,
            handle.line() == Line::Free,
            handle.bus_view() == i2c,
    {
        Self { i2c, adr, line: Line::Free }
    }

    /// The controller, for the caller to sample and to command.
    pub fn bus_mut(&mut self) -> (bus: &mut B)
        ensures
            *bus == old(self).bus_view(),
            final(self).bus_view() == *final(bus),
            final(self).address() == old(self).address(),
            final(self).line() == old(self).line(),
    {
        &mut self.i2c
    }

    /// Whether a transaction may be started: none is in flight.
    pub fn is_idle(&self) -> (idle: bool)
        ensures
            idle == !(self.line() is Busy),
    {
        match self.line {
            Line::Busy => false,
            _ => true,
        }
    }

    /// Whether the bus is held after a write that did not stop.
    pub fn is_held(&self) -> (held: bool)
        ensures
            held == (self.line() is Held),
    {
        match self.line {
            Line::Held => true,
            _ => false,
        }
    }

    fn start(&self, direction: Direction, nbytes: u8, stop_mode: StopMode) -> (start: Start)
        ensures
            start == start_of(self.address(), direction, nbytes as nat, stop_mode),
    {
        let sadd: u16 = (self.adr as u16 * 2) % 256;
        Start { sadd, direction, nbytes, stop_mode }
    }

    /// Opens a read of `buffer.len()` bytes with automatic stop. Returns the
    /// start condition to issue and the transaction to poll after that.
    pub fn read(&mut self, buffer: Vec<u8>) -> (opened: (Start, AsyncI2c))
        requires
            !(old(self).line() is Busy),
            1 <= buffer.len() <= 255,
        ensures
            opened.0 == start_of(
                old(self).address(),
                Direction::Read,
                buffer.len() as nat,
                StopMode::Automatic,
            ),
            opened.1@ == ReadView::begin(buffer@),
            opened.1@.wf(),
            final(self).line() == Line::Busy,
            final(self).address() == old(self).address(),
            final(self).bus_view() == old(self).bus_view(),
    {
        let start = self.start(Direction::Read, buffer.len() as u8, StopMode::Automatic);
        self.line = Line::Busy;
        (start, AsyncI2c { buf: buffer, cnt: 0, phase: Phase::Moving })
    }

    /// Opens a write of `buffer`. With `hold_bus` no stop condition ends it,
    /// so that a read can follow on the same bus ownership; without, the
    /// controller stops by itself. Returns the start condition to issue and
    /// the transaction to poll after that.
    pub fn write(&mut self, buffer: &[u8], hold_bus: bool) -> (opened: (Start, AsyncI2cWrite))
        requires
            !(old(self).line() is Busy),
            1 <= buffer.len() <= 255,
        ensures
            opened.0 == start_of(
                old(self).address(),
                Direction::Write,
                buffer.len() as nat,
                stop_mode_for(hold_bus),
            ),
            opened.1@ == WriteView::begin(buffer@, hold_bus),
            opened.1@.wf(),
            final(self).line() == Line::Busy,
            final(self).address() == old(self).address(),
            final(self).bus_view() == old(self).bus_view(),
    {
        let stop_mode = if hold_bus {
            StopMode::Software
        } else {
            StopMode::Automatic
        };
        let start = self.start(Direction::Write, buffer.len() as u8, stop_mode);
        self.line = Line::Busy;
        let buf = slice_to_vec(buffer);
        (start, AsyncI2cWrite { buf, cnt: 0, hold_bus, phase: Phase::Moving })
    }
}

/// A write transaction in flight.
pub struct AsyncI2cWrite {
    buf: Vec<u8>,
    cnt: u8,
    hold_bus: bool,
    phase: Phase,
}

impl View for AsyncI2cWrite {
    type V = WriteView;

    closed spec fn view(&self) -> WriteView {
        WriteView {
            bytes: self.buf@,
            sent: self.cnt as nat,
            hold_bus: self.hold_bus,
            phase: self.phase,
        }
    }
}

impl AsyncI2cWrite {
    /// Whether the transaction is still to be polled.
    pub fn is_pending(&self) -> (pending: bool)
        ensures
            pending == self@.pending(),
    {
        match self.phase {
            Phase::Moving => true,
            Phase::AwaitingStop => true,
            _ => false,
        }
    }

    /// One poll with the status just sampled.
    ///
    /// When the controller wants a byte, the next one is handed over and the
    /// write is done with the last. Otherwise a fault resolves the write, its
    /// latch to be cleared; a not-acknowledged does so only in a poll that
    /// sees the stop condition, and until then asks for the status again.
    pub fn poll<B>(&mut self, i2c: &mut I2cNoIrq<B>, status: BusStatus) -> (turn: Turn)
        requires
            old(self)@.wf(),
            old(self)@.pending(),
            old(i2c).line() is Busy,
        ensures
            turn == old(self)@.turn(status),
            final(self)@ == old(self)@.next(status),
            final(self)@.wf(),
            final(i2c).line() == line_after(old(self)@.hold_bus, turn.step),
            final(i2c).address() == old(i2c).address(),
            final(i2c).bus_view() == old(i2c).bus_view(),
            turn.step == Step::Completed(Err::<(), Error>(Error::Nack)) ==> status.stop_complete,
    {
        match self.phase {
            Phase::AwaitingStop => {
                let turn = await_stop(status);
                if status.stop_complete {
                    self.phase = Phase::Failed;
                    i2c.line = Line::Free;
                }
                turn
            },
            _ => {
                if status.byte_ready {
                    let byte = self.buf[self.cnt as usize];
                    let last = self.cnt as usize + 1 == self.buf.len();
                    if last {
                        self.phase = Phase::Done;
                        i2c.line = if self.hold_bus {
                            Line::Held
                        } else {
                            Line::Free
                        };
                    }
                    self.cnt = self.cnt + 1;
                    Turn {
                        command: Command::Transmit(byte),
                        step: if last {
                            Step::Completed(Ok(()))
                        } else {
                            Step::Suspended
                        },
                    }
                } else {
                    let turn = inspect_faults(status);
                    match turn.command {
                        Command::Nothing => {},
                        Command::AwaitStop => {
                            self.phase = Phase::AwaitingStop;
                        },
                        _ => {
                            self.phase = Phase::Failed;
                            i2c.line = Line::Free;
                        },
                    }
                    turn
                }
            },
        }
    }
}

/// A read transaction in flight.
pub struct AsyncI2c {
    buf: Vec<u8>,
    cnt: u8,
    phase: Phase,
}

impl View for AsyncI2c {
    type V = ReadView;

    closed spec fn view(&self) -> ReadView {
        ReadView { bytes: self.buf@, received: self.cnt as nat, phase: self.phase }
    }
}

impl AsyncI2c {
    /// Whether the transaction is still to be polled.
    pub fn is_pending(&self) -> (pending: bool)
        ensures
            pending == self@.pending(),
    {
        match self.phase {
            Phase::Moving => true,
            Phase::AwaitingStop => true,
            _ => false,
        }
    }

    /// The buffer as it stands: what was received so far, then what the
    /// caller had put there.
    pub fn buffer(&self) -> (bytes: &Vec<u8>)
        ensures
            bytes@ == self@.bytes,
    {
        &self.buf
    }

    /// Gives the buffer back.
    pub fn into_buffer(self) -> (bytes: Vec<u8>)
        ensures
            bytes@ == self@.bytes,
    {
        self.buf
    }

    /// One poll with the status just sampled; `data` is what the receive
    /// register held and counts only when `status.byte_ready`.
    ///
    /// A ready byte is stored at the cursor and the read is done with the
    /// last. Faults are handled as in a write.
    pub fn poll<B>(&mut self, i2c: &mut I2cNoIrq<B>, status: BusStatus, data: u8) -> (turn: Turn)
        requires
            old(self)@.wf(),
            old(self)@.pending(),
            old(i2c).line() is Busy,
        ensures
            turn == old(self)@.turn(status),
            final(self)@ == old(self)@.next(status, data),
            final(self)@.wf(),
            final(i2c).line() == line_after(false, turn.step),
            final(i2c).address() == old(i2c).address(),
            final(i2c).bus_view() == old(i2c).bus_view(),
            turn.step == Step::Completed(Err::<(), Error>(Error::Nack)) ==> status.stop_complete,
    {
        match self.phase {
            Phase::AwaitingStop => {
                let turn = await_stop(status);
                if status.stop_complete {
                    self.phase = Phase::Failed;
                    i2c.line = Line::Free;
                }
                turn
            },
            _ => {
                if status.byte_ready {
                    let last = self.cnt as usize + 1 == self.buf.len();
                    self.buf.set(self.cnt as usize, data);
                    if last {
                        self.phase = Phase::Done;
                        i2c.line = Line::Free;
                    }
                    self.cnt = self.cnt + 1;
                    Turn {
                        command: Command::Nothing,
                        step: if last {
                            Step::Completed(Ok(()))
                        } else {
                            Step::Suspended
                        },
                    }
                } else {
                    let turn = inspect_faults(status);
                    match turn.command {
                        Command::Nothing => {},
                        Command::AwaitStop => {
                            self.phase = Phase::AwaitingStop;
                        },
                        _ => {
                            self.phase = Phase::Failed;
                            i2c.line = Line::Free;
                        },
                    }
                    turn
                }
            },
        }
    }
}

/// Whether every status of the sequence has a byte ready.
pub open spec fn all_ready(statuses: Seq<BusStatus>) -> bool {
    forall|i: int| 0 <= i < statuses.len() ==> (#[trigger] statuses[i]).byte_ready
}

/// Whether no status of the sequence has seen the stop condition.
pub open spec fn none_at_rest(statuses: Seq<BusStatus>) -> bool {
    forall|i: int| 0 <= i < statuses.len() ==> !(#[trigger] statuses[i]).stop_complete
}

/// A write after one poll with each of `statuses` in turn, up to the poll
/// that resolves it.
pub open spec fn write_run(w: WriteView, statuses: Seq<BusStatus>) -> WriteView
    decreases statuses.len(),
{
    if statuses.len() == 0 || !w.pending() {
        w
    } else {
        write_run(w.next(statuses[0]), statuses.drop_first())
    }
}

/// The commands that the polls of `write_run` answer, in order.
pub open spec fn write_commands(w: WriteView, statuses: Seq<BusStatus>) -> Seq<Command>
    decreases statuses.len(),
{
    if statuses.len() == 0 || !w.pending() {
        Seq::empty()
    } else {
        seq![w.turn(statuses[0]).command] + write_commands(
            w.next(statuses[0]),
            statuses.drop_first(),
        )
    }
}

/// A read after one poll with each of `statuses` in turn, the receive
/// register holding `data[i]` at poll `i`, up to the poll that resolves it.
pub open spec fn read_run(r: ReadView, statuses: Seq<BusStatus>, data: Seq<u8>) -> ReadView
    recommends
        statuses.len() == data.len(),
    decreases statuses.len(),
{
    if statuses.len() == 0 || !r.pending() {
        r
    } else {
        read_run(r.next(statuses[0], data[0]), statuses.drop_first(), data.drop_first())
    }
}

/// A not-acknowledged resolves a transaction only in a poll that sees the
/// stop condition, and that poll has both latches cleared. Until then the
/// poll suspends, asks for the status again and leaves the transaction as
/// it is.
pub proof fn lemma_nack_resolves_at_rest(w: WriteView, status: BusStatus)
    requires
        w.wf(),
        w.pending(),
    ensures
        w.turn(status).step == Step::Completed(Err::<(), Error>(Error::Nack)) ==> {
            &&& status.stop_complete
            &&& w.turn(status).command == Command::ClearNackAndStop
            &&& w.next(status).phase is Failed
        },
        w.phase is AwaitingStop && !status.stop_complete ==> {
            &&& w.turn(status).step is Suspended
            &&& w.turn(status).command == Command::AwaitStop
            &&& w.next(status) == w
        },
        w.phase is AwaitingStop && status.stop_complete ==> w.turn(status).step == Step::Completed(
            Err::<(), Error>(Error::Nack),
        ),
{
}

/// However often a write that waits for the stop condition is polled, it
/// stays as it is while no poll sees that condition.
pub proof fn lemma_nack_waits_for_stop(w: WriteView, statuses: Seq<BusStatus>)
    requires
        w.phase is AwaitingStop,
        none_at_rest(statuses),
    ensures
        write_run(w, statuses) == w,
        write_commands(w, statuses) == Seq::new(statuses.len(), |i: int| Command::AwaitStop),
    decreases statuses.len(),
{
    if statuses.len() > 0 {
        let rest = statuses.drop_first();
        assert(!statuses[0].stop_complete);
        assert(w.next(statuses[0]) == w);
        assert forall|i: int| 0 <= i < rest.len() implies !(#[trigger] rest[i]).stop_complete by {
            assert(rest[i] == statuses[i + 1]);
        }
        lemma_nack_waits_for_stop(w, rest);
        assert(write_commands(w, statuses) =~= Seq::new(
            statuses.len(),
            |i: int| Command::AwaitStop,
        ));
    } else {
        assert(write_commands(w, statuses) =~= Seq::new(
            statuses.len(),
            |i: int| Command::AwaitStop,
        ));
    }
}

/// Polled only when the controller wants a byte, a write hands over each of
/// its remaining bytes once and in order, and is done with the last: after
/// exactly as many polls as bytes remained.
pub proof fn lemma_write_moves_every_byte(w: WriteView, statuses: Seq<BusStatus>)
    requires
        w.wf(),
        w.phase is Moving,
        all_ready(statuses),
        statuses.len() == w.bytes.len() - w.sent,
    ensures
        write_run(w, statuses) == (WriteView { sent: w.bytes.len(), phase: Phase::Done, ..w }),
        write_commands(w, statuses) == Seq::new(
            statuses.len(),
            |k: int| Command::Transmit(w.bytes[w.sent + k]),
        ),
        forall|k: int|
            0 <= k < statuses.len() ==> (#[trigger] write_run(w, statuses.take(k))).pending(),
    decreases statuses.len(),
{
    let rest = statuses.drop_first();
    let n = w.next(statuses[0]);
    assert(statuses[0].byte_ready);
    let expected = Seq::new(statuses.len(), |k: int| Command::Transmit(w.bytes[w.sent + k]));
    if n.phase is Done {
        assert(rest.len() == 0);
        assert(write_commands(n, rest) =~= Seq::empty());
        assert(write_commands(w, statuses) =~= expected);
    } else {
        assert forall|i: int| 0 <= i < rest.len() implies (#[trigger] rest[i]).byte_ready by {
            assert(rest[i] == statuses[i + 1]);
        }
        lemma_write_moves_every_byte(n, rest);
        assert(write_commands(w, statuses) =~= expected);
        assert forall|k: int| 0 <= k < statuses.len() implies (#[trigger] write_run(
            w,
            statuses.take(k),
        )).pending() by {
            if k > 0 {
                assert(statuses.take(k).drop_first() =~= rest.take(k - 1));
                assert(statuses.take(k)[0] == statuses[0]);
                assert(write_run(n, rest.take(k - 1)).pending());
            }
        }
    }
}

/// Polled only when a byte has arrived, a read stores each byte at the next
/// place of its buffer and is done with the last: after exactly as many
/// polls as places remained, the buffer holds what was there before the
/// cursor and then the bytes received, in order.
pub proof fn lemma_read_stores_every_byte(r: ReadView, statuses: Seq<BusStatus>, data: Seq<u8>)
    requires
        r.wf(),
        r.phase is Moving,
        all_ready(statuses),
        statuses.len() == r.bytes.len() - r.received,
        data.len() == statuses.len(),
    ensures
        read_run(r, statuses, data) == (ReadView {
            bytes: r.bytes.take(r.received as int) + data,
            received: r.bytes.len(),
            phase: Phase::Done,
        }),
    decreases statuses.len(),
{
    let rest = statuses.drop_first();
    let n = r.next(statuses[0], data[0]);
    assert(statuses[0].byte_ready);
    if n.phase is Done {
        assert(rest.len() == 0);
        assert(n.bytes =~= r.bytes.take(r.received as int) + data);
    } else {
        assert forall|i: int| 0 <= i < rest.len() implies (#[trigger] rest[i]).byte_ready by {
            assert(rest[i] == statuses[i + 1]);
        }
        lemma_read_stores_every_byte(n, rest, data.drop_first());
        assert(n.bytes.take(n.received as int) + data.drop_first() =~= r.bytes.take(
            r.received as int,
        ) + data);
    }
}

/// A write that holds the bus, and the read that follows it.
///
/// The write issues the one start condition of its call, and that start
/// selects no stop at the end. No poll of it frees the bus unless it fails,
/// and the poll that completes it leaves the bus held. The read then issues
/// the one start condition of its call on a bus that was never released,
/// and stops by itself.
pub proof fn lemma_hold_bus_write_then_read(adr: u8, w: WriteView, status: BusStatus, n: nat)
    requires
        w.wf(),
        w.pending(),
        w.hold_bus,
    ensures
        start_of(adr, Direction::Write, w.bytes.len(), stop_mode_for(w.hold_bus)).stop_mode
            == StopMode::Software,
        !(w.turn(status).step matches Step::Completed(Err(_))) ==> line_after(
            w.hold_bus,
            w.turn(status).step,
        ) != Line::Free,
        w.turn(status).step == Step::Completed(Ok::<(), Error>(())) ==> line_after(
            w.hold_bus,
            w.turn(status).step,
        ) == Line::Held,
        start_of(adr, Direction::Read, n, StopMode::Automatic).direction == Direction::Read,
        start_of(adr, Direction::Read, n, StopMode::Automatic).stop_mode == StopMode::Automatic,
        line_after(false, Step::Completed(Ok::<(), Error>(()))) == Line::Free,
{
}

} // verus!
