//! The L3GD20 gyroscope behind a full-duplex byte bus and a chip-select
//! line.

use vstd::prelude::*;

use crate::async_spi::{
    async_read, async_transfer, async_write, AsynSpiRead, AsynSpiWrite, AsyncTransfer,
    TransferView,
};
use crate::word::{be_i16, i16_from_be_bytes, i8_from_byte, signed_byte};

verus! {

/// Burst read from the first control register on: read, address
/// auto-increment, register `0x20`.
pub const CMD: u8 = 224;

/// Single write to the first control register.
pub const WRITE_CMD: u8 = 0x20;

/// The first control register's value for normal mode with all three axes
/// on.
pub const POWER_ON: u8 = 0b0000_1111;

/// How many registers a burst read covers.
pub const BURST_LEN: usize = 14;

/// The frame that switches the sensor on.
pub open spec fn enable_frame() -> Seq<u8> {
    seq![WRITE_CMD, POWER_ON]
}

/// The frame of a burst read: one filler byte per register.
pub open spec fn burst_frame() -> Seq<u8> {
    Seq::new(BURST_LEN as nat, |i: int| 0u8)
}

/// The rates about x, y and z and the temperature in what a burst read
/// received. The rates are little-endian pairs in registers 8 to 13, the
/// temperature is register 6.
pub open spec fn values_of(registers: Seq<u8>) -> (i16, i16, i16, i8) {
    (
        be_i16(registers[9], registers[8]) as i16,
        be_i16(registers[11], registers[10]) as i16,
        be_i16(registers[13], registers[12]) as i16,
        signed_byte(registers[6]) as i8,
    )
}

/// The sensor: its bus and its chip-select line, both for the caller to
/// reach.
pub struct L3gd20<T, E> {
    spi: T,
    cs: E,
}

/// Switching the sensor on, stage by stage. Each stage names what the
/// caller does next; `advance` gives the stage after it.
pub enum Enable {
    /// Drive chip select low.
    Select,
    /// Run this transfer to its end.
    Configure(AsyncTransfer),
    /// Drive chip select high.
    Deselect,
    Done,
}

/// Reading the rates and the temperature, stage by stage. Each stage names
/// what the caller does next; `advance` gives the stage after it.
pub enum ReadValues {
    /// Drive chip select low.
    Select,
    /// Run this write to its end.
    Command(AsynSpiWrite),
    /// Run this read to its end; the byte it yields is of no use.
    Flush(AsynSpiRead),
    /// Run this transfer to its end.
    Registers(AsyncTransfer),
    /// Drive chip select high.
    Deselect((i16, i16, i16, i8)),
    /// The rates about x, y and z and the temperature.
    Values((i16, i16, i16, i8)),
}

impl<T, E> L3gd20<T, E> {
    pub closed spec fn bus_view(&self) -> T {
        self.spi
    }

    pub closed spec fn select_view(&self) -> E {
        self.cs
    }

    /// Takes over the bus and the chip-select line of the sensor.
    pub fn new(spi: T, cs: E) -> (sensor: Self)
        ensures
            sensor.bus_view() == spi,
            sensor.select_view() == cs,
    {
        Self { spi, cs }
    }

    /// The bus, for the caller to make attempts on.
    pub fn spi_mut(&mut self) -> (spi: &mut T)
        ensures
            *spi == old(self).bus_view(),
            final(self).bus_view() == *final(spi),
            final(self).select_view() == old(self).select_view(),
    {
        &mut self.spi
    }

    /// The chip-select line, for the caller to drive.
    pub fn cs_mut(&mut self) -> (cs: &mut E)
        ensures
            *cs == old(self).select_view(),
            final(self).select_view() == *final(cs),
            final(self).bus_view() == old(self).bus_view(),
    {
        &mut self.cs
    }

    /// Begins switching the sensor on.
    pub fn enable(&mut self) -> (stage: Enable)
        ensures
            stage is Select,
            final(self).bus_view() == old(self).bus_view(),
            final(self).select_view() == old(self).select_view(),
    {
        Enable::Select
    }

    /// Begins a reading of the rates and the temperature.
    pub fn read_values(&mut self) -> (stage: ReadValues)
        ensures
            stage is Select,
            final(self).bus_view() == old(self).bus_view(),
            final(self).select_view() == old(self).select_view(),
    {
        ReadValues::Select
    }
}

impl Enable {
    /// The stage that follows once this stage's work is done: select, send
    /// the power-on frame, deselect.
    pub fn advance(self) -> (next: Enable)
        requires
            self matches Enable::Configure(transfer) ==> transfer@.outcome() == Some(
                Ok::<(), ()>(()),
            ),
        ensures
            match self {
                Enable::Select => next matches Enable::Configure(transfer) && transfer@
                    == TransferView::begin(enable_frame()) && transfer@.wf(),
                Enable::Configure(_) => next is Deselect,
                Enable::Deselect => next is Done,
                Enable::Done => next is Done,
            },
    {
        match self {
            Enable::Select => {
                let frame = vec![WRITE_CMD, POWER_ON];
                assert(frame@ =~= enable_frame());
                Enable::Configure(async_transfer(frame))
            },
            Enable::Configure(_) => Enable::Deselect,
            Enable::Deselect => Enable::Done,
            Enable::Done => Enable::Done,
        }
    }
}

/// Decodes what a burst read received.
fn decode(registers: &Vec<u8>) -> (values: (i16, i16, i16, i8))
    requires
        registers.len() == BURST_LEN,
    ensures
        values == values_of(registers@),
{
    let x = i16_from_be_bytes(registers[9], registers[8]);
    let y = i16_from_be_bytes(registers[11], registers[10]);
    let z = i16_from_be_bytes(registers[13], registers[12]);
    (x, y, z, i8_from_byte(registers[6]))
}

impl ReadValues {
    /// The stage that follows once this stage's work is done with success:
    /// select, send the burst command, read and drop the byte that came
    /// back with it, exchange one filler byte per register, deselect, and
    /// decode what the exchange received.
    pub fn advance(self) -> (next: ReadValues)
        requires
            self matches ReadValues::Registers(transfer) ==> {
                &&& transfer@.outcome() == Some(Ok::<(), ()>(()))
                &&& transfer@.buffer.len() == BURST_LEN
            },
        ensures
            match self {
                ReadValues::Select => next matches ReadValues::Command(write) && write.byte()
                    == CMD,
                ReadValues::Command(_) => next is Flush,
                ReadValues::Flush(_) => next matches ReadValues::Registers(transfer) && transfer@
                    == TransferView::begin(burst_frame()) && transfer@.wf(),
                ReadValues::Registers(transfer) => next == ReadValues::Deselect(
                    values_of(transfer@.buffer),
                ),
                ReadValues::Deselect(values) => next == ReadValues::Values(values),
                ReadValues::Values(values) => next == ReadValues::Values(values),
            },
    {
        match self {
            ReadValues::Select => ReadValues::Command(async_write(CMD)),
            ReadValues::Command(_) => ReadValues::Flush(async_read()),
            ReadValues::Flush(_) => {
                let frame = vec![0u8; BURST_LEN];
                assert(frame@ =~= burst_frame());
                ReadValues::Registers(async_transfer(frame))
            },
            ReadValues::Registers(transfer) => ReadValues::Deselect(decode(transfer.buffer())),
            ReadValues::Deselect(values) => ReadValues::Values(values),
            ReadValues::Values(values) => ReadValues::Values(values),
        }
    }
}

} // verus!
