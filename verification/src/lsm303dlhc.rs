//! The LSM303DLHC magnetometer behind an I2C bus that is polled, never
//! interrupt-driven.
//!
//! While the controller's data register waits for the task, the controller
//! stretches the clock, so a task that polls late slows the bus down but
//! loses nothing.

use vstd::prelude::*;

use crate::word::{be_i16, i16_from_be_bytes};
use i2c_no_irq::{
    start_of, AsyncI2c, AsyncI2cWrite, Direction, I2cNoIrq, Line, ReadView, Start, StopMode,
    WriteView,
};
use stm32f3xx_hal::i2c::Error;

pub mod i2c_no_irq;

verus! {

pub const ACCEL_ADDR: u8 = 0b0001_1110;

pub const MAGNETO_ADDR: u8 = 0b0001_1110;

/// Data rate register.
pub const CRA_REG_M: u8 = 0x00;

/// Mode register.
pub const MR_REG_M: u8 = 0x02;

/// First of the six output registers.
pub const OUT_X_H_M: u8 = 0x03;

/// Mode register value for continuous conversion.
pub const CONTINUOUS: u8 = 0b00;

/// Data rate register value for 3 Hz.
pub const RATE_3_HZ: u8 = 0b0001000;

/// The largest x reading that is taken for real.
pub const X_LIMIT: i16 = 10000;

/// How many output registers an orientation takes.
pub const OUTPUT_LEN: usize = 6;

#[derive(Debug)]
pub enum Lsm303Error {
    /// The sensor answered with a reading that cannot be right.
    General,
    /// The bus reported a fault.
    Communication(Error),
}

impl From<Error> for Lsm303Error {
    fn from(value: Error) -> (error: Self) {
        Self::Communication(value)
    }
}

impl vstd::std_specs::convert::FromSpecImpl<Error> for Lsm303Error {
    open spec fn obeys_from_spec() -> bool {
        true
    }

    open spec fn from_spec(value: Error) -> Self {
        Lsm303Error::Communication(value)
    }
}

/// The frame that sets continuous conversion.
pub open spec fn mode_frame() -> Seq<u8> {
    seq![MR_REG_M, CONTINUOUS]
}

/// The frame that sets the data rate.
pub open spec fn rate_frame() -> Seq<u8> {
    seq![CRA_REG_M, RATE_3_HZ]
}

/// The frame that points the sensor at its output registers.
pub open spec fn pointer_frame() -> Seq<u8> {
    seq![OUT_X_H_M]
}

/// The buffer an orientation is read into.
pub open spec fn output_buffer() -> Seq<u8> {
    Seq::new(OUTPUT_LEN as nat, |i: int| 0u8)
}

/// The field along x, y and z in what the six output registers held. The
/// registers come in the order x, z, y, each a big-endian pair. An x above
/// the limit is refused.
pub open spec fn orientation_of(registers: Seq<u8>) -> Result<(i16, i16, i16), Lsm303Error> {
    let x = be_i16(registers[0], registers[1]);
    let z = be_i16(registers[2], registers[3]);
    let y = be_i16(registers[4], registers[5]);
    if x > X_LIMIT {
        Err(Lsm303Error::General)
    } else {
        Ok((x as i16, y as i16, z as i16))
    }
}

/// The sensor on its bus.
pub struct Lsm303dlhc<B> {
    i2c: I2cNoIrq<B>,
}

/// Setting the sensor up, stage by stage. A stage with a transaction names
/// the start condition to issue and the transaction to poll to its end;
/// `advance` takes how it ended and gives the stage after it.
pub enum Setup {
    /// The write of the mode register.
    Mode(Start, AsyncI2cWrite),
    /// The write of the data rate register.
    Rate(Start, AsyncI2cWrite),
    Resolved(Result<(), Lsm303Error>),
}

/// Reading the orientation, stage by stage. A stage with a transaction
/// names the start condition to issue and the transaction to poll to its
/// end; `advance` takes how it ended and gives the stage after it.
pub enum GetOrientation {
    /// The write of the register pointer, which holds the bus.
    Pointer(Start, AsyncI2cWrite),
    /// The read of the six output registers.
    Data(Start, AsyncI2c),
    Resolved(Result<(i16, i16, i16), Lsm303Error>),
}

impl<B> Lsm303dlhc<B> {
    /// The bus handle of the sensor.
    pub closed spec fn bus(&self) -> I2cNoIrq<B> {
        self.i2c
    }

    pub fn new(i2c: I2cNoIrq<B>) -> (sensor: Self)
        ensures
            sensor.bus() == i2c,
    {
        Self { i2c }
    }

    /// The bus handle, for the caller to poll transactions with.
    pub fn i2c_mut(&mut self) -> (i2c: &mut I2cNoIrq<B>)
        ensures
            *i2c == old(self).bus(),
            final(self).bus() == *final(i2c),
    {
        &mut self.i2c
    }

    /// Begins the setup with the write of the mode register, which stops
    /// by itself.
    pub fn setup(&mut self) -> (stage: Setup)
        requires
            !(old(self).bus().line() is Busy),
        ensures
            stage matches Setup::Mode(start, write) && {
                &&& start == start_of(
                    old(self).bus().address(),
                    Direction::Write,
                    2,
                    StopMode::Automatic,
                )
                &&& write@ == WriteView::begin(mode_frame(), false)
                &&& write@.wf()
            },
            final(self).bus().line() == Line::Busy,
            final(self).bus().address() == old(self).bus().address(),
            final(self).bus().bus_view() == old(self).bus().bus_view(),
    {
        let frame: [u8; 2] = [MR_REG_M, CONTINUOUS];
        assert(frame@ =~= mode_frame());
        let (start, write) = self.i2c.write(frame.as_slice(), false);
        Setup::Mode(start, write)
    }

    /// Begins a reading with the write of the register pointer, which holds
    /// the bus for the read that follows.
    pub fn get_orientation(&mut self) -> (stage: GetOrientation)
        requires
            !(old(self).bus().line() is Busy),
        ensures
            stage matches GetOrientation::Pointer(start, write) && {
                &&& start == start_of(
                    old(self).bus().address(),
                    Direction::Write,
                    1,
                    StopMode::Software,
                )
                &&& write@ == WriteView::begin(pointer_frame(), true)
                &&& write@.wf()
            },
            final(self).bus().line() == Line::Busy,
            final(self).bus().address() == old(self).bus().address(),
            final(self).bus().bus_view() == old(self).bus().bus_view(),
    {
        let frame: [u8; 1] = [OUT_X_H_M];
        assert(frame@ =~= pointer_frame());
        let (start, write) = self.i2c.write(frame.as_slice(), true);
        GetOrientation::Pointer(start, write)
    }
}

impl Setup {
    /// The stage that follows, given how this stage's transaction ended. A
    /// fault ends the setup with that fault; after the mode register the
    /// data rate register is written, also with a stop of its own; after
    /// that the setup is done.
    pub fn advance<B>(self, sensor: &mut Lsm303dlhc<B>, ended: Result<(), Error>) -> (next: Setup)
        requires
            !(old(sensor).bus().line() is Busy),
        ensures
            match (self, ended) {
                (Setup::Mode(_, _), Ok(_)) => {
                    &&& next matches Setup::Rate(start, write)
                    &&& start == start_of(
                        old(sensor).bus().address(),
                        Direction::Write,
                        2,
                        StopMode::Automatic,
                    )
                    &&& write@ == WriteView::begin(rate_frame(), false)
                    &&& write@.wf()
                    &&& final(sensor).bus().line() == Line::Busy
                },
                (Setup::Rate(_, _), Ok(_)) => {
                    &&& next == Setup::Resolved(Ok(()))
                    &&& final(sensor).bus().line() == old(sensor).bus().line()
                },
                (Setup::Resolved(resolved), _) => {
                    &&& next == Setup::Resolved(resolved)
                    &&& final(sensor).bus().line() == old(sensor).bus().line()
                },
                (_, Err(fault)) => {
                    &&& next == Setup::Resolved(Err(Lsm303Error::Communication(fault)))
                    &&& final(sensor).bus().line() == old(sensor).bus().line()
                },
            },
            final(sensor).bus().address() == old(sensor).bus().address(),
            final(sensor).bus().bus_view() == old(sensor).bus().bus_view(),
    {
        match self {
            Setup::Resolved(resolved) => Setup::Resolved(resolved),
            Setup::Mode(_, _) => match ended {
                Err(fault) => Setup::Resolved(Err(Lsm303Error::from(fault))),
                Ok(_) => {
                    let frame: [u8; 2] = [CRA_REG_M, RATE_3_HZ];
                    assert(frame@ =~= rate_frame());
                    let (start, write) = sensor.i2c.write(frame.as_slice(), false);
                    Setup::Rate(start, write)
                },
            },
            Setup::Rate(_, _) => match ended {
                Err(fault) => Setup::Resolved(Err(Lsm303Error::from(fault))),
                Ok(_) => Setup::Resolved(Ok(())),
            },
        }
    }
}

/// Decodes what the six output registers held.
fn decode(registers: &Vec<u8>) -> (reading: Result<(i16, i16, i16), Lsm303Error>)
    requires
        registers.len() == OUTPUT_LEN,
    ensures
        reading == orientation_of(registers@),
{
    let x = i16_from_be_bytes(registers[0], registers[1]);
    let z = i16_from_be_bytes(registers[2], registers[3]);
    let y = i16_from_be_bytes(registers[4], registers[5]);
    if x > X_LIMIT {
        Err(Lsm303Error::General)
    } else {
        Ok((x, y, z))
    }
}

impl GetOrientation {
    /// The stage that follows, given how this stage's transaction ended. A
    /// fault ends the reading with that fault. After the register pointer
    /// the six output registers are read, on the bus that the write has
    /// kept; after the read its buffer is decoded.
    pub fn advance<B>(self, sensor: &mut Lsm303dlhc<B>, ended: Result<(), Error>) -> (next:
        GetOrientation)
        requires
            !(old(sensor).bus().line() is Busy),
            self matches GetOrientation::Data(_, read) ==> read@.bytes.len() == OUTPUT_LEN,
        ensures
            match (self, ended) {
                (GetOrientation::Pointer(_, _), Ok(_)) => {
                    &&& next matches GetOrientation::Data(start, read)
                    &&& start == start_of(
                        old(sensor).bus().address(),
                        Direction::Read,
                        OUTPUT_LEN as nat,
                        StopMode::Automatic,
                    )
                    &&& read@ == ReadView::begin(output_buffer())
                    &&& read@.wf()
                    &&& final(sensor).bus().line() == Line::Busy
                },
                (GetOrientation::Data(_, read), Ok(_)) => {
                    &&& next == GetOrientation::Resolved(orientation_of(read@.bytes))
                    &&& final(sensor).bus().line() == old(sensor).bus().line()
                },
                (GetOrientation::Resolved(resolved), _) => {
                    &&& next == GetOrientation::Resolved(resolved)
                    &&& final(sensor).bus().line() == old(sensor).bus().line()
                },
                (_, Err(fault)) => {
                    &&& next == GetOrientation::Resolved(Err(Lsm303Error::Communication(fault)))
                    &&& final(sensor).bus().line() == old(sensor).bus().line()
                },
            },
            final(sensor).bus().address() == old(sensor).bus().address(),
            final(sensor).bus().bus_view() == old(sensor).bus().bus_view(),
    {
        match self {
            GetOrientation::Resolved(resolved) => GetOrientation::Resolved(resolved),
            GetOrientation::Pointer(_, _) => match ended {
                Err(fault) => GetOrientation::Resolved(Err(Lsm303Error::from(fault))),
                Ok(_) => {
                    let buffer = vec![0u8; OUTPUT_LEN];
                    assert(buffer@ =~= output_buffer());
                    let (start, read) = sensor.i2c.read(buffer);
                    GetOrientation::Data(start, read)
                },
            },
            GetOrientation::Data(_, read) => match ended {
                Err(fault) => GetOrientation::Resolved(Err(Lsm303Error::from(fault))),
                Ok(_) => GetOrientation::Resolved(decode(read.buffer())),
            },
        }
    }
}

} // verus!
