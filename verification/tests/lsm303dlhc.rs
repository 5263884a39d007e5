use stm32f3xx_hal::i2c::Error;
use wonderos::lsm303dlhc::i2c_no_irq::{
    AsyncI2c, AsyncI2cWrite, BusStatus, Command, Direction, I2cNoIrq, Start, StopMode,
};
use wonderos::lsm303dlhc::{
    GetOrientation, Lsm303Error, Lsm303dlhc, Setup, ACCEL_ADDR, MAGNETO_ADDR,
};
use wonderos::step::Step;

const QUIET: BusStatus = BusStatus {
    byte_ready: false,
    arbitration_lost: false,
    bus_error: false,
    not_acknowledged: false,
    stop_complete: false,
};

const READY: BusStatus = BusStatus {
    byte_ready: true,
    ..QUIET
};

/// Polls a write to its end against a controller that is always ready.
/// Returns how it ended and what was transmitted.
fn send(sensor: &mut Lsm303dlhc<()>, write: &mut AsyncI2cWrite) -> (Result<(), Error>, Vec<u8>) {
    let mut transmitted = Vec::new();
    loop {
        let turn = write.poll(sensor.i2c_mut(), READY);
        if let Command::Transmit(byte) = turn.command {
            transmitted.push(byte);
        }
        if let Step::Completed(ended) = turn.step {
            return (ended, transmitted);
        }
    }
}

/// Polls a read to its end against a controller that delivers `data`.
fn receive(sensor: &mut Lsm303dlhc<()>, read: &mut AsyncI2c, data: &[u8]) -> Result<(), Error> {
    for byte in data {
        if let Step::Completed(ended) = read.poll(sensor.i2c_mut(), READY, *byte).step {
            return ended;
        }
    }
    panic!("the read wanted more bytes");
}

/// A whole reading against a sensor whose output registers hold `registers`.
fn orientation(registers: [u8; 6]) -> Result<(i16, i16, i16), Lsm303Error> {
    let mut sensor = Lsm303dlhc::new(I2cNoIrq::new((), MAGNETO_ADDR));
    let (start, mut write) = match sensor.get_orientation() {
        GetOrientation::Pointer(start, write) => (start, write),
        _ => panic!("a reading begins with the register pointer"),
    };
    assert_eq!(
        start,
        Start {
            sadd: 0x3c,
            direction: Direction::Write,
            nbytes: 1,
            stop_mode: StopMode::Software,
        }
    );
    let (ended, transmitted) = send(&mut sensor, &mut write);
    assert_eq!(transmitted, vec![0x03]);
    assert!(sensor.i2c_mut().is_held());

    let (start, mut read) = match GetOrientation::Pointer(start, write).advance(&mut sensor, ended)
    {
        GetOrientation::Data(start, read) => (start, read),
        _ => panic!("the read follows the register pointer"),
    };
    assert_eq!(
        start,
        Start {
            sadd: 0x3c,
            direction: Direction::Read,
            nbytes: 6,
            stop_mode: StopMode::Automatic,
        }
    );
    assert_eq!(read.buffer(), &vec![0u8; 6]);
    let ended = receive(&mut sensor, &mut read, &registers);
    assert!(sensor.i2c_mut().is_idle());
    assert!(!sensor.i2c_mut().is_held());

    match GetOrientation::Data(start, read).advance(&mut sensor, ended) {
        GetOrientation::Resolved(reading) => reading,
        _ => panic!("the reading is resolved after the read"),
    }
}

#[test]
fn both_devices_answer_at_the_same_address() {
    assert_eq!(MAGNETO_ADDR, 0x1e);
    assert_eq!(ACCEL_ADDR, 0x1e);
}

#[test]
fn setup_writes_the_mode_and_then_the_data_rate() {
    let mut sensor = Lsm303dlhc::new(I2cNoIrq::new((), MAGNETO_ADDR));
    let (start, mut write) = match sensor.setup() {
        Setup::Mode(start, write) => (start, write),
        _ => panic!("the setup begins with the mode register"),
    };
    let automatic = Start {
        sadd: 0x3c,
        direction: Direction::Write,
        nbytes: 2,
        stop_mode: StopMode::Automatic,
    };
    assert_eq!(start, automatic);
    let (ended, transmitted) = send(&mut sensor, &mut write);
    assert_eq!(transmitted, vec![0x02, 0x00]);
    assert!(!sensor.i2c_mut().is_held());

    let (start, mut write) = match Setup::Mode(start, write).advance(&mut sensor, ended) {
        Setup::Rate(start, write) => (start, write),
        _ => panic!("the data rate follows the mode"),
    };
    assert_eq!(start, automatic);
    let (ended, transmitted) = send(&mut sensor, &mut write);
    assert_eq!(transmitted, vec![0x00, 0x08]);

    let stage = Setup::Rate(start, write).advance(&mut sensor, ended);
    assert!(matches!(stage, Setup::Resolved(Ok(()))));
    assert!(matches!(
        stage.advance(&mut sensor, Err(Error::Bus)),
        Setup::Resolved(Ok(()))
    ));
    assert!(sensor.i2c_mut().is_idle());
}

#[test]
fn setup_ends_with_the_fault_of_its_first_write() {
    let mut sensor = Lsm303dlhc::new(I2cNoIrq::new((), MAGNETO_ADDR));
    let (start, mut write) = match sensor.setup() {
        Setup::Mode(start, write) => (start, write),
        _ => panic!("the setup begins with the mode register"),
    };
    let turn = write.poll(
        sensor.i2c_mut(),
        BusStatus {
            arbitration_lost: true,
            ..QUIET
        },
    );
    let ended = match turn.step {
        Step::Completed(ended) => ended,
        Step::Suspended => panic!("a lost arbitration resolves the write"),
    };
    let stage = Setup::Mode(start, write).advance(&mut sensor, ended);
    assert!(matches!(
        stage,
        Setup::Resolved(Err(Lsm303Error::Communication(Error::Arbitration)))
    ));
    assert!(sensor.i2c_mut().is_idle());
}

#[test]
fn setup_ends_with_the_fault_of_its_second_write() {
    let mut sensor = Lsm303dlhc::new(I2cNoIrq::new((), MAGNETO_ADDR));
    let (start, mut write) = match sensor.setup() {
        Setup::Mode(start, write) => (start, write),
        _ => panic!("the setup begins with the mode register"),
    };
    let (ended, _) = send(&mut sensor, &mut write);
    let (start, mut write) = match Setup::Mode(start, write).advance(&mut sensor, ended) {
        Setup::Rate(start, write) => (start, write),
        _ => panic!("the data rate follows the mode"),
    };
    let turn = write.poll(
        sensor.i2c_mut(),
        BusStatus {
            not_acknowledged: true,
            stop_complete: true,
            ..QUIET
        },
    );
    let ended = match turn.step {
        Step::Completed(ended) => ended,
        Step::Suspended => panic!("the bus is at rest"),
    };
    assert!(matches!(
        Setup::Rate(start, write).advance(&mut sensor, ended),
        Setup::Resolved(Err(Lsm303Error::Communication(Error::Nack)))
    ));
}

#[test]
fn an_orientation_is_x_z_y_on_the_wire_and_x_y_z_in_the_result() {
    let reading = orientation([0x01, 0x02, 0xff, 0xfe, 0x00, 0x07]);
    assert!(matches!(reading, Ok((258, 7, -2))));
}

#[test]
fn an_orientation_takes_negative_and_extreme_fields() {
    let reading = orientation([0x80, 0x00, 0x7f, 0xff, 0x80, 0x01]);
    assert!(matches!(reading, Ok((-32768, -32767, 32767))));
}

#[test]
fn an_x_of_ten_thousand_is_taken_and_one_more_is_refused() {
    assert!(matches!(
        orientation([0x27, 0x10, 0, 1, 0, 2]),
        Ok((10000, 2, 1))
    ));
    assert!(matches!(
        orientation([0x27, 0x11, 0, 1, 0, 2]),
        Err(Lsm303Error::General)
    ));
    assert!(matches!(
        orientation([0x7f, 0xff, 0, 0, 0, 0]),
        Err(Lsm303Error::General)
    ));
}

#[test]
fn a_fault_of_the_pointer_write_ends_the_reading() {
    let mut sensor = Lsm303dlhc::new(I2cNoIrq::new((), MAGNETO_ADDR));
    let (start, mut write) = match sensor.get_orientation() {
        GetOrientation::Pointer(start, write) => (start, write),
        _ => panic!("a reading begins with the register pointer"),
    };
    let turn = write.poll(
        sensor.i2c_mut(),
        BusStatus {
            bus_error: true,
            ..QUIET
        },
    );
    assert_eq!(turn.command, Command::ClearBusError);
    let ended = match turn.step {
        Step::Completed(ended) => ended,
        Step::Suspended => panic!("a bus error resolves the write"),
    };
    let stage = GetOrientation::Pointer(start, write).advance(&mut sensor, ended);
    assert!(matches!(
        stage,
        GetOrientation::Resolved(Err(Lsm303Error::Communication(Error::Bus)))
    ));
    assert!(!sensor.i2c_mut().is_held());
}

#[test]
fn a_fault_of_the_read_ends_the_reading() {
    let mut sensor = Lsm303dlhc::new(I2cNoIrq::new((), MAGNETO_ADDR));
    let (start, mut write) = match sensor.get_orientation() {
        GetOrientation::Pointer(start, write) => (start, write),
        _ => panic!("a reading begins with the register pointer"),
    };
    let (ended, _) = send(&mut sensor, &mut write);
    let (start, mut read) = match GetOrientation::Pointer(start, write).advance(&mut sensor, ended)
    {
        GetOrientation::Data(start, read) => (start, read),
        _ => panic!("the read follows the register pointer"),
    };
    read.poll(sensor.i2c_mut(), READY, 0x12);
    let turn = read.poll(
        sensor.i2c_mut(),
        BusStatus {
            arbitration_lost: true,
            ..QUIET
        },
        0,
    );
    let ended = match turn.step {
        Step::Completed(ended) => ended,
        Step::Suspended => panic!("a lost arbitration resolves the read"),
    };
    assert!(matches!(
        GetOrientation::Data(start, read).advance(&mut sensor, ended),
        GetOrientation::Resolved(Err(Lsm303Error::Communication(Error::Arbitration)))
    ));
}

#[test]
fn a_bus_fault_converts_into_a_communication_error() {
    assert!(matches!(
        Lsm303Error::from(Error::Nack),
        Lsm303Error::Communication(Error::Nack)
    ));
    let converted: Lsm303Error = Error::Busy.into();
    assert!(matches!(converted, Lsm303Error::Communication(Error::Busy)));
}
