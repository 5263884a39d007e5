use wonderos::async_spi::BusRequest;
use wonderos::l3gd20::{Enable, L3gd20, ReadValues, BURST_LEN, CMD, POWER_ON, WRITE_CMD};

#[test]
fn the_commands_are_those_of_the_data_sheet() {
    // Read, auto-increment, register 0x20.
    assert_eq!(CMD, 0b1000_0000 | 0b0100_0000 | 0x20);
    assert_eq!(WRITE_CMD, 0x20);
    assert_eq!(POWER_ON, 0x0f);
    assert_eq!(BURST_LEN, 14);
}

#[test]
fn enable_selects_sends_the_power_on_frame_and_deselects() {
    let mut sensor = L3gd20::new((), ());
    let stage = sensor.enable();
    assert!(matches!(stage, Enable::Select));

    let mut transfer = match stage.advance() {
        Enable::Configure(transfer) => transfer,
        _ => panic!("the frame comes after the select"),
    };
    assert_eq!(transfer.buffer(), &vec![0x20, 0x0f]);
    let mut sent = Vec::new();
    while let Some(request) = transfer.request() {
        match request {
            BusRequest::Send(byte) => {
                sent.push(byte);
                let accepted: nb::Result<(), ()> = Ok(());
                transfer.sent(accepted);
            }
            BusRequest::Receive => {
                let received: nb::Result<u8, ()> = Ok(0xff);
                transfer.received(received);
            }
        }
    }
    assert_eq!(sent, vec![0x20, 0x0f]);
    assert_eq!(transfer.outcome(), Some(Ok(())));

    let stage = Enable::Configure(transfer).advance();
    assert!(matches!(stage, Enable::Deselect));
    let stage = stage.advance();
    assert!(matches!(stage, Enable::Done));
    assert!(matches!(stage.advance(), Enable::Done));
}

/// Runs a reading against a sensor whose burst answers with `registers`.
fn read(registers: [u8; 14]) -> (i16, i16, i16, i8) {
    let mut sensor = L3gd20::new((), ());
    let stage = sensor.read_values();
    assert!(matches!(stage, ReadValues::Select));

    let stage = stage.advance();
    match &stage {
        ReadValues::Command(write) => assert_eq!(write.payload(), 224),
        _ => panic!("the command comes after the select"),
    }
    let stage = stage.advance();
    assert!(matches!(stage, ReadValues::Flush(_)));

    let mut transfer = match stage.advance() {
        ReadValues::Registers(transfer) => transfer,
        _ => panic!("the burst comes after the flush"),
    };
    assert_eq!(transfer.buffer(), &vec![0u8; 14]);
    let mut at = 0;
    while let Some(request) = transfer.request() {
        match request {
            BusRequest::Send(byte) => {
                assert_eq!(byte, 0);
                let accepted: nb::Result<(), ()> = Ok(());
                transfer.sent(accepted);
            }
            BusRequest::Receive => {
                let received: nb::Result<u8, ()> = Ok(registers[at]);
                transfer.received(received);
                at += 1;
            }
        }
    }
    assert_eq!(at, 14);

    let stage = ReadValues::Registers(transfer).advance();
    let held = match &stage {
        ReadValues::Deselect(values) => *values,
        _ => panic!("the deselect comes after the burst"),
    };
    match stage.advance() {
        ReadValues::Values(values) => {
            assert_eq!(values, held);
            values
        }
        _ => panic!("the values come after the deselect"),
    }
}

#[test]
fn a_reading_decodes_little_endian_rates_and_the_temperature() {
    let mut registers = [0u8; 14];
    registers[6] = 0x19;
    registers[8] = 0x34;
    registers[9] = 0x12;
    registers[10] = 0xfe;
    registers[11] = 0xff;
    registers[12] = 0x00;
    registers[13] = 0x80;
    assert_eq!(read(registers), (0x1234, -2, -32768, 25));
}

#[test]
fn a_reading_takes_nothing_from_the_other_registers() {
    let mut registers = [0xa5u8; 14];
    registers[6] = 0xf6;
    registers[8] = 0x20;
    registers[9] = 0x4e;
    registers[10] = 0;
    registers[11] = 0;
    registers[12] = 0xff;
    registers[13] = 0x7f;
    assert_eq!(read(registers), (20000, 0, 32767, -10));
}
