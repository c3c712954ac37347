use py32f0xx_hal::i2c::Error;
use py32f0xx_hal::i2c_transfer::{BusAction, BusEvent, I2cTransfer};

const TXE: u32 = 1 << 7;
const RXNE: u32 = 1 << 6;
const BTF: u32 = 1 << 2;

/// Runs a transfer against a bus that answers every status read with `status`, and
/// every data read with the next byte of `incoming`.
fn drive(mut t: I2cTransfer, status: u32, incoming: &[u8]) -> (Vec<BusAction>, BusAction, Vec<u8>) {
    let mut ev = BusEvent::Proceed;
    let mut seen = Vec::new();
    let mut next_in = 0;
    for _ in 0..200 {
        let a = t.advance(ev);
        ev = match a {
            BusAction::ReadStatus => BusEvent::Status(status),
            BusAction::ReadData => {
                next_in += 1;
                BusEvent::Data(incoming[next_in - 1])
            },
            BusAction::Done | BusAction::Failed(_) => return (seen, a, t.received().clone()),
            _ => BusEvent::Proceed,
        };
        seen.push(a);
    }
    panic!("transfer did not finish");
}

#[test]
fn write_sends_bytes_in_order() {
    let (seen, end, _) = drive(I2cTransfer::write(0x50, vec![1, 2]), TXE, &[]);
    assert_eq!(end, BusAction::Done);
    assert_eq!(
        seen,
        vec![
            BusAction::SetAddress(0x50),
            BusAction::Start,
            BusAction::ReadStatus,
            BusAction::WriteData(1),
            BusAction::ReadStatus,
            BusAction::ReadStatus,
            BusAction::WriteData(2),
            BusAction::ReadStatus,
            BusAction::ReadStatus,
        ]
    );
}

#[test]
fn read_collects_bytes() {
    let (seen, end, got) = drive(I2cTransfer::read(0x3c, 3), RXNE, &[7, 8, 9]);
    assert_eq!(end, BusAction::Done);
    assert_eq!(got, vec![7, 8, 9]);
    assert_eq!(seen.iter().filter(|a| **a == BusAction::ReadData).count(), 3);
}

#[test]
fn write_read_restarts_between() {
    let (seen, end, got) = drive(I2cTransfer::write_read(0x68, vec![0x75], 1), TXE | RXNE | BTF, &[0x19]);
    assert_eq!(end, BusAction::Done);
    assert_eq!(got, vec![0x19]);
    assert_eq!(
        seen,
        vec![
            BusAction::SetAddress(0x68),
            BusAction::Start,
            BusAction::ReadStatus,
            BusAction::ReadStatus,
            BusAction::WriteData(0x75),
            BusAction::ReadStatus,
            BusAction::ReadStatus,
            BusAction::SetAddress(0x68),
            BusAction::Start,
            BusAction::ReadStatus,
            BusAction::ReadData,
            BusAction::ReadStatus,
        ]
    );
}

#[test]
fn nack_fails_transfer() {
    let (_, end, got) = drive(I2cTransfer::write(0x50, vec![1]), TXE | (1 << 10), &[]);
    assert_eq!(end, BusAction::Failed(Error::NACK));
    assert!(got.is_empty());
    let (_, end, _) = drive(I2cTransfer::read(0x50, 2), RXNE | (1 << 8), &[1, 2]);
    assert_eq!(end, BusAction::Failed(Error::BUS));
}

#[test]
fn waits_while_flag_clear() {
    let mut t = I2cTransfer::read(0x10, 1);
    assert_eq!(t.advance(BusEvent::Proceed), BusAction::SetAddress(0x10));
    assert_eq!(t.advance(BusEvent::Proceed), BusAction::Start);
    assert_eq!(t.advance(BusEvent::Proceed), BusAction::ReadStatus);
    assert_eq!(t.advance(BusEvent::Status(0)), BusAction::ReadStatus);
    assert_eq!(t.advance(BusEvent::Proceed), BusAction::ReadStatus);
    assert_eq!(t.advance(BusEvent::Status(RXNE)), BusAction::ReadData);
    assert_eq!(t.advance(BusEvent::Data(0xaa)), BusAction::ReadStatus);
    assert_eq!(t.advance(BusEvent::Status(0)), BusAction::Done);
    assert_eq!(t.advance(BusEvent::Status(0xffff)), BusAction::Done);
    assert_eq!(t.received(), &vec![0xaa]);
}

#[test]
fn empty_write_only_checks() {
    let (seen, end, _) = drive(I2cTransfer::write(0x50, vec![]), 0, &[]);
    assert_eq!(end, BusAction::Done);
    assert_eq!(seen, vec![BusAction::SetAddress(0x50), BusAction::Start, BusAction::ReadStatus]);
}
