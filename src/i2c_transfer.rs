//! I2C master transfers as a state machine.
//!
//! The caller owns the bus peripheral. It asks the transfer what to do (set the address,
//! send a START, read the status word, write or read the data register), does it, and
//! reports what it read, until the transfer is done or has failed.
use vstd::prelude::*;

use crate::i2c::{sr1_error, Error, SR1_BTF, SR1_RXNE, SR1_TXE};

verus! {

/// The three transfers of a bus master.
#[derive(Clone, Copy, Debug, PartialEq, Eq, Structural)]
pub enum TransferKind {
    /// Send bytes.
    Write,
    /// Receive bytes.
    Read,
    /// Send bytes, then a repeated START, then receive bytes.
    WriteRead,
}

/// Where a transfer stands: the action it last asked for.
#[derive(Clone, Copy, Debug, PartialEq, Eq, Structural)]
pub enum Phase {
    /// Nothing asked yet.
    Begin,
    /// Setting the address, before the first (1) or the repeated (2) START.
    SetAddr(u8),
    /// Sending the first (1) or the repeated (2) START.
    Start(u8),
    /// Waiting for the transmit register to empty after the first START.
    WaitTxe,
    /// Waiting to send byte `i`.
    SendWait(usize),
    /// Writing byte `i`.
    SendData(usize),
    /// Checking the status after writing byte `i`.
    SendCheck(usize),
    /// Waiting for the last byte sent to finish.
    WaitBtf,
    /// Waiting for byte `j` to arrive.
    RecvWait(usize),
    /// Reading byte `j`.
    RecvData(usize),
    /// The closing status check.
    FinalCheck,
    Done,
    Failed(Error),
}

/// What the caller is asked to do next.
#[derive(Clone, Copy, Debug, PartialEq, Eq, Structural)]
pub enum BusAction {
    /// Set the own-address field to this address.
    SetAddress(u8),
    /// Send a START condition.
    Start,
    /// Read status register 1 and report it.
    ReadStatus,
    /// Write this byte to the data register.
    WriteData(u8),
    /// Read the data register and report the byte.
    ReadData,
    /// The transfer is complete.
    Done,
    /// The transfer failed; clear the error's status flags.
    Failed(Error),
}

/// What the caller reports about the action it was last asked to do.
#[derive(Clone, Copy, Debug, PartialEq, Eq, Structural)]
pub enum BusEvent {
    /// Nothing to report: the first call, or an action that returns nothing.
    Proceed,
    /// The status word read.
    Status(u32),
    /// The byte read from the data register.
    Data(u8),
}

/// A transfer as plain values.
pub struct TransferView {
    pub kind: TransferKind,
    pub addr: u8,
    /// Bytes to send.
    pub out: Seq<u8>,
    /// Number of bytes to receive.
    pub want: nat,
    /// Bytes received so far.
    pub inbox: Seq<u8>,
    pub phase: Phase,
}

/// The phase that sends byte `i`, or what follows the last byte.
pub open spec fn send_from(t: TransferView, i: int) -> Phase {
    if i < t.out.len() {
        Phase::SendWait(i as usize)
    } else if t.kind is WriteRead {
        Phase::WaitBtf
    } else {
        Phase::FinalCheck
    }
}

/// The phase that receives byte `j`, or the closing check.
pub open spec fn recv_from(t: TransferView, j: int) -> Phase {
    if j < t.want {
        Phase::RecvWait(j as usize)
    } else {
        Phase::FinalCheck
    }
}

/// The phase after a status word `sr1` while waiting for `flag`: failure on an error flag,
/// `ready` once the flag is set, else the same wait.
pub open spec fn on_status(sr1: u32, flag: u32, ready: Phase, wait: Phase) -> Phase {
    match sr1_error(sr1) {
        Some(e) => Phase::Failed(e),
        None => if sr1 & flag != 0 {
            ready
        } else {
            wait
        },
    }
}

/// The next phase on the caller's report `ev`. A report that does not answer the phase's
/// question leaves the phase as it is.
pub open spec fn next_phase(t: TransferView, ev: BusEvent) -> Phase {
    match t.phase {
        Phase::Begin => Phase::SetAddr(1),
        Phase::SetAddr(n) => Phase::Start(n),
        Phase::Start(n) => if n == 2 {
            recv_from(t, 0)
        } else {
            match t.kind {
                TransferKind::WriteRead => Phase::WaitTxe,
                TransferKind::Write => send_from(t, 0),
                TransferKind::Read => recv_from(t, 0),
            }
        },
        Phase::WaitTxe => match ev {
            BusEvent::Status(sr) => on_status(sr, SR1_TXE, send_from(t, 0), Phase::WaitTxe),
            _ => t.phase,
        },
        Phase::SendWait(i) => match ev {
            BusEvent::Status(sr) => on_status(sr, SR1_TXE, Phase::SendData(i), t.phase),
            _ => t.phase,
        },
        Phase::SendData(i) => Phase::SendCheck(i),
        Phase::SendCheck(i) => match ev {
            BusEvent::Status(sr) => match sr1_error(sr) {
                Some(e) => Phase::Failed(e),
                None => send_from(t, i + 1),
            },
            _ => t.phase,
        },
        Phase::WaitBtf => match ev {
            BusEvent::Status(sr) => on_status(sr, SR1_BTF, Phase::SetAddr(2), t.phase),
            _ => t.phase,
        },
        Phase::RecvWait(j) => match ev {
            BusEvent::Status(sr) => on_status(sr, SR1_RXNE, Phase::RecvData(j), t.phase),
            _ => t.phase,
        },
        Phase::RecvData(j) => match ev {
            BusEvent::Data(_) => recv_from(t, j + 1),
            _ => t.phase,
        },
        Phase::FinalCheck => match ev {
            BusEvent::Status(sr) => match sr1_error(sr) {
                Some(e) => Phase::Failed(e),
                None => Phase::Done,
            },
            _ => t.phase,
        },
        Phase::Done => Phase::Done,
        Phase::Failed(e) => Phase::Failed(e),
    }
}

/// The action a phase asks for.
pub open spec fn phase_action(t: TransferView, p: Phase) -> BusAction {
    match p {
        Phase::SetAddr(_) => BusAction::SetAddress(t.addr),
        Phase::Start(_) => BusAction::Start,
        Phase::SendData(i) => BusAction::WriteData(t.out[i as int]),
        Phase::RecvData(_) => BusAction::ReadData,
        Phase::Done => BusAction::Done,
        Phase::Failed(e) => BusAction::Failed(e),
        _ => BusAction::ReadStatus,
    }
}

/// One transition of a transfer: the byte a data read reports is kept, and the next
/// phase's action is asked for.
pub open spec fn transfer_step(t: TransferView, ev: BusEvent) -> (TransferView, BusAction) {
    let p = next_phase(t, ev);
    let inbox = match (t.phase, ev) {
        (Phase::RecvData(_), BusEvent::Data(b)) => t.inbox.push(b),
        _ => t.inbox,
    };
    (TransferView { phase: p, inbox, ..t }, phase_action(t, p))
}

/// Whether a phase's indices and the received bytes agree with the transfer.
pub open spec fn phase_ok(t: TransferView) -> bool {
    &&& t.inbox.len() <= t.want
    &&& match t.phase {
        Phase::SendWait(i) => i < t.out.len() && t.inbox.len() == 0,
        Phase::SendData(i) => i < t.out.len() && t.inbox.len() == 0,
        Phase::SendCheck(i) => i < t.out.len() && t.inbox.len() == 0,
        Phase::RecvWait(j) => j == t.inbox.len() && j < t.want,
        Phase::RecvData(j) => j == t.inbox.len() && j < t.want,
        Phase::FinalCheck => t.inbox.len() == t.want,
        Phase::Done => t.inbox.len() == t.want,
        Phase::SetAddr(n) => (n == 1 || (n == 2 && t.kind is WriteRead)) && t.inbox.len() == 0,
        Phase::Start(n) => (n == 1 || (n == 2 && t.kind is WriteRead)) && t.inbox.len() == 0,
        Phase::Begin => t.inbox.len() == 0,
        Phase::WaitTxe => t.kind is WriteRead && t.inbox.len() == 0,
        Phase::WaitBtf => t.kind is WriteRead && t.inbox.len() == 0,
        Phase::Failed(_) => true,
    }
    &&& t.kind is Read ==> t.out.len() == 0
    &&& t.kind is Write ==> t.want == 0
}

/// A master transfer on the bus, driven one action at a time.
pub struct I2cTransfer {
    kind: TransferKind,
    addr: u8,
    out: Vec<u8>,
    want: usize,
    inbox: Vec<u8>,
    phase: Phase,
}

impl View for I2cTransfer {
    type V = TransferView;

    closed spec fn view(&self) -> TransferView {
        TransferView {
            kind: self.kind,
            addr: self.addr,
            out: self.out@,
            want: self.want as nat,
            inbox: self.inbox@,
            phase: self.phase,
        }
    }
}

impl I2cTransfer {
    /// Whether the state is consistent.
    pub open spec fn wf(&self) -> bool {
        phase_ok(self@)
    }

    /// A transfer that sends `bytes` to `addr`.
    pub fn write(addr: u8, bytes: Vec<u8>) -> (r: Self)
        ensures
            r.wf(),
            r@ == (TransferView {
                kind: TransferKind::Write,
                addr,
                out: bytes@,
                want: 0,
                inbox: Seq::empty(),
                phase: Phase::Begin,
            }),
    {
        I2cTransfer {
            kind: TransferKind::Write,
            addr,
            out: bytes,
            want: 0,
            inbox: Vec::new(),
            phase: Phase::Begin,
        }
    }

    /// A transfer that receives `len` bytes from `addr`.
    pub fn read(addr: u8, len: usize) -> (r: Self)
        ensures
            r.wf(),
            r@ == (TransferView {
                kind: TransferKind::Read,
                addr,
                out: Seq::empty(),
                want: len as nat,
                inbox: Seq::empty(),
                phase: Phase::Begin,
            }),
    {
        I2cTransfer {
            kind: TransferKind::Read,
            addr,
            out: Vec::new(),
            want: len,
            inbox: Vec::new(),
            phase: Phase::Begin,
        }
    }

    /// A transfer that sends `bytes` to `addr`, then receives `len` bytes from it.
    pub fn write_read(addr: u8, bytes: Vec<u8>, len: usize) -> (r: Self)
        ensures
            r.wf(),
            r@ == (TransferView {
                kind: TransferKind::WriteRead,
                addr,
                out: bytes@,
                want: len as nat,
                inbox: Seq::empty(),
                phase: Phase::Begin,
            }),
    {
        I2cTransfer {
            kind: TransferKind::WriteRead,
            addr,
            out: bytes,
            want: len,
            inbox: Vec::new(),
            phase: Phase::Begin,
        }
    }

    /// The bytes received so far.
    pub fn received(&self) -> (r: &Vec<u8>)
        ensures
            r@ == self@.inbox,
    {
        &self.inbox
    }

    fn send_from(&self, i: usize) -> (r: Phase)
        requires
            i <= self.out.len(),
        ensures
            r == send_from(self@, i as int),
    {
        if i < self.out.len() {
            Phase::SendWait(i)
        } else {
            match self.kind {
                TransferKind::WriteRead => Phase::WaitBtf,
                _ => Phase::FinalCheck,
            }
        }
    }

    fn recv_from(&self, j: usize) -> (r: Phase)
        requires
            j <= self.want,
        ensures
            r == recv_from(self@, j as int),
    {
        if j < self.want {
            Phase::RecvWait(j)
        } else {
            Phase::FinalCheck
        }
    }

    fn next_phase(&self, ev: BusEvent) -> (r: Phase)
        requires
            self.wf(),
        ensures
            r == next_phase(self@, ev),
    {
        match self.phase {
            Phase::Begin => Phase::SetAddr(1),
            Phase::SetAddr(n) => Phase::Start(n),
            Phase::Start(n) => {
                if n == 2 {
                    self.recv_from(0)
                } else {
                    match self.kind {
                        TransferKind::WriteRead => Phase::WaitTxe,
                        TransferKind::Write => self.send_from(0),
                        TransferKind::Read => self.recv_from(0),
                    }
                }
            },
            Phase::WaitTxe => match ev {
                BusEvent::Status(sr) => match crate::i2c::check_and_clear_error_flags(sr) {
                    Err(e) => Phase::Failed(e),
                    Ok(()) => if sr & SR1_TXE != 0 {
                        self.send_from(0)
                    } else {
                        Phase::WaitTxe
                    },
                },
                _ => self.phase,
            },
            Phase::SendWait(i) => match ev {
                BusEvent::Status(sr) => match crate::i2c::check_and_clear_error_flags(sr) {
                    Err(e) => Phase::Failed(e),
                    Ok(()) => if sr & SR1_TXE != 0 {
                        Phase::SendData(i)
                    } else {
                        self.phase
                    },
                },
                _ => self.phase,
            },
            Phase::SendData(i) => Phase::SendCheck(i),
            Phase::SendCheck(i) => match ev {
                BusEvent::Status(sr) => match crate::i2c::check_and_clear_error_flags(sr) {
                    Err(e) => Phase::Failed(e),
                    Ok(()) => self.send_from(i + 1),
                },
                _ => self.phase,
            },
            Phase::WaitBtf => match ev {
                BusEvent::Status(sr) => match crate::i2c::check_and_clear_error_flags(sr) {
                    Err(e) => Phase::Failed(e),
                    Ok(()) => if sr & SR1_BTF != 0 {
                        Phase::SetAddr(2)
                    } else {
                        self.phase
                    },
                },
                _ => self.phase,
            },
            Phase::RecvWait(j) => match ev {
                BusEvent::Status(sr) => match crate::i2c::check_and_clear_error_flags(sr) {
                    Err(e) => Phase::Failed(e),
                    Ok(()) => if sr & SR1_RXNE != 0 {
                        Phase::RecvData(j)
                    } else {
                        self.phase
                    },
                },
                _ => self.phase,
            },
            Phase::RecvData(j) => match ev {
                BusEvent::Data(_) => self.recv_from(j + 1),
                _ => self.phase,
            },
            Phase::FinalCheck => match ev {
                BusEvent::Status(sr) => match crate::i2c::check_and_clear_error_flags(sr) {
                    Err(e) => Phase::Failed(e),
                    Ok(()) => Phase::Done,
                },
                _ => self.phase,
            },
            Phase::Done => Phase::Done,
            Phase::Failed(e) => Phase::Failed(e),
        }
    }

    /// Takes the caller's report on the last action and returns the next one.
    pub fn advance(&mut self, ev: BusEvent) -> (r: BusAction)
        requires
            old(self).wf(),
        ensures
            final(self).wf(),
            (final(self)@, r) == transfer_step(old(self)@, ev),
    {
        let p = self.next_phase(ev);
        if let Phase::RecvData(_) = self.phase {
            if let BusEvent::Data(b) = ev {
                self.inbox.push(b);
            }
        }
        self.phase = p;
        match p {
            Phase::SetAddr(_) => BusAction::SetAddress(self.addr),
            Phase::Start(_) => BusAction::Start,
            Phase::SendData(i) => BusAction::WriteData(self.out[i]),
            Phase::RecvData(_) => BusAction::ReadData,
            Phase::Done => BusAction::Done,
            Phase::Failed(e) => BusAction::Failed(e),
            _ => BusAction::ReadStatus,
        }
    }
}


/// Whether a phase waits on the status word.
pub open spec fn reads_status(p: Phase) -> bool {
    p is WaitTxe || p is SendWait || p is SendCheck || p is WaitBtf || p is RecvWait
        || p is FinalCheck
}

/// Bytes go out in order, each only once the status showed the transmit register empty
/// and no error: a data write is always of byte `i` of the bytes to send, right after a
/// wait for byte `i`.
pub proof fn lemma_sends_in_order(t: TransferView, ev: BusEvent, b: u8)
    requires
        phase_ok(t),
        transfer_step(t, ev).1 == BusAction::WriteData(b),
    ensures
        t.phase is SendWait,
        ev is Status,
        sr1_error(ev->Status_0) is None,
        ev->Status_0 & SR1_TXE != 0,
        b == t.out[t.phase->SendWait_0 as int],
{
}

/// A status word that shows an error ends the transfer with that error, in every phase
/// that reads the status.
pub proof fn lemma_errors_fail(t: TransferView, sr1: u32)
    requires
        reads_status(t.phase),
        sr1_error(sr1) is Some,
    ensures
        transfer_step(t, BusEvent::Status(sr1)).1 == BusAction::Failed(sr1_error(sr1)->Some_0),
{
}

/// A transfer is only done once every byte asked for has been received.
pub proof fn lemma_done_has_all_bytes(t: TransferView, ev: BusEvent)
    requires
        phase_ok(t),
        transfer_step(t, ev).1 == BusAction::Done,
    ensures
        transfer_step(t, ev).0.inbox.len() == t.want,
{
}

} // verus!
