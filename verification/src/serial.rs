//! The serial port that carries the kernel's messages: what to send to
//! the port's registers to set it up and to put out a byte.

use vstd::prelude::*;
use vstd::string::StringSliceAdditionalSpecFns;
use crate::pit::PortWrite;

verus! {

/// The first of the port's registers.
pub const IO_BASE: u16 = 0x3f8;

/// The register that takes a byte to send.
pub const THR_REG: u16 = 0x3f8;

/// The register that turns the port's interrupts on.
pub const IER_REG: u16 = 0x3f9;

/// The low byte of the clock divisor, while the divisor is open.
pub const LS_REG: u16 = 0x3f8;

/// The high byte of the clock divisor, while the divisor is open.
pub const MS_REG: u16 = 0x3f9;

/// The register that controls the buffer of the port.
pub const FCR_REG: u16 = 0x3fa;

/// The register that controls the line.
pub const LCR_REG: u16 = 0x3fb;

/// The register that shows the state of the line.
pub const LSR_REG: u16 = 0x3fd;

/// Line control: no parity, 8 data bits, 1 stop bit.
pub const LCR_N81: u8 = 0x03;

/// Line control: the divisor is open.
pub const LCR_DLAB: u8 = 0x80;

/// Line status: the register that takes a byte to send is empty.
pub const LSR_THRE: u8 = 0x20;

/// The ticks per second of the port's clock, which the divisor divides:
/// a sixteenth of 1843200.
pub const BASE_RATE: u32 = 115200;

/// The rate at which the port is run, in bits per second.
pub const LINE_RATE: u32 = 9600;

/// How the port is driven.
#[derive(Clone, Copy, PartialEq, Eq, Structural, Debug)]
pub enum SerialMode {
    /// The port is not set up.
    UnInit,
    /// Each byte waits until the port is free.
    Poll,
    /// Bytes are queued and sent on interrupts.
    Queue,
}

/// One thing for the caller to do with the port.
#[derive(Clone, Copy, PartialEq, Eq, Structural, Debug)]
pub enum SerialOp {
    /// Send a byte to a register.
    Write(PortWrite),
    /// Read the line status until it shows that the register that takes
    /// a byte to send is empty.
    WaitUntilEmpty,
}

/// What sets the line rate to `bps` bits per second: open the divisor,
/// give its two bytes, close it.
pub open spec fn rate_ops(bps: u32) -> Seq<SerialOp> {
    let divisor = BASE_RATE as int / bps as int;
    seq![
        SerialOp::Write(PortWrite { port: LCR_REG, value: (LCR_N81 + LCR_DLAB) as u8 }),
        SerialOp::Write(PortWrite { port: LS_REG, value: (divisor % 0x100) as u8 }),
        SerialOp::Write(PortWrite { port: MS_REG, value: (divisor / 0x100) as u8 }),
        SerialOp::Write(PortWrite { port: LCR_REG, value: LCR_N81 }),
    ]
}

/// What sets the port up for polling: interrupts off, buffer off, and
/// the line rate.
pub open spec fn init_ops() -> Seq<SerialOp> {
    seq![
        SerialOp::Write(PortWrite { port: IER_REG, value: 0 }),
        SerialOp::Write(PortWrite { port: FCR_REG, value: 0 }),
    ] + rate_ops(LINE_RATE)
}

/// What puts out `byte` on a port in `mode`: the set-up first if the
/// port is not set up, then the wait for the port and the byte.
pub open spec fn putc_ops(mode: SerialMode, byte: u8) -> Seq<SerialOp> {
    let send = seq![
        SerialOp::WaitUntilEmpty,
        SerialOp::Write(PortWrite { port: THR_REG, value: byte }),
    ];
    if mode is UnInit {
        init_ops() + send
    } else {
        send
    }
}

/// What puts out `bytes`, one after the other, on a port in `mode`.
pub open spec fn print_ops(mode: SerialMode, bytes: Seq<u8>) -> Seq<SerialOp>
    decreases bytes.len(),
{
    if bytes.len() == 0 {
        Seq::empty()
    } else {
        putc_ops(mode, bytes[0]) + print_ops(SerialMode::Poll, bytes.drop_first())
    }
}

/// Writes bytes to the serial port.
pub struct SerialWriter {
    mode: SerialMode,
}

impl SerialWriter {
    /// How the port is driven.
    pub closed spec fn mode(&self) -> SerialMode {
        self.mode
    }

    /// A writer for a port that is set up for polling, and what sets
    /// the port up.
    pub fn new() -> (result: (SerialWriter, Vec<SerialOp>))
        ensures
            result.0.mode() is Poll,
            result.1@ == init_ops(),
    {
        let mut writer = SerialWriter { mode: SerialMode::UnInit };
        let ops = writer.init_poll();
        (writer, ops)
    }

    /// A writer for a port that is not set up yet.
    pub fn uninitialized() -> (result: SerialWriter)
        ensures
            result.mode() is UnInit,
    {
        SerialWriter { mode: SerialMode::UnInit }
    }

    /// Sets the port, which must not be set up yet, up for polling: a
    /// byte to send waits until the port is free.
    pub fn init_poll(&mut self) -> (result: Vec<SerialOp>)
        requires
            old(self).mode() is UnInit,
        ensures
            final(self).mode() is Poll,
            result@ == init_ops(),
    {
        let mut ops: Vec<SerialOp> = Vec::new();
        ops.push(SerialOp::Write(PortWrite { port: IER_REG, value: 0 }));
        ops.push(SerialOp::Write(PortWrite { port: FCR_REG, value: 0 }));
        let mut rate = self.set_serial(LINE_RATE);
        ops.append(&mut rate);
        self.mode = SerialMode::Poll;
        assert(ops@ =~= init_ops());
        ops
    }

    /// Sets the line rate to `bps` bits per second, with no parity,
    /// 8 data bits and 1 stop bit.
    pub fn set_serial(&self, bps: u32) -> (result: Vec<SerialOp>)
        requires
            300 <= bps <= 115200,
        ensures
            result@ == rate_ops(bps),
    {
        assert(BASE_RATE as int / bps as int <= 384 && 0 <= BASE_RATE as int / bps as int)
            by (nonlinear_arith)
            requires
                300 <= bps,
                BASE_RATE == 115200,
        ;
        let divisor: u16 = (BASE_RATE / bps) as u16;
        let mut ops: Vec<SerialOp> = Vec::new();
        ops.push(SerialOp::Write(PortWrite { port: LCR_REG, value: LCR_N81 + LCR_DLAB }));
        ops.push(SerialOp::Write(PortWrite { port: LS_REG, value: (divisor % 0x100) as u8 }));
        ops.push(SerialOp::Write(PortWrite { port: MS_REG, value: (divisor / 0x100) as u8 }));
        ops.push(SerialOp::Write(PortWrite { port: LCR_REG, value: LCR_N81 }));
        assert(ops@ =~= rate_ops(bps));
        ops
    }

    /// Whether the port is driven by interrupts, in which mode nothing
    /// can be put out.
    pub fn is_queued(&self) -> (result: bool)
        ensures
            result == self.mode() is Queue,
    {
        self.mode == SerialMode::Queue
    }

    /// Puts out the bytes of `string`, one after the other.
    pub fn print_str(&mut self, string: &str) -> (result: Vec<SerialOp>)
        requires
            old(self).mode() !is Queue,
        ensures
            final(self).mode() == if string.spec_bytes().len() == 0 {
                old(self).mode()
            } else {
                SerialMode::Poll
            },
            result@ == print_ops(old(self).mode(), string.spec_bytes()),
    {
        let bytes = string.as_bytes();
        let mut ops: Vec<SerialOp> = Vec::new();
        let mut index: usize = 0;
        proof {
            assert(bytes@.subrange(0, bytes@.len() as int) =~= bytes@);
            assert(ops@ + print_ops(self.mode(), bytes@) =~= print_ops(self.mode(), bytes@));
        }
        while index < bytes.len()
            invariant
                index <= bytes.len(),
                bytes@ == string.spec_bytes(),
                self.mode() !is Queue,
                self.mode() == if index == 0 {
                    old(self).mode()
                } else {
                    SerialMode::Poll
                },
                ops@ + print_ops(self.mode(), bytes@.subrange(index as int, bytes@.len() as int))
                    == print_ops(old(self).mode(), bytes@),
            decreases bytes.len() - index,
        {
            let ghost rest = bytes@.subrange(index as int, bytes@.len() as int);
            let ghost before = ops@;
            let ghost mode = self.mode();
            let mut next = self.putc(bytes[index]);
            ops.append(&mut next);
            index += 1;
            proof {
                assert(rest.drop_first() =~= bytes@.subrange(index as int, bytes@.len() as int));
                assert(ops@ + print_ops(SerialMode::Poll, rest.drop_first()) =~= before + (putc_ops(
                    mode,
                    rest[0],
                ) + print_ops(SerialMode::Poll, rest.drop_first())));
            }
        }
        proof {
            assert(bytes@.subrange(index as int, bytes@.len() as int) =~= Seq::<u8>::empty());
            assert(ops@ + Seq::<SerialOp>::empty() =~= ops@);
            if bytes@.len() == 0 {
                assert(bytes@.subrange(0, 0) =~= bytes@);
            }
        }
        ops
    }

    /// Puts out `byte`: sets the port up first if that was not done,
    /// then waits for the port and sends the byte.
    pub fn putc(&mut self, byte: u8) -> (result: Vec<SerialOp>)
        requires
            old(self).mode() !is Queue,
        ensures
            final(self).mode() is Poll,
            result@ == putc_ops(old(self).mode(), byte),
    {
        let mut ops: Vec<SerialOp> = Vec::new();
        if self.mode == SerialMode::UnInit {
            ops = self.init_poll();
        }
        let mut send = self.putc_poll(byte);
        ops.append(&mut send);
        assert(ops@ =~= putc_ops(old(self).mode(), byte));
        ops
    }

    /// Waits until the port is free and sends `byte`.
    pub fn putc_poll(&self, byte: u8) -> (result: Vec<SerialOp>)
        ensures
            result@ == seq![
                SerialOp::WaitUntilEmpty,
                SerialOp::Write(PortWrite { port: THR_REG, value: byte }),
            ],
    {
        let mut ops: Vec<SerialOp> = Vec::new();
        ops.push(SerialOp::WaitUntilEmpty);
        ops.push(SerialOp::Write(PortWrite { port: THR_REG, value: byte }));
        ops
    }
}

} // verus!
