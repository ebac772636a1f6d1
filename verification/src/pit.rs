//! The programmable interval timer: what to write to its ports to make
//! a channel tick at a given frequency.

use vstd::prelude::*;

verus! {

/// The port of the timer's control register.
pub const PIT_PORT_CONTROL: u16 = 0x43;

/// The port of the counter of channel 0; those of the other channels
/// follow.
pub const PIT_PORT_COUNTER: u16 = 0x40;

/// The cycles of the timer's clock per second.
pub const PIT_HZ: u32 = 1193180;

/// A byte for a port, for the caller to send.
#[derive(Clone, Copy, PartialEq, Eq, Structural, Debug)]
pub struct PortWrite {
    pub port: u16,
    pub value: u8,
}

/// The count of clock cycles between two ticks at `frequency` ticks per
/// second, rounded to the nearest. Below 19 Hz the count would not fit
/// in 16 bits and is 0, which the timer takes as 65536; above the
/// clock's own frequency it is 2, the lowest count that mode 2 allows.
pub open spec fn pit_count(frequency: u32) -> int {
    if frequency < 19 {
        0
    } else if frequency > PIT_HZ {
        2
    } else {
        (PIT_HZ + frequency / 2) / (frequency as int)
    }
}

/// The control byte: the channel in bits 6 and 7, "low byte, then high
/// byte" in bits 4 and 5, the mode in bits 1 to 3.
pub open spec fn pit_control(channel: u8, mode: u8) -> u8 {
    (channel << 6) | 0x30 | (mode << 1)
}

/// The count fits in 16 bits.
pub proof fn lemma_pit_count_fits(frequency: u32)
    ensures
        0 <= pit_count(frequency) <= 0xffff,
{
    if 19 <= frequency <= PIT_HZ {
        let total = PIT_HZ + frequency / 2;
        assert(total / (frequency as int) <= 0xffff) by (nonlinear_arith)
            requires
                frequency >= 19,
                0 <= total < 0x1_0000 * frequency,
        ;
        assert(0 <= total / (frequency as int)) by (nonlinear_arith)
            requires
                frequency >= 19,
                0 <= total,
        ;
    }
}

/// The three bytes that make `channel` tick at `frequency` in `mode`,
/// in the order in which they are to be sent: the control byte, then
/// the low and the high byte of the count to the channel's counter.
/// Channel 0 drives the timer interrupt and channel 2 the speaker; mode
/// 2 is a periodic pulse and mode 3 a square wave.
pub fn pit_configure_channel(channel: u8, mode: u8, frequency: u32) -> (result: [PortWrite; 3])
    requires
        channel == 0 || channel == 2,
        mode == 2 || mode == 3,
    ensures
        result[0] == (PortWrite { port: PIT_PORT_CONTROL, value: pit_control(channel, mode) }),
        result[1] == (PortWrite {
            port: (PIT_PORT_COUNTER + channel) as u16,
            value: (pit_count(frequency) % 0x100) as u8,
        }),
        result[2] == (PortWrite {
            port: (PIT_PORT_COUNTER + channel) as u16,
            value: (pit_count(frequency) / 0x100) as u8,
        }),
{
    proof {
        lemma_pit_count_fits(frequency);
    }
    let count: u16 = if frequency < 19 {
        0
    } else if frequency > PIT_HZ {
        2
    } else {
        ((PIT_HZ + frequency / 2) / frequency) as u16
    };
    let low: u8 = (count % 0x100) as u8;
    let high: u8 = (count / 0x100) as u8;
    [
        PortWrite { port: PIT_PORT_CONTROL, value: (channel << 6) | 0x30 | (mode << 1) },
        PortWrite { port: PIT_PORT_COUNTER + channel as u16, value: low },
        PortWrite { port: PIT_PORT_COUNTER + channel as u16, value: high },
    ]
}

} // verus!
