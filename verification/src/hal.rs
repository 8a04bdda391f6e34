//! Hardware-facing arithmetic: GIC register addressing, timer reload
//! values, interrupt classification, and the byte-level encodings the
//! serial console uses.
//!
//! The actual MMIO accesses and system-register writes live with the
//! embedding; everything here is the computation that decides which
//! address is touched, which bit is set, which value is programmed, and
//! which bytes go out on the wire.

use vstd::prelude::*;

verus! {

/// PL011 UART data register.
pub const UART_DR: u64 = 0x0900_0000;

/// PL011 UART flag register.
pub const UART_FR: u64 = 0x0900_0018;

/// Transmit-FIFO-full bit of the UART flag register.
pub const UART_FR_TXFF: u32 = 0x20;

/// GIC distributor control register.
pub const GICD_CTLR: u64 = 0x0800_0000;

/// GIC interrupt controller type register.
pub const GICD_TYPER: u64 = 0x0800_0004;

/// First GIC set-enable register.
pub const GICD_ISENABLER0: u64 = 0x0800_0100;

/// First GIC priority register.
pub const GICD_IPRIORITYR: u64 = 0x0800_0400;

/// GIC CPU interface control register.
pub const GICC_CTLR: u64 = 0x0801_0000;

/// GIC priority mask register.
pub const GICC_PMR: u64 = 0x0801_0004;

/// GIC interrupt acknowledge register.
pub const GICC_IAR: u64 = 0x0801_000C;

/// GIC end-of-interrupt register.
pub const GICC_EOIR: u64 = 0x0801_0010;

/// Interrupt id of the ARM Generic Timer PPI.
pub const TIMER_IRQ: u32 = 30;

/// Interrupt id the GIC reports when no interrupt is pending.
pub const SPURIOUS_IRQ: u32 = 1023;

/// Default priority byte, replicated over a priority register.
pub const DEFAULT_PRIORITY_WORD: u32 = 0xA0A0_A0A0;

/// Priority mask value admitting every priority.
pub const PRIORITY_MASK_ALL: u32 = 0xFF;

/// Timer ticks per second divided by this gives a 10 ms tick: 100 Hz.
pub const TICK_RATE_HZ: u64 = 100;

/// Number of interrupt lines the distributor reports: the low five bits
/// of the type register, plus one, times 32.
pub fn interrupt_line_count(typer: u32) -> (r: u32)
    ensures
        r == ((typer & 0x1F) + 1) * 32,
{
    proof {
        assert((typer & 0x1F) <= 0x1F) by (bit_vector);
    }
    ((typer & 0x1F) + 1) * 32
}

/// Address of the set-enable register that carries `irq`.
pub fn isenabler_address(irq: u32) -> (r: u64)
    ensures
        r == GICD_ISENABLER0 + (irq / 32) * 4,
{
    GICD_ISENABLER0 + ((irq / 32) as u64) * 4
}

/// Bit of `irq` within its set-enable register.
pub fn enable_bit(irq: u32) -> (r: u32)
    ensures
        r == 1u32 << (irq % 32),
{
    1u32 << (irq % 32)
}

/// Address of the `index`-th priority register.
pub fn ipriorityr_address(index: u32) -> (r: u64)
    ensures
        r == GICD_IPRIORITYR + index * 4,
{
    GICD_IPRIORITYR + (index as u64) * 4
}

/// Timer reload value for one 10 ms tick at counter frequency `freq`.
pub fn timer_ticks_for_interval(freq: u64) -> (r: u64)
    ensures
        r == freq / TICK_RATE_HZ,
{
    freq / TICK_RATE_HZ
}

/// What the IRQ dispatcher does with an acknowledged interrupt id.
#[derive(Debug, Clone, Copy, PartialEq, Eq, Structural)]
pub enum IrqAction {
    /// The timer tick: rearm the timer, switch tasks, then signal end of
    /// interrupt.
    TimerTick,
    /// Nothing was pending: ignore, but still acknowledge.
    Spurious,
    /// Any other id: only signal end of interrupt.
    Other,
}

/// Classify an acknowledged interrupt id.
pub fn classify_interrupt(id: u32) -> (r: IrqAction)
    ensures
        id == TIMER_IRQ ==> r == IrqAction::TimerTick,
        id == SPURIOUS_IRQ ==> r == IrqAction::Spurious,
        id != TIMER_IRQ && id != SPURIOUS_IRQ ==> r == IrqAction::Other,
{
    if id == TIMER_IRQ {
        IrqAction::TimerTick
    } else if id == SPURIOUS_IRQ {
        IrqAction::Spurious
    } else {
        IrqAction::Other
    }
}

/// The byte stream a text writes on the serial line: every line feed is
/// preceded by a carriage return, every other byte passes unchanged.
pub open spec fn crlf_expand(s: Seq<u8>) -> Seq<u8>
    decreases s.len(),
{
    if s.len() == 0 {
        Seq::empty()
    } else {
        (if s[0] == 10 {
            seq![13u8, 10u8]
        } else {
            seq![s[0]]
        }) + crlf_expand(s.drop_first())
    }
}

/// Encode `bytes` for the serial line, inserting a carriage return before
/// each line feed.
pub fn crlf_encode(bytes: &[u8]) -> (r: Vec<u8>)
    ensures
        r@ == crlf_expand(bytes@),
{
    let mut out: Vec<u8> = Vec::new();
    let mut i: usize = 0;
    proof {
        assert(bytes@.skip(0) =~= bytes@);
    }
    while i < bytes.len()
        invariant
            i <= bytes@.len(),
            crlf_expand(bytes@) == out@ + crlf_expand(bytes@.skip(i as int)),
        decreases bytes@.len() - i,
    {
        let ghost head: Seq<u8> = if bytes@[i as int] == 10 {
            seq![13u8, 10u8]
        } else {
            seq![bytes@[i as int]]
        };
        let ghost prev = out@;
        proof {
            assert(bytes@.skip(i as int)[0] == bytes@[i as int]);
            assert(bytes@.skip(i as int).drop_first() =~= bytes@.skip(i + 1));
            assert(crlf_expand(bytes@.skip(i as int)) == head + crlf_expand(bytes@.skip(i + 1)));
            assert((prev + head) + crlf_expand(bytes@.skip(i + 1))
                =~= prev + (head + crlf_expand(bytes@.skip(i + 1))));
        }
        if bytes[i] == 10 {
            out.push(13);
            out.push(10);
        } else {
            out.push(bytes[i]);
        }
        proof {
            assert(out@ =~= prev + head);
        }
        i = i + 1;
    }
    proof {
        assert(crlf_expand(bytes@.skip(bytes@.len() as int)) =~= Seq::<u8>::empty());
        assert(out@ + Seq::<u8>::empty() =~= out@);
    }
    out
}

/// The ASCII character for one hexadecimal digit, upper case.
pub open spec fn hex_digit_char(d: u64) -> u8 {
    if d < 10 {
        (48 + d) as u8
    } else {
        (55 + d) as u8
    }
}

/// The `i`-th nibble of `val`, counting from the least significant.
pub open spec fn nibble(val: u64, i: u64) -> u64 {
    (val >> mul_4(i)) & 0xF
}

/// Four times `i`, as a shift amount.
pub open spec fn mul_4(i: u64) -> u64 {
    (4 * i) as u64
}

/// The sixteen hex characters of `val`, most significant nibble first:
/// the fixed-width rendering the serial console prints.
pub fn hex_chars(val: u64) -> (r: Vec<u8>)
    ensures
        r@.len() == 16,
        forall|i: int| 0 <= i < 16 ==> r@[i] == hex_digit_char(nibble(val, (15 - i) as u64)),
{
    let mut out: Vec<u8> = Vec::new();
    let mut i: usize = 0;
    while i < 16
        invariant
            i <= 16,
            out@.len() == i,
            forall|j: int| 0 <= j < i ==> out@[j] == hex_digit_char(nibble(val, (15 - j) as u64)),
        decreases 16 - i,
    {
        let shift: u64 = 60 - 4 * (i as u64);
        let d: u64 = (val >> shift) & 0xF;
        proof {
            let sh: u64 = shift;
            assert(((val >> sh) & 0xF) <= 0xF) by (bit_vector);
            assert(mul_4((15 - i) as u64) == shift);
        }
        let c: u8 = if d < 10 {
            (48 + d) as u8
        } else {
            (55 + d) as u8
        };
        out.push(c);
        i = i + 1;
    }
    out
}

} // verus!
