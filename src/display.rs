//! Protocol driver for an HD44780-class 16x2 character display on an 8-bit
//! parallel bus with Enable, Read/Write and Register-Select control lines.
//!
//! The driver does not own the lines. It records the protocol as a queue of
//! [`Step`]s; each step expands into the exact line levels and busy-wait delays
//! ([`BusOp`]) that the board code performs, in order.
use vstd::prelude::*;
use vstd::string::StringSliceAdditionalSpecFns;

verus! {

/// Number of visible columns.
pub const WIDTH: u8 = 16;

/// Number of rows.
pub const HEIGHT: u8 = 2;

/// One output line of the display interface.
#[derive(Clone, Copy, Debug, PartialEq, Eq, Structural)]
pub enum Line {
    /// Data line `i` of the bus, carrying bit `i` of a byte (`i < 8`).
    Data(u8),
    Enable,
    ReadWrite,
    RegisterSelect,
}

/// One primitive action on the display interface.
#[derive(Clone, Copy, Debug, PartialEq, Eq, Structural)]
pub enum BusOp {
    /// Drive a line high (`true`) or low (`false`).
    Drive(Line, bool),
    /// Busy-wait for this many CPU cycles.
    Delay(u64),
}

/// One step of the display protocol.
#[derive(Clone, Copy, Debug, PartialEq, Eq, Structural)]
pub enum Step {
    /// Transfer a command byte (Register-Select low).
    Command(u8),
    /// Transfer a data byte to the current DDRAM address (Register-Select high).
    Data(u8),
    /// Drive the Enable line low.
    EnableLow,
    /// Busy-wait for this many milliseconds.
    DelayMs(u32),
}

/// Bit `i` of `byte`.
pub open spec fn bit_of(byte: u8, i: u8) -> bool {
    (byte >> i) & 1u8 == 1u8
}

/// CPU cycles that make up `ms` milliseconds at `cpu_clk_hz`.
pub open spec fn cycles_for(cpu_clk_hz: nat, ms: nat) -> nat {
    (cpu_clk_hz / 1000) * ms
}

/// Drives each data line `i` to bit `i` of `byte`, line 0 first.
pub open spec fn data_line_ops(byte: u8) -> Seq<BusOp> {
    Seq::new(8, |i: int| BusOp::Drive(Line::Data(i as u8), bit_of(byte, i as u8)))
}

/// The bus actions of one byte transfer: data lines, Register-Select,
/// Read/Write low, then an Enable pulse held 2 ms and a 2 ms settle.
pub open spec fn transfer_ops(byte: u8, register_select: bool, cpu_clk_hz: nat) -> Seq<BusOp> {
    let wait = BusOp::Delay(cycles_for(cpu_clk_hz, 2) as u64);
    data_line_ops(byte) + seq![
        BusOp::Drive(Line::RegisterSelect, register_select),
        BusOp::Drive(Line::ReadWrite, false),
        BusOp::Drive(Line::Enable, true),
        wait,
        BusOp::Drive(Line::Enable, false),
        wait,
    ]
}

/// The bus actions that carry out one protocol step.
pub open spec fn step_ops(step: Step, cpu_clk_hz: nat) -> Seq<BusOp> {
    match step {
        Step::Command(c) => transfer_ops(c, false, cpu_clk_hz),
        Step::Data(d) => transfer_ops(d, true, cpu_clk_hz),
        Step::EnableLow => seq![BusOp::Drive(Line::Enable, false)],
        Step::DelayMs(ms) => seq![BusOp::Delay(cycles_for(cpu_clk_hz, ms as nat) as u64)],
    }
}

/// The power-on sequence: Enable low after 15 ms, a 100 ms wait, then
/// function set (8-bit, 5x7), display on with cursor, clear and entry mode,
/// each command followed by 1 ms.
pub open spec fn init_steps() -> Seq<Step> {
    seq![
        Step::DelayMs(15),
        Step::EnableLow,
        Step::DelayMs(100),
        Step::Command(0x30),
        Step::DelayMs(1),
        Step::Command(0x38),
        Step::DelayMs(1),
        Step::Command(0x38),
        Step::DelayMs(1),
        Step::Command(0x0E),
        Step::DelayMs(1),
        Step::Command(0x01),
        Step::DelayMs(1),
        Step::Command(0x07),
        Step::DelayMs(1),
        Step::Command(0x06),
    ]
}

/// Whether the cursor may be placed at `(row, column)`: column `WIDTH` is the
/// parking place just past the last visible cell.
pub open spec fn cursor_in_range(row: int, column: int) -> bool {
    row < HEIGHT && column <= WIDTH
}

/// DDRAM address of `(row, column)`: row 0 starts at 0x00, row 1 at 0x40.
pub open spec fn ddram_address(row: int, column: int) -> int {
    (if row == 0 { 0x00int } else { 0x40int }) + column
}

/// The "set DDRAM address" command: the address with bit 7 set.
pub open spec fn cursor_command(row: int, column: int) -> int {
    0x80 + ddram_address(row, column)
}

/// One data step for each byte, in order.
pub open spec fn data_steps(bytes: Seq<u8>) -> Seq<Step> {
    Seq::new(bytes.len(), |i: int| Step::Data(bytes[i]))
}

/// The abstract state of a [`Display`]: its CPU clock and the protocol steps
/// queued and not yet taken.
pub struct DisplayState {
    pub cpu_clk_hz: nat,
    pub pending: Seq<Step>,
}

/// Driver state of one display.
pub struct Display {
    cpu_clk_hz: u32,
    pending: Vec<Step>,
}

impl View for Display {
    type V = DisplayState;

    closed spec fn view(&self) -> DisplayState {
        DisplayState { cpu_clk_hz: self.cpu_clk_hz as nat, pending: self.pending@ }
    }
}

impl Display {
    /// A driver for a CPU that runs at `cpu_clk_hz`, with nothing queued.
    pub fn new(cpu_clk_hz: u32) -> (r: Display)
        ensures
            r@.cpu_clk_hz == cpu_clk_hz,
            r@.pending == Seq::<Step>::empty(),
    {
        Display { cpu_clk_hz, pending: Vec::new() }
    }

    /// The CPU clock in hertz.
    pub fn cpu_clk_hz(&self) -> (r: u32)
        ensures
            r == self@.cpu_clk_hz,
    {
        self.cpu_clk_hz
    }

    /// Queues a busy-wait of `ms` milliseconds.
    pub fn delay_ms(&mut self, ms: u32)
        ensures
            final(self)@.cpu_clk_hz == old(self)@.cpu_clk_hz,
            final(self)@.pending == old(self)@.pending.push(Step::DelayMs(ms)),
    {
        self.pending.push(Step::DelayMs(ms));
    }

    fn send_command(&mut self, command: u8)
        ensures
            final(self)@.cpu_clk_hz == old(self)@.cpu_clk_hz,
            final(self)@.pending == old(self)@.pending.push(Step::Command(command)),
    {
        self.pending.push(Step::Command(command));
    }

    fn write_to_address(&mut self, character: u8)
        ensures
            final(self)@.cpu_clk_hz == old(self)@.cpu_clk_hz,
            final(self)@.pending == old(self)@.pending.push(Step::Data(character)),
    {
        self.pending.push(Step::Data(character));
    }

    /// Queues the power-on sequence. To be called once, before anything else.
    pub fn initialize_display(&mut self)
        ensures
            final(self)@.cpu_clk_hz == old(self)@.cpu_clk_hz,
            final(self)@.pending == old(self)@.pending + init_steps(),
    {
        self.delay_ms(15);
        self.pending.push(Step::EnableLow);
        self.delay_ms(100);
        self.send_command(0x30u8);
        self.delay_ms(1);
        self.send_command(0x38u8);
        self.delay_ms(1);
        self.send_command(0x38u8);
        self.delay_ms(1);
        self.send_command(0x0Eu8);
        self.delay_ms(1);
        self.send_command(0x01u8);
        self.delay_ms(1);
        self.send_command(0x07u8);
        self.delay_ms(1);
        self.send_command(0x06u8);
        assert(self@.pending =~= old(self)@.pending + init_steps());
    }

    /// Queues a "set DDRAM address" command for `(row, column)`. Fails, and
    /// queues nothing, when the row is not on the display or the column lies
    /// beyond the parking place.
    pub fn set_cursor_position(&mut self, row: u8, column: u8) -> (r: Result<(), ()>)
        ensures
            final(self)@.cpu_clk_hz == old(self)@.cpu_clk_hz,
            r is Ok <==> cursor_in_range(row as int, column as int),
            r is Ok ==> final(self)@.pending == old(self)@.pending.push(
                Step::Command(cursor_command(row as int, column as int) as u8),
            ),
            r is Err ==> final(self)@.pending == old(self)@.pending,
    {
        if row >= HEIGHT {
            return Err(());
        }
        if column > WIDTH {
            return Err(());
        }
        let base: u8 = if row == 0 {
            0x00u8
        } else {
            0x40u8
        };
        let address: u8 = base + column;
        assert(address < 0x80 ==> address | 0x80u8 == address + 0x80) by (bit_vector);
        self.send_command(address | 0x80u8);
        Ok(())
    }

    /// Queues each byte, in order, as a data transfer.
    pub fn write_bytes(&mut self, bytes: &[u8])
        ensures
            final(self)@.cpu_clk_hz == old(self)@.cpu_clk_hz,
            final(self)@.pending == old(self)@.pending + data_steps(bytes@),
    {
        let mut i: usize = 0;
        while i < bytes.len()
            invariant
                i <= bytes@.len(),
                self@.cpu_clk_hz == old(self)@.cpu_clk_hz,
                self@.pending == old(self)@.pending + data_steps(bytes@.take(i as int)),
            decreases bytes@.len() - i,
        {
            self.write_to_address(bytes[i]);
            i = i + 1;
            assert(data_steps(bytes@.take(i as int)) =~= data_steps(bytes@.take(i - 1)).push(
                Step::Data(bytes@[i - 1]),
            ));
            assert(self@.pending =~= old(self)@.pending + data_steps(bytes@.take(i as int)));
        }
        assert(bytes@.take(i as int) =~= bytes@);
    }

    /// Queues each byte of `string`, in order, as a data transfer.
    pub fn write_str(&mut self, string: &str)
        ensures
            final(self)@.cpu_clk_hz == old(self)@.cpu_clk_hz,
            final(self)@.pending == old(self)@.pending + data_steps(string.spec_bytes()),
    {
        self.write_bytes(string.as_bytes());
    }

    /// Hands over the queued steps, oldest first, and leaves the queue empty.
    pub fn take_steps(&mut self) -> (r: Vec<Step>)
        ensures
            r@ == old(self)@.pending,
            final(self)@.cpu_clk_hz == old(self)@.cpu_clk_hz,
            final(self)@.pending == Seq::<Step>::empty(),
    {
        let mut taken: Vec<Step> = Vec::new();
        std::mem::swap(&mut taken, &mut self.pending);
        taken
    }

    fn delay_cycles(&self, ms: u32) -> (r: u64)
        ensures
            r == cycles_for(self@.cpu_clk_hz, ms as nat),
    {
        let per_ms: u64 = (self.cpu_clk_hz / 1000) as u64;
        assert(per_ms * (ms as u64) <= 0x80_0000u64 * 0x1_0000_0000u64) by (nonlinear_arith)
            requires
                per_ms < 0x80_0000u64,
                ms < 0x1_0000_0000u64,
        ;
        per_ms * (ms as u64)
    }

    fn write_to_bus(data: u8, ops: &mut Vec<BusOp>)
        ensures
            final(ops)@ == old(ops)@ + data_line_ops(data),
    {
        let mut i: u8 = 0;
        while i < 8
            invariant
                i <= 8,
                ops@ == old(ops)@ + data_line_ops(data).take(i as int),
            decreases 8 - i,
        {
            ops.push(BusOp::Drive(Line::Data(i), (data >> i) & 1u8 == 1u8));
            i = i + 1;
            assert(ops@ =~= old(ops)@ + data_line_ops(data).take(i as int));
        }
        assert(data_line_ops(data).take(8) =~= data_line_ops(data));
    }

    /// The bus actions that carry out `step`, in order.
    pub fn bus_ops(&self, step: Step) -> (r: Vec<BusOp>)
        ensures
            r@ == step_ops(step, self@.cpu_clk_hz),
    {
        let mut ops: Vec<BusOp> = Vec::new();
        match step {
            Step::Command(byte) | Step::Data(byte) => {
                let register_select: bool = match step {
                    Step::Data(_) => true,
                    _ => false,
                };
                let wait: u64 = self.delay_cycles(2);
                Self::write_to_bus(byte, &mut ops);
                ops.push(BusOp::Drive(Line::RegisterSelect, register_select));
                ops.push(BusOp::Drive(Line::ReadWrite, false));
                ops.push(BusOp::Drive(Line::Enable, true));
                ops.push(BusOp::Delay(wait));
                ops.push(BusOp::Drive(Line::Enable, false));
                ops.push(BusOp::Delay(wait));
                assert(ops@ =~= step_ops(step, self@.cpu_clk_hz));
            },
            Step::EnableLow => {
                ops.push(BusOp::Drive(Line::Enable, false));
                assert(ops@ =~= step_ops(step, self@.cpu_clk_hz));
            },
            Step::DelayMs(ms) => {
                let cycles: u64 = self.delay_cycles(ms);
                ops.push(BusOp::Delay(cycles));
                assert(ops@ =~= step_ops(step, self@.cpu_clk_hz));
            },
        }
        ops
    }
}

} // verus!
