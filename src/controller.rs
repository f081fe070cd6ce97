//! The decisions of the measuring loop: turning encoder counter readings and
//! reset requests into length updates, the direction indicator and the text
//! shown on the second display row.
use vstd::prelude::*;
use crate::counted_length::{CountedLength, LengthState};
use crate::display::{Display, Step, data_steps, cursor_command};

verus! {

/// Turning direction of the measuring wheel.
#[derive(Clone, Copy, Debug, PartialEq, Eq, Structural)]
pub enum Direction {
    Clockwise,
    CounterClockwise,
}

/// Signed change between two readings of a 32-bit wrapping counter: the
/// difference taken modulo 2^32, in the range of an `i32`.
pub open spec fn count_delta(new_count: u32, old_count: u32) -> int {
    let d = new_count as int - old_count as int;
    if d > i32::MAX {
        d - 0x1_0000_0000
    } else if d < i32::MIN {
        d + 0x1_0000_0000
    } else {
        d
    }
}

/// ASCII decimal digits of `n`, most significant first, without leading zeros.
pub open spec fn decimal_digits(n: nat) -> Seq<u8>
    decreases n,
{
    if n < 10 {
        seq![(48 + n) as u8]
    } else {
        decimal_digits(n / 10).push((48 + n % 10) as u8)
    }
}

/// `um` micrometres rounded half away from zero to whole millimetres,
/// as a magnitude.
pub open spec fn rounded_millimetres(um: int) -> nat {
    ((if um < 0 { -um } else { um }) + 500) as nat / 1000
}

/// The text shown for a length of `um` micrometres: the length in metres
/// with three decimals, a minus sign for a negative length, then " m".
pub open spec fn length_text(um: int) -> Seq<u8> {
    let mm = rounded_millimetres(um);
    let sign: Seq<u8> = if um < 0 { seq![45u8] } else { Seq::empty() };
    sign + decimal_digits(mm / 1000) + seq![
        46u8,
        (48 + (mm / 100) % 10) as u8,
        (48 + (mm / 10) % 10) as u8,
        (48 + mm % 10) as u8,
        32u8,
        109u8,
    ]
}

/// `n` ASCII spaces.
pub open spec fn spaces(n: nat) -> Seq<u8> {
    Seq::new(n, |i: int| 32u8)
}

/// The steps that replace the second display row with `text`: the old
/// contents are blanked with one space more than `text` holds, then `text`
/// is written from the start of the row.
pub open spec fn redraw_steps(text: Seq<u8>) -> Seq<Step> {
    let home = Step::Command(cursor_command(1, 0) as u8);
    seq![home] + data_steps(spaces(text.len() + 1)) + seq![home] + data_steps(text)
}

fn push_decimal(n: u128, out: &mut Vec<u8>)
    ensures
        final(out)@ == old(out)@ + decimal_digits(n as nat),
    decreases n,
{
    if n >= 10 {
        push_decimal(n / 10, out);
    }
    out.push(48u8 + (n % 10) as u8);
    assert(out@ =~= old(out)@ + decimal_digits(n as nat));
}

/// The text shown for a length of `um` micrometres, such as `0.126 m`.
pub fn format_length(um: i128) -> (r: Vec<u8>)
    ensures
        r@ == length_text(um as int),
{
    let magnitude: u128 = if um < 0 {
        (0i128 - (um + 1)) as u128 + 1
    } else {
        um as u128
    };
    let mm: u128 = (magnitude + 500) / 1000;
    let mut out: Vec<u8> = Vec::new();
    if um < 0 {
        out.push(45u8);
    }
    push_decimal(mm / 1000, &mut out);
    out.push(46u8);
    out.push(48u8 + ((mm / 100) % 10) as u8);
    out.push(48u8 + ((mm / 10) % 10) as u8);
    out.push(48u8 + (mm % 10) as u8);
    out.push(32u8);
    out.push(109u8);
    assert(out@ =~= length_text(um as int));
    out
}

/// Queues on `display` the steps that show `text` on the second row.
pub fn redraw(display: &mut Display, text: &[u8])
    requires
        text@.len() < usize::MAX,
    ensures
        final(display)@.cpu_clk_hz == old(display)@.cpu_clk_hz,
        final(display)@.pending == old(display)@.pending + redraw_steps(text@),
{
    let blank: Vec<u8> = vec![32u8; text.len() + 1];
    let _ = display.set_cursor_position(1, 0);
    display.write_bytes(blank.as_slice());
    let _ = display.set_cursor_position(1, 0);
    display.write_bytes(text);
    assert(blank@ =~= spaces(text@.len() + 1));
    assert(display@.pending =~= old(display)@.pending + redraw_steps(text@));
}

/// The abstract state of a [`Controller`].
pub struct ControllerState {
    pub length: LengthState,
    pub current_count: u32,
    pub direction: Direction,
}

/// Whether an `i64` accumulator can take `delta` more pulses.
pub open spec fn fits_position(position: int, delta: int) -> bool {
    i64::MIN <= position + delta <= i64::MAX
}

/// The state of the measuring loop: the length accumulator, the last counter
/// reading it has taken in, and the direction indicator.
pub struct Controller {
    length: CountedLength,
    current_count: u32,
    direction: Direction,
}

impl View for Controller {
    type V = ControllerState;

    closed spec fn view(&self) -> ControllerState {
        ControllerState {
            length: self.length@,
            current_count: self.current_count,
            direction: self.direction,
        }
    }
}

impl Controller {
    /// A loop at length zero that takes `initial_count` as its first counter
    /// reading. The indicator starts in the counter-clockwise state.
    pub fn new(radius_um: u32, pulses_per_revolution: u32, initial_count: u32) -> (r: Controller)
        requires
            radius_um > 0,
            pulses_per_revolution > 0,
        ensures
            r@.length == (LengthState {
                position: 0,
                radius_um: radius_um as nat,
                pulses_per_revolution: pulses_per_revolution as nat,
            }),
            r@.current_count == initial_count,
            r@.direction == Direction::CounterClockwise,
    {
        Controller {
            length: CountedLength::new(radius_um, pulses_per_revolution),
            current_count: initial_count,
            direction: Direction::CounterClockwise,
        }
    }

    /// The length accumulator.
    pub fn length(&self) -> (r: &CountedLength)
        ensures
            r@ == self@.length,
    {
        &self.length
    }

    /// The last counter reading taken in.
    pub fn current_count(&self) -> (r: u32)
        ensures
            r == self@.current_count,
    {
        self.current_count
    }

    /// The direction indicator.
    pub fn direction(&self) -> (r: Direction)
        ensures
            r == self@.direction,
    {
        self.direction
    }

    /// One pass of the loop, given the counter reading and whether a reset was
    /// requested since the last pass.
    ///
    /// A reset request sets the length to zero and leaves the counter reading
    /// to the next pass. Otherwise a new reading adds the wrapped difference
    /// to the length (unless the accumulator would leave the range of an
    /// `i64`) and sets the indicator from its sign. Whenever either happens,
    /// the text for the new length is returned; when neither does, nothing
    /// changes and `None` is returned.
    pub fn poll(&mut self, new_count: u32, reset_requested: bool) -> (r: Option<Vec<u8>>)
        ensures
            reset_requested ==> final(self)@ == (ControllerState {
                length: LengthState { position: 0, ..old(self)@.length },
                ..old(self)@
            }),
            !reset_requested && new_count != old(self)@.current_count ==> {
                let delta = count_delta(new_count, old(self)@.current_count);
                &&& final(self)@.current_count == new_count
                &&& final(self)@.length == if fits_position(old(self)@.length.position, delta) {
                    old(self)@.length.updated(delta)
                } else {
                    old(self)@.length
                }
                &&& final(self)@.direction == if delta > 0 {
                    Direction::Clockwise
                } else {
                    Direction::CounterClockwise
                }
            },
            !reset_requested && new_count == old(self)@.current_count ==> final(self)@ == old(self)@,
            r is Some <==> reset_requested || new_count != old(self)@.current_count,
            r is Some ==> r->0@ == length_text(final(self)@.length.length()),
    {
        if !reset_requested && new_count == self.current_count {
            return None;
        }
        if reset_requested {
            self.length.reset();
        } else {
            let difference: i64 = new_count as i64 - self.current_count as i64;
            let delta: i32 = if difference > i32::MAX as i64 {
                (difference - 0x1_0000_0000i64) as i32
            } else if difference < i32::MIN as i64 {
                (difference + 0x1_0000_0000i64) as i32
            } else {
                difference as i32
            };
            self.current_count = new_count;
            let position: i64 = self.length.position();
            if (delta < 0 && position >= i64::MIN - delta as i64) || (delta >= 0 && position
                <= i64::MAX - delta as i64) {
                self.length.update_with_difference(delta);
            }
            self.direction = if delta > 0 {
                Direction::Clockwise
            } else {
                Direction::CounterClockwise
            };
        }
        Some(format_length(self.length.get_length()))
    }
}

} // verus!
