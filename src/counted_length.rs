//! Accumulation of signed encoder pulses and their conversion into a length.
//!
//! Lengths are integers in micrometres. A full revolution of the measuring
//! wheel is `REV_NUM / REV_DEN` (that is 2π to eight digits) times the wheel
//! radius.
use vstd::prelude::*;
use vstd::arithmetic::div_mod::{lemma_fundamental_div_mod, lemma_mod_bound};

verus! {

/// Numerator of the fixed-point factor 2π used for one revolution.
pub const REV_NUM: u64 = 62831853;

/// Denominator of the fixed-point factor 2π used for one revolution.
pub const REV_DEN: u64 = 10000000;

/// Absolute value of an integer.
pub open spec fn abs(x: int) -> int {
    if x < 0 { -x } else { x }
}

/// Length in micrometres travelled by `pulses` encoder pulses on a wheel of
/// radius `radius_um`, with `ppr` pulses per revolution:
/// `2π · (pulses / ppr) · radius`, truncated toward zero.
pub open spec fn pulses_to_micrometres(pulses: int, radius_um: nat, ppr: nat) -> int
    recommends
        ppr > 0,
{
    let magnitude = abs(pulses) * (REV_NUM as int) * (radius_um as int) / ((ppr as int) * (
    REV_DEN as int));
    if pulses < 0 {
        -magnitude
    } else {
        magnitude
    }
}

/// The abstract state of a [`CountedLength`].
pub struct LengthState {
    pub position: int,
    pub radius_um: nat,
    pub pulses_per_revolution: nat,
}

impl LengthState {
    /// The same accumulator after one encoder delta.
    pub open spec fn updated(self, delta: int) -> LengthState {
        LengthState { position: self.position + delta, ..self }
    }

    /// The same accumulator after a sequence of encoder deltas, in order.
    pub open spec fn updated_all(self, deltas: Seq<i32>) -> LengthState
        decreases deltas.len(),
    {
        if deltas.len() == 0 {
            self
        } else {
            self.updated_all(deltas.drop_last()).updated(deltas.last() as int)
        }
    }

    /// The length in micrometres that this state stands for.
    pub open spec fn length(self) -> int {
        pulses_to_micrometres(self.position, self.radius_um, self.pulses_per_revolution)
    }
}

/// Sum of a sequence of encoder deltas.
pub open spec fn sum_of(deltas: Seq<i32>) -> int
    decreases deltas.len(),
{
    if deltas.len() == 0 {
        0
    } else {
        sum_of(deltas.drop_last()) + deltas.last() as int
    }
}

/// Accumulated encoder position together with the wheel geometry.
pub struct CountedLength {
    position: i64,
    radius_um: u32,
    pulses_per_revolution: u32,
}

impl View for CountedLength {
    type V = LengthState;

    closed spec fn view(&self) -> LengthState {
        LengthState {
            position: self.position as int,
            radius_um: self.radius_um as nat,
            pulses_per_revolution: self.pulses_per_revolution as nat,
        }
    }
}

impl CountedLength {
    #[verifier::type_invariant]
    spec fn geometry_is_valid(self) -> bool {
        self.radius_um > 0 && self.pulses_per_revolution > 0
    }

    /// A fresh accumulator at position zero for a wheel of radius `radius_um`
    /// micrometres and an encoder of `pulses_per_revolution` pulses.
    pub fn new(radius_um: u32, pulses_per_revolution: u32) -> (r: CountedLength)
        requires
            radius_um > 0,
            pulses_per_revolution > 0,
        ensures
            r@ == (LengthState {
                position: 0,
                radius_um: radius_um as nat,
                pulses_per_revolution: pulses_per_revolution as nat,
            }),
    {
        CountedLength { position: 0, radius_um, pulses_per_revolution }
    }

    /// Sets the accumulated position back to zero; the geometry is kept.
    pub fn reset(&mut self)
        ensures
            final(self)@ == (LengthState { position: 0, ..old(self)@ }),
    {
        proof {
            use_type_invariant(&*self);
        }
        self.position = 0;
    }

    /// Adds one signed encoder delta to the accumulated position.
    pub fn update_with_difference(&mut self, difference: i32)
        requires
            i64::MIN <= old(self)@.position + difference <= i64::MAX,
        ensures
            final(self)@ == old(self)@.updated(difference as int),
    {
        proof {
            use_type_invariant(&*self);
        }
        self.position = self.position + difference as i64;
    }

    /// The accumulated position in pulses.
    pub fn position(&self) -> (r: i64)
        ensures
            r == self@.position,
    {
        self.position
    }

    /// The wheel radius in micrometres.
    pub fn radius_um(&self) -> (r: u32)
        ensures
            r == self@.radius_um,
            r > 0,
    {
        proof {
            use_type_invariant(self);
        }
        self.radius_um
    }

    /// The encoder resolution in pulses per revolution.
    pub fn pulses_per_revolution(&self) -> (r: u32)
        ensures
            r == self@.pulses_per_revolution,
            r > 0,
    {
        proof {
            use_type_invariant(self);
        }
        self.pulses_per_revolution
    }

    fn pulses_to_micrometres(&self, pulses: i64) -> (r: i128)
        ensures
            r == pulses_to_micrometres(pulses as int, self@.radius_um, self@.pulses_per_revolution),
    {
        proof {
            use_type_invariant(self);
        }
        let magnitude: u128 = if pulses < 0 {
            (0i128 - pulses as i128) as u128
        } else {
            pulses as u128
        };
        let radius: u128 = self.radius_um as u128;
        assert(magnitude * (REV_NUM as u128) <= 0x8000_0000_0000_0000u128 * 0x400_0000u128)
            by (nonlinear_arith)
            requires
                magnitude <= 0x8000_0000_0000_0000u128,
                REV_NUM <= 0x400_0000u128,
        ;
        let scaled: u128 = magnitude * (REV_NUM as u128);
        assert(scaled * radius <= 0x8000_0000_0000_0000u128 * 0x400_0000u128 * 0x1_0000_0000u128)
            by (nonlinear_arith)
            requires
                scaled <= 0x8000_0000_0000_0000u128 * 0x400_0000u128,
                radius < 0x1_0000_0000u128,
        ;
        let numerator: u128 = scaled * radius;
        assert(numerator == abs(pulses as int) * (REV_NUM as int) * (self@.radius_um as int));
        let ppr: u128 = self.pulses_per_revolution as u128;
        assert(ppr * (REV_DEN as u128) <= 0x1_0000_0000u128 * 0x1_0000_0000u128) by (nonlinear_arith)
            requires
                ppr < 0x1_0000_0000u128,
                REV_DEN < 0x1_0000_0000u128,
        ;
        let denominator: u128 = ppr * (REV_DEN as u128);
        assert(denominator >= 1) by (nonlinear_arith)
            requires
                ppr >= 1,
                REV_DEN >= 1,
                denominator == ppr * (REV_DEN as u128),
        ;
        let quotient: u128 = numerator / denominator;
        assert(quotient <= numerator) by (nonlinear_arith)
            requires
                denominator >= 1,
                quotient == numerator / denominator,
        ;
        if pulses < 0 {
            0i128 - quotient as i128
        } else {
            quotient as i128
        }
    }

    /// The length travelled, in micrometres:
    /// `2π · (position / pulses_per_revolution) · radius`, truncated toward zero.
    pub fn get_length(&self) -> (r: i128)
        ensures
            r == self@.length(),
    {
        self.pulses_to_micrometres(self.position)
    }
}

/// Applying deltas one by one moves the position by their sum; starting from
/// zero, the length is that of the summed pulses, whatever the steps were.
pub proof fn lemma_length_after_deltas(start: LengthState, deltas: Seq<i32>)
    ensures
        start.updated_all(deltas).position == start.position + sum_of(deltas),
        start.updated_all(deltas).radius_um == start.radius_um,
        start.updated_all(deltas).pulses_per_revolution == start.pulses_per_revolution,
        start.position == 0 ==> start.updated_all(deltas).length() == pulses_to_micrometres(
            sum_of(deltas),
            start.radius_um,
            start.pulses_per_revolution,
        ),
    decreases deltas.len(),
{
    if deltas.len() > 0 {
        lemma_length_after_deltas(start, deltas.drop_last());
    }
}

/// Splitting a sequence of deltas into two runs changes nothing: the second
/// run continues from where the first one ended.
pub proof fn lemma_deltas_grouping(start: LengthState, first: Seq<i32>, second: Seq<i32>)
    ensures
        start.updated_all(first + second) == start.updated_all(first).updated_all(second),
    decreases second.len(),
{
    if second.len() == 0 {
        assert(first + second =~= first);
    } else {
        lemma_deltas_grouping(start, first, second.drop_last());
        assert((first + second).drop_last() =~= first + second.drop_last());
        assert((first + second).last() == second.last());
    }
}

/// After a reset the length is exactly zero, whatever the state before.
pub proof fn lemma_reset_length_is_zero(state: LengthState)
    requires
        state.pulses_per_revolution > 0,
    ensures
        (LengthState { position: 0, ..state }).length() == 0,
{
    let d = (state.pulses_per_revolution as int) * (REV_DEN as int);
    assert(d > 0) by (nonlinear_arith)
        requires
            state.pulses_per_revolution > 0,
            d == (state.pulses_per_revolution as int) * (REV_DEN as int),
    ;
    assert(0 * (REV_NUM as int) * (state.radius_um as int) == 0) by (nonlinear_arith);
    assert(0int / d == 0);
}

/// A zero delta leaves the state, and so the length, unchanged.
pub proof fn lemma_zero_delta_is_identity(state: LengthState)
    ensures
        state.updated(0) == state,
        state.updated(0).length() == state.length(),
{
    assert(state.updated(0) =~= state);
}

/// One reverse revolution takes exactly one circumference `2π · radius` off
/// the exact length: scaled by `pulses_per_revolution · REV_DEN`, the length
/// drops by `pulses_per_revolution · REV_NUM · radius`. While the position
/// stays non-negative, the reported length (truncated to micrometres) drops by
/// the circumference in micrometres rounded down or rounded up.
pub proof fn lemma_reverse_revolution(state: LengthState)
    requires
        state.pulses_per_revolution > 0,
    ensures
        ({
            let after = state.updated(-(state.pulses_per_revolution as int));
            let r = state.radius_um as int;
            let q = state.pulses_per_revolution as int;
            &&& after.position * (REV_NUM as int) * r == state.position * (REV_NUM as int) * r - q
                * (REV_NUM as int) * r
            &&& state.position >= q ==> {
                let drop = state.length() - after.length();
                let circumference = (REV_NUM as int) * r / (REV_DEN as int);
                circumference <= drop <= circumference + 1
            }
        }),
{
    let r = state.radius_um as int;
    let q = state.pulses_per_revolution as int;
    let k = REV_NUM as int;
    let dn = REV_DEN as int;
    let p = state.position;
    assert((p - q) * k * r == p * k * r - q * k * r) by (nonlinear_arith);
    if p >= q {
        let after = state.updated(-q);
        let d = q * dn;
        let x = p * k * r;
        let c = q * k * r;
        let a = x / d;
        let m = k * r / dn;
        let t = k * r % dn;
        assert(d > 0) by (nonlinear_arith)
            requires
                q > 0,
                dn > 0,
                d == q * dn,
        ;
        assert(x >= c && c >= 0 && r >= 0) by (nonlinear_arith)
            requires
                p >= q,
                q > 0,
                k > 0,
                r >= 0,
                x == p * k * r,
                c == q * k * r,
        ;
        assert(k * r == m * dn + t && 0 <= t < dn);
        assert(c == m * d + q * t) by (nonlinear_arith)
            requires
                k * r == m * dn + t,
                c == q * k * r,
                d == q * dn,
        ;
        assert(0 <= q * t < d) by (nonlinear_arith)
            requires
                0 <= t < dn,
                q > 0,
                d == q * dn,
        ;
        lemma_fundamental_div_mod(x, d);
        lemma_mod_bound(x, d);
        assert(x == a * d + x % d) by (nonlinear_arith)
            requires
                x == d * (x / d) + (x % d),
                a == x / d,
        ;
        let y = x - c;
        assert(y == (a - m) * d + (x % d - q * t)) by (nonlinear_arith)
            requires
                y == x - c,
                x == a * d + x % d,
                c == m * d + q * t,
        ;
        assert(after.position == p - q);
        assert(abs(p) == p && abs(p - q) == p - q);
        assert(after.length() == y / d) by {
            assert(abs(p - q) * k * r == y);
        }
        if x % d >= q * t {
            assert(y / d == a - m) by (nonlinear_arith)
                requires
                    y == (a - m) * d + (x % d - q * t),
                    0 <= x % d - q * t < d,
            ;
        } else {
            assert(y == (a - m - 1) * d + (x % d - q * t + d)) by (nonlinear_arith)
                requires
                    y == (a - m) * d + (x % d - q * t),
            ;
            assert(y / d == a - m - 1) by (nonlinear_arith)
                requires
                    y == (a - m - 1) * d + (x % d - q * t + d),
                    0 <= x % d - q * t + d < d,
            ;
        }
    }
}

} // verus!
