//! Temperature conversion and the telemetry line `<timestampMs>,<whole>.<two digits>\n`.
use vstd::prelude::*;
use crate::mailbox::Measurement;

verus! {

/// The ASCII digit for `d` in `0..10`.
pub open spec fn digit(d: int) -> u8 {
    (48 + d) as u8
}

/// Decimal digits of `n`, most significant first, without leading zeros.
pub open spec fn decimal(n: nat) -> Seq<u8>
    decreases n,
{
    if n < 10 {
        seq![digit(n as int)]
    } else {
        decimal(n / 10).push(digit((n % 10) as int))
    }
}

pub open spec fn abs(x: int) -> int {
    if x < 0 { -x } else { x }
}

/// A value in hundredths written as degrees with two decimals, `-` first
/// when negative: `9860` is `98.60`, `-5` is `-0.05`.
pub open spec fn fixed_two(hundredths: int) -> Seq<u8> {
    let a = abs(hundredths);
    let sign: Seq<u8> = if hundredths < 0 { seq![45u8] } else { seq![] };
    sign + decimal((a / 100) as nat) + seq![46u8, digit(a % 100 / 10), digit(a % 10)]
}

/// The telemetry line for a timestamp and a temperature in hundredths.
pub open spec fn line_of(timestamp_ms: nat, hundredths: int) -> Seq<u8> {
    decimal(timestamp_ms) + seq![44u8] + fixed_two(hundredths) + seq![10u8]
}

/// Appends the decimal digits of `n`.
fn push_decimal(out: &mut Vec<u8>, n: u64)
    ensures
        final(out)@ == old(out)@ + decimal(n as nat),
    decreases n,
{
    if n < 10 {
        out.push(48u8 + n as u8);
    } else {
        push_decimal(out, n / 10);
        out.push(48u8 + (n % 10) as u8);
        assert(final(out)@ =~= old(out)@ + decimal(n as nat));
    }
}

/// The line `<timestamp_ms>,<whole>.<two digits>\n` for a temperature given
/// in hundredths of a degree.
pub fn format_reading(timestamp_ms: u32, hundredths: i64) -> (r: Vec<u8>)
    ensures
        r@ == line_of(timestamp_ms as nat, hundredths as int),
{
    let mut out: Vec<u8> = Vec::new();
    push_decimal(&mut out, timestamp_ms as u64);
    out.push(44u8);
    let a: u64 = if hundredths < 0 {
        (-(hundredths + 1)) as u64 + 1
    } else {
        hundredths as u64
    };
    assert(a == abs(hundredths as int));
    if hundredths < 0 {
        out.push(45u8);
    }
    push_decimal(&mut out, a / 100);
    out.push(46u8);
    out.push(48u8 + (a % 100 / 10) as u8);
    out.push(48u8 + (a % 10) as u8);
    out.push(10u8);
    assert(out@ =~= line_of(timestamp_ms as nat, hundredths as int));
    out
}

/// The line for a measurement, its temperature written as it stands in
/// tenths: `{ temperature_tenths: 986, timestamp_ms: 103500 }` gives
/// `103500,98.60\n`.
pub fn format_line(m: &Measurement) -> (r: Vec<u8>)
    ensures
        r@ == line_of(m.timestamp_ms as nat, m.temperature_tenths as int * 10),
{
    format_reading(m.timestamp_ms, m.temperature_tenths as i64 * 10)
}

/// Hundredths of a degree Fahrenheit for tenths of a degree Celsius:
/// `F = C * 1.8 + 32` is exact in these units.
pub open spec fn fahrenheit_hundredths(celsius_tenths: int) -> int {
    celsius_tenths * 18 + 3200
}

/// Division rounded toward zero, for a positive divisor.
pub open spec fn div_toward_zero(a: int, b: int) -> int {
    if a >= 0 { a / b } else { -((-a) / b) }
}

/// Linear correction applied to the converted reading before it is written:
/// `value * factor_num / factor_den + offset_hundredths`, the division
/// rounding toward zero.
#[derive(Clone, Copy, Debug, PartialEq, Eq, Structural)]
pub struct Calibration {
    pub factor_num: i32,
    pub factor_den: i32,
    pub offset_hundredths: i32,
}

impl Calibration {
    pub open spec fn wf(self) -> bool {
        self.factor_den > 0
    }

    pub open spec fn apply(self, hundredths: int) -> int {
        div_toward_zero(hundredths * self.factor_num, self.factor_den as int) + self.offset_hundredths
    }

    /// No correction: factor one, offset zero.
    pub fn identity() -> (r: Calibration)
        ensures
            r.wf(),
            forall|h: int| #[trigger] r.apply(h) == h,
    {
        Calibration { factor_num: 1, factor_den: 1, offset_hundredths: 0 }
    }

    /// The calibrated temperature in hundredths of a degree Fahrenheit for a
    /// sensor reading in tenths of a degree Celsius.
    pub fn display_hundredths(&self, celsius_tenths: i16) -> (r: i64)
        requires
            self.wf(),
        ensures
            r == self.apply(fahrenheit_hundredths(celsius_tenths as int)),
    {
        let f: i64 = celsius_tenths as i64 * 18 + 3200;
        assert(-0x10_0000 < f < 0x10_0000);
        assert(-0x10_0000 * 0x8000_0000 <= f * self.factor_num <= 0x10_0000 * 0x8000_0000) by (nonlinear_arith)
            requires
                -0x10_0000 < f < 0x10_0000,
                -0x8000_0000 <= self.factor_num < 0x8000_0000,
        ;
        let scaled: i64 = f * self.factor_num as i64;
        let den: i64 = self.factor_den as i64;
        let q: i64 = if scaled >= 0 {
            scaled / den
        } else {
            -((-scaled) / den)
        };
        proof {
            if scaled >= 0 {
                vstd::arithmetic::div_mod::lemma_div_pos_is_pos(scaled as int, den as int);
                vstd::arithmetic::div_mod::lemma_div_is_ordered_by_denominator(scaled as int, 1, den as int);
            } else {
                vstd::arithmetic::div_mod::lemma_div_pos_is_pos(-scaled as int, den as int);
                vstd::arithmetic::div_mod::lemma_div_is_ordered_by_denominator(-scaled as int, 1, den as int);
            }
        }
        q + self.offset_hundredths as i64
    }
}

/// The line the main loop sends for a taken measurement: the reading
/// converted to Fahrenheit, calibrated, and written with two decimals.
pub fn render_line(m: &Measurement, cal: &Calibration) -> (r: Vec<u8>)
    requires
        cal.wf(),
    ensures
        r@ == line_of(m.timestamp_ms as nat, cal.apply(fahrenheit_hundredths(m.temperature_tenths as int))),
{
    let h = cal.display_hundredths(m.temperature_tenths);
    format_reading(m.timestamp_ms, h)
}

} // verus!
