//! The exchange-agnostic identity of a tradable thing.

use crate::text::{
    decimal, decimal_text, digit, digit_text, lemma_text_before_irreflexive,
    lemma_text_before_total, lemma_text_before_transitive, lowercase, text_before, text_precedes,
    to_lowercase,
};
use vstd::prelude::*;
use vstd::string::*;

verus! {

/// A currency symbol such as "btc" or "usdt", kept in lowercase.
#[derive(Debug)]
pub struct Symbol {
    text: String,
}

impl View for Symbol {
    type V = Seq<char>;

    closed spec fn view(&self) -> Seq<char> {
        self.text@
    }
}

impl Clone for Symbol {
    fn clone(&self) -> (copy: Self)
        ensures
            copy == *self,
    {
        Symbol { text: self.text.clone() }
    }
}

impl Symbol {
    /// Makes a symbol from any spelling of it: the symbol holds the lowercase
    /// form.
    pub fn new(input: &str) -> (symbol: Self)
        ensures
            symbol@ == lowercase(input@),
    {
        Symbol { text: to_lowercase(input) }
    }

    /// The symbol's text.
    pub fn as_str(&self) -> (text: &str)
        ensures
            text@ == self@,
    {
        self.text.as_str()
    }
}

/// Whether an option gives the right to buy or to sell.
#[derive(Clone, Copy, Debug, PartialEq, Eq, Structural)]
pub enum OptionKind {
    Call,
    Put,
}

/// When an option may be exercised.
#[derive(Clone, Copy, Debug, PartialEq, Eq, Structural)]
pub enum OptionExercise {
    American,
    Bermudan,
    European,
}

/// The instant at which a contract expires, in UTC: a calendar date and the
/// milliseconds since midnight of that day.
#[derive(Clone, Copy, Debug, PartialEq, Eq, Structural)]
pub struct Expiry {
    pub year: u16,
    pub month: u8,
    pub day: u8,
    pub millis: u32,
}

/// A future contract.
#[derive(Clone, Copy, Debug, PartialEq, Eq, Structural)]
pub struct FutureContract {
    pub expiry: Expiry,
}

/// An option contract: `strike` is the strike price in units of one hundred
/// millionth (see [`STRIKE_UNITS`]).
#[derive(Clone, Copy, Debug, PartialEq, Eq, Structural)]
pub struct OptionContract {
    pub kind: OptionKind,
    pub exercise: OptionExercise,
    pub expiry: Expiry,
    pub strike: u64,
}

/// How many units of [`OptionContract::strike`] make a strike price of one.
pub const STRIKE_UNITS: u64 = 100_000_000;

/// The kind of instrument traded on a base/quote market.
#[derive(Clone, Copy, Debug, PartialEq, Eq, Structural)]
pub enum InstrumentKind {
    Spot,
    Future(FutureContract),
    Perpetual,
    Option(OptionContract),
}

/// The position of an option kind in the order of option kinds.
pub open spec fn option_kind_rank(kind: OptionKind) -> int {
    match kind {
        OptionKind::Call => 0,
        OptionKind::Put => 1,
    }
}

/// The position of an exercise style in the order of exercise styles.
pub open spec fn exercise_rank(exercise: OptionExercise) -> int {
    match exercise {
        OptionExercise::American => 0,
        OptionExercise::Bermudan => 1,
        OptionExercise::European => 2,
    }
}

/// The integers by which instrument kinds are ordered: the variant first
/// (spot, future, perpetual, option), then the contract's fields in the order
/// of their declaration.
pub open spec fn kind_key(kind: InstrumentKind) -> (int, int, int, (int, int, int, int), int) {
    match kind {
        InstrumentKind::Spot => (0, 0, 0, (0, 0, 0, 0), 0),
        InstrumentKind::Future(future) => (1, 0, 0, expiry_key(future.expiry), 0),
        InstrumentKind::Perpetual => (2, 0, 0, (0, 0, 0, 0), 0),
        InstrumentKind::Option(option) => (
            3,
            option_kind_rank(option.kind),
            exercise_rank(option.exercise),
            expiry_key(option.expiry),
            option.strike as int,
        ),
    }
}

/// The integers by which expiries are ordered: year, month, day, time of day.
pub open spec fn expiry_key(expiry: Expiry) -> (int, int, int, int) {
    (expiry.year as int, expiry.month as int, expiry.day as int, expiry.millis as int)
}

/// Dictionary order on the keys of expiries.
pub open spec fn expiry_key_before(a: (int, int, int, int), b: (int, int, int, int)) -> bool {
    a.0 < b.0 || (a.0 == b.0 && (a.1 < b.1 || (a.1 == b.1 && (a.2 < b.2 || (a.2 == b.2 && a.3
        < b.3)))))
}

/// Dictionary order on the keys of instrument kinds.
pub open spec fn key_before(
    a: (int, int, int, (int, int, int, int), int),
    b: (int, int, int, (int, int, int, int), int),
) -> bool {
    a.0 < b.0 || (a.0 == b.0 && (a.1 < b.1 || (a.1 == b.1 && (a.2 < b.2 || (a.2 == b.2 && (
    expiry_key_before(a.3, b.3) || (a.3 == b.3 && a.4 < b.4)))))))
}

/// The order of instrument kinds.
pub open spec fn kind_before(a: InstrumentKind, b: InstrumentKind) -> bool {
    key_before(kind_key(a), kind_key(b))
}

/// Two instrument kinds with the same key are the same kind.
pub proof fn lemma_kind_key_injective(a: InstrumentKind, b: InstrumentKind)
    requires
        kind_key(a) == kind_key(b),
    ensures
        a == b,
{
}

impl OptionKind {
    fn rank(&self) -> (rank: u8)
        ensures
            rank as int == option_kind_rank(*self),
    {
        match self {
            OptionKind::Call => 0,
            OptionKind::Put => 1,
        }
    }
}

impl OptionExercise {
    fn rank(&self) -> (rank: u8)
        ensures
            rank as int == exercise_rank(*self),
    {
        match self {
            OptionExercise::American => 0,
            OptionExercise::Bermudan => 1,
            OptionExercise::European => 2,
        }
    }
}

impl Expiry {
    /// True when this expiry is strictly earlier than the other.
    pub fn precedes(&self, other: &Expiry) -> (before: bool)
        ensures
            before == expiry_key_before(expiry_key(*self), expiry_key(*other)),
    {
        self.year < other.year || (self.year == other.year && (self.month < other.month || (
        self.month == other.month && (self.day < other.day || (self.day == other.day
            && self.millis < other.millis)))))
    }

    /// The date of expiry as six digits: the last two of the year, the month
    /// and the day.
    pub fn code(&self) -> (code: String)
        ensures
            code@ == date_code(*self),
    {
        let year: u64 = (self.year % 100) as u64;
        let month: u64 = self.month as u64;
        let day: u64 = self.day as u64;
        let mut code = String::from_str(digit_text(year / 10));
        code.append(digit_text(year % 10));
        code.append(digit_text((month / 10) % 10));
        code.append(digit_text(month % 10));
        code.append(digit_text((day / 10) % 10));
        code.append(digit_text(day % 10));
        assert(code@ =~= date_code(*self));
        code
    }
}

/// A number below one hundred as two digits.
pub open spec fn two_digits(n: nat) -> Seq<char> {
    seq![digit((n / 10) % 10), digit(n % 10)]
}

/// The date of an expiry as six digits: the last two of the year, the month
/// and the day.
pub open spec fn date_code(expiry: Expiry) -> Seq<char> {
    two_digits((expiry.year % 100) as nat) + two_digits(expiry.month as nat) + two_digits(
        expiry.day as nat,
    )
}

impl InstrumentKind {
    /// True when this kind sorts strictly before the other.
    pub fn precedes(&self, other: &InstrumentKind) -> (before: bool)
        ensures
            before == kind_before(*self, *other),
    {
        match (self, other) {
            (InstrumentKind::Future(a), InstrumentKind::Future(b)) => a.expiry.precedes(&b.expiry),
            (InstrumentKind::Option(a), InstrumentKind::Option(b)) => {
                let a_kind = a.kind.rank();
                let b_kind = b.kind.rank();
                let a_style = a.exercise.rank();
                let b_style = b.exercise.rank();
                a_kind < b_kind || (a_kind == b_kind && (a_style < b_style || (a_style == b_style
                    && (a.expiry.precedes(&b.expiry) || (a.expiry == b.expiry && a.strike
                    < b.strike)))))
            },
            _ => self.rank() < other.rank(),
        }
    }

    fn rank(&self) -> (rank: u8)
        ensures
            rank as int == kind_key(*self).0,
    {
        match self {
            InstrumentKind::Spot => 0,
            InstrumentKind::Future(_) => 1,
            InstrumentKind::Perpetual => 2,
            InstrumentKind::Option(_) => 3,
        }
    }
}

/// The digits of `rest / scale` and below, down to the last one that is not
/// zero: the fractional part of a fixed-point number whose remaining fraction
/// is `rest` in units of which `10 * scale` make one.
pub open spec fn fraction_digits(rest: nat, scale: nat) -> Seq<char>
    decreases scale,
{
    if rest == 0 || scale == 0 {
        Seq::<char>::empty()
    } else {
        seq![digit(rest / scale)] + fraction_digits(rest % scale, scale / 10)
    }
}

/// The decimal numeral of a strike price: the whole part, then, where the
/// price is not whole, a point and the fractional digits down to the last one
/// that is not zero.
pub open spec fn strike_numeral(strike: nat) -> Seq<char> {
    let whole = strike / (STRIKE_UNITS as nat);
    let rest = strike % (STRIKE_UNITS as nat);
    if rest == 0 {
        decimal(whole)
    } else {
        decimal(whole) + seq!['.'] + fraction_digits(rest, (STRIKE_UNITS / 10) as nat)
    }
}

/// Renders a strike price as its decimal numeral.
pub fn strike_text(strike: u64) -> (text: String)
    ensures
        text@ == strike_numeral(strike as nat),
{
    let whole: u64 = strike / STRIKE_UNITS;
    let mut rest: u64 = strike % STRIKE_UNITS;
    let mut text = decimal_text(whole);
    if rest == 0 {
        return text;
    }
    text.append(".");
    proof {
        reveal_strlit(".");
    }
    let mut scale: u64 = STRIKE_UNITS / 10;
    let ghost head = text@;
    let ghost tail = fraction_digits(rest as nat, scale as nat);
    assert(head + tail =~= strike_numeral(strike as nat));
    while rest != 0 && scale != 0
        invariant
            rest < 10 * scale || scale == 0,
            scale == 10_000_000 || scale == 1_000_000 || scale == 100_000 || scale == 10_000
                || scale == 1_000 || scale == 100 || scale == 10 || scale == 1 || scale == 0,
            text@ + fraction_digits(rest as nat, scale as nat) == strike_numeral(strike as nat),
        decreases scale,
    {
        let ghost before = text@;
        let d: u64 = rest / scale;
        assert(d < 10) by (nonlinear_arith)
            requires
                d == rest / scale,
                rest < 10 * scale,
                scale > 0,
        ;
        text.append(digit_text(d));
        rest = rest % scale;
        scale = scale / 10;
        proof {
            assert(text@ + fraction_digits(rest as nat, scale as nat) =~= before + (seq![
                digit(d as nat),
            ] + fraction_digits(rest as nat, scale as nat)));
        }
    }
    proof {
        assert(fraction_digits(rest as nat, scale as nat) =~= Seq::<char>::empty());
        assert(text@ + Seq::<char>::empty() =~= text@);
    }
    text
}

/// Ten to the power of `n`.
pub open spec fn pow10(n: nat) -> nat
    decreases n,
{
    if n == 0 {
        1
    } else {
        10 * pow10((n - 1) as nat)
    }
}

/// True when `units` is the strike price `mantissa / 10^scale` in units of
/// one hundred millionth.
pub open spec fn is_strike(units: nat, mantissa: int, scale: nat) -> bool {
    units * pow10(scale) == mantissa * STRIKE_UNITS
}

proof fn lemma_pow10_positive(n: nat)
    ensures
        pow10(n) >= 1,
    decreases n,
{
    if n > 0 {
        lemma_pow10_positive((n - 1) as nat);
    }
}

proof fn lemma_pow10_adds(a: nat, b: nat)
    ensures
        pow10(a + b) == pow10(a) * pow10(b),
    decreases a,
{
    if a > 0 {
        lemma_pow10_adds((a - 1) as nat, b);
        assert(pow10(a + b) == 10 * pow10((a - 1 + b) as nat));
        assert(10 * (pow10((a - 1) as nat) * pow10(b)) == (10 * pow10((a - 1) as nat)) * pow10(b))
            by (nonlinear_arith);
    } else {
        assert(1 * pow10(b) == pow10(b));
    }
}

proof fn lemma_pow10_eight()
    ensures
        pow10(8) == STRIKE_UNITS,
{
    reveal_with_fuel(pow10, 9);
}

proof fn lemma_cancel(a: int, b: int, p: int)
    requires
        p > 0,
        a * p == b * p,
    ensures
        a == b,
{
    assert(a == b) by (nonlinear_arith)
        requires
            p > 0,
            a * p == b * p,
    ;
}

/// A price with a digit behind the eighth decimal place is no strike: where
/// `value`, which is `mantissa` without its last `dropped` digits, still has
/// decimal places beyond the eighth and does not end in zero, no units stand
/// for it.
proof fn lemma_too_fine(units: nat, mantissa: int, scale: nat, value: int, dropped: nat)
    requires
        value * pow10(dropped) == mantissa,
        dropped + 8 < scale,
        value % 10 != 0,
    ensures
        !is_strike(units, mantissa, scale),
{
    lemma_pow10_eight();
    if is_strike(units, mantissa, scale) {
        let beyond = (scale - dropped - 8) as nat;
        let kept = pow10(dropped) * pow10(8);
        lemma_pow10_positive(dropped);
        lemma_pow10_positive(8);
        lemma_pow10_adds(dropped, 8);
        lemma_pow10_adds(dropped + 8, beyond);
        assert(dropped + 8 + beyond == scale);
        assert(pow10(scale) == kept * pow10(beyond));
        assert(kept > 0) by (nonlinear_arith)
            requires
                kept == pow10(dropped) * pow10(8),
                pow10(dropped) >= 1,
                pow10(8) >= 1,
        ;
        assert((units * pow10(beyond)) * kept == value * kept) by (nonlinear_arith)
            requires
                units * pow10(scale) == mantissa * pow10(8),
                pow10(scale) == kept * pow10(beyond),
                value * pow10(dropped) == mantissa,
                kept == pow10(dropped) * pow10(8),
        ;
        lemma_cancel((units * pow10(beyond)) as int, value, kept as int);
        assert(pow10(beyond) == 10 * pow10((beyond - 1) as nat));
        assert(value == 10 * (units * pow10((beyond - 1) as nat))) by (nonlinear_arith)
            requires
                units * pow10(beyond) == value,
                pow10(beyond) == 10 * pow10((beyond - 1) as nat),
        ;
        assert(false);
    }
}

/// Two numbers of units that stand for the same price are the same.
proof fn lemma_strike_is_unique(units: nat, other: nat, mantissa: int, scale: nat)
    requires
        is_strike(units, mantissa, scale),
        is_strike(other, mantissa, scale),
    ensures
        units == other,
{
    lemma_pow10_positive(scale);
    lemma_cancel(units as int, other as int, pow10(scale) as int);
}

/// The strike price `mantissa / 10^scale` in units of one hundred millionth
/// (see [`STRIKE_UNITS`]), or `None` where no number of units stands for the
/// price: where the price is negative, has a digit other than zero behind the
/// eighth decimal place, or is too large.
pub fn strike_units(mantissa: i128, scale: u32) -> (units: Option<u64>)
    ensures
        match units {
            Some(units) => is_strike(units as nat, mantissa as int, scale as nat),
            None => forall|units: nat|
                units <= u64::MAX ==> !is_strike(units, mantissa as int, scale as nat),
        },
{
    proof {
        lemma_pow10_eight();
    }
    if mantissa < 0 {
        proof {
            assert forall|units: nat| units <= u64::MAX implies !is_strike(
                units,
                mantissa as int,
                scale as nat,
            ) by {
                lemma_pow10_positive(scale as nat);
                lemma_pow10_positive(8);
                assert(units * pow10(scale as nat) >= 0) by (nonlinear_arith)
                    requires
                        units >= 0,
                        pow10(scale as nat) >= 1,
                ;
                assert(mantissa * pow10(8) < 0) by (nonlinear_arith)
                    requires
                        mantissa < 0,
                        pow10(8) >= 1,
                ;
            }
        }
        return None;
    }
    let mut value: i128 = mantissa;
    let mut places: u32 = scale;
    proof {
        assert(pow10(0) == 1);
        assert(value * 1 == mantissa);
    }
    while places > 8 && value != 0
        invariant
            0 <= value <= mantissa,
            places <= scale,
            scale <= 8 ==> places == scale,
            scale > 8 ==> places >= 8,
            value * pow10((scale - places) as nat) == mantissa,
        decreases places,
    {
        if value % 10 != 0 {
            proof {
                assert forall|units: nat| units <= u64::MAX implies !is_strike(
                    units,
                    mantissa as int,
                    scale as nat,
                ) by {
                    lemma_too_fine(
                        units,
                        mantissa as int,
                        scale as nat,
                        value as int,
                        (scale - places) as nat,
                    );
                }
            }
            return None;
        }
        proof {
            let dropped = (scale - places) as nat;
            assert(pow10(dropped + 1) == 10 * pow10(dropped));
            assert((value / 10) * pow10(dropped + 1) == value * pow10(dropped)) by (nonlinear_arith)
                requires
                    value % 10 == 0,
                    value >= 0,
                    pow10(dropped + 1) == 10 * pow10(dropped),
            ;
        }
        value = value / 10;
        places = places - 1;
    }
    if value == 0 {
        proof {
            assert(0 * pow10((scale - places) as nat) == 0) by (nonlinear_arith);
            assert(0 * pow10(scale as nat) == 0) by (nonlinear_arith);
            assert(0 * pow10(8) == 0) by (nonlinear_arith);
        }
        return Some(0);
    }
    let ghost dropped = (scale - places) as nat;
    let ghost start = value as int;
    let ghost raise = (8 - places) as nat;
    let ghost target = start * pow10(raise);
    proof {
        // The target stands for the price.
        lemma_pow10_positive(raise);
        lemma_pow10_adds(dropped, 8);
        if scale > 8 {
            assert(places == 8);
            assert(pow10(0) == 1);
            assert(target == start) by (nonlinear_arith)
                requires
                    target == start * pow10(raise),
                    pow10(raise) == 1,
            ;
            assert(dropped + 8 == scale);
            assert(target * pow10(scale as nat) == mantissa * pow10(8)) by (nonlinear_arith)
                requires
                    target == start,
                    start * pow10(dropped) == mantissa,
                    pow10(scale as nat) == pow10(dropped) * pow10(8),
            ;
        } else {
            assert(dropped == 0);
            assert(pow10(0) == 1);
            assert(start == mantissa) by (nonlinear_arith)
                requires
                    start * pow10(dropped) == mantissa,
                    pow10(dropped) == 1,
            ;
            lemma_pow10_adds(raise, scale as nat);
            assert(raise + scale == 8);
            assert(target * pow10(scale as nat) == mantissa * pow10(8)) by (nonlinear_arith)
                requires
                    target == start * pow10(raise),
                    start == mantissa,
                    pow10(8) == pow10(raise) * pow10(scale as nat),
            ;
        }
        assert(target >= 0) by (nonlinear_arith)
            requires
                target == start * pow10(raise),
                start >= 0,
                pow10(raise) >= 1,
        ;
        assert(is_strike(target as nat, mantissa as int, scale as nat));
    }
    while places < 8
        invariant
            places <= 8,
            value >= 1,
            target >= 0,
            value * pow10((8 - places) as nat) == target,
            is_strike(target as nat, mantissa as int, scale as nat),
        decreases 8 - places,
    {
        if value > 1_844_674_407_370_955_161 {
            proof {
                let left = (8 - places) as nat;
                lemma_pow10_positive((left - 1) as nat);
                assert(pow10(left) == 10 * pow10((left - 1) as nat));
                assert(target > u64::MAX) by (nonlinear_arith)
                    requires
                        target == value * pow10(left),
                        pow10(left) == 10 * pow10((left - 1) as nat),
                        pow10((left - 1) as nat) >= 1,
                        value > 1_844_674_407_370_955_161,
                ;
                assert forall|units: nat| units <= u64::MAX implies !is_strike(
                    units,
                    mantissa as int,
                    scale as nat,
                ) by {
                    if is_strike(units, mantissa as int, scale as nat) {
                        lemma_strike_is_unique(units, target as nat, mantissa as int, scale as nat);
                    }
                }
            }
            return None;
        }
        proof {
            let left = (8 - places) as nat;
            assert(pow10(left) == 10 * pow10((left - 1) as nat));
            assert((value * 10) * pow10((left - 1) as nat) == value * pow10(left)) by (nonlinear_arith)
                requires
                    pow10(left) == 10 * pow10((left - 1) as nat),
            ;
        }
        value = value * 10;
        places = places + 1;
    }
    proof {
        assert(pow10(0) == 1);
        assert(value == target) by (nonlinear_arith)
            requires
                value * pow10(0) == target,
                pow10(0) == 1,
        ;
    }
    if value > 18_446_744_073_709_551_615 {
        proof {
            assert forall|units: nat| units <= u64::MAX implies !is_strike(
                units,
                mantissa as int,
                scale as nat,
            ) by {
                if is_strike(units, mantissa as int, scale as nat) {
                    lemma_strike_is_unique(units, target as nat, mantissa as int, scale as nat);
                }
            }
        }
        return None;
    }
    Some(value as u64)
}

/// An instrument: a base and a quote symbol and the kind of contract.
#[derive(Debug)]
pub struct Instrument {
    pub base: Symbol,
    pub quote: Symbol,
    pub kind: InstrumentKind,
}

impl View for Instrument {
    type V = (Seq<char>, Seq<char>, InstrumentKind);

    open spec fn view(&self) -> (Seq<char>, Seq<char>, InstrumentKind) {
        (self.base@, self.quote@, self.kind)
    }
}

impl Clone for Instrument {
    fn clone(&self) -> (copy: Self)
        ensures
            copy == *self,
    {
        Instrument { base: self.base.clone(), quote: self.quote.clone(), kind: self.kind }
    }
}

/// The order of instruments: by base symbol, then by quote symbol, then by
/// kind.
pub open spec fn instrument_before(
    a: (Seq<char>, Seq<char>, InstrumentKind),
    b: (Seq<char>, Seq<char>, InstrumentKind),
) -> bool {
    text_before(a.0, b.0) || (a.0 == b.0 && (text_before(a.1, b.1) || (a.1 == b.1 && kind_before(
        a.2,
        b.2,
    ))))
}

/// No instrument sorts before itself.
pub proof fn lemma_instrument_before_irreflexive(a: (Seq<char>, Seq<char>, InstrumentKind))
    ensures
        !instrument_before(a, a),
{
    lemma_text_before_irreflexive(a.0);
    lemma_text_before_irreflexive(a.1);
}

/// The order of instruments is transitive.
pub proof fn lemma_instrument_before_transitive(
    a: (Seq<char>, Seq<char>, InstrumentKind),
    b: (Seq<char>, Seq<char>, InstrumentKind),
    c: (Seq<char>, Seq<char>, InstrumentKind),
)
    requires
        instrument_before(a, b),
        instrument_before(b, c),
    ensures
        instrument_before(a, c),
{
    if text_before(a.0, b.0) && text_before(b.0, c.0) {
        lemma_text_before_transitive(a.0, b.0, c.0);
    }
    if text_before(a.1, b.1) && text_before(b.1, c.1) {
        lemma_text_before_transitive(a.1, b.1, c.1);
    }
}

/// Any two instruments are equal or ordered one way or the other.
pub proof fn lemma_instrument_before_total(
    a: (Seq<char>, Seq<char>, InstrumentKind),
    b: (Seq<char>, Seq<char>, InstrumentKind),
)
    ensures
        a == b || instrument_before(a, b) || instrument_before(b, a),
{
    lemma_text_before_total(a.0, b.0);
    lemma_text_before_total(a.1, b.1);
    if kind_key(a.2) == kind_key(b.2) {
        lemma_kind_key_injective(a.2, b.2);
    }
}

impl Instrument {
    /// Makes an instrument from its parts; the symbols are put in lowercase.
    pub fn new(base: &str, quote: &str, kind: InstrumentKind) -> (instrument: Self)
        ensures
            instrument@ == (lowercase(base@), lowercase(quote@), kind),
    {
        Instrument { base: Symbol::new(base), quote: Symbol::new(quote), kind }
    }

    /// True when this instrument sorts strictly before the other.
    pub fn precedes(&self, other: &Instrument) -> (before: bool)
        ensures
            before == instrument_before(self@, other@),
    {
        if text_precedes(self.base.as_str(), other.base.as_str()) {
            return true;
        }
        if text_precedes(other.base.as_str(), self.base.as_str()) {
            proof {
                lemma_text_before_irreflexive(self.base@);
                if text_before(self.base@, other.base@) {
                    lemma_text_before_transitive(self.base@, other.base@, self.base@);
                }
            }
            return false;
        }
        proof {
            lemma_text_before_total(self.base@, other.base@);
        }
        if text_precedes(self.quote.as_str(), other.quote.as_str()) {
            return true;
        }
        if text_precedes(other.quote.as_str(), self.quote.as_str()) {
            proof {
                lemma_text_before_irreflexive(self.quote@);
                if text_before(self.quote@, other.quote@) {
                    lemma_text_before_transitive(self.quote@, other.quote@, self.quote@);
                }
            }
            return false;
        }
        proof {
            lemma_text_before_total(self.quote@, other.quote@);
        }
        self.kind.precedes(&other.kind)
    }
}

} // verus!
