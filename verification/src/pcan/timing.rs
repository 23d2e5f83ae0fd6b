//! Bit timings that the 80 MHz controller clock represents exactly.

use vstd::prelude::*;
use vstd::string::*;

use crate::can;
use crate::can::CanBitTiming;
use crate::pcan::driver_error::{DriverError, DriverFault};
use crate::text;
use crate::text::{index_of, parse_u32, push_decimal, same_text, trim};

verus! {

/// The clock of the controller in hertz.
pub const CLOCK_HZ: u32 = 80_000_000;

/// `can_hal_pcan::PCAN_CLOCK_HZ` is the controller clock, 80 MHz.
#[verifier::external_body]
fn pcan_clock_hz() -> (clock: u32)
    ensures
        clock == CLOCK_HZ,
{
    can_hal_pcan::PCAN_CLOCK_HZ
}

/// `can_hal::SamplePoint::NOMINAL_DEFAULT` is 700 permill.
#[verifier::external_body]
fn nominal_sample_point() -> (permill: u16)
    ensures
        permill == 700,
{
    can_hal::SamplePoint::NOMINAL_DEFAULT.per_mille()
}

/// `can_hal::SamplePoint::DATA_DEFAULT` is 800 permill.
#[verifier::external_body]
fn data_sample_point() -> (permill: u16)
    ensures
        permill == 800,
{
    can_hal::SamplePoint::DATA_DEFAULT.per_mille()
}

/// The phase of a CAN FD bit rate.
#[derive(Clone, Copy, Debug, PartialEq, Eq, Structural)]
pub enum TimingPhase {
    Nominal,
    Data,
}

/// The register values of one phase.
#[derive(Clone, Copy, Debug, PartialEq, Eq, Structural)]
pub struct PhaseTiming {
    pub brp: u32,
    pub tseg1: u32,
    pub tseg2: u32,
    pub sjw: u32,
}

/// The register values of both phases.
#[derive(Clone, Copy, Debug, PartialEq, Eq, Structural)]
pub struct FdTiming {
    pub nominal: PhaseTiming,
    pub data: PhaseTiming,
}

impl TimingPhase {
    /// The largest first segment.
    pub open spec fn max_tseg1(self) -> int {
        match self {
            TimingPhase::Nominal => 256,
            TimingPhase::Data => 32,
        }
    }

    /// The largest second segment.
    pub open spec fn max_tseg2(self) -> int {
        match self {
            TimingPhase::Nominal => 128,
            TimingPhase::Data => 16,
        }
    }

    /// The preferred number of time quanta in a bit.
    pub open spec fn preferred(self) -> int {
        match self {
            TimingPhase::Nominal => 20,
            TimingPhase::Data => 10,
        }
    }

    /// The sample point where none is asked for.
    pub open spec fn default_sample_point(self) -> u16 {
        match self {
            TimingPhase::Nominal => 700,
            TimingPhase::Data => 800,
        }
    }
}

/// The sample point that a timing asks for.
pub open spec fn wanted_sample_point(timing: CanBitTiming, phase: TimingPhase) -> u16 {
    match timing.sample_point_permill {
        Some(value) => value,
        None => phase.default_sample_point(),
    }
}

/// The resynchronisation jump width that a timing asks for, given the segments.
pub open spec fn wanted_sjw(timing: CanBitTiming, tseg1: u32, tseg2: u32) -> u32 {
    match timing.sjw {
        Some(value) => value as u32,
        None => {
            let smaller = if tseg1 <= tseg2 {
                tseg1
            } else {
                tseg2
            };
            if smaller <= 4 {
                smaller
            } else {
                4
            }
        },
    }
}

impl PhaseTiming {
    /// How many time quanta a bit has.
    pub open spec fn total(self) -> int {
        1 + self.tseg1 + self.tseg2
    }
}

/// Register values that give the timing exactly, within the limits of the phase.
pub open spec fn represents(timing: CanBitTiming, phase: TimingPhase, registers: PhaseTiming) -> bool {
    let divisor = CLOCK_HZ as int / timing.bitrate as int;
    let total = registers.total();
    &&& 3 <= total <= divisor
    &&& divisor % total == 0
    &&& registers.brp == divisor / total
    &&& 1 <= registers.brp <= 1024
    &&& 1 <= registers.tseg1 <= phase.max_tseg1()
    &&& 2 <= registers.tseg2 <= phase.max_tseg2()
    &&& (1 + registers.tseg1) * 1000 == wanted_sample_point(timing, phase) * total
    &&& registers.sjw == wanted_sjw(timing, registers.tseg1, registers.tseg2)
    &&& 1 <= registers.sjw <= registers.tseg1
    &&& registers.sjw <= registers.tseg2
}

/// How far a number of time quanta is from the preferred one.
pub open spec fn distance(phase: TimingPhase, total: int) -> int {
    if total >= phase.preferred() {
        total - phase.preferred()
    } else {
        phase.preferred() - total
    }
}

/// Register values that are preferred to all others: closest to the preferred number of time
/// quanta, and of two equally close the one with fewer.
pub open spec fn is_best(timing: CanBitTiming, phase: TimingPhase, registers: PhaseTiming) -> bool {
    &&& represents(timing, phase, registers)
    &&& forall|other: PhaseTiming| #[trigger]
        represents(timing, phase, other) ==> {
            ||| distance(phase, registers.total()) < distance(phase, other.total())
            ||| distance(phase, registers.total()) == distance(phase, other.total())
                && registers.total() <= other.total()
        }
}

/// Only one set of register values has a given number of time quanta.
proof fn lemma_total_determines(
    timing: CanBitTiming,
    phase: TimingPhase,
    first: PhaseTiming,
    second: PhaseTiming,
)
    requires
        represents(timing, phase, first),
        represents(timing, phase, second),
        first.total() == second.total(),
    ensures
        first == second,
{
}

/// At most one choice of register values is the best for a timing.
pub proof fn law_best_registers_are_unique(
    timing: CanBitTiming,
    phase: TimingPhase,
    first: PhaseTiming,
    second: PhaseTiming,
)
    requires
        is_best(timing, phase, first),
        is_best(timing, phase, second),
    ensures
        first == second,
{
    lemma_total_determines(timing, phase, first, second);
}

/// An optional number as the standard library shows it.
pub open spec fn shown_option(value: Option<u16>) -> Seq<char> {
    match value {
        Some(number) => "Some("@ + text::decimal_digits(number as nat) + ")"@,
        None => "None"@,
    }
}

/// Why a timing has no exact register values.
pub open spec fn phase_refusal(timing: CanBitTiming, phase: TimingPhase) -> Option<Seq<char>> {
    let sample_point = wanted_sample_point(timing, phase);
    if !(500 <= sample_point <= 950) {
        Some(
            "PCAN sample point "@ + text::decimal_digits(sample_point as nat)
                + " permill is outside 500..=950"@,
        )
    } else if timing.bitrate == 0 || CLOCK_HZ % timing.bitrate != 0 {
        Some(
            "PCAN cannot represent bitrate "@ + text::decimal_digits(timing.bitrate as nat)
                + " exactly at 80 MHz"@,
        )
    } else if !exists|registers: PhaseTiming| represents(timing, phase, registers) {
        Some(
            "PCAN cannot represent bitrate "@ + text::decimal_digits(timing.bitrate as nat)
                + ", sample point "@ + text::decimal_digits(sample_point as nat)
                + " permill, and SJW "@ + shown_option(timing.sjw) + " exactly"@,
        )
    } else {
        None
    }
}

/// Register values with a given number of time quanta, if there are any.
fn phase_with_total(
    timing: &CanBitTiming,
    phase: TimingPhase,
    sample_point: u16,
    divisor: u32,
    total: u32,
) -> (result: Option<PhaseTiming>)
    requires
        timing.bitrate > 0,
        divisor == CLOCK_HZ as int / timing.bitrate as int,
        sample_point == wanted_sample_point(*timing, phase),
        500 <= sample_point <= 950,
        3 <= total <= divisor,
        total <= 1 + phase.max_tseg1() + phase.max_tseg2(),
    ensures
        match result {
            Some(registers) => {
                &&& registers.total() == total
                &&& represents(*timing, phase, registers)
            },
            None => forall|registers: PhaseTiming|
                registers.total() == total ==> !#[trigger] represents(*timing, phase, registers),
        },
{
    if divisor % total != 0 {
        return None;
    }
    let brp: u32 = divisor / total;
    if brp == 0 || brp > 1024 {
        return None;
    }
    proof {
        assert(sample_point * total <= 950 * 385) by (nonlinear_arith)
            requires
                sample_point <= 950,
                total <= 385,
        ;
        assert(sample_point * total >= 500 * 3) by (nonlinear_arith)
            requires
                sample_point >= 500,
                total >= 3,
        ;
        assert(sample_point * total <= 950 * total) by (nonlinear_arith)
            requires
                sample_point <= 950,
                total >= 0,
        ;
    }
    let sampled: u32 = sample_point as u32 * total;
    if sampled % 1000 != 0 || sampled < 2000 {
        return None;
    }
    let tseg1: u32 = sampled / 1000 - 1;
    let tseg2: u32 = total - 1 - tseg1;
    let (max_tseg1, max_tseg2): (u32, u32) = match phase {
        TimingPhase::Nominal => (256, 128),
        TimingPhase::Data => (32, 16),
    };
    if tseg1 > max_tseg1 || tseg2 < 2 || tseg2 > max_tseg2 {
        return None;
    }
    let sjw: u32 = match timing.sjw {
        Some(value) => value as u32,
        None => {
            let smaller: u32 = if tseg1 <= tseg2 {
                tseg1
            } else {
                tseg2
            };
            if smaller <= 4 {
                smaller
            } else {
                4
            }
        },
    };
    if sjw == 0 || sjw > tseg1 || sjw > tseg2 {
        return None;
    }
    Some(PhaseTiming { brp, tseg1, tseg2, sjw })
}

fn distance_from(phase: TimingPhase, total: u32) -> (result: u32)
    requires
        total <= 1000,
    ensures
        result == distance(phase, total as int),
{
    let preferred: u32 = match phase {
        TimingPhase::Nominal => 20,
        TimingPhase::Data => 10,
    };
    if total >= preferred {
        total - preferred
    } else {
        preferred - total
    }
}

/// The preferred register values that give a timing exactly.
pub fn exact_phase(timing: &CanBitTiming, phase: TimingPhase) -> (result: Result<
    PhaseTiming,
    DriverError,
>)
    ensures
        match result {
            Ok(registers) => {
                &&& phase_refusal(*timing, phase) is None
                &&& is_best(*timing, phase, registers)
            },
            Err(error) => {
                &&& phase_refusal(*timing, phase) is Some
                &&& error@ == DriverFault::Unsupported(phase_refusal(*timing, phase)->0)
            },
        },
{
    let sample_point: u16 = match timing.sample_point_permill {
        Some(value) => value,
        None => match phase {
            TimingPhase::Nominal => nominal_sample_point(),
            TimingPhase::Data => data_sample_point(),
        },
    };
    if sample_point < 500 || sample_point > 950 {
        let mut message = "PCAN sample point ".to_owned();
        push_decimal(&mut message, sample_point as u64);
        message.append(" permill is outside 500..=950");
        return Err(DriverError::Unsupported(message));
    }
    let clock: u32 = pcan_clock_hz();
    let bitrate: u32 = timing.bitrate;
    if bitrate == 0 || clock % bitrate != 0 {
        let mut message = "PCAN cannot represent bitrate ".to_owned();
        push_decimal(&mut message, bitrate as u64);
        message.append(" exactly at 80 MHz");
        return Err(DriverError::Unsupported(message));
    }
    let divisor: u32 = clock / bitrate;
    let widest: u32 = match phase {
        TimingPhase::Nominal => 385,
        TimingPhase::Data => 49,
    };
    let mut best: Option<(u32, PhaseTiming)> = None;
    let mut total: u32 = 3;
    while total <= widest && total <= divisor
        invariant
            timing.bitrate > 0,
            divisor == CLOCK_HZ as int / timing.bitrate as int,
            sample_point == wanted_sample_point(*timing, phase),
            500 <= sample_point <= 950,
            widest == 1 + phase.max_tseg1() + phase.max_tseg2(),
            3 <= total,
            widest <= 385,
            match best {
                Some((found, registers)) => {
                    &&& represents(*timing, phase, registers)
                    &&& registers.total() < total
                    &&& found == distance(phase, registers.total())
                    &&& forall|other: PhaseTiming| #[trigger]
                        represents(*timing, phase, other) && other.total() < total ==> {
                            ||| found < distance(phase, other.total())
                            ||| found == distance(phase, other.total()) && registers.total()
                                <= other.total()
                        }
                },
                None => forall|other: PhaseTiming| #[trigger]
                    represents(*timing, phase, other) ==> other.total() >= total,
            },
        decreases widest + 1 - total,
    {
        if let Some(registers) = phase_with_total(timing, phase, sample_point, divisor, total) {
            let found: u32 = distance_from(phase, total);
            let closer = match best {
                None => true,
                Some((least, _)) => found < least,
            };
            proof {
                assert forall|other: PhaseTiming| #[trigger]
                    represents(*timing, phase, other) && other.total() == total implies other
                    == registers by {
                    lemma_total_determines(*timing, phase, other, registers);
                }
            }
            if closer {
                best = Some((found, registers));
            }
        }
        total += 1;
    }
    match best {
        Some((_, registers)) => Ok(registers),
        None => {
            let mut message = "PCAN cannot represent bitrate ".to_owned();
            push_decimal(&mut message, bitrate as u64);
            message.append(", sample point ");
            push_decimal(&mut message, sample_point as u64);
            message.append(" permill, and SJW ");
            match timing.sjw {
                Some(value) => {
                    message.append("Some(");
                    push_decimal(&mut message, value as u64);
                    message.append(")");
                },
                None => message.append("None"),
            }
            message.append(" exactly");
            proof {
                assert(!exists|registers: PhaseTiming| represents(*timing, phase, registers));
                assert(message@ =~= phase_refusal(*timing, phase)->0);
            }
            Err(DriverError::Unsupported(message))
        },
    }
}

/// The timing that register values give, or why they give none. The sample point is stated only
/// where it is a whole number of permill.
pub open spec fn public_timing(registers: PhaseTiming) -> Result<CanBitTiming, Seq<char>> {
    let total = registers.total();
    let divisor = registers.brp * total;
    if total > u32::MAX || divisor > u32::MAX {
        Err("PCAN FD timing divisor overflowed"@)
    } else if divisor == 0 || CLOCK_HZ as int % divisor != 0 {
        Err("PCAN FD timing does not represent an exact bitrate"@)
    } else {
        let timing = CanBitTiming {
            bitrate: (CLOCK_HZ as int / divisor) as u32,
            sample_point_permill: if ((1 + registers.tseg1) * 1000) % total == 0 {
                Some((((1 + registers.tseg1) * 1000) / total) as u16)
            } else {
                None
            },
            sjw: if registers.sjw <= u16::MAX {
                Some(registers.sjw as u16)
            } else {
                None
            },
        };
        match can::timing_refusal(timing) {
            Some(reason) => Err(reason),
            None => Ok(timing),
        }
    }
}

/// A sample point within the bit is at most 1000 permill.
proof fn lemma_sample_bound(registers: PhaseTiming)
    ensures
        0 <= ((1 + registers.tseg1) * 1000) / registers.total() <= 1000,
{
    let total = registers.total();
    let sampled = (1 + registers.tseg1) * 1000;
    assert(0 <= sampled / total <= 1000) by (nonlinear_arith)
        requires
            0 <= sampled <= 1000 * total,
            total > 0,
    ;
}

/// The timing that register values give.
pub fn timing_to_public(registers: PhaseTiming) -> (result: Result<CanBitTiming, DriverError>)
    ensures
        match result {
            Ok(timing) => public_timing(registers) == Ok::<CanBitTiming, Seq<char>>(timing),
            Err(error) => {
                &&& public_timing(registers) is Err
                &&& error@ == DriverFault::Unsupported(public_timing(registers)->Err_0)
            },
        },
{
    let total: u64 = 1 + registers.tseg1 as u64 + registers.tseg2 as u64;
    if total > u32::MAX as u64 {
        return Err(DriverError::Unsupported("PCAN FD timing divisor overflowed".to_owned()));
    }
    let divisor: u32 = match registers.brp.checked_mul(total as u32) {
        Some(divisor) => divisor,
        None => {
            return Err(DriverError::Unsupported("PCAN FD timing divisor overflowed".to_owned()));
        },
    };
    let clock: u32 = pcan_clock_hz();
    if divisor == 0 || clock % divisor != 0 {
        return Err(
            DriverError::Unsupported(
                "PCAN FD timing does not represent an exact bitrate".to_owned(),
            ),
        );
    }
    let sampled: u64 = (1 + registers.tseg1 as u64) * 1000;
    proof {
        lemma_sample_bound(registers);
    }
    let sample_point: Option<u16> = if sampled % total == 0 {
        Some((sampled / total) as u16)
    } else {
        None
    };
    let sjw: Option<u16> = if registers.sjw <= u16::MAX as u32 {
        Some(registers.sjw as u16)
    } else {
        None
    };
    match CanBitTiming::new(clock / divisor, sample_point, sjw) {
        Ok(timing) => Ok(timing),
        Err(error) => Err(DriverError::Unsupported(error.debug_message().to_owned())),
    }
}

/// Register values that represent a timing are read back as that timing, with the sample point and
/// the jump width that the search chose where the timing left them open.
pub proof fn law_exact_phase_is_read_back(
    timing: CanBitTiming,
    phase: TimingPhase,
    registers: PhaseTiming,
)
    requires
        phase_refusal(timing, phase) is None,
        represents(timing, phase, registers),
    ensures
        public_timing(registers) == Ok::<CanBitTiming, Seq<char>>(
            CanBitTiming {
                bitrate: timing.bitrate,
                sample_point_permill: Some(wanted_sample_point(timing, phase)),
                sjw: Some(registers.sjw as u16),
            },
        ),
{
    let clock = CLOCK_HZ as int;
    let bitrate = timing.bitrate as int;
    let divisor = clock / bitrate;
    let total = registers.total();
    let point = wanted_sample_point(timing, phase) as int;
    vstd::arithmetic::div_mod::lemma_fundamental_div_mod(clock, bitrate);
    vstd::arithmetic::div_mod::lemma_fundamental_div_mod(divisor, total);
    assert(registers.brp * total == divisor) by (nonlinear_arith)
        requires
            divisor == total * (divisor / total) + divisor % total,
            divisor % total == 0,
            registers.brp == divisor / total,
    ;
    assert(clock == divisor * bitrate) by (nonlinear_arith)
        requires
            clock == bitrate * (clock / bitrate) + clock % bitrate,
            clock % bitrate == 0,
            divisor == clock / bitrate,
    ;
    vstd::arithmetic::div_mod::lemma_div_multiples_vanish(bitrate, divisor);
    vstd::arithmetic::div_mod::lemma_mod_multiples_basic(bitrate, divisor);
    assert(divisor * bitrate == bitrate * divisor) by (nonlinear_arith);
    assert(divisor <= clock) by (nonlinear_arith)
        requires
            clock == divisor * bitrate,
            bitrate >= 1,
            divisor >= 3,
    ;
    vstd::arithmetic::div_mod::lemma_div_multiples_vanish(point, total);
    vstd::arithmetic::div_mod::lemma_mod_multiples_basic(point, total);
    assert(point * total == total * point) by (nonlinear_arith);
}

/// The predefined Classical bit rates.
#[derive(Clone, Copy, Debug, PartialEq, Eq, Structural)]
pub enum ClassicBitrate {
    Br1M,
    Br800K,
    Br500K,
    Br250K,
    Br125K,
    Br100K,
    Br50K,
    Br20K,
    Br10K,
    Br5K,
}

impl ClassicBitrate {
    /// The bit rate in bits per second.
    pub open spec fn rate(self) -> u32 {
        match self {
            ClassicBitrate::Br1M => 1_000_000,
            ClassicBitrate::Br800K => 800_000,
            ClassicBitrate::Br500K => 500_000,
            ClassicBitrate::Br250K => 250_000,
            ClassicBitrate::Br125K => 125_000,
            ClassicBitrate::Br100K => 100_000,
            ClassicBitrate::Br50K => 50_000,
            ClassicBitrate::Br20K => 20_000,
            ClassicBitrate::Br10K => 10_000,
            ClassicBitrate::Br5K => 5_000,
        }
    }
}

/// The predefined bit rate with the given number of bits per second.
pub fn classic_bitrate(bitrate: u32) -> (found: Option<ClassicBitrate>)
    ensures
        match found {
            Some(predefined) => predefined.rate() == bitrate,
            None => forall|predefined: ClassicBitrate| #[trigger] predefined.rate() != bitrate,
        },
{
    match bitrate {
        1_000_000 => Some(ClassicBitrate::Br1M),
        800_000 => Some(ClassicBitrate::Br800K),
        500_000 => Some(ClassicBitrate::Br500K),
        250_000 => Some(ClassicBitrate::Br250K),
        125_000 => Some(ClassicBitrate::Br125K),
        100_000 => Some(ClassicBitrate::Br100K),
        50_000 => Some(ClassicBitrate::Br50K),
        20_000 => Some(ClassicBitrate::Br20K),
        10_000 => Some(ClassicBitrate::Br10K),
        5_000 => Some(ClassicBitrate::Br5K),
        _ => None,
    }
}

/// The value of one `key=value` item, if the item has that key.
pub open spec fn item_value(item: Seq<char>, key: Seq<char>) -> Option<Seq<char>> {
    let entry = text::trimmed(item);
    let equals = text::first_index(entry, '=');
    if equals < entry.len() && text::trimmed(entry.take(equals)) == key {
        Some(text::trimmed(entry.skip(equals + 1)))
    } else {
        None
    }
}

/// The value of a key in a comma-separated list of `key=value` items; the last item with the key
/// counts.
pub open spec fn field_value(list: Seq<char>, key: Seq<char>) -> Option<Seq<char>>
    decreases list.len(),
{
    let comma = text::first_index(list, ',');
    if 0 <= comma < list.len() {
        match field_value(list.skip(comma + 1), key) {
            Some(value) => Some(value),
            None => item_value(list.take(comma), key),
        }
    } else {
        item_value(list, key)
    }
}

fn value_of_item<'a>(item: &'a str, key: &str) -> (value: Option<&'a str>)
    ensures
        match value {
            Some(value) => item_value(item@, key@) == Some(value@),
            None => item_value(item@, key@) is None,
        },
{
    let entry = trim(item);
    let equals: usize = index_of(entry, '=');
    let length = entry.unicode_len();
    if equals < length {
        let found = trim(entry.substring_char(0, equals));
        let value = trim(entry.substring_char(equals + 1, length));
        proof {
            assert(entry@.subrange(0, equals as int) =~= entry@.take(equals as int));
            assert(entry@.subrange(equals + 1, length as int) =~= entry@.skip(equals + 1));
        }
        if same_text(found, key) {
            return Some(value);
        }
    }
    None
}

/// The value of a key in a comma-separated list of `key=value` items.
pub fn find_field<'a>(list: &'a str, key: &str) -> (value: Option<&'a str>)
    ensures
        match value {
            Some(value) => field_value(list@, key@) == Some(value@),
            None => field_value(list@, key@) is None,
        },
    decreases list@.len(),
{
    let comma: usize = index_of(list, ',');
    let length = list.unicode_len();
    if comma < length {
        proof {
            assert(list@.subrange(comma + 1, length as int) =~= list@.skip(comma + 1));
            assert(list@.subrange(0, comma as int) =~= list@.take(comma as int));
        }
        match find_field(list.substring_char(comma + 1, length), key) {
            Some(value) => Some(value),
            None => value_of_item(list.substring_char(0, comma), key),
        }
    } else {
        value_of_item(list, key)
    }
}

/// The number that a key has in the list.
pub open spec fn field_number(list: Seq<char>, key: Seq<char>) -> Option<u32> {
    match field_value(list, key) {
        Some(value) => text::parsed_u32(value),
        None => None,
    }
}

/// The list names the supported clock.
pub open spec fn names_clock(list: Seq<char>) -> bool {
    field_value(list, "f_clock_mhz"@) == Some("80"@) || field_value(list, "f_clock"@) == Some(
        "80000000"@,
    )
}

/// The keys of the register values, in the order in which they are read.
pub open spec fn register_keys() -> Seq<Seq<char>> {
    seq![
        "nom_brp"@,
        "nom_tseg1"@,
        "nom_tseg2"@,
        "nom_sjw"@,
        "data_brp"@,
        "data_tseg1"@,
        "data_tseg2"@,
        "data_sjw"@,
    ]
}

/// The position of the first key without a number.
pub open spec fn missing_from(list: Seq<char>, position: int) -> int
    decreases 8 - position,
{
    if 0 <= position < 8 && field_number(list, register_keys()[position]) is Some {
        missing_from(list, position + 1)
    } else {
        position
    }
}

/// The register values that a timing text gives, or why it gives none.
pub open spec fn fd_timing_of(list: Seq<char>) -> Result<FdTiming, Seq<char>> {
    let number = |position: int| field_number(list, register_keys()[position])->0;
    let missing = missing_from(list, 0);
    if !names_clock(list) {
        Err("active PCAN FD timing does not use the supported 80 MHz clock"@)
    } else if missing < 8 {
        Err("active PCAN FD timing is missing or invalid: "@ + register_keys()[missing])
    } else {
        Ok(
            FdTiming {
                nominal: PhaseTiming {
                    brp: number(0),
                    tseg1: number(1),
                    tseg2: number(2),
                    sjw: number(3),
                },
                data: PhaseTiming {
                    brp: number(4),
                    tseg1: number(5),
                    tseg2: number(6),
                    sjw: number(7),
                },
            },
        )
    }
}

fn register_value(list: &str, key: &'static str) -> (result: Result<u32, DriverError>)
    ensures
        match result {
            Ok(number) => field_number(list@, key@) == Some(number),
            Err(error) => {
                &&& field_number(list@, key@) is None
                &&& error@ == DriverFault::Unsupported(
                    "active PCAN FD timing is missing or invalid: "@ + key@,
                )
            },
        },
{
    if let Some(value) = find_field(list, key) {
        if let Some(number) = parse_u32(value) {
            return Ok(number);
        }
    }
    let mut message = "active PCAN FD timing is missing or invalid: ".to_owned();
    message.append(key);
    Err(DriverError::Unsupported(message))
}

fn has_value(list: &str, key: &'static str, wanted: &'static str) -> (has: bool)
    ensures
        has == (field_value(list@, key@) == Some(wanted@)),
{
    match find_field(list, key) {
        Some(value) => same_text(value, wanted),
        None => false,
    }
}

/// The register values that a timing text gives.
pub fn parse_fd_timing(list: &str) -> (result: Result<FdTiming, DriverError>)
    ensures
        match result {
            Ok(timing) => fd_timing_of(list@) == Ok::<FdTiming, Seq<char>>(timing),
            Err(error) => {
                &&& fd_timing_of(list@) is Err
                &&& error@ == DriverFault::Unsupported(fd_timing_of(list@)->Err_0)
            },
        },
{
    if !(has_value(list, "f_clock_mhz", "80") || has_value(list, "f_clock", "80000000")) {
        return Err(
            DriverError::Unsupported(
                "active PCAN FD timing does not use the supported 80 MHz clock".to_owned(),
            ),
        );
    }
    proof {
        reveal_with_fuel(missing_from, 9);
    }
    let nominal = PhaseTiming {
        brp: register_value(list, "nom_brp")?,
        tseg1: register_value(list, "nom_tseg1")?,
        tseg2: register_value(list, "nom_tseg2")?,
        sjw: register_value(list, "nom_sjw")?,
    };
    let data = PhaseTiming {
        brp: register_value(list, "data_brp")?,
        tseg1: register_value(list, "data_tseg1")?,
        tseg2: register_value(list, "data_tseg2")?,
        sjw: register_value(list, "data_sjw")?,
    };
    Ok(FdTiming { nominal, data })
}

/// Register values that represent a timing divide the clock of 80 MHz into the bit rate without a
/// rest, put the sample point where it is asked for or at the default of the phase, and keep to the
/// limits of the registers.
pub proof fn law_registers_give_the_timing(
    timing: CanBitTiming,
    phase: TimingPhase,
    registers: PhaseTiming,
)
    requires
        phase_refusal(timing, phase) is None,
        represents(timing, phase, registers),
    ensures
        ({
            let quanta = 1 + registers.tseg1 + registers.tseg2;
            let point = if timing.sample_point_permill is Some {
                timing.sample_point_permill->0 as int
            } else if phase == TimingPhase::Nominal {
                700
            } else {
                800
            };
            &&& timing.bitrate * (registers.brp * quanta) == 80_000_000
            &&& (1 + registers.tseg1) * 1000 == point * quanta
            &&& 500 <= point <= 950
            &&& 1 <= registers.brp <= 1024
            &&& phase == TimingPhase::Nominal ==> 1 <= registers.tseg1 <= 256 && 2
                <= registers.tseg2 <= 128
            &&& phase == TimingPhase::Data ==> 1 <= registers.tseg1 <= 32 && 2 <= registers.tseg2
                <= 16
            &&& timing.sjw is Some ==> registers.sjw == timing.sjw->0
            &&& timing.sjw is None ==> registers.sjw <= 4 && (registers.sjw == 4 || registers.sjw
                == registers.tseg1 || registers.sjw == registers.tseg2)
            &&& 1 <= registers.sjw <= registers.tseg1
            &&& registers.sjw <= registers.tseg2
        }),
{
    let clock = CLOCK_HZ as int;
    let bitrate = timing.bitrate as int;
    let divisor = clock / bitrate;
    let total = registers.total();
    vstd::arithmetic::div_mod::lemma_fundamental_div_mod(clock, bitrate);
    vstd::arithmetic::div_mod::lemma_fundamental_div_mod(divisor, total);
    assert(registers.brp * total == divisor) by (nonlinear_arith)
        requires
            divisor == total * (divisor / total) + divisor % total,
            divisor % total == 0,
            registers.brp == divisor / total,
    ;
}

/// Of all register values that represent a timing, those are best whose number of time quanta is
/// closest to 20 in the nominal and to 10 in the data phase; of two equally close ones, the smaller.
pub proof fn law_best_registers_are_closest(
    timing: CanBitTiming,
    phase: TimingPhase,
    best: PhaseTiming,
    other: PhaseTiming,
)
    requires
        is_best(timing, phase, best),
        represents(timing, phase, other),
    ensures
        ({
            let wanted = if phase == TimingPhase::Nominal {
                20int
            } else {
                10int
            };
            let quanta = 1 + best.tseg1 + best.tseg2;
            let others = 1 + other.tseg1 + other.tseg2;
            let far = if quanta < wanted {
                wanted - quanta
            } else {
                quanta - wanted
            };
            &&& others >= wanted + far || others <= wanted - far
            &&& others == wanted - far ==> quanta == others
        }),
{
}

/// The timing that register values give is exact: the bit rate times the divisor is the clock of
/// 80 MHz, the sample point lies where the first segment ends, and the jump width is as set.
pub proof fn law_public_timing_is_exact(registers: PhaseTiming)
    ensures
        public_timing(registers) matches Ok(timing) ==> {
            let quanta = 1 + registers.tseg1 + registers.tseg2;
            &&& timing.bitrate * (registers.brp * quanta) == 80_000_000
            &&& timing.sample_point_permill matches Some(point) ==> point * quanta == (1
                + registers.tseg1) * 1000
            &&& timing.sjw matches Some(width) ==> width == registers.sjw
            &&& registers.sjw <= u16::MAX ==> timing.sjw is Some
        },
{
    let total = registers.total();
    let divisor = registers.brp * total;
    let sampled = (1 + registers.tseg1) * 1000;
    lemma_sample_bound(registers);
    if public_timing(registers) is Ok {
        let clock = CLOCK_HZ as int;
        assert(divisor > 0) by (nonlinear_arith)
            requires
                divisor != 0,
                divisor == registers.brp * total,
                total > 0,
        ;
        vstd::arithmetic::div_mod::lemma_fundamental_div_mod(clock, divisor);
        vstd::arithmetic::div_mod::lemma_fundamental_div_mod(sampled, total);
        assert(0 <= clock / divisor <= clock) by (nonlinear_arith)
            requires
                divisor > 0,
                clock == 80_000_000,
        ;
        assert((clock / divisor) * divisor == divisor * (clock / divisor)) by (nonlinear_arith);
        assert((sampled / total) * total == total * (sampled / total)) by (nonlinear_arith);
    }
}

/// A timing text gives the register values under their own names, and only where it names the clock
/// of 80 MHz.
pub proof fn law_registers_stand_under_their_names(list: Seq<char>)
    ensures
        fd_timing_of(list) matches Ok(timing) ==> {
            &&& field_value(list, "f_clock_mhz"@) == Some("80"@) || field_value(list, "f_clock"@)
                == Some("80000000"@)
            &&& field_number(list, "nom_brp"@) == Some(timing.nominal.brp)
            &&& field_number(list, "nom_tseg1"@) == Some(timing.nominal.tseg1)
            &&& field_number(list, "nom_tseg2"@) == Some(timing.nominal.tseg2)
            &&& field_number(list, "nom_sjw"@) == Some(timing.nominal.sjw)
            &&& field_number(list, "data_brp"@) == Some(timing.data.brp)
            &&& field_number(list, "data_tseg1"@) == Some(timing.data.tseg1)
            &&& field_number(list, "data_tseg2"@) == Some(timing.data.tseg2)
            &&& field_number(list, "data_sjw"@) == Some(timing.data.sjw)
        },
        (field_value(list, "f_clock_mhz"@) == Some("80"@) || field_value(list, "f_clock"@) == Some(
            "80000000"@,
        )) && field_number(list, "nom_brp"@) is Some && field_number(list, "nom_tseg1"@) is Some
            && field_number(list, "nom_tseg2"@) is Some && field_number(list, "nom_sjw"@) is Some
            && field_number(list, "data_brp"@) is Some && field_number(list, "data_tseg1"@) is Some
            && field_number(list, "data_tseg2"@) is Some && field_number(list, "data_sjw"@) is Some
            ==> fd_timing_of(list) is Ok,
{
    reveal_with_fuel(missing_from, 9);
    assert(register_keys()[0] == "nom_brp"@);
    assert(register_keys()[1] == "nom_tseg1"@);
    assert(register_keys()[2] == "nom_tseg2"@);
    assert(register_keys()[3] == "nom_sjw"@);
    assert(register_keys()[4] == "data_brp"@);
    assert(register_keys()[5] == "data_tseg1"@);
    assert(register_keys()[6] == "data_tseg2"@);
    assert(register_keys()[7] == "data_sjw"@);
}

proof fn lemma_first_index_is_first(list: Seq<char>, wanted: char)
    ensures
        0 <= text::first_index(list, wanted) <= list.len(),
        forall|i: int|
            0 <= i < text::first_index(list, wanted) ==> (#[trigger] list[i]) != wanted,
        text::first_index(list, wanted) < list.len() ==> list[text::first_index(list, wanted)]
            == wanted,
    decreases list.len(),
{
    if list.len() > 0 && list[0] != wanted {
        let rest = list.skip(1);
        lemma_first_index_is_first(rest, wanted);
        let index = text::first_index(list, wanted);
        assert forall|i: int| 0 <= i < index implies (#[trigger] list[i]) != wanted by {
            if i > 0 {
                assert(rest[i - 1] == list[i]);
            }
        }
        if index < list.len() {
            assert(rest[index - 1] == list[index]);
        }
    }
}

/// An item gives the text behind its first equals sign for the key before it, both without white
/// space around them.
pub proof fn law_items_give_what_follows_the_equals_sign(item: Seq<char>, key: Seq<char>)
    ensures
        item_value(item, key) matches Some(value) ==> exists|equals: int|
            #![trigger text::trimmed(item)[equals]]
            {
                let entry = text::trimmed(item);
                &&& 0 <= equals < entry.len()
                &&& entry[equals] == '='
                &&& forall|i: int| 0 <= i < equals ==> (#[trigger] entry[i]) != '='
                &&& text::trimmed(entry.take(equals)) == key
                &&& value == text::trimmed(entry.skip(equals + 1))
            },
        (forall|i: int|
            0 <= i < text::trimmed(item).len() ==> (#[trigger] text::trimmed(item)[i]) != '=')
            ==> item_value(item, key) is None,
{
    let entry = text::trimmed(item);
    lemma_first_index_is_first(entry, '=');
    let equals = text::first_index(entry, '=');
    if item_value(item, key) is Some {
        assert(text::trimmed(item)[equals] == '=');
    }
}

/// A list of items gives for a key what its last item gives, and else what the items before it give.
pub proof fn law_last_item_counts(front: Seq<char>, item: Seq<char>, key: Seq<char>)
    requires
        forall|i: int| 0 <= i < item.len() ==> (#[trigger] item[i]) != ',',
    ensures
        field_value(item, key) == item_value(item, key),
        field_value(front.push(',') + item, key) == if item_value(item, key) is Some {
            item_value(item, key)
        } else {
            field_value(front, key)
        },
    decreases front.len(),
{
    lemma_first_index_is_first(item, ',');
    lemma_first_index_is_first(front, ',');
    let comma = text::first_index(front, ',');
    let list = front.push(',') + item;
    assert forall|i: int| 0 <= i < comma implies (#[trigger] list[i]) != ',' by {
        assert(list[i] == front[i]);
    }
    text::lemma_first_index(list, ',', comma);
    assert(list.take(comma) =~= front.take(comma));
    if comma < front.len() {
        let rest = front.skip(comma + 1);
        assert(list.skip(comma + 1) =~= rest.push(',') + item);
        law_last_item_counts(rest, item, key);
    } else {
        assert(list.skip(comma + 1) =~= item);
        assert(front.take(comma) =~= front);
    }
}

} // verus!
