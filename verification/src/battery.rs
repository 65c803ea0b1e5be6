//! Battery telemetry: from the raw text of a power supply's attributes to a
//! snapshot of charge, status, health and time remaining.
//!
//! Energy attributes are unsigned decimal integers, the power attribute a
//! signed one, as the kernel writes them. Each derived field stands or falls
//! alone; only the capacity is needed for a snapshot to exist.

use crate::text::{
    decimal, opt_text, parse_signed, parse_unsigned, push_decimal, signed_value, text_eq, trim,
    trimmed, unsigned_value,
};
use vstd::prelude::*;

verus! {

/// The raw text of one power supply's attributes; `None` where an attribute
/// could not be read.
pub struct BatteryReadings {
    pub capacity: Option<String>,
    pub status: Option<String>,
    pub energy_full: Option<String>,
    pub energy_full_design: Option<String>,
    pub power_now: Option<String>,
    pub energy_now: Option<String>,
}

/// What a `BatteryReadings` holds, as plain text.
pub struct ReadingsView {
    pub capacity: Option<Seq<char>>,
    pub status: Option<Seq<char>>,
    pub energy_full: Option<Seq<char>>,
    pub energy_full_design: Option<Seq<char>>,
    pub power_now: Option<Seq<char>>,
    pub energy_now: Option<Seq<char>>,
}

impl View for BatteryReadings {
    type V = ReadingsView;

    open spec fn view(&self) -> ReadingsView {
        ReadingsView {
            capacity: opt_text(self.capacity),
            status: opt_text(self.status),
            energy_full: opt_text(self.energy_full),
            energy_full_design: opt_text(self.energy_full_design),
            power_now: opt_text(self.power_now),
            energy_now: opt_text(self.energy_now),
        }
    }
}

/// A snapshot of the battery. The capacity never exceeds 100.
pub struct BatteryInfo {
    capacity: u8,
    status: String,
    health: Option<u8>,
    time_remaining: Option<String>,
}

/// What a `BatteryInfo` holds.
pub struct BatteryView {
    pub capacity: int,
    pub status: Seq<char>,
    pub health: Option<int>,
    pub time_remaining: Option<Seq<char>>,
}

impl View for BatteryInfo {
    type V = BatteryView;

    closed spec fn view(&self) -> BatteryView {
        BatteryView {
            capacity: self.capacity as int,
            status: self.status@,
            health: match self.health {
                Some(h) => Some(h as int),
                None => None,
            },
            time_remaining: opt_text(self.time_remaining),
        }
    }
}

/// The largest capacity a battery reports, in percent.
pub const FULL_CAPACITY: u8 = 100;

/// The largest health figure a snapshot holds; greater ratios are cut to it.
pub const HEALTH_CEILING: u8 = 255;

/// Whether a supply's `type` attribute names a battery.
pub open spec fn is_battery_kind(kind: Option<Seq<char>>) -> bool {
    kind matches Some(t) && trimmed(t) =~= "Battery"@
}

/// The capacity that an attribute text gives: an unsigned integer of at most
/// 100, whitespace around it ignored.
pub open spec fn capacity_of(text: Option<Seq<char>>) -> Option<int> {
    match text {
        Some(t) => match unsigned_value(trimmed(t)) {
            Some(v) if v <= FULL_CAPACITY => Some(v as int),
            _ => None,
        },
        None => None,
    }
}

/// The status that an attribute text gives: the text without the whitespace
/// around it, or "Unknown" where there is none.
pub open spec fn status_of(text: Option<Seq<char>>) -> Seq<char> {
    match text {
        Some(t) => trimmed(t),
        None => "Unknown"@,
    }
}

/// The energy that an attribute text gives: an unsigned integer that fits in
/// 64 bits, whitespace around it ignored.
pub open spec fn energy_of(text: Option<Seq<char>>) -> Option<int> {
    match text {
        Some(t) => match unsigned_value(trimmed(t)) {
            Some(v) if v <= u64::MAX => Some(v as int),
            _ => None,
        },
        None => None,
    }
}

/// The power that an attribute text gives: a signed integer that fits in 64
/// bits, whitespace around it ignored.
pub open spec fn power_of(text: Option<Seq<char>>) -> Option<int> {
    match text {
        Some(t) => match signed_value(trimmed(t)) {
            Some(v) if i64::MIN <= v <= i64::MAX => Some(v),
            _ => None,
        },
        None => None,
    }
}

/// `num / den` rounded to the nearest integer, halves upwards.
#[verifier::inline]
pub open spec fn rounded_ratio(num: int, den: int) -> int
    recommends
        num >= 0,
        den > 0,
{
    (2 * num + den) / (2 * den)
}

/// Full charge as a percentage of design charge, rounded and cut to
/// `HEALTH_CEILING`.
#[verifier::inline]
pub open spec fn health_percent(full: int, design: int) -> int
    recommends
        full >= 0,
        design > 0,
{
    let percent = rounded_ratio(full * 100, design);
    if percent <= HEALTH_CEILING {
        percent
    } else {
        HEALTH_CEILING as int
    }
}

/// The health that the two charge figures give. Without both, or with a
/// design charge of zero, there is none.
#[verifier::inline]
pub open spec fn health_of(full: Option<int>, design: Option<int>) -> Option<int> {
    match (full, design) {
        (Some(f), Some(d)) if d > 0 => Some(health_percent(f, d)),
        _ => None,
    }
}

/// Whether a status text says that the battery is charging.
pub open spec fn is_charging(status: Seq<char>) -> bool {
    status =~= "Charging"@
}

/// `energy / power` hours written as whole hours and minutes, with the
/// suffix that fits the direction. The minutes are the rest of the last
/// hour, rounded: half a minute short of the full hour they read 60.
#[verifier::inline]
pub open spec fn duration_text(energy: int, power: int, charging: bool) -> Seq<char>
    recommends
        energy >= 0,
        power > 0,
{
    let hours = energy / power;
    let minutes = rounded_ratio((energy % power) * 60, power);
    decimal(hours as nat) + "h "@ + decimal(minutes as nat) + if charging {
        "m until full"@
    } else {
        "m remaining"@
    }
}

/// The time estimate. It needs a positive power figure. While charging it
/// is about the energy missing to a full charge (none once full) and needs
/// both energy figures; otherwise it is about the energy left.
#[verifier::inline]
pub open spec fn time_remaining_of(
    status: Seq<char>,
    power: Option<int>,
    full: Option<int>,
    now: Option<int>,
) -> Option<Seq<char>> {
    match power {
        Some(p) if p > 0 => {
            if is_charging(status) {
                match (full, now) {
                    (Some(f), Some(n)) => Some(
                        duration_text(if f >= n { f - n } else { 0 }, p, true),
                    ),
                    _ => None,
                }
            } else {
                match now {
                    Some(n) => Some(duration_text(n, p, false)),
                    None => None,
                }
            }
        },
        _ => None,
    }
}

/// The snapshot that a set of readings gives: none without a capacity.
pub open spec fn battery_info_of(r: ReadingsView) -> Option<BatteryView> {
    match capacity_of(r.capacity) {
        Some(capacity) => {
            let status = status_of(r.status);
            let full = energy_of(r.energy_full);
            Some(
                BatteryView {
                    capacity,
                    status,
                    health: health_of(full, energy_of(r.energy_full_design)),
                    time_remaining: time_remaining_of(
                        status,
                        power_of(r.power_now),
                        full,
                        energy_of(r.energy_now),
                    ),
                },
            )
        },
        None => None,
    }
}

/// What an optional snapshot holds.
pub open spec fn opt_battery(b: Option<BatteryInfo>) -> Option<BatteryView> {
    match b {
        Some(info) => Some(info@),
        None => None,
    }
}

/// `rounded_ratio` is the integer nearest to the exact quotient: it lies
/// within one half of `num / den`, and the upper half is excluded.
pub proof fn lemma_rounded_ratio_nearest(num: int, den: int)
    requires
        den > 0,
    ensures
        2 * den * rounded_ratio(num, den) - den <= 2 * num,
        2 * num < 2 * den * rounded_ratio(num, den) + den,
{
    let q = rounded_ratio(num, den);
    let a = 2 * num + den;
    let b = 2 * den;
    assert(a == b * (a / b) + a % b && 0 <= a % b < b) by (nonlinear_arith)
        requires
            b > 0,
    ;
    assert(2 * den * q == b * q) by (nonlinear_arith)
        requires
            b == 2 * den,
    ;
}

/// Without a positive power figure there is no time estimate, whatever the
/// status and the energy figures are.
pub proof fn lemma_no_estimate_without_power(
    status: Seq<char>,
    power: Option<int>,
    full: Option<int>,
    now: Option<int>,
)
    requires
        power matches Some(p) ==> p <= 0,
    ensures
        time_remaining_of(status, power, full, now) is None,
{
}

/// A snapshot built from readings keeps within bounds: its capacity is a
/// percentage, its health lies between zero and `HEALTH_CEILING`, and where
/// the power reading is missing, unreadable or not positive it has no time
/// estimate.
pub proof fn lemma_snapshot_sound(r: ReadingsView)
    requires
        battery_info_of(r) is Some,
    ensures
        0 <= battery_info_of(r)->0.capacity <= FULL_CAPACITY,
        battery_info_of(r)->0.health matches Some(h) ==> 0 <= h <= HEALTH_CEILING,
        (power_of(r.power_now) matches Some(p) ==> p <= 0) ==> battery_info_of(
            r,
        )->0.time_remaining is None,
{
    let full = energy_of(r.energy_full);
    let design = energy_of(r.energy_full_design);
    if full is Some && design is Some && design->0 > 0 {
        lemma_rounded_ratio_nearest(full->0 * 100, design->0);
        let q = rounded_ratio(full->0 * 100, design->0);
        assert(q >= 0) by (nonlinear_arith)
            requires
                design->0 > 0,
                full->0 >= 0,
                2 * (full->0 * 100) < 2 * design->0 * q + design->0,
        ;
    }
}

/// A remainder below the divisor rounds to at most `scale` parts of it.
proof fn lemma_rounded_part_bound(rem: int, den: int, scale: int)
    requires
        0 <= rem < den,
        scale >= 0,
    ensures
        0 <= rounded_ratio(rem * scale, den) <= scale,
{
    let a = 2 * (rem * scale) + den;
    let b = 2 * den;
    assert(0 <= a < b * (scale + 1)) by (nonlinear_arith)
        requires
            a == 2 * (rem * scale) + den,
            b == 2 * den,
            0 <= rem < den,
            scale >= 0,
    ;
    assert(0 <= a / b <= scale) by (nonlinear_arith)
        requires
            b > 0,
            0 <= a < b * (scale + 1),
    ;
}

/// Finds the first supply whose `type` attribute, trimmed, is "Battery".
/// `kinds` holds that attribute for each supply in directory order, `None`
/// where it could not be read.
pub fn find_battery(kinds: &Vec<Option<String>>) -> (r: Option<usize>)
    ensures
        match r {
            Some(i) => {
                &&& i < kinds.len()
                &&& is_battery_kind(opt_text(kinds[i as int]))
                &&& forall|j: int| 0 <= j < i ==> !is_battery_kind(opt_text(#[trigger] kinds[j]))
            },
            None => forall|j: int|
                0 <= j < kinds.len() ==> !is_battery_kind(opt_text(#[trigger] kinds[j])),
        },
{
    let mut i: usize = 0;
    while i < kinds.len()
        invariant
            i <= kinds.len(),
            forall|j: int| 0 <= j < i ==> !is_battery_kind(opt_text(#[trigger] kinds[j])),
        decreases kinds.len() - i,
    {
        match &kinds[i] {
            Some(kind) => {
                if text_eq(trim(kind.as_str()), "Battery") {
                    return Some(i);
                }
            },
            None => {},
        }
        i += 1;
    }
    None
}

/// Parses the capacity attribute: a percentage, written as an unsigned
/// integer of at most 100. Anything else is no capacity.
pub fn parse_capacity(text: &str) -> (r: Option<u8>)
    ensures
        r matches Some(c) ==> c <= FULL_CAPACITY,
        capacity_of(Some(text@)) == match r {
            Some(c) => Some(c as int),
            None => None,
        },
{
    match parse_unsigned(trim(text)) {
        Some(v) => {
            if v <= FULL_CAPACITY as u64 {
                Some(v as u8)
            } else {
                None
            }
        },
        None => None,
    }
}

/// Parses an energy attribute: an unsigned integer.
pub fn parse_energy(text: &str) -> (r: Option<u64>)
    ensures
        energy_of(Some(text@)) == match r {
            Some(e) => Some(e as int),
            None => None,
        },
{
    parse_unsigned(trim(text))
}

/// Parses the power attribute: a signed integer.
pub fn parse_power(text: &str) -> (r: Option<i64>)
    ensures
        power_of(Some(text@)) == match r {
            Some(p) => Some(p as int),
            None => None,
        },
{
    parse_signed(trim(text))
}

/// Battery health in percent: full charge over design charge, none where
/// the design charge is zero.
pub fn compute_health(full: u64, design: u64) -> (r: Option<u8>)
    ensures
        design == 0 ==> r is None,
        design > 0 ==> r == Some(health_percent(full as int, design as int) as u8),
        r matches Some(h) ==> h == health_percent(full as int, design as int),
{
    if design == 0 {
        return None;
    }
    let num: u128 = 200 * (full as u128) + design as u128;
    let den: u128 = 2 * (design as u128);
    let percent: u128 = num / den;
    if percent <= HEALTH_CEILING as u128 {
        Some(percent as u8)
    } else {
        Some(HEALTH_CEILING)
    }
}

/// Writes the time that `energy` lasts at a draw or feed of `power`.
pub fn format_duration(energy: u64, power: u64, charging: bool) -> (r: String)
    requires
        power > 0,
    ensures
        r@ == duration_text(energy as int, power as int, charging),
{
    let hours: u64 = energy / power;
    let rem: u64 = energy % power;
    proof {
        lemma_rounded_part_bound(rem as int, power as int, 60);
    }
    let num: u128 = 120 * (rem as u128) + power as u128;
    let den: u128 = 2 * (power as u128);
    let minutes: u64 = (num / den) as u64;
    let mut out = String::new();
    push_decimal(&mut out, hours);
    out.append("h ");
    push_decimal(&mut out, minutes);
    if charging {
        out.append("m until full");
    } else {
        out.append("m remaining");
    }
    out
}

/// Estimates the time until the battery is full or empty.
pub fn estimate_time_remaining(
    status: &str,
    power_now: Option<i64>,
    energy_full: Option<u64>,
    energy_now: Option<u64>,
) -> (r: Option<String>)
    ensures
        opt_text(r) == time_remaining_of(
            status@,
            match power_now {
                Some(p) => Some(p as int),
                None => None,
            },
            match energy_full {
                Some(e) => Some(e as int),
                None => None,
            },
            match energy_now {
                Some(e) => Some(e as int),
                None => None,
            },
        ),
{
    let power: u64 = match power_now {
        Some(p) => {
            if p <= 0 {
                return None;
            }
            p as u64
        },
        None => {
            return None;
        },
    };
    if text_eq(status, "Charging") {
        match (energy_full, energy_now) {
            (Some(full), Some(now)) => {
                let missing: u64 = if full >= now {
                    full - now
                } else {
                    0
                };
                Some(format_duration(missing, power, true))
            },
            _ => None,
        }
    } else {
        match energy_now {
            Some(now) => Some(format_duration(now, power, false)),
            None => None,
        }
    }
}

fn parse_optional_energy(text: &Option<String>) -> (r: Option<u64>)
    ensures
        energy_of(opt_text(*text)) == match r {
            Some(e) => Some(e as int),
            None => None,
        },
{
    match text {
        Some(t) => parse_energy(t.as_str()),
        None => None,
    }
}

/// Builds the battery snapshot from one supply's readings. Without a
/// capacity there is no snapshot; every other field may be missing alone.
pub fn read_battery_info(readings: &BatteryReadings) -> (r: Option<BatteryInfo>)
    ensures
        opt_battery(r) == battery_info_of(readings@),
{
    let capacity: u8 = match &readings.capacity {
        Some(t) => match parse_capacity(t.as_str()) {
            Some(c) => c,
            None => {
                return None;
            },
        },
        None => {
            return None;
        },
    };
    let status: String = match &readings.status {
        Some(t) => trim(t.as_str()).to_owned(),
        None => "Unknown".to_owned(),
    };
    let full = parse_optional_energy(&readings.energy_full);
    let design = parse_optional_energy(&readings.energy_full_design);
    let health: Option<u8> = match (full, design) {
        (Some(f), Some(d)) => compute_health(f, d),
        _ => None,
    };
    let power_now: Option<i64> = match &readings.power_now {
        Some(t) => parse_power(t.as_str()),
        None => None,
    };
    let energy_now = parse_optional_energy(&readings.energy_now);
    let time_remaining = estimate_time_remaining(status.as_str(), power_now, full, energy_now);
    Some(BatteryInfo { capacity, status, health, time_remaining })
}

impl BatteryInfo {
    #[verifier::type_invariant]
    spec fn capacity_in_range(&self) -> bool {
        self.capacity <= FULL_CAPACITY
    }

    /// Charge level in percent, at most 100.
    pub fn capacity(&self) -> (c: u8)
        ensures
            c == self@.capacity,
            c <= FULL_CAPACITY,
    {
        proof {
            use_type_invariant(self);
        }
        self.capacity
    }

    /// The status the supply reports, such as "Charging" or "Discharging".
    pub fn status(&self) -> (s: &str)
        ensures
            s@ == self@.status,
    {
        self.status.as_str()
    }

    /// Full charge as a percentage of design charge, where known.
    pub fn health(&self) -> (h: Option<u8>)
        ensures
            self@.health == match h {
                Some(v) => Some(v as int),
                None => None,
            },
    {
        self.health
    }

    /// The time estimate, where there is one.
    pub fn time_remaining(&self) -> (t: Option<&str>)
        ensures
            self@.time_remaining == match t {
                Some(s) => Some(s@),
                None => None,
            },
    {
        match &self.time_remaining {
            Some(s) => Some(s.as_str()),
            None => None,
        }
    }
}

} // verus!
