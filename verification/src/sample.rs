use vstd::prelude::*;

verus! {

/// A ratio of one, in parts per million.
pub const PPM_ONE: u32 = 1_000_000;

/// Zero degrees Celsius in millikelvin.
pub const ZERO_CELSIUS_MK: u32 = 273_150;

/// Whether the power source takes energy in or gives it out.
#[derive(Clone, Copy, Debug, PartialEq, Eq, Structural)]
pub enum ChargeState {
    Unknown,
    Charging,
    Discharging,
    Empty,
    Full,
}

impl Default for ChargeState {
    fn default() -> (s: Self)
        ensures
            s == ChargeState::Unknown,
    {
        ChargeState::Unknown
    }
}

/// The chemistry of the power source.
#[derive(Clone, Copy, Debug, PartialEq, Eq, Structural)]
pub enum Technology {
    Unknown,
    LithiumIon,
    LeadAcid,
    LithiumPolymer,
    NickelMetalHydride,
    NickelCadmium,
    NickelZinc,
    LithiumIronPhosphate,
    RechargeableAlkalineManganese,
}

impl Default for Technology {
    fn default() -> (t: Self)
        ensures
            t == Technology::Unknown,
    {
        Technology::Unknown
    }
}

/// What a power source reports when asked, in this crate's units. An
/// attribute that the source may be unable to give is an `Option`.
#[derive(Debug, PartialEq, Eq)]
pub struct RawReading {
    /// Charge as a share of the full charge, in parts per million.
    pub charge_ppm: u32,
    pub vendor: Option<String>,
    pub model: Option<String>,
    pub serial_number: Option<String>,
    /// Magnitude of the power flowing in or out, in milliwatts.
    pub power_mw: u32,
    /// Energy left, in milliwatt-hours.
    pub energy_mwh: u32,
    /// Seconds until empty.
    pub time_to_empty_s: Option<u32>,
    /// Seconds until full.
    pub time_to_full_s: Option<u32>,
    /// Temperature in millikelvin.
    pub temperature_mk: Option<u32>,
    /// Voltage in millivolts.
    pub voltage_mv: u32,
    pub cycle_count: Option<u32>,
    pub state: ChargeState,
    /// Full charge as a share of the design charge, in parts per million.
    pub health_ppm: u32,
    pub technology: Technology,
}

/// One normalised reading. Nothing in it is missing: where the source gave
/// no value, the documented default stands in its place.
#[derive(Debug, PartialEq, Eq)]
pub struct Snapshot {
    /// Charge as a share of the full charge, in parts per million; at most
    /// [`PPM_ONE`].
    pub charge_ppm: u32,
    /// Empty if unknown.
    pub vendor: String,
    /// Empty if unknown.
    pub model: String,
    /// `Unknown` if unknown.
    pub serial_number: String,
    /// Magnitude of the power flowing in or out, in milliwatts.
    pub power_mw: u32,
    /// Energy left, in milliwatt-hours.
    pub energy_mwh: u32,
    /// Seconds until empty; zero if unknown.
    pub time_to_empty_s: u32,
    /// Seconds until full; zero if unknown.
    pub time_to_full_s: u32,
    /// Temperature in millikelvin; zero if unknown.
    pub temperature_mk: u32,
    /// Voltage in millivolts.
    pub voltage_mv: u32,
    /// Zero if unknown.
    pub cycle_count: u32,
    pub state: ChargeState,
    /// Full charge as a share of the design charge, in parts per million; at
    /// most [`PPM_ONE`].
    pub health_ppm: u32,
    pub technology: Technology,
}

/// The text given, or `default` where none is given.
pub open spec fn text_or(text: Option<String>, default: Seq<char>) -> Seq<char> {
    match text {
        Some(t) => t@,
        None => default,
    }
}

/// The number given, or zero where none is given.
pub open spec fn number_or_zero(number: Option<u32>) -> u32 {
    match number {
        Some(n) => n,
        None => 0,
    }
}

/// A share in parts per million, cut off at one.
pub open spec fn capped_ratio(ppm: u32) -> u32 {
    if ppm <= PPM_ONE {
        ppm
    } else {
        PPM_ONE
    }
}

/// The power flow with its direction as a sign, in milliwatts: negative while
/// the source is charging, as energy then flows into it, and the magnitude
/// unchanged in every other state.
pub open spec fn signed_power_of(state: ChargeState, power_mw: u32) -> int {
    if state == ChargeState::Charging {
        -(power_mw as int)
    } else {
        power_mw as int
    }
}

/// `value` is a signed power that some state and magnitude give, in
/// milliwatts.
pub open spec fn is_signed_power(value: i64) -> bool {
    -(u32::MAX as int) <= value <= u32::MAX as int
}

/// The power flow with its direction as a sign, in milliwatts.
pub fn signed_power(state: ChargeState, power_mw: u32) -> (signed: i64)
    ensures
        signed == signed_power_of(state, power_mw),
        is_signed_power(signed),
{
    match state {
        ChargeState::Charging => -(power_mw as i64),
        _ => power_mw as i64,
    }
}

impl Snapshot {
    /// Both shares are at most one.
    pub open spec fn wf(&self) -> bool {
        self.charge_ppm <= PPM_ONE && self.health_ppm <= PPM_ONE
    }

    /// `self` is what normalising `raw` gives: each attribute taken over, a
    /// share cut off at one, and a missing attribute replaced by its default.
    pub open spec fn is_normal_form_of(&self, raw: RawReading) -> bool {
        &&& self.charge_ppm == capped_ratio(raw.charge_ppm)
        &&& self.vendor@ == text_or(raw.vendor, Seq::empty())
        &&& self.model@ == text_or(raw.model, Seq::empty())
        &&& self.serial_number@ == text_or(raw.serial_number, "Unknown"@)
        &&& self.power_mw == raw.power_mw
        &&& self.energy_mwh == raw.energy_mwh
        &&& self.time_to_empty_s == number_or_zero(raw.time_to_empty_s)
        &&& self.time_to_full_s == number_or_zero(raw.time_to_full_s)
        &&& self.temperature_mk == number_or_zero(raw.temperature_mk)
        &&& self.voltage_mv == raw.voltage_mv
        &&& self.cycle_count == number_or_zero(raw.cycle_count)
        &&& self.state == raw.state
        &&& self.health_ppm == capped_ratio(raw.health_ppm)
        &&& self.technology == raw.technology
    }

    /// Nothing has been read yet: every number is zero, every text empty,
    /// state and technology unknown.
    pub open spec fn is_blank(&self) -> bool {
        &&& self.charge_ppm == 0
        &&& self.vendor@ == Seq::<char>::empty()
        &&& self.model@ == Seq::<char>::empty()
        &&& self.serial_number@ == Seq::<char>::empty()
        &&& self.power_mw == 0
        &&& self.energy_mwh == 0
        &&& self.time_to_empty_s == 0
        &&& self.time_to_full_s == 0
        &&& self.temperature_mk == 0
        &&& self.voltage_mv == 0
        &&& self.cycle_count == 0
        &&& self.state == ChargeState::Unknown
        &&& self.health_ppm == 0
        &&& self.technology == Technology::Unknown
    }

    /// The snapshot held before the first reading.
    pub fn blank() -> (s: Snapshot)
        ensures
            s.wf(),
            s.is_blank(),
    {
        Snapshot {
            charge_ppm: 0,
            vendor: String::new(),
            model: String::new(),
            serial_number: String::new(),
            power_mw: 0,
            energy_mwh: 0,
            time_to_empty_s: 0,
            time_to_full_s: 0,
            temperature_mk: 0,
            voltage_mv: 0,
            cycle_count: 0,
            state: ChargeState::Unknown,
            health_ppm: 0,
            technology: Technology::Unknown,
        }
    }

    /// Turns one reading into a snapshot.
    pub fn normalize(raw: RawReading) -> (s: Snapshot)
        ensures
            s.wf(),
            s.is_normal_form_of(raw),
    {
        Snapshot {
            charge_ppm: cap_ratio(raw.charge_ppm),
            vendor: match raw.vendor {
                Some(text) => text,
                None => String::new(),
            },
            model: match raw.model {
                Some(text) => text,
                None => String::new(),
            },
            serial_number: match raw.serial_number {
                Some(text) => text,
                None => "Unknown".to_owned(),
            },
            power_mw: raw.power_mw,
            energy_mwh: raw.energy_mwh,
            time_to_empty_s: or_zero(raw.time_to_empty_s),
            time_to_full_s: or_zero(raw.time_to_full_s),
            temperature_mk: or_zero(raw.temperature_mk),
            voltage_mv: raw.voltage_mv,
            cycle_count: or_zero(raw.cycle_count),
            state: raw.state,
            health_ppm: cap_ratio(raw.health_ppm),
            technology: raw.technology,
        }
    }

    /// The power flow of this snapshot with its direction as a sign, in
    /// milliwatts.
    pub fn signed_power(&self) -> (signed: i64)
        ensures
            signed == signed_power_of(self.state, self.power_mw),
    {
        signed_power(self.state, self.power_mw)
    }

    /// The temperature in thousandths of a degree Celsius.
    pub fn temperature_millicelsius(&self) -> (t: i64)
        ensures
            t == self.temperature_mk - ZERO_CELSIUS_MK,
    {
        self.temperature_mk as i64 - ZERO_CELSIUS_MK as i64
    }
}

fn cap_ratio(ppm: u32) -> (r: u32)
    ensures
        r == capped_ratio(ppm),
{
    if ppm <= PPM_ONE {
        ppm
    } else {
        PPM_ONE
    }
}

fn or_zero(number: Option<u32>) -> (r: u32)
    ensures
        r == number_or_zero(number),
{
    match number {
        Some(n) => n,
        None => 0,
    }
}

} // verus!
