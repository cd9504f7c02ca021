use vstd::prelude::*;

verus! {

/// One band under analysis.
///
/// `freq_khz` is the operating frequency in kilohertz, `swr_centi` the voltage
/// standing-wave ratio at the antenna in hundredths (`225` is 2.25), and
/// `gaindbi_centi` the antenna gain in hundredths of a dBi.
#[derive(Clone, Copy, Debug, PartialEq, Eq)]
pub struct FrequencyValues {
    pub freq_khz: u32,
    pub swr_centi: u32,
    pub gaindbi_centi: i32,
}

/// Empirical loss coefficients of a feedline, in millionths.
#[derive(Clone, Copy, Debug, PartialEq, Eq)]
pub struct CableValues {
    pub k1_micro: u32,
    pub k2_micro: u32,
}

/// The transmitter side shared by every band: power in watts, feedline length
/// in feet, duty cycle and averaging factor in percent.
#[derive(Clone, Copy, Debug, PartialEq, Eq)]
pub struct StationValues {
    pub transmitter_power: i32,
    pub feedline_length: i32,
    pub duty_cycle_percent: u32,
    pub averaging_percent: u32,
}

/// Why an input lies outside the domain of the safe-distance calculation.
#[derive(Clone, Copy, Debug, PartialEq, Eq)]
pub enum DomainError {
    NonPositiveFrequency,
    SwrBelowOne,
    NonPositiveCableConstant,
    NegativeTransmitterPower,
    NegativeFeedlineLength,
    DutyCycleAboveOne,
    AveragingFactorAboveOne,
}

impl FrequencyValues {
    /// A positive frequency and an SWR of at least 1.
    pub open spec fn wf(self) -> bool {
        self.freq_khz > 0 && self.swr_centi >= 100
    }

    /// The first rule of `wf` that the band breaks.
    pub open spec fn violation(self) -> Option<DomainError> {
        if self.freq_khz == 0 {
            Some(DomainError::NonPositiveFrequency)
        } else if self.swr_centi < 100 {
            Some(DomainError::SwrBelowOne)
        } else {
            None
        }
    }
}

impl CableValues {
    /// Both coefficients positive.
    pub open spec fn wf(self) -> bool {
        self.k1_micro > 0 && self.k2_micro > 0
    }

    pub open spec fn violation(self) -> Option<DomainError> {
        if self.k1_micro == 0 || self.k2_micro == 0 {
            Some(DomainError::NonPositiveCableConstant)
        } else {
            None
        }
    }
}

impl StationValues {
    /// Non-negative power and length; duty cycle and averaging factor
    /// within `[0, 1]`.
    pub open spec fn wf(self) -> bool {
        &&& self.transmitter_power >= 0
        &&& self.feedline_length >= 0
        &&& self.duty_cycle_percent <= 100
        &&& self.averaging_percent <= 100
    }

    pub open spec fn violation(self) -> Option<DomainError> {
        if self.transmitter_power < 0 {
            Some(DomainError::NegativeTransmitterPower)
        } else if self.feedline_length < 0 {
            Some(DomainError::NegativeFeedlineLength)
        } else if self.duty_cycle_percent > 100 {
            Some(DomainError::DutyCycleAboveOne)
        } else if self.averaging_percent > 100 {
            Some(DomainError::AveragingFactorAboveOne)
        } else {
            None
        }
    }
}

/// `Ok` where no rule is broken, else the first broken rule.
pub open spec fn as_result(v: Option<DomainError>) -> Result<(), DomainError> {
    match v {
        Some(e) => Err(e),
        None => Ok(()),
    }
}

/// The first broken rule over a whole calculation: the band first, then the
/// cable, then the station.
pub open spec fn inputs_violation(
    f: FrequencyValues,
    c: CableValues,
    s: StationValues,
) -> Option<DomainError> {
    if f.violation() is Some {
        f.violation()
    } else if c.violation() is Some {
        c.violation()
    } else {
        s.violation()
    }
}

/// Checks a band against the domain of the calculation.
pub fn validate_frequency_values(freq_values: &FrequencyValues) -> (r: Result<(), DomainError>)
    ensures
        r == as_result(freq_values.violation()),
        r is Ok <==> freq_values.wf(),
{
    if freq_values.freq_khz == 0 {
        Err(DomainError::NonPositiveFrequency)
    } else if freq_values.swr_centi < 100 {
        Err(DomainError::SwrBelowOne)
    } else {
        Ok(())
    }
}

/// Checks the cable coefficients against the domain of the calculation.
pub fn validate_cable_values(cable_values: &CableValues) -> (r: Result<(), DomainError>)
    ensures
        r == as_result(cable_values.violation()),
        r is Ok <==> cable_values.wf(),
{
    if cable_values.k1_micro == 0 || cable_values.k2_micro == 0 {
        Err(DomainError::NonPositiveCableConstant)
    } else {
        Ok(())
    }
}

/// Checks the station parameters against the domain of the calculation.
pub fn validate_station_values(station: &StationValues) -> (r: Result<(), DomainError>)
    ensures
        r == as_result(station.violation()),
        r is Ok <==> station.wf(),
{
    if station.transmitter_power < 0 {
        Err(DomainError::NegativeTransmitterPower)
    } else if station.feedline_length < 0 {
        Err(DomainError::NegativeFeedlineLength)
    } else if station.duty_cycle_percent > 100 {
        Err(DomainError::DutyCycleAboveOne)
    } else if station.averaging_percent > 100 {
        Err(DomainError::AveragingFactorAboveOne)
    } else {
        Ok(())
    }
}

/// Checks everything one safe-distance calculation reads, band first.
pub fn validate_inputs(
    freq_values: &FrequencyValues,
    cable_values: &CableValues,
    station: &StationValues,
) -> (r: Result<(), DomainError>)
    ensures
        r == as_result(inputs_violation(*freq_values, *cable_values, *station)),
        r is Ok <==> freq_values.wf() && cable_values.wf() && station.wf(),
{
    match validate_frequency_values(freq_values) {
        Err(e) => Err(e),
        Ok(()) => match validate_cable_values(cable_values) {
            Err(e) => Err(e),
            Ok(()) => validate_station_values(station),
        },
    }
}

} // verus!
