//! RF-exposure safe-distance inputs in exact units.
//!
//! The records of this library hold what the safe-distance calculation reads
//! as integers in fixed units (kilohertz, hundredths, millionths, percent), so
//! that the checks on their domain and the rational steps of the calculation
//! are stated and proved exactly. The transcendental steps (square roots,
//! powers of ten, logarithms) are carried out in floating point by the caller.
pub mod exact;
pub mod ratio;
pub mod records;

pub use exact::{calculate_mpe_limit, calculate_reflection_coefficient};
pub use ratio::Ratio;
pub use records::{
    validate_cable_values, validate_frequency_values, validate_inputs, validate_station_values,
    CableValues, DomainError, FrequencyValues, StationValues,
};
