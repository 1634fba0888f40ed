//! Decompression planning after the linear-exponential tissue model, in
//! fixed-point arithmetic.
//!
//! A pressure counts millionths of its unit, every other scalar counts units
//! of 10^-12, and a time counts milliseconds. The exponential function and
//! the logarithm are handed in by the caller, as functions on such scalars.
pub mod compartment;
pub mod depth_utils;
pub mod display_utils;
pub mod dive;
pub mod error;
pub mod fixed;
pub mod gas;
pub mod mptt;
pub mod pressure_unit;
pub mod setup;
pub mod stop_time;
pub mod thalmann;
pub mod update;
pub mod update_exp;
pub mod update_thalmann;

pub use error::DecoError;
pub use setup::{DINC, LAST_STOP};
pub use thalmann::{
    calc_deco_schedule, calc_deco_schedule_intern, mvalues_he9_040, thalmann_start,
    thalmann_step, DriverState, DriverStep, ThalmannResult, UpdateLaw,
};
pub use update::loadings_from_dive_profile;
