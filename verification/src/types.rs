//! The transient request values that one density query passes through:
//! the raw positional arguments, the classified calling convention, the
//! resolved model request, the model's answer, and the usage errors.

use vstd::prelude::*;

verus! {

/// A geodetic location: height above the reference ellipsoid in meters,
/// latitude and longitude in radians. The external coordinate object's
/// read accessors yield exactly these three values.
#[derive(Clone, Copy)]
pub struct GeodeticLocation<N> {
    /// Height above the reference ellipsoid, in meters.
    pub height_above_ellipsoid_m: N,
    /// Latitude, in radians.
    pub latitude_rad: N,
    /// Longitude, in radians.
    pub longitude_rad: N,
}

/// One positional argument of a query, sorted by shape: a bare number, a
/// geodetic coordinate, a time instant, or a value of any other shape.
#[derive(Clone, Copy)]
pub enum QueryArg<N, T> {
    /// A numeric (floating-point) value.
    Number(N),
    /// A geodetic coordinate object, read through its accessors.
    Coordinate(GeodeticLocation<N>),
    /// A time instant.
    Time(T),
    /// Anything else.
    Other,
}

/// The calling convention of a query, established by one upfront
/// classification step; everything downstream works on this closed shape.
#[derive(Clone, Copy)]
pub enum QueryForm<N, T> {
    /// Coordinate form: altitude, latitude and longitude all come from the
    /// coordinate object, with an optional trailing time instant.
    Coordinate(GeodeticLocation<N>, Option<T>),
    /// Scalar form: altitude in meters, then independently optional latitude
    /// and longitude in radians, with an optional trailing time instant.
    Scalars(N, Option<N>, Option<N>, Option<T>),
}

/// The canonical, fully resolved request handed to the external density
/// model. Altitude is kept in meters, the unit in which every caller
/// supplies it; the model consumes kilometers, so the numeric boundary that
/// owns `N` divides by one thousand when it makes the call.
#[derive(Clone, Copy)]
pub struct ModelRequest<N, T> {
    /// Altitude above the reference ellipsoid, in meters.
    pub altitude_m: N,
    /// Latitude in radians, or `None` for "unspecified" (the model falls
    /// back to its climatological default). Zero is a valid latitude and is
    /// distinct from `None`.
    pub latitude_rad: Option<N>,
    /// Longitude in radians, or `None` for "unspecified".
    pub longitude_rad: Option<N>,
    /// The time instant, or `None` for "unspecified" (the model resolves it
    /// to the current instant).
    pub time: Option<T>,
    /// Whether the model should use space-weather data; always set.
    pub use_space_weather: bool,
}

/// The model's answer, returned verbatim: mass density in kilograms per
/// cubic meter and temperature in Kelvin.
#[derive(Clone, Copy)]
pub struct DensityResult<N> {
    /// Atmospheric mass density, in kg / m^3.
    pub density: N,
    /// Temperature, in Kelvin.
    pub temperature: N,
}

/// A usage error of the query entry point. Both kinds surface synchronously
/// to the caller; nothing is retried or recovered internally.
#[derive(Clone, Copy, Debug, PartialEq, Eq, Structural)]
pub enum QueryError {
    /// No arguments were supplied.
    EmptyInput,
    /// The first positional argument is neither a recognized coordinate
    /// object nor a numeric value.
    InvalidArgumentType,
}

impl QueryError {
    /// The error message, as the entry point reports it to the caller.
    pub fn message(&self) -> (s: String)
        ensures
            *self is EmptyInput ==> s@ == "Invalid number of arguments"@,
            *self is InvalidArgumentType ==> s@ == "Invalid arguments"@,
    {
        match self {
            QueryError::EmptyInput => "Invalid number of arguments".to_string(),
            QueryError::InvalidArgumentType => "Invalid arguments".to_string(),
        }
    }
}

} // verus!
