//! Input resolution and dispatch for an upper-atmosphere density query.
//!
//! The query entry point accepts a variable-length, heterogeneous argument
//! list in one of two calling conventions — a geodetic coordinate object, or
//! raw altitude/latitude/longitude scalars — with an optional trailing time
//! instant. This crate classifies such a list, applies the defaulting rules,
//! and produces the canonical, fully resolved request that the external
//! empirical atmosphere model consumes. The model itself, the time type's
//! calendar logic and the coordinate type's ellipsoid math are external
//! collaborators: the crate is generic over the numeric payload `N` and the
//! time payload `T`, and only routes them.

pub mod laws;
pub mod resolver;
pub mod types;

pub use resolver::classify;
pub use resolver::query_density;
pub use resolver::request_of;
pub use types::DensityResult;
pub use types::GeodeticLocation;
pub use types::ModelRequest;
pub use types::QueryArg;
pub use types::QueryError;
pub use types::QueryForm;
