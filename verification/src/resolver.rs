//! The query resolver: classifies a heterogeneous, variable-arity argument
//! list into one of the two accepted calling conventions, applies the
//! defaulting rules, and builds the canonical request for the external
//! density model.
//!
//! The rules, stated once here and mirrored exactly by the spec functions:
//! an empty list is a usage error. The last element is inspected first: a
//! time instant there is consumed as the time parameter; anything else
//! leaves the time unspecified (a time instant anywhere but last is ignored,
//! never an error). The first element then picks the convention: a geodetic
//! coordinate supplies altitude, latitude and longitude, all present; a
//! number is the altitude in meters, with latitude and then longitude taken
//! independently from the second and third elements when those are numbers;
//! any other first element is a usage error. Elements beyond the third are
//! never read positionally.

use vstd::prelude::*;

use crate::types::ModelRequest;
use crate::types::QueryArg;
use crate::types::QueryError;
use crate::types::QueryForm;

verus! {

/// The time parameter of a query: the last argument, when it is a time
/// instant; unspecified otherwise.
pub open spec fn spec_trailing_time<N, T>(args: Seq<QueryArg<N, T>>) -> Option<T> {
    if args.len() > 0 {
        match args.last() {
            QueryArg::Time(t) => Some(t),
            _ => None,
        }
    } else {
        None
    }
}

/// The numeric value at position `i`, when position `i` exists and holds a
/// number; unspecified otherwise. Positions are resolved independently.
pub open spec fn spec_number_at<N, T>(args: Seq<QueryArg<N, T>>, i: int) -> Option<N> {
    if 0 <= i < args.len() {
        match args[i] {
            QueryArg::Number(v) => Some(v),
            _ => None,
        }
    } else {
        None
    }
}

/// The calling convention of an argument list, or the usage error it
/// raises: empty input, or a first element of unrecognized shape.
pub open spec fn spec_classify<N, T>(args: Seq<QueryArg<N, T>>) -> Result<
    QueryForm<N, T>,
    QueryError,
> {
    if args.len() == 0 {
        Err(QueryError::EmptyInput)
    } else {
        match args[0] {
            QueryArg::Coordinate(c) => Ok(QueryForm::Coordinate(c, spec_trailing_time(args))),
            QueryArg::Number(altitude_m) => Ok(
                QueryForm::Scalars(
                    altitude_m,
                    spec_number_at(args, 1),
                    spec_number_at(args, 2),
                    spec_trailing_time(args),
                ),
            ),
            _ => Err(QueryError::InvalidArgumentType),
        }
    }
}

/// The model request that a classified query resolves to. In coordinate
/// form, latitude and longitude are always present; in scalar form they are
/// carried over as supplied. Space weather is always requested.
pub open spec fn spec_request_of<N, T>(form: QueryForm<N, T>) -> ModelRequest<N, T> {
    match form {
        QueryForm::Coordinate(c, time) => ModelRequest {
            altitude_m: c.height_above_ellipsoid_m,
            latitude_rad: Some(c.latitude_rad),
            longitude_rad: Some(c.longitude_rad),
            time,
            use_space_weather: true,
        },
        QueryForm::Scalars(altitude_m, latitude_rad, longitude_rad, time) => ModelRequest {
            altitude_m,
            latitude_rad,
            longitude_rad,
            time,
            use_space_weather: true,
        },
    }
}

/// What the query entry point resolves an argument list to: the request for
/// the model, or the usage error.
pub open spec fn spec_query_density<N, T>(args: Seq<QueryArg<N, T>>) -> Result<
    ModelRequest<N, T>,
    QueryError,
> {
    match spec_classify(args) {
        Ok(form) => Ok(spec_request_of(form)),
        Err(e) => Err(e),
    }
}

/// Classifies the argument list into one of the two accepted calling
/// conventions, the single upfront step after which everything works on a
/// closed, statically typed shape.
pub fn classify<N: Copy, T: Copy>(args: &Vec<QueryArg<N, T>>) -> (r: Result<
    QueryForm<N, T>,
    QueryError,
>)
    ensures
        r == spec_classify(args@),
{
    if args.len() == 0 {
        return Err(QueryError::EmptyInput);
    }
    let time: Option<T> = match args[args.len() - 1] {
        QueryArg::Time(t) => Some(t),
        _ => None,
    };
    match args[0] {
        QueryArg::Coordinate(c) => Ok(QueryForm::Coordinate(c, time)),
        QueryArg::Number(altitude_m) => {
            let latitude_rad: Option<N> = if args.len() > 1 {
                match args[1] {
                    QueryArg::Number(v) => Some(v),
                    _ => None,
                }
            } else {
                None
            };
            let longitude_rad: Option<N> = if args.len() > 2 {
                match args[2] {
                    QueryArg::Number(v) => Some(v),
                    _ => None,
                }
            } else {
                None
            };
            Ok(QueryForm::Scalars(altitude_m, latitude_rad, longitude_rad, time))
        },
        _ => Err(QueryError::InvalidArgumentType),
    }
}

/// Builds the canonical model request from a classified query.
pub fn request_of<N: Copy, T: Copy>(form: QueryForm<N, T>) -> (r: ModelRequest<N, T>)
    ensures
        r == spec_request_of(form),
        r.use_space_weather,
{
    match form {
        QueryForm::Coordinate(c, time) => ModelRequest {
            altitude_m: c.height_above_ellipsoid_m,
            latitude_rad: Some(c.latitude_rad),
            longitude_rad: Some(c.longitude_rad),
            time,
            use_space_weather: true,
        },
        QueryForm::Scalars(altitude_m, latitude_rad, longitude_rad, time) => ModelRequest {
            altitude_m,
            latitude_rad,
            longitude_rad,
            time,
            use_space_weather: true,
        },
    }
}

/// The query entry point: resolves a heterogeneous argument list to the
/// canonical request for the external density model, or to the usage error
/// the list raises. The model's own answer is returned verbatim by the
/// caller that invokes it; this layer neither inspects nor adjusts it.
pub fn query_density<N: Copy, T: Copy>(args: &Vec<QueryArg<N, T>>) -> (r: Result<
    ModelRequest<N, T>,
    QueryError,
>)
    ensures
        r == spec_query_density(args@),
        args@.len() == 0 <==> r == Err::<ModelRequest<N, T>, QueryError>(QueryError::EmptyInput),
        args@.len() > 0 && !(args@[0] is Coordinate) && !(args@[0] is Number) <==> r == Err::<
            ModelRequest<N, T>,
            QueryError,
        >(QueryError::InvalidArgumentType),
        r matches Ok(req) ==> req.use_space_weather,
{
    match classify(args) {
        Ok(form) => Ok(request_of(form)),
        Err(e) => Err(e),
    }
}

} // verus!
