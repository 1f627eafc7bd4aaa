//! Laws of the resolver, stated over the spec functions that the executable
//! entry point is proved against: what each calling convention hands to the
//! model, and how a trailing time instant is consumed.

use vstd::prelude::*;

use crate::resolver::spec_query_density;
use crate::types::GeodeticLocation;
use crate::types::QueryArg;

verus! {

/// Every coordinate-form query resolves successfully, the altitude handed to
/// the model is exactly the coordinate's height above the ellipsoid, and the
/// latitude and longitude are exactly the coordinate's own radian values,
/// both always present. Space weather is always requested.
pub proof fn lemma_coordinate_form<N, T>(args: Seq<QueryArg<N, T>>, c: GeodeticLocation<N>)
    requires
        args.len() > 0,
        args[0] == QueryArg::<N, T>::Coordinate(c),
    ensures
        spec_query_density(args) matches Ok(req)
            && req.altitude_m == c.height_above_ellipsoid_m
            && req.latitude_rad == Some(c.latitude_rad)
            && req.longitude_rad == Some(c.longitude_rad)
            && req.use_space_weather,
{
}

/// Every scalar-form query that supplies only the altitude — no later
/// positional argument is a number — resolves successfully with that
/// altitude and with latitude and longitude both unspecified.
pub proof fn lemma_scalar_form_altitude_only<N, T>(args: Seq<QueryArg<N, T>>, altitude_m: N)
    requires
        args.len() > 0,
        args[0] == QueryArg::<N, T>::Number(altitude_m),
        forall|i: int| 1 <= i < args.len() ==> !(args[i] is Number),
    ensures
        spec_query_density(args) matches Ok(req)
            && req.altitude_m == altitude_m
            && req.latitude_rad is None
            && req.longitude_rad is None,
{
}

/// Every scalar-form query that supplies altitude and latitude but no
/// longitude — no positional argument after the second is a number —
/// resolves successfully with exactly the supplied latitude and with
/// longitude unspecified.
pub proof fn lemma_scalar_form_no_longitude<N, T>(
    args: Seq<QueryArg<N, T>>,
    altitude_m: N,
    latitude_rad: N,
)
    requires
        args.len() >= 2,
        args[0] == QueryArg::<N, T>::Number(altitude_m),
        args[1] == QueryArg::<N, T>::Number(latitude_rad),
        forall|i: int| 2 <= i < args.len() ==> !(args[i] is Number),
    ensures
        spec_query_density(args) matches Ok(req)
            && req.altitude_m == altitude_m
            && req.latitude_rad == Some(latitude_rad)
            && req.longitude_rad is None,
{
}

/// A trailing time instant, in either calling convention, is consumed as the
/// time parameter and takes no part in the positional classification: the
/// query succeeds exactly when the query without it succeeds, with the same
/// altitude, latitude and longitude, and with the instant as the time; and
/// it fails with exactly the same error.
pub proof fn lemma_trailing_time_excluded<N, T>(args: Seq<QueryArg<N, T>>, t: T)
    requires
        args.len() >= 2,
        args.last() == QueryArg::<N, T>::Time(t),
    ensures
        spec_query_density(args) is Ok <==> spec_query_density(args.drop_last()) is Ok,
        spec_query_density(args) matches Ok(req) ==> spec_query_density(args.drop_last())
            matches Ok(prefix_req)
            && req.altitude_m == prefix_req.altitude_m
            && req.latitude_rad == prefix_req.latitude_rad
            && req.longitude_rad == prefix_req.longitude_rad
            && req.time == Some(t),
        spec_query_density(args) is Err ==> spec_query_density(args) == spec_query_density(
            args.drop_last(),
        ),
{
    assert(args.drop_last()[0] == args[0]);
    if args.len() >= 3 {
        assert(args.drop_last()[1] == args[1]);
    }
    if args.len() >= 4 {
        assert(args.drop_last()[2] == args[2]);
    }
}

} // verus!
