//! Resolving the DNS zone's name to the identifier the provider knows it by.

use vstd::prelude::*;
use crate::error::{call_failed, Cause, Error, ErrorKind, ErrorView};
use crate::text::{nth_segment, segment};

verus! {

/// The error for a zone lookup that gives no usable zone.
pub open spec fn zone_not_found() -> ErrorView {
    ErrorView { kind: ErrorKind::ZoneNotFound, source: None }
}

/// The bare identifier inside a zone's full identifier: full identifiers have
/// the form `/hostedzone/<id>`, and the bare one is the third piece between
/// slashes.
pub open spec fn bare_zone_id(full_id: Seq<char>) -> Option<Seq<char>> {
    segment(full_id, '/', 2)
}

/// What a zone lookup resolves to: the bare identifier of the first zone
/// listed.
pub open spec fn zone_result(listed: Result<Vec<String>, Cause>) -> Result<Seq<char>, ErrorView> {
    match listed {
        Ok(zones) => if zones@.len() == 0 {
            Err(zone_not_found())
        } else {
            match bare_zone_id(zones@[0]@) {
                Some(id) => Ok(id),
                None => Err(zone_not_found()),
            }
        },
        Err(cause) => Err(call_failed(ErrorKind::ListHostedZonesByNameError, cause@)),
    }
}

/// Picks the zone to deploy into from the answer of a lookup by name.
///
/// `listed` holds the full identifiers of the zones that matched, in the
/// order the directory gave them, or the report of the call that failed.
/// Exactly one match is expected and the first is taken. Fails with the
/// zone-not-found error when nothing matched or the first identifier has no
/// third piece, and with the lookup error when the call failed.
pub fn find_zone(listed: Result<Vec<String>, Cause>) -> (r: Result<String, Error>)
    ensures
        match r {
            Ok(id) => zone_result(listed) == Ok::<Seq<char>, ErrorView>(id@),
            Err(e) => zone_result(listed) == Err::<Seq<char>, ErrorView>(e@),
        },
{
    match listed {
        Ok(zones) => {
            if zones.len() == 0 {
                return Err(Error::ZoneNotFound);
            }
            match nth_segment(zones[0].as_str(), '/', 2) {
                Some(id) => Ok(id),
                None => Err(Error::ZoneNotFound),
            }
        },
        Err(cause) => Err(Error::ListHostedZonesByNameError { source: cause }),
    }
}

} // verus!
