//! What holds of generation slots and of named entries.

use vstd::prelude::*;

use crate::common::admission::{AdmissionError, AdmissionLimiter};
use crate::common::http_error::ErrorResponse;
use crate::common::names::NameMap;

verus! {

/// A slot is given exactly while the process takes work and a slot is free, and
/// then one more is taken. A draining process says so even when it is full. A
/// refusal takes nothing.
pub proof fn law_slots_are_given_while_free(
    limiter: &mut AdmissionLimiter,
    verdict: Result<(), AdmissionError>,
)
    requires
        call_ensures(AdmissionLimiter::try_acquire, (limiter,), verdict),
    ensures
        final(limiter)@.capacity == old(limiter)@.capacity,
        final(limiter)@.draining == old(limiter)@.draining,
        final(limiter)@.active <= final(limiter)@.capacity,
        old(limiter)@.draining ==> verdict == Err::<(), AdmissionError>(AdmissionError::Draining),
        !old(limiter)@.draining && old(limiter)@.active >= old(limiter)@.capacity ==> verdict
            == Err::<(), AdmissionError>(AdmissionError::Overloaded),
        !old(limiter)@.draining && old(limiter)@.active < old(limiter)@.capacity ==> verdict is Ok,
        verdict is Ok ==> final(limiter)@.active == old(limiter)@.active + 1,
        verdict is Err ==> final(limiter)@.active == old(limiter)@.active,
{
}

/// Giving a taken slot back undoes taking it: the limiter is as it was.
pub proof fn law_release_undoes_acquire(
    taken: &mut AdmissionLimiter,
    given: &mut AdmissionLimiter,
)
    requires
        call_ensures(
            AdmissionLimiter::try_acquire,
            (taken,),
            Ok::<(), AdmissionError>(()),
        ),
        *old(given) == *final(taken),
        call_ensures(AdmissionLimiter::release, (given,), ()),
    ensures
        final(given)@ == old(taken)@,
{
}

/// A new limiter has as many free slots as asked for and takes work. Once it
/// drains it gives no slot, and what is taken stays taken.
pub proof fn law_draining_gives_no_slot(
    capacity: u32,
    fresh: AdmissionLimiter,
    limiter: &mut AdmissionLimiter,
    later: &mut AdmissionLimiter,
    verdict: Result<(), AdmissionError>,
    draining: bool,
)
    requires
        call_ensures(AdmissionLimiter::new, (capacity,), fresh),
        call_ensures(AdmissionLimiter::begin_drain, (limiter,), ()),
        call_ensures(AdmissionLimiter::is_draining, (&*final(limiter),), draining),
        *old(later) == *final(limiter),
        call_ensures(AdmissionLimiter::try_acquire, (later,), verdict),
    ensures
        fresh@.capacity == capacity && fresh@.active == 0 && !fresh@.draining,
        draining,
        final(limiter)@.active == old(limiter)@.active,
        final(limiter)@.capacity == old(limiter)@.capacity,
        verdict == Err::<(), AdmissionError>(AdmissionError::Draining),
{
}

/// A full process answers 429 and asks to retry after a second; a draining one
/// answers 503.
pub proof fn law_refused_generations_are_told_why(
    error: AdmissionError,
    response: ErrorResponse,
    secs: Option<u64>,
)
    requires
        call_ensures(AdmissionError::into_response, (error,), response),
        call_ensures(AdmissionError::retry_after_secs, (error,), secs),
    ensures
        error is Overloaded ==> response.status == 429 && response.code@ == "OVERLOADED"@
            && response.message@ == "Too many concurrent generations"@ && secs == Some(1u64),
        error is Draining ==> response.status == 503 && response.code@ == "DRAINING"@
            && response.message@ == "The service is shutting down"@ && secs is None,
{
}

/// What was stored last under a name is what is found there; every other name
/// finds what it found before. A new name comes last, a known one keeps its
/// place.
pub proof fn law_stored_entries_are_found<V>(
    map: &mut NameMap<V>,
    name: String,
    value: V,
    asked: &str,
    before: Option<&V>,
    after: Option<&V>,
)
    requires
        call_ensures(NameMap::<V>::insert, (map, name, value), ()),
        call_ensures(NameMap::<V>::get, (&*old(map), asked), before),
        call_ensures(NameMap::<V>::get, (&*final(map), asked), after),
    ensures
        asked@ == name@ ==> (after matches Some(found) && *found == value),
        asked@ != name@ ==> match before {
            Some(kept) => after matches Some(found) && *found == *kept,
            None => after is None,
        },
        asked@ == name@ && before is None ==> final(map).names() == old(map).names().push(name@),
        asked@ == name@ && before is Some ==> final(map).names() == old(map).names(),
{
}

/// Entries are listed once each, in the order in which their names came.
pub proof fn law_entries_are_listed_in_order<'a, V>(
    map: &'a NameMap<V>,
    len: usize,
    index: usize,
    entry: (&'a str, &'a V),
    asked: &str,
    known: bool,
)
    requires
        call_ensures(NameMap::<V>::len, (map,), len),
        index < len,
        call_ensures(NameMap::<V>::entry, (map, index), entry),
        call_ensures(NameMap::<V>::contains_key, (map, asked), known),
    ensures
        entry.0@ == map.names()[index as int],
        *entry.1 == map@[entry.0@],
        known <==> exists|i: int| 0 <= i < len && #[trigger] map.names()[i] == asked@,
        forall|i: int, j: int|
            0 <= i < j < len ==> #[trigger] map.names()[i] != #[trigger] map.names()[j],
{
    if known {
        assert(map.names().contains(asked@));
    }
    if exists|i: int| 0 <= i < len && #[trigger] map.names()[i] == asked@ {
        assert(map.names().contains(asked@));
    }
}

} // verus!
