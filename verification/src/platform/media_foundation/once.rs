use vstd::prelude::*;

use crate::error::VoiceLibError;

verus! {

/// The outcome of a native call as contracts see it: `None` where the call
/// was not made, else what it gave or the result code of its failure.
pub open spec fn outcome_view<T>(outcome: Option<Result<Vec<T>, i32>>) -> Option<
    Result<Seq<T>, i32>,
> {
    match outcome {
        Some(Ok(items)) => Some(Ok(items@)),
        Some(Err(code)) => Some(Err(code)),
        None => None,
    }
}

/// What a compute-once cache keeps when it is asked with `computed` at
/// hand: the value it has, else the newly computed one. A failed computation
/// is not kept: the cache stays empty, and a later request may bring a new
/// computation with it.
pub open spec fn kept<T>(cached: Option<T>, computed: Result<T, VoiceLibError>) -> Option<T> {
    match cached {
        Some(_) => cached,
        None => match computed {
            Ok(value) => Some(value),
            Err(_) => None,
        },
    }
}

/// What a compute-once cache answers when it is asked with `computed` at
/// hand: the value it has, else whatever the computation gave.
pub open spec fn answered<T>(cached: Option<T>, computed: Result<T, VoiceLibError>) -> Result<
    T,
    VoiceLibError,
> {
    match cached {
        Some(value) => Ok(value),
        None => computed,
    }
}

/// Computed once. A cache that has answered with a value keeps it: it is no
/// longer empty, and the next request is answered with the same value and
/// changes nothing, whatever computation is handed in with it.
pub proof fn lemma_computed_once<T>(
    cached: Option<T>,
    first: Result<T, VoiceLibError>,
    second: Result<T, VoiceLibError>,
)
    requires
        answered(cached, first) is Ok,
    ensures
        kept(cached, first) is Some,
        kept(kept(cached, first), second) == kept(cached, first),
        answered(kept(cached, first), second) == answered(cached, first),
{
}

} // verus!
