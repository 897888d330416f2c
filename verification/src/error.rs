use vstd::prelude::*;

verus! {

/// The error taxonomy of the ingestion-and-persistence core.
///
/// `Upstream` is a network or decode failure while talking to the remote
/// search service; it aborts a whole batch. `Extraction` means the response
/// envelope lacked the expected `data.items` array; it also aborts a whole
/// batch. `Persistence` is a store write failure (a constraint violation or a
/// transaction that cannot commit); inside a batch it is fatal only to the one
/// item. `NotFound` means an update targeted an id that no stored record has.
#[derive(Debug, Clone, Copy, PartialEq, Eq, Structural)]
pub enum Error {
    Upstream,
    Extraction,
    Persistence,
    NotFound,
}

} // verus!
