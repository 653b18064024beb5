use vstd::prelude::*;
use vstd::string::*;
use crate::dispatch::{render, rendered, RecordResponse, Response};
use crate::error::{Error, Failure};
use crate::types::RecordModel;
use crate::store::{consume_spec, fetch_spec, Store};

verus! {

/// One whole access to `slug` at `now`: the backend after it, and what the
/// caller gets. A slug that cannot be fetched is not found, and a record
/// that cannot be rendered is refused; neither costs an access. Otherwise
/// the response is that of the record fetched, and one access is taken.
pub open spec fn lookup_spec(m: Map<Seq<char>, RecordModel>, slug: Seq<char>, now: u64) -> (
    Map<Seq<char>, RecordModel>,
    Result<Response, Failure>,
) {
    match fetch_spec(m, slug, now) {
        None => (m, Err(Failure::NotFound(slug))),
        Some(record) => match rendered(record.data) {
            Err(f) => (m, Err(f)),
            Ok(response) => (consume_spec(m, record).0, Ok(response)),
        },
    }
}

/// Resolves `slug` against a store in memory: fetches the record, renders
/// it, and only then accounts for the access.
pub fn lookup(store: &mut Store, slug: &str, now: u64) -> (r: Result<RecordResponse, Error>)
    requires
        old(store).wf(),
    ensures
        final(store).wf(),
        final(store)@ == lookup_spec(old(store)@, slug@, now).0,
        match r {
            Ok(response) => lookup_spec(old(store)@, slug@, now).1 == Ok::<Response, Failure>(
                response@,
            ),
            Err(e) => lookup_spec(old(store)@, slug@, now).1 == Err::<Response, Failure>(e@),
        },
{
    match store.fetch(slug, now) {
        None => Err(Error::NotFound(String::from_str(slug))),
        Some(record) => match render(record.data()) {
            Err(e) => Err(e),
            Ok(response) => {
                let _ = store.consume(&record);
                Ok(response)
            },
        },
    }
}

} // verus!
