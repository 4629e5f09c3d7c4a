//! What each answer of a gateway becomes on its way to the client, said
//! once for every resource: a row is shown as clients see it, and a failure
//! is sorted into its kind.

use vstd::prelude::*;
use vstd::std_specs::convert::FromSpec;

use crate::domain::response::{ApiResponse, ApiResponsePagination};
use crate::error::{classifies, GatewayError, Resource, ServiceError};
use crate::pagination::PageRequest;
use crate::record::Record;

verus! {

/// The rows as clients see them, in the same order.
pub open spec fn shown_rows<T, S: From<T>>(rows: Seq<T>) -> Seq<S> {
    rows.map_values(|row: T| S::from_spec(row))
}

/// The view of what a gateway answers a listing with.
pub open spec fn listed_view<T>(listed: Result<(Vec<T>, i64), GatewayError>) -> Result<
    (Seq<T>, int),
    GatewayError,
> {
    match listed {
        Ok(listing) => Ok((listing.0@, listing.1 as int)),
        Err(e) => Err(e),
    }
}

/// `answer` is what a listing by the gateway becomes: the rows as clients
/// see them, with the count and the page that was asked for; or the kind
/// that the gateway's failure is sorted into.
pub open spec fn is_page_of<T, S: From<T>>(
    resource: Resource,
    request: PageRequest,
    listed: Result<(Seq<T>, int), GatewayError>,
    answer: Result<ApiResponsePagination<Vec<S>>, ServiceError>,
) -> bool {
    match listed {
        Ok(listing) => {
            &&& answer matches Ok(page)
            &&& page.data@ == shown_rows::<T, S>(listing.0)
            &&& page.total == listing.1
            &&& page.page == request.page
            &&& page.page_size == request.page_size
        },
        Err(e) => answer matches Err(kind) && classifies(resource, e, kind),
    }
}

/// `answer` is what a lookup by the gateway becomes: the row as clients see
/// it, or `None`; or the kind that the gateway's failure is sorted into.
pub open spec fn is_lookup_of<T, S: From<T>>(
    resource: Resource,
    found: Result<Option<T>, GatewayError>,
    answer: Result<Option<ApiResponse<S>>, ServiceError>,
) -> bool {
    match found {
        Ok(Some(row)) => answer matches Ok(Some(a)) && a.data == S::from_spec(row),
        Ok(None) => answer matches Ok(None),
        Err(e) => answer matches Err(kind) && classifies(resource, e, kind),
    }
}

/// `answer` is what a row that the gateway made or changed becomes: the row
/// as clients see it; or the kind that the gateway's failure is sorted
/// into.
pub open spec fn is_row_of<T, S: From<T>>(
    resource: Resource,
    row: Result<T, GatewayError>,
    answer: Result<ApiResponse<S>, ServiceError>,
) -> bool {
    match row {
        Ok(made) => answer matches Ok(a) && a.data == S::from_spec(made),
        Err(e) => answer matches Err(kind) && classifies(resource, e, kind),
    }
}

/// `answer` is what a row that the gateway changed becomes, where the
/// operation may also answer that it found nothing: the row as clients see
/// it; or the kind that the gateway's failure is sorted into.
pub open spec fn is_change_of<T, S: From<T>>(
    resource: Resource,
    replaced: Result<T, GatewayError>,
    answer: Result<Option<ApiResponse<S>>, ServiceError>,
) -> bool {
    match replaced {
        Ok(row) => answer matches Ok(Some(a)) && a.data == S::from_spec(row),
        Err(e) => answer matches Err(kind) && classifies(resource, e, kind),
    }
}

/// `answer` is what the gateway's own answer becomes where nothing is to
/// be shown differently: the same value; or the kind that the gateway's
/// failure is sorted into.
pub open spec fn is_passed_on<T>(
    resource: Resource,
    given: Result<T, GatewayError>,
    answer: Result<ApiResponse<T>, ServiceError>,
) -> bool {
    match given {
        Ok(value) => answer matches Ok(a) && a.data == value,
        Err(e) => answer matches Err(kind) && classifies(resource, e, kind),
    }
}

/// The rows as clients see them.
pub fn show_all<T: Record, S: From<T>>(rows: &Vec<T>) -> (data: Vec<S>)
    ensures
        data@.len() == rows@.len(),
        S::obeys_from_spec() ==> data@ == shown_rows::<T, S>(rows@),
{
    let mut data: Vec<S> = Vec::new();
    let mut i: usize = 0;
    while i < rows.len()
        invariant
            i <= rows.len(),
            data@.len() == i,
            S::obeys_from_spec() ==> data@ == shown_rows::<T, S>(rows@.subrange(0, i as int)),
        decreases rows.len() - i,
    {
        data.push(S::from(rows[i].duplicate()));
        assert(S::obeys_from_spec() ==> data@ =~= shown_rows::<T, S>(rows@.subrange(0, i + 1)));
        i = i + 1;
    }
    assert(rows@.subrange(0, i as int) =~= rows@);
    data
}

/// Answers a listing from what the gateway found.
pub fn page_answer<T: Record, S: From<T>>(
    resource: Resource,
    request: &PageRequest,
    listed: Result<(Vec<T>, i64), GatewayError>,
) -> (answer: Result<ApiResponsePagination<Vec<S>>, ServiceError>)
    ensures
        answer is Ok <==> listed is Ok,
        S::obeys_from_spec() ==> is_page_of(resource, *request, listed_view(listed), answer),
        listed matches Err(e) ==> (answer matches Err(kind) && classifies(resource, e, kind)),
{
    match listed {
        Ok((rows, total)) => Ok(
            ApiResponsePagination {
                data: show_all(&rows),
                total,
                page: request.page,
                page_size: request.page_size,
            },
        ),
        Err(e) => Err(ServiceError::classify(resource, e)),
    }
}

/// Answers a lookup from what the gateway found. A row that is not there
/// is no failure: the answer is `None`.
pub fn lookup_answer<T, S: From<T>>(resource: Resource, found: Result<Option<T>, GatewayError>) -> (answer:
    Result<Option<ApiResponse<S>>, ServiceError>)
    ensures
        answer is Ok <==> found is Ok,
        answer matches Ok(shown) ==> (shown is Some <==> found matches Ok(Some(_))),
        S::obeys_from_spec() ==> is_lookup_of(resource, found, answer),
        found matches Err(e) ==> (answer matches Err(kind) && classifies(resource, e, kind)),
{
    match found {
        Ok(Some(row)) => Ok(Some(ApiResponse { data: S::from(row) })),
        Ok(None) => Ok(None),
        Err(e) => Err(ServiceError::classify(resource, e)),
    }
}

/// Answers a creation or a change from the row that the gateway made of
/// it.
pub fn row_answer<T, S: From<T>>(resource: Resource, row: Result<T, GatewayError>) -> (answer:
    Result<ApiResponse<S>, ServiceError>)
    ensures
        answer is Ok <==> row is Ok,
        S::obeys_from_spec() ==> is_row_of(resource, row, answer),
        row matches Err(e) ==> (answer matches Err(kind) && classifies(resource, e, kind)),
{
    match row {
        Ok(made) => Ok(ApiResponse { data: S::from(made) }),
        Err(e) => Err(ServiceError::classify(resource, e)),
    }
}

/// Answers a change from the row that the gateway replaced, for an
/// operation that may also answer that it found nothing. A change that
/// went through always shows the row.
pub fn change_answer<T, S: From<T>>(resource: Resource, replaced: Result<T, GatewayError>) -> (answer:
    Result<Option<ApiResponse<S>>, ServiceError>)
    ensures
        answer is Ok <==> replaced is Ok,
        answer matches Ok(shown) ==> shown is Some,
        S::obeys_from_spec() ==> is_change_of(resource, replaced, answer),
        replaced matches Err(e) ==> (answer matches Err(kind) && classifies(resource, e, kind)),
{
    match replaced {
        Ok(row) => Ok(Some(ApiResponse { data: S::from(row) })),
        Err(e) => Err(ServiceError::classify(resource, e)),
    }
}

/// Answers with what the gateway gave, as it is: the empty success of a
/// removal, or rows that are already what clients see.
pub fn passed_on<T>(resource: Resource, given: Result<T, GatewayError>) -> (answer: Result<
    ApiResponse<T>,
    ServiceError,
>)
    ensures
        is_passed_on(resource, given, answer),
{
    match given {
        Ok(value) => Ok(ApiResponse { data: value }),
        Err(e) => Err(ServiceError::classify(resource, e)),
    }
}

} // verus!
