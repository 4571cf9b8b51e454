//! Bindings to the host compute network service of Windows: its networks,
//! namespaces, endpoints and load balancers.
//!
//! [`api`] holds one operation for each entry point of the service, [`schema`]
//! the documents that the service reads and writes, [`cotask`] the slot in which
//! the service leaves text, and [`guid`] the identifiers of its objects.
use vstd::prelude::*;
use crate::api::{
    accepts, answers, close_namespace, is_bare_failure_of, is_failure, is_failure_of,
    open_namespace, query_namespace_properties, HcnCall, HcnReply, ServiceError,
};
use crate::guid::{is_guid_text, Guid};
use crate::schema::HostComputeQuery;

pub mod api;
pub mod cotask;
pub mod guid;
pub mod schema;

verus! {

/// Whether `result` is what a lookup of the namespace `id` gives on `service`
/// when it asks with the document `query`: the namespace is opened, its
/// properties are queried, and the handle is closed again. The first of the three
/// calls that fails ends the lookup with its failure, and a handle whose query
/// failed is not closed. Where none fails, the lookup gives the text that the
/// query left.
pub open spec fn is_namespace_lookup<F: Fn(HcnCall) -> HcnReply>(
    service: &F,
    id: Guid,
    query: &str,
    result: Result<String, ServiceError>,
) -> bool {
    exists|opened: HcnReply|
        {
            &&& #[trigger] answers(service, (HcnCall::OpenNamespace { id }), opened)
            &&& if is_failure(opened.status) {
                result matches Err(error) && is_failure_of(opened, error)
            } else {
                is_namespace_report(service, opened.handle, query, result)
            }
        }
}

/// Whether `result` is what the query of an open namespace and the closing of its
/// handle give.
pub open spec fn is_namespace_report<F: Fn(HcnCall) -> HcnReply>(
    service: &F,
    namespace: usize,
    query: &str,
    result: Result<String, ServiceError>,
) -> bool {
    exists|queried: HcnReply|
        {
            &&& #[trigger] answers(
                service,
                (HcnCall::QueryNamespaceProperties { namespace, query }),
                queried,
            )
            &&& if is_failure(queried.status) {
                result matches Err(error) && is_failure_of(queried, error)
            } else {
                exists|closed: HcnReply|
                    {
                        &&& #[trigger] answers(
                            service,
                            (HcnCall::CloseNamespace { namespace }),
                            closed,
                        )
                        &&& if is_failure(closed.status) {
                            result matches Err(error) && is_bare_failure_of(closed, error)
                        } else {
                            result matches Ok(text) && text@ == queried.text.decoded()
                        }
                    }
            }
        }
}

/// Looks up the namespace whose identifier `id` spells, and returns the document
/// in which the service describes it. The service is asked with the default
/// query.
pub fn get_namespace<F: Fn(HcnCall) -> HcnReply>(service: &F, id: &str) -> (result: Result<
    String,
    ServiceError,
>)
    requires
        is_guid_text(id@),
        accepts(service, (HcnCall::OpenNamespace { id: Guid::of_text(id@) })),
        forall|namespace: usize, query: &str|
            query@ == HostComputeQuery::default_json() ==> #[trigger] accepts(
                service,
                (HcnCall::QueryNamespaceProperties { namespace, query }),
            ),
        forall|namespace: usize| #[trigger]
            accepts(service, (HcnCall::CloseNamespace { namespace })),
    ensures
        exists|query: &str|
            {
                &&& query@ == HostComputeQuery::default_json()
                &&& #[trigger] is_namespace_lookup(service, Guid::of_text(id@), query, result)
            },
{
    let guid = Guid::from_text(id);
    let document = HostComputeQuery::default().to_json();
    let query = document.as_str();
    let namespace_handle = match open_namespace(service, &guid) {
        Ok(handle) => handle,
        Err(error) => {
            let result = Err(error);
            assert(is_namespace_lookup(service, guid, query, result));
            return result;
        },
    };
    let properties = match query_namespace_properties(service, namespace_handle, query) {
        Ok(text) => text,
        Err(error) => {
            let result = Err(error);
            assert(is_namespace_report(service, namespace_handle@, query, result));
            assert(is_namespace_lookup(service, guid, query, result));
            return result;
        },
    };
    let result = match close_namespace(service, namespace_handle) {
        Ok(_) => Ok(properties),
        Err(error) => Err(error),
    };
    assert(is_namespace_report(service, namespace_handle@, query, result));
    assert(is_namespace_lookup(service, guid, query, result));
    result
}

} // verus!
