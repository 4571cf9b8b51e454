//! The operations of the host compute network service: enumerate, create, open,
//! modify, query, delete and close, for networks, namespaces, endpoints and load
//! balancers, and the service-wide notifications.
//!
//! Every operation is one call of the service. The service itself is not part of
//! this library: an operation takes it as a function from an `HcnCall`, which says
//! which entry point to call and with what, to an `HcnReply`, which holds the
//! status that the entry point returned and what it stored in its out-parameters.
//! The operation builds the call, and turns the reply into its result.
use vstd::prelude::*;
use crate::cotask::CoTaskMemWString;
use crate::guid::Guid;

verus! {

/// The address of a function that the service calls with its notifications;
/// zero for none.
pub type HcnNotificationCallback = usize;

/// Handle to a callback that is registered with the service.
#[derive(Debug, PartialEq, Eq)]
pub struct HcnCallback(usize);

/// Handle to a network of the service.
#[derive(Clone, Copy, Debug, PartialEq, Eq)]
pub struct HcnNetworkHandle(usize);

/// Handle to a namespace of the service.
#[derive(Clone, Copy, Debug, PartialEq, Eq)]
pub struct HcnNamespaceHandle(usize);

/// Handle to an endpoint of the service.
#[derive(Clone, Copy, Debug, PartialEq, Eq)]
pub struct HcnEndpointHandle(usize);

/// Handle to a load balancer of the service.
#[derive(Clone, Copy, Debug, PartialEq, Eq)]
pub struct HcnLoadBalancerHandle(usize);

/// Handle to the service itself.
#[derive(Clone, Copy, Debug, PartialEq, Eq)]
pub struct HcnServiceHandle(usize);

impl View for HcnCallback {
    type V = usize;

    /// The token by which the service knows the registration.
    closed spec fn view(&self) -> usize {
        self.0
    }
}

impl View for HcnNetworkHandle {
    type V = usize;

    /// The token by which the service knows the network.
    closed spec fn view(&self) -> usize {
        self.0
    }
}

impl View for HcnNamespaceHandle {
    type V = usize;

    /// The token by which the service knows the namespace.
    closed spec fn view(&self) -> usize {
        self.0
    }
}

impl View for HcnEndpointHandle {
    type V = usize;

    /// The token by which the service knows the endpoint.
    closed spec fn view(&self) -> usize {
        self.0
    }
}

impl View for HcnLoadBalancerHandle {
    type V = usize;

    /// The token by which the service knows the load balancer.
    closed spec fn view(&self) -> usize {
        self.0
    }
}

impl View for HcnServiceHandle {
    type V = usize;

    /// The token by which the service knows itself.
    closed spec fn view(&self) -> usize {
        self.0
    }
}

/// One call of the service: the entry point and its arguments. Handles appear
/// as the tokens that the service gave out.
#[derive(Clone, Copy, Debug, PartialEq, Eq)]
pub enum HcnCall<'a> {
    EnumerateNetworks { query: &'a str },
    CreateNetwork { id: Guid, settings: &'a str },
    OpenNetwork { id: Guid },
    ModifyNetwork { network: usize, settings: &'a str },
    QueryNetworkProperties { network: usize, query: &'a str },
    DeleteNetwork { id: Guid },
    CloseNetwork { network: usize },
    EnumerateNamespaces { query: &'a str },
    CreateNamespace { id: Guid, settings: &'a str },
    OpenNamespace { id: Guid },
    ModifyNamespace { namespace: usize, settings: &'a str },
    QueryNamespaceProperties { namespace: usize, query: &'a str },
    DeleteNamespace { id: Guid },
    CloseNamespace { namespace: usize },
    EnumerateEndpoints { query: &'a str },
    CreateEndpoint { network: usize, id: Guid, settings: &'a str },
    OpenEndpoint { id: Guid },
    ModifyEndpoint { endpoint: usize, settings: &'a str },
    QueryEndpointProperties { endpoint: usize, query: &'a str },
    DeleteEndpoint { id: Guid },
    CloseEndpoint { endpoint: usize },
    EnumerateLoadBalancers { query: &'a str },
    CreateLoadBalancer { id: Guid, settings: &'a str },
    OpenLoadBalancer { id: Guid },
    ModifyLoadBalancer { load_balancer: usize, settings: &'a str },
    QueryLoadBalancerProperties { load_balancer: usize, query: &'a str },
    DeleteLoadBalancer { id: Guid },
    CloseLoadBalancer { load_balancer: usize },
    RegisterServiceCallback { callback: HcnNotificationCallback, context: usize },
    UnregisterServiceCallback { callback_handle: usize },
}

/// What one call of the service gave: the status it returned, and what it left
/// in the out-parameters that the entry point has. An out-parameter that the
/// entry point lacks, or that the service did not touch, is zero or null.
#[derive(Debug)]
pub struct HcnReply {
    /// The status: negative for a failure.
    pub status: i32,
    /// The handle out-parameter.
    pub handle: usize,
    /// The out-parameter for the text of the result.
    pub text: CoTaskMemWString,
    /// The out-parameter for the error record.
    pub error_record: CoTaskMemWString,
}

/// The failure of a call of the service.
#[derive(Debug, Clone, PartialEq, Eq)]
pub struct ServiceError {
    /// The status that the service returned.
    pub status: i32,
    /// The text of the error record that came with it: empty where the service
    /// stored none, `None` where the entry point has no error record.
    pub diagnostic: Option<String>,
}

impl ServiceError {
    /// The characters of the diagnostic text.
    pub open spec fn diagnostic_text(&self) -> Option<Seq<char>> {
        match self.diagnostic {
            Some(text) => Some(text@),
            None => None,
        }
    }
}

/// Whether `service` may be called with `call`.
pub open spec fn accepts<F: Fn(HcnCall) -> HcnReply>(service: &F, call: HcnCall) -> bool {
    call_requires(*service, (call,))
}

/// Whether `reply` is something that `service` may give to `call`.
pub open spec fn answers<F: Fn(HcnCall) -> HcnReply>(
    service: &F,
    call: HcnCall,
    reply: HcnReply,
) -> bool {
    call_ensures(*service, (call,), reply)
}

/// Whether `status` reports a failure.
pub open spec fn is_failure(status: i32) -> bool {
    status < 0
}

/// Whether `error` is the failure that `reply` reports, with the text of its
/// error record.
pub open spec fn is_failure_of(reply: HcnReply, error: ServiceError) -> bool {
    &&& is_failure(reply.status)
    &&& error.status == reply.status
    &&& error.diagnostic_text() == Some(reply.error_record.decoded())
}

/// Whether `error` is the failure that `reply` reports, for an entry point
/// without an error record.
pub open spec fn is_bare_failure_of(reply: HcnReply, error: ServiceError) -> bool {
    &&& is_failure(reply.status)
    &&& error.status == reply.status
    &&& error.diagnostic is None
}

/// Whether `result` is what an entry point that yields text makes of `reply`.
pub open spec fn is_text_outcome(reply: HcnReply, result: Result<String, ServiceError>) -> bool {
    match result {
        Ok(text) => !is_failure(reply.status) && text@ == reply.text.decoded(),
        Err(error) => is_failure_of(reply, error),
    }
}

/// Whether `result` is what an entry point that yields a handle makes of
/// `reply`.
pub open spec fn is_handle_outcome(reply: HcnReply, result: Result<usize, ServiceError>) -> bool {
    match result {
        Ok(handle) => !is_failure(reply.status) && handle == reply.handle,
        Err(error) => is_failure_of(reply, error),
    }
}

/// Whether `result` is what an entry point that yields nothing makes of `reply`.
pub open spec fn is_unit_outcome(reply: HcnReply, result: Result<(), ServiceError>) -> bool {
    match result {
        Ok(_) => !is_failure(reply.status),
        Err(error) => is_failure_of(reply, error),
    }
}

/// Whether `result` is what an entry point that yields nothing and has no
/// error record makes of `reply`.
pub open spec fn is_bare_outcome(reply: HcnReply, result: Result<(), ServiceError>) -> bool {
    match result {
        Ok(_) => !is_failure(reply.status),
        Err(error) => is_bare_failure_of(reply, error),
    }
}

/// Whether `result` is what an entry point that yields a handle and has no
/// error record makes of `reply`.
pub open spec fn is_bare_handle_outcome(
    reply: HcnReply,
    result: Result<usize, ServiceError>,
) -> bool {
    match result {
        Ok(handle) => !is_failure(reply.status) && handle == reply.handle,
        Err(error) => is_bare_failure_of(reply, error),
    }
}

/// The result of an operation with its handle replaced by the handle's token.
pub open spec fn by_token<H: View<V = usize>>(result: Result<H, ServiceError>) -> Result<
    usize,
    ServiceError,
> {
    match result {
        Ok(handle) => Ok(handle@),
        Err(error) => Err(error),
    }
}

/// Calls `HRESULT::is_ok` of the windows crate, which holds of a status exactly
/// when it is not negative.
#[verifier::external_body]
fn status_is_ok(status: i32) -> (ok: bool)
    ensures
        ok == !is_failure(status),
{
    windows::core::HRESULT(status).is_ok()
}

/// The failure that `reply` reports, with the text of its error record.
fn failure(reply: HcnReply) -> (error: ServiceError)
    requires
        is_failure(reply.status),
    ensures
        is_failure_of(reply, error),
{
    let mut error_record = reply.error_record;
    ServiceError { status: reply.status, diagnostic: Some(error_record.to_string()) }
}

/// The result of an entry point that yields text: the decoded text on success,
/// the failure with its diagnostic text otherwise.
pub fn text_outcome(reply: HcnReply) -> (result: Result<String, ServiceError>)
    ensures
        is_text_outcome(reply, result),
        result is Ok <==> !is_failure(reply.status),
{
    if status_is_ok(reply.status) {
        let mut text = reply.text;
        Ok(text.to_string())
    } else {
        Err(failure(reply))
    }
}

/// The result of an entry point that yields a handle: its token on success, the
/// failure with its diagnostic text otherwise.
pub fn handle_outcome(reply: HcnReply) -> (result: Result<usize, ServiceError>)
    ensures
        is_handle_outcome(reply, result),
        result is Ok <==> !is_failure(reply.status),
{
    if status_is_ok(reply.status) {
        Ok(reply.handle)
    } else {
        Err(failure(reply))
    }
}

/// The result of an entry point that yields nothing: the failure with its
/// diagnostic text, if it failed.
pub fn unit_outcome(reply: HcnReply) -> (result: Result<(), ServiceError>)
    ensures
        is_unit_outcome(reply, result),
        result is Ok <==> !is_failure(reply.status),
{
    if status_is_ok(reply.status) {
        Ok(())
    } else {
        Err(failure(reply))
    }
}

/// The result of an entry point that yields nothing and has no error record:
/// the bare failure, if it failed.
pub fn bare_outcome(reply: HcnReply) -> (result: Result<(), ServiceError>)
    ensures
        is_bare_outcome(reply, result),
        result is Ok <==> !is_failure(reply.status),
{
    if status_is_ok(reply.status) {
        Ok(())
    } else {
        Err(ServiceError { status: reply.status, diagnostic: None })
    }
}

/// The result of an entry point that yields a handle and has no error record:
/// its token on success, the bare failure otherwise.
pub fn bare_handle_outcome(reply: HcnReply) -> (result: Result<usize, ServiceError>)
    ensures
        is_bare_handle_outcome(reply, result),
        result is Ok <==> !is_failure(reply.status),
{
    if status_is_ok(reply.status) {
        Ok(reply.handle)
    } else {
        Err(ServiceError { status: reply.status, diagnostic: None })
    }
}

/// A failed call never gives a value, a call that did not fail always does, and a
/// failure keeps the status and carries the decoded text of the error record
/// (no text for an entry point without one), whatever the entry point yields.
pub proof fn lemma_failure_carries_diagnostic(
    reply: HcnReply,
    text: Result<String, ServiceError>,
    handle: Result<usize, ServiceError>,
    unit: Result<(), ServiceError>,
    bare: Result<(), ServiceError>,
    bare_handle: Result<usize, ServiceError>,
)
    requires
        is_text_outcome(reply, text),
        is_handle_outcome(reply, handle),
        is_unit_outcome(reply, unit),
        is_bare_outcome(reply, bare),
        is_bare_handle_outcome(reply, bare_handle),
    ensures
        text is Err <==> is_failure(reply.status),
        handle is Err <==> is_failure(reply.status),
        unit is Err <==> is_failure(reply.status),
        bare is Err <==> is_failure(reply.status),
        bare_handle is Err <==> is_failure(reply.status),
        text matches Err(e) ==> e.status == reply.status && e.diagnostic_text() == Some(
            reply.error_record.decoded(),
        ),
        handle matches Err(e) ==> e.status == reply.status && e.diagnostic_text() == Some(
            reply.error_record.decoded(),
        ),
        unit matches Err(e) ==> e.status == reply.status && e.diagnostic_text() == Some(
            reply.error_record.decoded(),
        ),
        bare matches Err(e) ==> e.status == reply.status && e.diagnostic is None,
        bare_handle matches Err(e) ==> e.status == reply.status && e.diagnostic is None,
{
}

/// A null slot stands for empty text in every result: a failure whose error
/// record was left null has empty diagnostic text, and a success whose text
/// was left null is empty text.
pub proof fn lemma_null_slot_gives_empty_text(
    reply: HcnReply,
    text: Result<String, ServiceError>,
    handle: Result<usize, ServiceError>,
    unit: Result<(), ServiceError>,
)
    requires
        is_text_outcome(reply, text),
        is_handle_outcome(reply, handle),
        is_unit_outcome(reply, unit),
    ensures
        reply.text.is_null() ==> (text matches Ok(t) ==> t@ == Seq::<char>::empty()),
        reply.error_record.is_null() ==> (text matches Err(e) ==> e.diagnostic_text() == Some(
            Seq::<char>::empty(),
        )),
        reply.error_record.is_null() ==> (handle matches Err(e) ==> e.diagnostic_text() == Some(
            Seq::<char>::empty(),
        )),
        reply.error_record.is_null() ==> (unit matches Err(e) ==> e.diagnostic_text() == Some(
            Seq::<char>::empty(),
        )),
{
}

/// A reply leaves no choice: two results of one reply agree in whether they are
/// failures, in the status and the diagnostic text of the failure, and in the
/// text or the handle of the success.
pub proof fn lemma_reply_determines_outcome(
    reply: HcnReply,
    text: (Result<String, ServiceError>, Result<String, ServiceError>),
    handle: (Result<usize, ServiceError>, Result<usize, ServiceError>),
)
    requires
        is_text_outcome(reply, text.0),
        is_text_outcome(reply, text.1),
        is_handle_outcome(reply, handle.0),
        is_handle_outcome(reply, handle.1),
    ensures
        match text {
            (Ok(a), Ok(b)) => a@ == b@,
            (Err(a), Err(b)) => a.status == b.status && a.diagnostic_text()
                == b.diagnostic_text(),
            _ => false,
        },
        match handle {
            (Ok(a), Ok(b)) => a == b,
            (Err(a), Err(b)) => a.status == b.status && a.diagnostic_text()
                == b.diagnostic_text(),
            _ => false,
        },
{
}

/// Makes one call of the service.
fn ask<F: Fn(HcnCall) -> HcnReply>(service: &F, call: HcnCall) -> (reply: HcnReply)
    requires
        accepts(service, call),
    ensures
        answers(service, call, reply),
{
    service(call)
}

/// Lists the networks that match `query`: the text in which the service describes
/// them, or its failure.
pub fn enumerate_networks<F: Fn(HcnCall) -> HcnReply>(
    service: &F,
    query: &str,
) -> (result: Result<String, ServiceError>)
    requires
        accepts(service, (HcnCall::EnumerateNetworks { query })),
    ensures
        exists|reply: HcnReply|
            {
                &&& #[trigger] answers(service, (HcnCall::EnumerateNetworks { query }), reply)
                &&& is_text_outcome(reply, result)
            },
{
    text_outcome(ask(service, (HcnCall::EnumerateNetworks { query })))
}

/// Creates a network under the identifier `id`, the all-zero one leaving the choice to
/// the service, and returns the handle to it.
pub fn create_network<F: Fn(HcnCall) -> HcnReply>(
    service: &F,
    id: &Guid,
    settings: &str,
) -> (result: Result<HcnNetworkHandle, ServiceError>)
    requires
        accepts(service, (HcnCall::CreateNetwork { id: *id, settings })),
    ensures
        exists|reply: HcnReply|
            {
                &&& #[trigger] answers(service, (HcnCall::CreateNetwork { id: *id, settings }), reply)
                &&& is_handle_outcome(reply, by_token(result))
            },
{
    match handle_outcome(ask(service, (HcnCall::CreateNetwork { id: *id, settings }))) {
        Ok(token) => Ok(HcnNetworkHandle(token)),
        Err(error) => Err(error),
    }
}

/// Looks up the network that has the identifier `id` and returns a handle to it.
pub fn open_network<F: Fn(HcnCall) -> HcnReply>(
    service: &F,
    id: &Guid,
) -> (result: Result<HcnNetworkHandle, ServiceError>)
    requires
        accepts(service, (HcnCall::OpenNetwork { id: *id })),
    ensures
        exists|reply: HcnReply|
            {
                &&& #[trigger] answers(service, (HcnCall::OpenNetwork { id: *id }), reply)
                &&& is_handle_outcome(reply, by_token(result))
            },
{
    match handle_outcome(ask(service, (HcnCall::OpenNetwork { id: *id }))) {
        Ok(token) => Ok(HcnNetworkHandle(token)),
        Err(error) => Err(error),
    }
}

/// Changes the settings of a network.
pub fn modify_network<F: Fn(HcnCall) -> HcnReply>(
    service: &F,
    network: HcnNetworkHandle,
    settings: &str,
) -> (result: Result<(), ServiceError>)
    requires
        accepts(service, (HcnCall::ModifyNetwork { network: network@, settings })),
    ensures
        exists|reply: HcnReply|
            {
                &&& #[trigger] answers(service, (HcnCall::ModifyNetwork { network: network@, settings }), reply)
                &&& is_unit_outcome(reply, result)
            },
{
    unit_outcome(ask(service, (HcnCall::ModifyNetwork { network: network.0, settings })))
}

/// Asks for the properties of a network: the text in which the service describes
/// them, or its failure.
pub fn query_network_properties<F: Fn(HcnCall) -> HcnReply>(
    service: &F,
    network: HcnNetworkHandle,
    query: &str,
) -> (result: Result<String, ServiceError>)
    requires
        accepts(service, (HcnCall::QueryNetworkProperties { network: network@, query })),
    ensures
        exists|reply: HcnReply|
            {
                &&& #[trigger] answers(service, (HcnCall::QueryNetworkProperties { network: network@, query }), reply)
                &&& is_text_outcome(reply, result)
            },
{
    text_outcome(ask(service, (HcnCall::QueryNetworkProperties { network: network.0, query })))
}

/// Deletes the network that has the identifier `id`.
pub fn delete_network<F: Fn(HcnCall) -> HcnReply>(
    service: &F,
    id: &Guid,
) -> (result: Result<(), ServiceError>)
    requires
        accepts(service, (HcnCall::DeleteNetwork { id: *id })),
    ensures
        exists|reply: HcnReply|
            {
                &&& #[trigger] answers(service, (HcnCall::DeleteNetwork { id: *id }), reply)
                &&& is_unit_outcome(reply, result)
            },
{
    unit_outcome(ask(service, (HcnCall::DeleteNetwork { id: *id })))
}

/// Closes a handle to a network. The entry point has no error record, so a failure
/// comes without diagnostic text.
pub fn close_network<F: Fn(HcnCall) -> HcnReply>(
    service: &F,
    network: HcnNetworkHandle,
) -> (result: Result<(), ServiceError>)
    requires
        accepts(service, (HcnCall::CloseNetwork { network: network@ })),
    ensures
        exists|reply: HcnReply|
            {
                &&& #[trigger] answers(service, (HcnCall::CloseNetwork { network: network@ }), reply)
                &&& is_bare_outcome(reply, result)
            },
{
    bare_outcome(ask(service, (HcnCall::CloseNetwork { network: network.0 })))
}

/// Lists the namespaces that match `query`: the text in which the service describes
/// them, or its failure.
pub fn enumerate_namespaces<F: Fn(HcnCall) -> HcnReply>(
    service: &F,
    query: &str,
) -> (result: Result<String, ServiceError>)
    requires
        accepts(service, (HcnCall::EnumerateNamespaces { query })),
    ensures
        exists|reply: HcnReply|
            {
                &&& #[trigger] answers(service, (HcnCall::EnumerateNamespaces { query }), reply)
                &&& is_text_outcome(reply, result)
            },
{
    text_outcome(ask(service, (HcnCall::EnumerateNamespaces { query })))
}

/// Creates a namespace under the identifier `id`, the all-zero one leaving the choice to
/// the service, and returns the handle to it.
pub fn create_namespace<F: Fn(HcnCall) -> HcnReply>(
    service: &F,
    id: &Guid,
    settings: &str,
) -> (result: Result<HcnNamespaceHandle, ServiceError>)
    requires
        accepts(service, (HcnCall::CreateNamespace { id: *id, settings })),
    ensures
        exists|reply: HcnReply|
            {
                &&& #[trigger] answers(service, (HcnCall::CreateNamespace { id: *id, settings }), reply)
                &&& is_handle_outcome(reply, by_token(result))
            },
{
    match handle_outcome(ask(service, (HcnCall::CreateNamespace { id: *id, settings }))) {
        Ok(token) => Ok(HcnNamespaceHandle(token)),
        Err(error) => Err(error),
    }
}

/// Looks up the namespace that has the identifier `id` and returns a handle to it.
pub fn open_namespace<F: Fn(HcnCall) -> HcnReply>(
    service: &F,
    id: &Guid,
) -> (result: Result<HcnNamespaceHandle, ServiceError>)
    requires
        accepts(service, (HcnCall::OpenNamespace { id: *id })),
    ensures
        exists|reply: HcnReply|
            {
                &&& #[trigger] answers(service, (HcnCall::OpenNamespace { id: *id }), reply)
                &&& is_handle_outcome(reply, by_token(result))
            },
{
    match handle_outcome(ask(service, (HcnCall::OpenNamespace { id: *id }))) {
        Ok(token) => Ok(HcnNamespaceHandle(token)),
        Err(error) => Err(error),
    }
}

/// Changes the settings of a namespace.
pub fn modify_namespace<F: Fn(HcnCall) -> HcnReply>(
    service: &F,
    namespace: HcnNamespaceHandle,
    settings: &str,
) -> (result: Result<(), ServiceError>)
    requires
        accepts(service, (HcnCall::ModifyNamespace { namespace: namespace@, settings })),
    ensures
        exists|reply: HcnReply|
            {
                &&& #[trigger] answers(service, (HcnCall::ModifyNamespace { namespace: namespace@, settings }), reply)
                &&& is_unit_outcome(reply, result)
            },
{
    unit_outcome(ask(service, (HcnCall::ModifyNamespace { namespace: namespace.0, settings })))
}

/// Asks for the properties of a namespace: the text in which the service describes
/// them, or its failure.
pub fn query_namespace_properties<F: Fn(HcnCall) -> HcnReply>(
    service: &F,
    namespace: HcnNamespaceHandle,
    query: &str,
) -> (result: Result<String, ServiceError>)
    requires
        accepts(service, (HcnCall::QueryNamespaceProperties { namespace: namespace@, query })),
    ensures
        exists|reply: HcnReply|
            {
                &&& #[trigger] answers(service, (HcnCall::QueryNamespaceProperties { namespace: namespace@, query }), reply)
                &&& is_text_outcome(reply, result)
            },
{
    text_outcome(ask(service, (HcnCall::QueryNamespaceProperties { namespace: namespace.0, query })))
}

/// Deletes the namespace that has the identifier `id`.
pub fn delete_namespace<F: Fn(HcnCall) -> HcnReply>(
    service: &F,
    id: &Guid,
) -> (result: Result<(), ServiceError>)
    requires
        accepts(service, (HcnCall::DeleteNamespace { id: *id })),
    ensures
        exists|reply: HcnReply|
            {
                &&& #[trigger] answers(service, (HcnCall::DeleteNamespace { id: *id }), reply)
                &&& is_unit_outcome(reply, result)
            },
{
    unit_outcome(ask(service, (HcnCall::DeleteNamespace { id: *id })))
}

/// Closes a handle to a namespace. The entry point has no error record, so a failure
/// comes without diagnostic text.
pub fn close_namespace<F: Fn(HcnCall) -> HcnReply>(
    service: &F,
    namespace: HcnNamespaceHandle,
) -> (result: Result<(), ServiceError>)
    requires
        accepts(service, (HcnCall::CloseNamespace { namespace: namespace@ })),
    ensures
        exists|reply: HcnReply|
            {
                &&& #[trigger] answers(service, (HcnCall::CloseNamespace { namespace: namespace@ }), reply)
                &&& is_bare_outcome(reply, result)
            },
{
    bare_outcome(ask(service, (HcnCall::CloseNamespace { namespace: namespace.0 })))
}

/// Lists the endpoints that match `query`: the text in which the service describes
/// them, or its failure.
pub fn enumerate_endpoints<F: Fn(HcnCall) -> HcnReply>(
    service: &F,
    query: &str,
) -> (result: Result<String, ServiceError>)
    requires
        accepts(service, (HcnCall::EnumerateEndpoints { query })),
    ensures
        exists|reply: HcnReply|
            {
                &&& #[trigger] answers(service, (HcnCall::EnumerateEndpoints { query }), reply)
                &&& is_text_outcome(reply, result)
            },
{
    text_outcome(ask(service, (HcnCall::EnumerateEndpoints { query })))
}

/// Creates an endpoint on `network` under the identifier `id`, the all-zero one
/// leaving the choice to the service, and returns the handle to it.
pub fn create_endpoint<F: Fn(HcnCall) -> HcnReply>(
    service: &F,
    network: HcnNetworkHandle,
    id: &Guid,
    settings: &str,
) -> (result: Result<HcnEndpointHandle, ServiceError>)
    requires
        accepts(service, (HcnCall::CreateEndpoint { network: network@, id: *id, settings })),
    ensures
        exists|reply: HcnReply|
            {
                &&& #[trigger] answers(service, (HcnCall::CreateEndpoint { network: network@, id: *id, settings }), reply)
                &&& is_handle_outcome(reply, by_token(result))
            },
{
    match handle_outcome(ask(service, (HcnCall::CreateEndpoint { network: network.0, id: *id, settings }))) {
        Ok(token) => Ok(HcnEndpointHandle(token)),
        Err(error) => Err(error),
    }
}

/// Looks up the endpoint that has the identifier `id` and returns a handle to it.
pub fn open_endpoint<F: Fn(HcnCall) -> HcnReply>(
    service: &F,
    id: &Guid,
) -> (result: Result<HcnEndpointHandle, ServiceError>)
    requires
        accepts(service, (HcnCall::OpenEndpoint { id: *id })),
    ensures
        exists|reply: HcnReply|
            {
                &&& #[trigger] answers(service, (HcnCall::OpenEndpoint { id: *id }), reply)
                &&& is_handle_outcome(reply, by_token(result))
            },
{
    match handle_outcome(ask(service, (HcnCall::OpenEndpoint { id: *id }))) {
        Ok(token) => Ok(HcnEndpointHandle(token)),
        Err(error) => Err(error),
    }
}

/// Changes the settings of an endpoint.
pub fn modify_endpoint<F: Fn(HcnCall) -> HcnReply>(
    service: &F,
    endpoint: HcnEndpointHandle,
    settings: &str,
) -> (result: Result<(), ServiceError>)
    requires
        accepts(service, (HcnCall::ModifyEndpoint { endpoint: endpoint@, settings })),
    ensures
        exists|reply: HcnReply|
            {
                &&& #[trigger] answers(service, (HcnCall::ModifyEndpoint { endpoint: endpoint@, settings }), reply)
                &&& is_unit_outcome(reply, result)
            },
{
    unit_outcome(ask(service, (HcnCall::ModifyEndpoint { endpoint: endpoint.0, settings })))
}

/// Asks for the properties of an endpoint: the text in which the service describes
/// them, or its failure.
pub fn query_endpoint_properties<F: Fn(HcnCall) -> HcnReply>(
    service: &F,
    endpoint: HcnEndpointHandle,
    query: &str,
) -> (result: Result<String, ServiceError>)
    requires
        accepts(service, (HcnCall::QueryEndpointProperties { endpoint: endpoint@, query })),
    ensures
        exists|reply: HcnReply|
            {
                &&& #[trigger] answers(service, (HcnCall::QueryEndpointProperties { endpoint: endpoint@, query }), reply)
                &&& is_text_outcome(reply, result)
            },
{
    text_outcome(ask(service, (HcnCall::QueryEndpointProperties { endpoint: endpoint.0, query })))
}

/// Deletes the endpoint that has the identifier `id`.
pub fn delete_endpoint<F: Fn(HcnCall) -> HcnReply>(
    service: &F,
    id: &Guid,
) -> (result: Result<(), ServiceError>)
    requires
        accepts(service, (HcnCall::DeleteEndpoint { id: *id })),
    ensures
        exists|reply: HcnReply|
            {
                &&& #[trigger] answers(service, (HcnCall::DeleteEndpoint { id: *id }), reply)
                &&& is_unit_outcome(reply, result)
            },
{
    unit_outcome(ask(service, (HcnCall::DeleteEndpoint { id: *id })))
}

/// Closes a handle to an endpoint. The entry point has no error record, so a failure
/// comes without diagnostic text.
pub fn close_endpoint<F: Fn(HcnCall) -> HcnReply>(
    service: &F,
    endpoint: HcnEndpointHandle,
) -> (result: Result<(), ServiceError>)
    requires
        accepts(service, (HcnCall::CloseEndpoint { endpoint: endpoint@ })),
    ensures
        exists|reply: HcnReply|
            {
                &&& #[trigger] answers(service, (HcnCall::CloseEndpoint { endpoint: endpoint@ }), reply)
                &&& is_bare_outcome(reply, result)
            },
{
    bare_outcome(ask(service, (HcnCall::CloseEndpoint { endpoint: endpoint.0 })))
}

/// Lists the load balancers that match `query`: the text in which the service describes
/// them, or its failure.
pub fn enumerate_load_balancers<F: Fn(HcnCall) -> HcnReply>(
    service: &F,
    query: &str,
) -> (result: Result<String, ServiceError>)
    requires
        accepts(service, (HcnCall::EnumerateLoadBalancers { query })),
    ensures
        exists|reply: HcnReply|
            {
                &&& #[trigger] answers(service, (HcnCall::EnumerateLoadBalancers { query }), reply)
                &&& is_text_outcome(reply, result)
            },
{
    text_outcome(ask(service, (HcnCall::EnumerateLoadBalancers { query })))
}

/// Creates a load balancer under the identifier `id`, the all-zero one leaving the choice to
/// the service, and returns the handle to it.
pub fn create_load_balancer<F: Fn(HcnCall) -> HcnReply>(
    service: &F,
    id: &Guid,
    settings: &str,
) -> (result: Result<HcnLoadBalancerHandle, ServiceError>)
    requires
        accepts(service, (HcnCall::CreateLoadBalancer { id: *id, settings })),
    ensures
        exists|reply: HcnReply|
            {
                &&& #[trigger] answers(service, (HcnCall::CreateLoadBalancer { id: *id, settings }), reply)
                &&& is_handle_outcome(reply, by_token(result))
            },
{
    match handle_outcome(ask(service, (HcnCall::CreateLoadBalancer { id: *id, settings }))) {
        Ok(token) => Ok(HcnLoadBalancerHandle(token)),
        Err(error) => Err(error),
    }
}

/// Looks up the load balancer that has the identifier `id` and returns a handle to it.
pub fn open_load_balancer<F: Fn(HcnCall) -> HcnReply>(
    service: &F,
    id: &Guid,
) -> (result: Result<HcnLoadBalancerHandle, ServiceError>)
    requires
        accepts(service, (HcnCall::OpenLoadBalancer { id: *id })),
    ensures
        exists|reply: HcnReply|
            {
                &&& #[trigger] answers(service, (HcnCall::OpenLoadBalancer { id: *id }), reply)
                &&& is_handle_outcome(reply, by_token(result))
            },
{
    match handle_outcome(ask(service, (HcnCall::OpenLoadBalancer { id: *id }))) {
        Ok(token) => Ok(HcnLoadBalancerHandle(token)),
        Err(error) => Err(error),
    }
}

/// Changes the settings of a load balancer.
pub fn modify_load_balancer<F: Fn(HcnCall) -> HcnReply>(
    service: &F,
    load_balancer: HcnLoadBalancerHandle,
    settings: &str,
) -> (result: Result<(), ServiceError>)
    requires
        accepts(service, (HcnCall::ModifyLoadBalancer { load_balancer: load_balancer@, settings })),
    ensures
        exists|reply: HcnReply|
            {
                &&& #[trigger] answers(service, (HcnCall::ModifyLoadBalancer { load_balancer: load_balancer@, settings }), reply)
                &&& is_unit_outcome(reply, result)
            },
{
    unit_outcome(ask(service, (HcnCall::ModifyLoadBalancer { load_balancer: load_balancer.0, settings })))
}

/// Asks for the properties of a load balancer: the text in which the service describes
/// them, or its failure.
pub fn query_load_balancer_properties<F: Fn(HcnCall) -> HcnReply>(
    service: &F,
    load_balancer: HcnLoadBalancerHandle,
    query: &str,
) -> (result: Result<String, ServiceError>)
    requires
        accepts(service, (HcnCall::QueryLoadBalancerProperties { load_balancer: load_balancer@, query })),
    ensures
        exists|reply: HcnReply|
            {
                &&& #[trigger] answers(service, (HcnCall::QueryLoadBalancerProperties { load_balancer: load_balancer@, query }), reply)
                &&& is_text_outcome(reply, result)
            },
{
    text_outcome(ask(service, (HcnCall::QueryLoadBalancerProperties { load_balancer: load_balancer.0, query })))
}

/// Deletes the load balancer that has the identifier `id`.
pub fn delete_load_balancer<F: Fn(HcnCall) -> HcnReply>(
    service: &F,
    id: &Guid,
) -> (result: Result<(), ServiceError>)
    requires
        accepts(service, (HcnCall::DeleteLoadBalancer { id: *id })),
    ensures
        exists|reply: HcnReply|
            {
                &&& #[trigger] answers(service, (HcnCall::DeleteLoadBalancer { id: *id }), reply)
                &&& is_unit_outcome(reply, result)
            },
{
    unit_outcome(ask(service, (HcnCall::DeleteLoadBalancer { id: *id })))
}

/// Closes a handle to a load balancer. The entry point has no error record, so a failure
/// comes without diagnostic text.
pub fn close_load_balancer<F: Fn(HcnCall) -> HcnReply>(
    service: &F,
    load_balancer: HcnLoadBalancerHandle,
) -> (result: Result<(), ServiceError>)
    requires
        accepts(service, (HcnCall::CloseLoadBalancer { load_balancer: load_balancer@ })),
    ensures
        exists|reply: HcnReply|
            {
                &&& #[trigger] answers(service, (HcnCall::CloseLoadBalancer { load_balancer: load_balancer@ }), reply)
                &&& is_bare_outcome(reply, result)
            },
{
    bare_outcome(ask(service, (HcnCall::CloseLoadBalancer { load_balancer: load_balancer.0 })))
}

/// Registers a function that the service calls, with `context`, on service-wide
/// events, and returns the handle to the registration.
pub fn register_service_callback<F: Fn(HcnCall) -> HcnReply>(
    service: &F,
    callback: HcnNotificationCallback,
    context: usize,
) -> (result: Result<HcnCallback, ServiceError>)
    requires
        accepts(service, (HcnCall::RegisterServiceCallback { callback, context })),
    ensures
        exists|reply: HcnReply|
            {
                &&& #[trigger] answers(service, (HcnCall::RegisterServiceCallback { callback, context }), reply)
                &&& is_bare_handle_outcome(reply, by_token(result))
            },
{
    match bare_handle_outcome(ask(service, (HcnCall::RegisterServiceCallback { callback, context }))) {
        Ok(token) => Ok(HcnCallback(token)),
        Err(error) => Err(error),
    }
}

/// Ends a registration for service-wide events.
pub fn unregister_service_callback<F: Fn(HcnCall) -> HcnReply>(
    service: &F,
    callback_handle: HcnCallback,
) -> (result: Result<(), ServiceError>)
    requires
        accepts(service, (HcnCall::UnregisterServiceCallback { callback_handle: callback_handle@ })),
    ensures
        exists|reply: HcnReply|
            {
                &&& #[trigger] answers(service, (HcnCall::UnregisterServiceCallback { callback_handle: callback_handle@ }), reply)
                &&& is_bare_outcome(reply, result)
            },
{
    bare_outcome(ask(service, (HcnCall::UnregisterServiceCallback { callback_handle: callback_handle.0 })))
}

} // verus!
