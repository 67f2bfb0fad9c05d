//! Where each component is reached: the label that selects its pod and the
//! port that its interface listens on.

use crate::http::{HttpRequest, HttpRequestView};
use vstd::prelude::*;

verus! {

/// A request together with the pod and port that it goes to.
#[derive(Clone, Debug, PartialEq, Eq)]
pub struct ComponentRequest {
    /// Label selector of the component's pod.
    pub selector: String,
    pub port: u16,
    /// Value of the `Host` header.
    pub host: String,
    pub request: HttpRequest,
}

pub struct ComponentRequestView {
    pub selector: Seq<char>,
    pub port: u16,
    pub host: Seq<char>,
    pub request: HttpRequestView,
}

impl View for ComponentRequest {
    type V = ComponentRequestView;

    open spec fn view(&self) -> ComponentRequestView {
        ComponentRequestView {
            selector: self.selector@,
            port: self.port,
            host: self.host@,
            request: self.request@,
        }
    }
}

/// The requests of a list, each by its view.
pub open spec fn requests_view(requests: Seq<ComponentRequest>) -> Seq<ComponentRequestView> {
    Seq::new(requests.len(), |i: int| requests[i]@)
}

/// `request` on its way to port `port` of the pod that `selector` selects.
/// The pod is reached through a forwarded port, so the host is the loopback
/// address.
pub open spec fn routed(selector: Seq<char>, port: u16, request: HttpRequestView) -> ComponentRequestView {
    ComponentRequestView { selector, port, host: "127.0.0.1"@, request }
}

/// `request` on its way to the workflow engine's gateway.
pub open spec fn zeebe_request(request: HttpRequestView) -> ComponentRequestView {
    routed("app.kubernetes.io/component=zeebe-gateway"@, 9600, request)
}

/// `request` on its way to the query service.
pub open spec fn operate_request(request: HttpRequestView) -> ComponentRequestView {
    routed("app.kubernetes.io/component=operate"@, 8080, request)
}

/// `request` on its way to the search engine.
pub open spec fn elasticsearch_request(request: HttpRequestView) -> ComponentRequestView {
    routed("app=elasticsearch-master"@, 9200, request)
}

/// Addresses `req` to port `port` of the pod with the label `component`.
pub fn make_component_request(component: &str, port: u16, req: HttpRequest) -> (routed_request:
    ComponentRequest)
    ensures
        routed_request@ == routed(component@, port, req@),
{
    ComponentRequest {
        selector: String::from_str(component),
        port,
        host: String::from_str("127.0.0.1"),
        request: req,
    }
}

/// Addresses `req` to the workflow engine's gateway.
pub fn make_zeebe_request(req: HttpRequest) -> (routed_request: ComponentRequest)
    ensures
        routed_request@ == zeebe_request(req@),
{
    make_component_request("app.kubernetes.io/component=zeebe-gateway", 9600, req)
}

/// Addresses `req` to the query service.
pub fn make_operate_request(req: HttpRequest) -> (routed_request: ComponentRequest)
    ensures
        routed_request@ == operate_request(req@),
{
    make_component_request("app.kubernetes.io/component=operate", 8080, req)
}

/// Addresses `req` to the search engine.
pub fn make_elasticsearch_request(req: HttpRequest) -> (routed_request: ComponentRequest)
    ensures
        routed_request@ == elasticsearch_request(req@),
{
    make_component_request("app=elasticsearch-master", 9200, req)
}

} // verus!
