//! The response monitor: inspects each completed HTTP exchange and reports
//! abnormal response statuses to the external sink.

use crate::level::Severity;
use crate::record::{opt_text_view, spec_opt_or};
use crate::sink::{EventSink, MessageV};
use crate::text::{push_decimal, spec_decimal};
use vstd::prelude::*;
use vstd::string::StringExecFns;

verus! {

/// The route the host's HTTP pipeline matched for a request, as far as the
/// monitor reads it: a named route, a matched but unnamed route, or no route
/// at all.
pub enum RouteInfo {
    Named(String),
    Unnamed,
    NoRoute,
}

/// The mathematical value of a [`RouteInfo`].
pub enum RouteInfoV {
    Named(Seq<char>),
    Unnamed,
    NoRoute,
}

impl View for RouteInfo {
    type V = RouteInfoV;

    open spec fn view(&self) -> RouteInfoV {
        match self {
            RouteInfo::Named(name) => RouteInfoV::Named(name@),
            RouteInfo::Unnamed => RouteInfoV::Unnamed,
            RouteInfo::NoRoute => RouteInfoV::NoRoute,
        }
    }
}

/// What the monitor reads of a request: its URI and the matched route.
pub struct RequestInfo {
    pub uri: String,
    pub route: RouteInfo,
}

/// The mathematical value of a [`RequestInfo`].
pub struct RequestInfoV {
    pub uri: Seq<char>,
    pub route: RouteInfoV,
}

impl View for RequestInfo {
    type V = RequestInfoV;

    open spec fn view(&self) -> RequestInfoV {
        RequestInfoV { uri: self.uri@, route: self.route@ }
    }
}

/// What the monitor reads of a response: its status code and the optional
/// reason phrase.
pub struct ResponseInfo {
    pub status: u16,
    pub reason: Option<String>,
}

/// The mathematical value of a [`ResponseInfo`].
pub struct ResponseInfoV {
    pub status: u16,
    pub reason: Option<Seq<char>>,
}

impl View for ResponseInfo {
    type V = ResponseInfoV;

    open spec fn view(&self) -> ResponseInfoV {
        ResponseInfoV { status: self.status, reason: opt_text_view(self.reason) }
    }
}

/// A response is abnormal exactly when its status lies outside `[200, 400)`.
pub open spec fn spec_abnormal(status: u16) -> bool {
    status < 200 || status >= 400
}

/// Classifies a response status.
pub fn is_abnormal(status: u16) -> (r: bool)
    ensures
        r == spec_abnormal(status),
{
    status < 200 || status >= 400
}

/// The text a route resolves to in an abnormal-response message: the route's
/// name, or a documented placeholder.
pub open spec fn spec_route_label(route: RouteInfoV) -> Seq<char> {
    match route {
        RouteInfoV::Named(name) => name,
        RouteInfoV::Unnamed => "Unnamed route"@,
        RouteInfoV::NoRoute => "No route associated"@,
    }
}

/// The message reported for an abnormal exchange:
/// `"Abnormal response <code> (<reason|Unknown reason>), on request for <uri> (<route>)"`.
pub open spec fn spec_abnormal_message(req: RequestInfoV, resp: ResponseInfoV) -> Seq<char> {
    "Abnormal response "@ + spec_decimal(resp.status as nat) + " ("@ + spec_opt_or(
        resp.reason,
        "Unknown reason"@,
    ) + "), on request for "@ + req.uri + " ("@ + spec_route_label(req.route) + ")"@
}

/// Renders the message reported for an abnormal exchange.
pub fn abnormal_message(request: &RequestInfo, response: &ResponseInfo) -> (s: String)
    ensures
        s@ == spec_abnormal_message(request@, response@),
{
    let mut s = String::new();
    s.append("Abnormal response ");
    push_decimal(&mut s, response.status as u32);
    s.append(" (");
    match &response.reason {
        Some(reason) => s.append(reason.as_str()),
        None => s.append("Unknown reason"),
    }
    s.append("), on request for ");
    s.append(request.uri.as_str());
    s.append(" (");
    match &request.route {
        RouteInfo::Named(name) => s.append(name.as_str()),
        RouteInfo::Unnamed => s.append("Unnamed route"),
        RouteInfo::NoRoute => s.append("No route associated"),
    }
    s.append(")");
    proof {
        assert(s@ =~= spec_abnormal_message(request@, response@));
    }
    s
}

/// The phase of the host's request pipeline a hook fires on.
#[derive(Clone, Copy, PartialEq, Eq, Structural, Debug)]
pub enum HookKind {
    Request,
    Response,
}

/// How a hook announces itself to the host's pipeline: a name and the phase
/// it acts on.
pub struct HookInfo {
    pub name: String,
    pub kind: HookKind,
}

/// The response-phase hook: classifies each completed exchange and submits
/// one message to the external sink for each abnormal one.
pub struct SentryFairing<S: EventSink> {
    pub sink: S,
}

impl<S: EventSink> SentryFairing<S> {
    /// A monitor wired to the given external sink.
    pub fn new(sink: S) -> (fairing: SentryFairing<S>)
        ensures
            fairing.sink == sink,
    {
        SentryFairing { sink }
    }

    /// Declares this hook: named "Sentry", acting on the response phase only.
    pub fn info(&self) -> (info: HookInfo)
        ensures
            info.name@ == "Sentry"@,
            info.kind == HookKind::Response,
    {
        HookInfo { name: String::from_str("Sentry"), kind: HookKind::Response }
    }

    /// Observes one completed exchange. An abnormal response status (outside
    /// `[200, 400)`) submits exactly one message, the rendered description of
    /// the exchange, under severity `Error`; a normal one touches the sink
    /// not at all. The exchange itself is only read, never changed, and each
    /// call decides afresh: nothing is remembered, merged or deduplicated
    /// across calls.
    pub fn on_response(&mut self, request: &RequestInfo, response: &ResponseInfo)
        ensures
            spec_abnormal(response.status) ==> final(self).sink.messages() == old(
                self,
            ).sink.messages().push(
                (MessageV {
                    text: spec_abnormal_message(request@, response@),
                    severity: Severity::Error,
                }),
            ),
            !spec_abnormal(response.status) ==> final(self).sink.messages() == old(
                self,
            ).sink.messages(),
            final(self).sink.events() == old(self).sink.events(),
    {
        if is_abnormal(response.status) {
            let message = abnormal_message(request, response);
            self.sink.capture_message(message.as_str(), Severity::Error);
        }
    }
}

} // verus!
