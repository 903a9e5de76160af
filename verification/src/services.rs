//! The connector-integration contract, and the HTTP requests that adapters
//! build.

use crate::errors::{ApiError, ApiErrorResponse, ConnectorError};
use crate::payments::CallConnectorAction;
use crate::types::api::Flow;
use crate::headers::CONTENT_TYPE;
use crate::types::{ConnectorAuthType, Connectors, ErrorResponse, Response, RouterData};
use crate::utils::text::{pairs_view, text_of};
use bytes::Bytes;
use vstd::prelude::*;

verus! {

/// The HTTP methods that adapters use.
#[derive(Clone, Copy, Debug, PartialEq, Eq, Structural)]
pub enum Method {
    Get,
    Post,
    Put,
    Delete,
}

/// An HTTP request for an acquirer.
#[derive(Clone, Debug, PartialEq, Eq)]
pub struct Request {
    pub url: String,
    pub headers: Vec<(String, String)>,
    pub payload: Option<String>,
    pub method: Method,
}

/// The mathematical value of a [`Request`].
pub struct RequestView {
    pub url: Seq<char>,
    pub headers: Seq<(Seq<char>, Seq<char>)>,
    pub payload: Option<Seq<char>>,
    pub method: Method,
}

impl View for Request {
    type V = RequestView;

    open spec fn view(&self) -> RequestView {
        RequestView {
            url: self.url@,
            headers: pairs_view(self.headers@),
            payload: text_of(self.payload),
            method: self.method,
        }
    }
}

/// Builds a [`Request`] piece by piece.
#[derive(Debug)]
pub struct RequestBuilder {
    pub url: String,
    pub headers: Vec<(String, String)>,
    pub payload: Option<String>,
    pub method: Method,
}

impl View for RequestBuilder {
    type V = RequestView;

    open spec fn view(&self) -> RequestView {
        RequestView {
            url: self.url@,
            headers: pairs_view(self.headers@),
            payload: text_of(self.payload),
            method: self.method,
        }
    }
}

impl RequestBuilder {
    /// A `GET` of the empty URL with no header and no body.
    pub fn new() -> (r: RequestBuilder)
        ensures
            r@ == (RequestView {
                url: Seq::<char>::empty(),
                headers: Seq::<(Seq<char>, Seq<char>)>::empty(),
                payload: None,
                method: Method::Get,
            }),
    {
        let builder = RequestBuilder {
            url: String::new(),
            headers: Vec::new(),
            payload: None,
            method: Method::Get,
        };
        assert(pairs_view(builder.headers@) == Seq::<(Seq<char>, Seq<char>)>::empty());
        builder
    }

    /// Sets the URL.
    pub fn url(self, url: &str) -> (r: RequestBuilder)
        ensures
            r@ == (RequestView { url: url@, ..self@ }),
    {
        RequestBuilder { url: String::from_str(url), ..self }
    }

    /// Sets the method.
    pub fn method(self, method: Method) -> (r: RequestBuilder)
        ensures
            r@ == (RequestView { method, ..self@ }),
    {
        RequestBuilder { method, ..self }
    }

    /// Adds the headers after those that are there.
    pub fn headers(self, headers: Vec<(String, String)>) -> (r: RequestBuilder)
        ensures
            r@ == (RequestView { headers: self@.headers + pairs_view(headers@), ..self@ }),
    {
        let mut builder = self;
        let mut headers = headers;
        let ghost before = builder.headers@;
        let ghost added = headers@;
        builder.headers.append(&mut headers);
        assert(pairs_view(before + added) == pairs_view(before) + pairs_view(added));
        builder
    }

    /// Adds one header after those that are there.
    pub fn header(self, name: &str, value: &str) -> (r: RequestBuilder)
        ensures
            r@ == (RequestView { headers: self@.headers.push((name@, value@)), ..self@ }),
    {
        let mut builder = self;
        let ghost before = builder.headers@;
        let header = (String::from_str(name), String::from_str(value));
        builder.headers.push(header);
        assert(pairs_view(before.push(header)) == pairs_view(before).push((name@, value@)));
        builder
    }

    /// Sets the body.
    pub fn body(self, body: Option<String>) -> (r: RequestBuilder)
        ensures
            r@ == (RequestView {
                payload: text_of(body),
                ..self@
            }),
    {
        RequestBuilder { payload: body, ..self }
    }

    /// The request that was built.
    pub fn build(self) -> (r: Request)
        ensures
            r@ == self@,
    {
        Request { url: self.url, headers: self.headers, payload: self.payload, method: self.method }
    }
}

/// The view of headers that were made or not.
pub open spec fn made_headers(r: Result<Vec<(String, String)>, ConnectorError>) -> Result<
    Seq<(Seq<char>, Seq<char>)>,
    ConnectorError,
> {
    match r {
        Ok(headers) => Ok(pairs_view(headers@)),
        Err(error) => Err(error),
    }
}

/// The view of a text that was made or not.
pub open spec fn made_text(r: Result<String, ConnectorError>) -> Result<Seq<char>, ConnectorError> {
    match r {
        Ok(text) => Ok(text@),
        Err(error) => Err(error),
    }
}

/// What every adapter has, whatever the flow.
pub trait ConnectorCommon {
    /// The stable id of the adapter.
    spec fn adapter_id(&self) -> Seq<char>;

    /// The content type of the requests that the adapter sends.
    spec fn common_content_type(&self) -> Seq<char>;

    /// The root URL of the acquirer.
    spec fn root_url(&self, connectors: Connectors) -> Seq<char>;

    /// The headers that authenticate a merchant with the acquirer, or why
    /// there are none.
    spec fn auth_header(&self, auth_type: ConnectorAuthType) -> Result<
        Seq<(Seq<char>, Seq<char>)>,
        ConnectorError,
    >;

    /// The stable id of the adapter.
    fn id(&self) -> (r: &'static str)
        ensures
            r@ == self.adapter_id(),
    ;

    /// The content type of the requests that the adapter sends.
    fn common_get_content_type(&self) -> (r: &'static str)
        ensures
            r@ == self.common_content_type(),
    ;

    /// The root URL of the acquirer, from the registry of the connectors.
    fn base_url(&self, connectors: &Connectors) -> (r: String)
        ensures
            r@ == self.root_url(*connectors),
    ;

    /// The headers that authenticate the merchant with the acquirer.
    fn get_auth_header(&self, auth_type: &ConnectorAuthType) -> (r: Result<
        Vec<(String, String)>,
        ConnectorError,
    >)
        ensures
            made_headers(r) == self.auth_header(*auth_type),
    ;
}

/// The connector-integration contract: what an adapter does for the flow `T`
/// with requests `Req` and responses `Resp`. An adapter implements it once for
/// each flow that it supports. No operation changes the envelope it is given.
///
/// An adapter says what each operation gives by the specification functions
/// of the contract, and each operation is held to them. The request that
/// [`build_request`](ConnectorIntegration::build_request) builds is held to
/// be composed of what the other operations give: see [`is_built_by`].
pub trait ConnectorIntegration<T, Req, Resp>: ConnectorCommon {
    /// The HTTP method of the request.
    spec fn method(&self, req: RouterData<T, Req, Resp>) -> Method;

    /// The content type of the request.
    spec fn content_type(&self, req: RouterData<T, Req, Resp>) -> Seq<char>;

    /// The headers of the request, or why there are none.
    spec fn headers(&self, req: RouterData<T, Req, Resp>) -> Result<
        Seq<(Seq<char>, Seq<char>)>,
        ConnectorError,
    >;

    /// The URL of the endpoint, or why there is none.
    spec fn url(&self, req: RouterData<T, Req, Resp>, connectors: Connectors) -> Result<
        Seq<char>,
        ConnectorError,
    >;

    /// Tells whether `body` is what the body of the request may be.
    spec fn is_request_body(
        &self,
        req: RouterData<T, Req, Resp>,
        body: Result<Option<String>, ConnectorError>,
    ) -> bool;

    /// Tells whether the flow calls no acquirer for this envelope.
    spec fn short_circuits(&self, req: RouterData<T, Req, Resp>) -> bool;

    /// Tells whether `handled` is what the adapter makes of the answer `res`
    /// to the call of `data`.
    spec fn is_handled(
        &self,
        data: RouterData<T, Req, Resp>,
        res: Response,
        handled: Result<RouterData<T, Req, Resp>, ConnectorError>,
    ) -> bool;

    /// Tells whether `read` is what the adapter reads from the refusal `res`
    /// of the call of `req`.
    spec fn is_error_response(
        &self,
        req: RouterData<T, Req, Resp>,
        res: Bytes,
        read: Result<ErrorResponse, ConnectorError>,
    ) -> bool;

    /// What every adapter owes of its headers: they carry the content type
    /// and each header that authenticates the merchant, and there are none
    /// where the merchant cannot be authenticated.
    proof fn headers_are_complete(&self, req: RouterData<T, Req, Resp>)
        ensures
            match (self.headers(req), self.auth_header(req.connector_auth_type)) {
                (Ok(headers), Ok(auth)) => {
                    &&& headers.contains((CONTENT_TYPE@, self.content_type(req)))
                    &&& forall|i: int| 0 <= i < auth.len() ==> headers.contains(#[trigger] auth[i])
                },
                (Ok(_), Err(_)) => false,
                (Err(_), _) => true,
            },
    ;

    /// The headers of the request.
    fn get_headers(&self, req: &RouterData<T, Req, Resp>) -> (r: Result<
        Vec<(String, String)>,
        ConnectorError,
    >)
        ensures
            made_headers(r) == self.headers(*req),
    ;

    /// The content type of the request.
    fn get_content_type(&self, req: &RouterData<T, Req, Resp>) -> (r: &'static str)
        ensures
            r@ == self.content_type(*req),
    ;

    /// The URL of the endpoint.
    fn get_url(&self, req: &RouterData<T, Req, Resp>, connectors: &Connectors) -> (r: Result<
        String,
        ConnectorError,
    >)
        ensures
            made_text(r) == self.url(*req, *connectors),
    ;

    /// The body of the request, for a flow that sends one.
    fn get_request_body(&self, req: &RouterData<T, Req, Resp>) -> (r: Result<
        Option<String>,
        ConnectorError,
    >)
        ensures
            self.is_request_body(*req, r),
    ;

    /// The request to send; `None` where the flow calls no acquirer.
    fn build_request(&self, req: &RouterData<T, Req, Resp>, connectors: &Connectors) -> (r:
        Result<Option<Request>, ConnectorError>)
        ensures
            self.short_circuits(*req) ==> r == Ok::<Option<Request>, ConnectorError>(None),
            !self.short_circuits(*req) ==> match (
                self.url(*req, *connectors),
                self.headers(*req),
            ) {
                (Err(error), _) => r == Err::<Option<Request>, ConnectorError>(error),
                (Ok(_), Err(error)) => r == Err::<Option<Request>, ConnectorError>(error),
                (Ok(url), Ok(headers)) => exists|body: Result<Option<String>, ConnectorError>|
                    #[trigger] self.is_request_body(*req, body) && is_request_with(
                        r,
                        self.method(*req),
                        url,
                        headers,
                        body,
                    ),
            },
    ;

    /// The envelope with the answer of the acquirer taken in.
    fn handle_response(&self, data: RouterData<T, Req, Resp>, res: Response) -> (r: Result<
        RouterData<T, Req, Resp>,
        ConnectorError,
    >)
        ensures
            self.is_handled(data, res, r),
    ;

    /// What the acquirer said of the request of `req`, which it refused.
    fn get_error_response(&self, req: &RouterData<T, Req, Resp>, res: Bytes) -> (r: Result<
        ErrorResponse,
        ConnectorError,
    >)
        ensures
            self.is_error_response(*req, res, r),
    ;
}

/// The request `built`, given its URL, its headers, its method and what its
/// body turned out to be.
pub open spec fn is_request_with(
    built: Result<Option<Request>, ConnectorError>,
    method: Method,
    url: Seq<char>,
    headers: Seq<(Seq<char>, Seq<char>)>,
    body: Result<Option<String>, ConnectorError>,
) -> bool {
    match body {
        Ok(payload) => built matches Ok(Some(request)) && request@ == (RequestView {
            url,
            headers,
            payload: text_of(payload),
            method,
        }),
        Err(error) => built == Err::<Option<Request>, ConnectorError>(error),
    }
}

/// The law of the request that an adapter builds, which
/// [`build_request`](ConnectorIntegration::build_request) is held to. A flow
/// that calls no acquirer builds none. Else the first of URL, headers and
/// body that fails decides the error, and where none fails the request is
/// made of the method, the URL, the headers and the body that the adapter
/// gives.
pub open spec fn is_built_by<C, T, Req, Resp>(
    connector: &C,
    req: RouterData<T, Req, Resp>,
    connectors: Connectors,
    built: Result<Option<Request>, ConnectorError>,
) -> bool where C: ConnectorIntegration<T, Req, Resp> {
    if connector.short_circuits(req) {
        built == Ok::<Option<Request>, ConnectorError>(None)
    } else {
        match (connector.url(req, connectors), connector.headers(req)) {
            (Err(error), _) => built == Err::<Option<Request>, ConnectorError>(error),
            (Ok(_), Err(error)) => built == Err::<Option<Request>, ConnectorError>(error),
            (Ok(url), Ok(headers)) => exists|body: Result<Option<String>, ConnectorError>|
                #[trigger] connector.is_request_body(req, body) && is_request_with(
                    built,
                    connector.method(req),
                    url,
                    headers,
                    body,
                ),
        }
    }
}

/// What an adapter makes of the return of a payer from a redirect.
pub trait ConnectorRedirectResponse {
    /// How the pipeline goes on, from the query of the return URL.
    fn get_flow_type(&self, query_params: &str) -> Result<CallConnectorAction, ConnectorError>;
}

/// The flows, as the pipeline tags its operations.
#[derive(Clone, Copy, Debug, PartialEq, Eq, Structural)]
pub enum FlowKind {
    Authorize,
    Capture,
    PSync,
    Void,
    Verify,
    RefundExecute,
    RefundSync,
}

/// What the execution engine does next.
#[derive(Debug)]
pub enum ProcessingStep<T, Req, Resp> {
    /// The request is to be sent; the engine goes on with the envelope when
    /// the call has ended.
    Send { request: Request, envelope: RouterData<T, Req, Resp> },
    /// No call is made: the envelope is the result.
    Done(RouterData<T, Req, Resp>),
}

/// An acquirer accepted a request where it answered with a status from 200
/// up to 299.
pub open spec fn is_success(status_code: u16) -> bool {
    200 <= status_code < 300
}

/// The error that the merchant is shown where an acquirer refused the
/// request of a flow: a failed authorization for the flows that authorise,
/// verify, void or read a payment, a failed capture for a capture, a failed
/// refund for the flows of refunds; each with the code and the message that
/// the acquirer gave.
pub open spec fn refusal(flow: FlowKind, code: Seq<char>, message: Seq<char>) -> ApiError {
    match flow {
        FlowKind::Capture => ApiError::PaymentCaptureFailed { code, message },
        FlowKind::RefundExecute => ApiError::RefundFailed { code, message },
        FlowKind::RefundSync => ApiError::RefundFailed { code, message },
        _ => ApiError::PaymentAuthorizationFailed { code, message },
    }
}

/// What the engine does before a call, given the action that governs it and,
/// for `Trigger`, what the adapter built: `Avoid` changes nothing,
/// `StatusUpdate` puts the given status into the envelope, and `Trigger` has
/// the request sent that the adapter built. An adapter that built no request
/// has the call skipped and the envelope taken as it is. An adapter that
/// failed gives `InternalServerError`.
pub open spec fn planned<T, Req, Resp>(
    r: Result<ProcessingStep<T, Req, Resp>, ApiErrorResponse>,
    action: CallConnectorAction,
    envelope: RouterData<T, Req, Resp>,
    built: Result<Option<Request>, ConnectorError>,
) -> bool {
    match action {
        CallConnectorAction::Avoid => r matches Ok(ProcessingStep::Done(result)) && result
            == envelope,
        CallConnectorAction::StatusUpdate(status) => r matches Ok(ProcessingStep::Done(result))
            && result == (RouterData { status, ..envelope }),
        CallConnectorAction::Trigger => match built {
            Ok(Some(request)) => r matches Ok(ProcessingStep::Send { request: sent, envelope: kept })
                && sent == request && kept == envelope,
            Ok(None) => r matches Ok(ProcessingStep::Done(result)) && result == envelope,
            Err(_) => r matches Err(error) && error@ == ApiError::InternalServerError,
        },
    }
}

/// What an accepted call ends in, given what the adapter made of the answer:
/// the envelope that the adapter gave, or `InternalServerError` where the
/// adapter could not read the answer.
pub open spec fn accepted<T, Req, Resp>(
    r: Result<RouterData<T, Req, Resp>, ApiErrorResponse>,
    handled: Result<RouterData<T, Req, Resp>, ConnectorError>,
) -> bool {
    match handled {
        Ok(envelope) => r matches Ok(result) && result == envelope,
        Err(_) => r matches Err(error) && error@ == ApiError::InternalServerError,
    }
}

/// What a refused call ends in, given what the adapter read of the refusal:
/// the error of the flow with the acquirer's code and message, or
/// `InternalServerError` where the adapter could not read the refusal.
pub open spec fn refused(flow: FlowKind, read: Result<ErrorResponse, ConnectorError>) -> ApiError {
    match read {
        Ok(error) => refusal(flow, error.code@, error.message@),
        Err(_) => ApiError::InternalServerError,
    }
}

/// Plans the call of a flow from the action that governs it and from what
/// the adapter built.
pub fn plan_connector_call<T, Req, Resp>(
    action: CallConnectorAction,
    envelope: RouterData<T, Req, Resp>,
    built: Result<Option<Request>, ConnectorError>,
) -> (r: Result<ProcessingStep<T, Req, Resp>, ApiErrorResponse>)
    ensures
        planned(r, action, envelope, built),
{
    match action {
        CallConnectorAction::Avoid => Ok(ProcessingStep::Done(envelope)),
        CallConnectorAction::StatusUpdate(status) => Ok(
            ProcessingStep::Done(RouterData { status, ..envelope }),
        ),
        CallConnectorAction::Trigger => match built {
            Ok(Some(request)) => Ok(ProcessingStep::Send { request, envelope }),
            Ok(None) => Ok(ProcessingStep::Done(envelope)),
            Err(_) => Err(ApiErrorResponse::InternalServerError),
        },
    }
}

/// The first half of the execution engine: asks the adapter for the request
/// where the action is `Trigger`, and plans the call. Without `Trigger` the
/// adapter is not asked. With it, the call is planned from a request that
/// obeys the law of the adapter's requests.
pub fn execute_connector_processing_step<C, T, Req, Resp>(
    connector: &C,
    envelope: RouterData<T, Req, Resp>,
    connectors: &Connectors,
    action: CallConnectorAction,
) -> (r: Result<ProcessingStep<T, Req, Resp>, ApiErrorResponse>) where
    C: ConnectorIntegration<T, Req, Resp>,

    ensures
        action != CallConnectorAction::Trigger ==> planned(
            r,
            action,
            envelope,
            Ok::<Option<Request>, ConnectorError>(None),
        ),
        action == CallConnectorAction::Trigger ==> exists|
            built: Result<Option<Request>, ConnectorError>,
        |
            is_built_by(connector, envelope, *connectors, built) && #[trigger] planned(
                r,
                action,
                envelope,
                built,
            ),
{
    let built = match action {
        CallConnectorAction::Trigger => connector.build_request(&envelope, connectors),
        _ => Ok(None),
    };
    let r = plan_connector_call(action, envelope, built);
    assert(planned(r, action, envelope, built));
    r
}

/// Tells whether an acquirer accepted a request, by the status of its answer.
pub fn is_success_status(status_code: u16) -> (r: bool)
    ensures
        r == is_success(status_code),
{
    200 <= status_code && status_code < 300
}

/// The error shown to the merchant for a request that the acquirer refused.
pub fn connector_refusal(flow: FlowKind, error: ErrorResponse) -> (r: ApiErrorResponse)
    ensures
        r@ == refusal(flow, error.code@, error.message@),
{
    match flow {
        FlowKind::Capture => ApiErrorResponse::PaymentCaptureFailed {
            code: error.code,
            message: error.message,
        },
        FlowKind::RefundExecute | FlowKind::RefundSync => ApiErrorResponse::RefundFailed {
            code: error.code,
            message: error.message,
        },
        _ => ApiErrorResponse::PaymentAuthorizationFailed {
            code: error.code,
            message: error.message,
        },
    }
}

/// Concludes an accepted call from what the adapter made of the answer.
pub fn conclude_accepted<T, Req, Resp>(
    handled: Result<RouterData<T, Req, Resp>, ConnectorError>,
) -> (r: Result<RouterData<T, Req, Resp>, ApiErrorResponse>)
    ensures
        accepted(r, handled),
{
    match handled {
        Ok(envelope) => Ok(envelope),
        Err(_) => Err(ApiErrorResponse::InternalServerError),
    }
}

/// Concludes a refused call from what the adapter read of the refusal.
pub fn conclude_refused(flow: FlowKind, read: Result<ErrorResponse, ConnectorError>) -> (r:
    ApiErrorResponse)
    ensures
        r@ == refused(flow, read),
{
    match read {
        Ok(error) => connector_refusal(flow, error),
        Err(_) => ApiErrorResponse::InternalServerError,
    }
}

/// The second half of the execution engine: takes the end of the call in. A
/// call that the transport could not complete, be it for a timeout, gives
/// `InternalServerError`. An answer with a status of success is handed to the
/// adapter to project into the envelope. Any other answer is handed to the
/// adapter to read the refusal, which is surfaced as the error of the flow
/// that the tag `T` of the envelope stands for.
pub fn conclude_connector_processing_step<C, T, Req, Resp>(
    connector: &C,
    envelope: RouterData<T, Req, Resp>,
    outcome: Result<Response, ConnectorError>,
) -> (r: Result<RouterData<T, Req, Resp>, ApiErrorResponse>) where
    C: ConnectorIntegration<T, Req, Resp>,
    T: Flow,

    ensures
        match outcome {
            Err(_) => r matches Err(error) && error@ == ApiError::InternalServerError,
            Ok(response) => if is_success(response.status_code) {
                exists|handled: Result<RouterData<T, Req, Resp>, ConnectorError>|
                    #[trigger] connector.is_handled(envelope, response, handled) && accepted(
                        r,
                        handled,
                    )
            } else {
                exists|read: Result<ErrorResponse, ConnectorError>|
                    #[trigger] connector.is_error_response(envelope, response.response, read) && (
                    r matches Err(error) && error@ == refused(T::flow_kind(), read))
            },
        },
{
    match outcome {
        Err(_) => Err(ApiErrorResponse::InternalServerError),
        Ok(response) => if is_success_status(response.status_code) {
            let handled = connector.handle_response(envelope, response);
            let r = conclude_accepted(handled);
            assert(connector.is_handled(envelope, response, handled) && accepted(r, handled));
            r
        } else {
            let read = connector.get_error_response(&envelope, response.response);
            let error = conclude_refused(T::kind(), read);
            assert(connector.is_error_response(envelope, response.response, read));
            Err(error)
        },
    }
}

} // verus!
