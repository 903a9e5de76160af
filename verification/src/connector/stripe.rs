//! The adapter for Stripe.

use crate::connector::stripe::transformers::{
    attempt_status, attempt_status_of, refund_status, refund_status_of, Form, StripeAuthType,
};
use crate::consts::{NO_ERROR_CODE, NO_ERROR_MESSAGE};
use crate::errors::ConnectorError;
use crate::headers::{AUTHORIZATION, CONTENT_TYPE, X_ROUTER};
use crate::payments::CallConnectorAction;
use crate::services::{
    made_headers, made_text, ConnectorCommon, ConnectorRedirectResponse, Method,
    Request, RequestBuilder, RequestView,
};
use crate::types::storage::enums::{AttemptStatus, RefundStatus};
use crate::types::{
    bytes_content, bytes_to_vec, ConnectorAuthType, Connectors, ErrorResponse, ErrorResponseView,
    PaymentsResponseData, RefundsData, RefundsResponseData, Response, ResponseId, RouterData,
};
use crate::utils::json::{json_document, Json};
use crate::utils::text::{pairs_view, text_of};
use crate::utils::urlencoded::{decode, encode, form_decoded, form_encoded};
use bytes::Bytes;
use vstd::prelude::*;

pub mod flows;
pub mod transformers;
pub mod webhooks;

verus! {

/// The Stripe adapter. It holds no state: what it needs comes with each call.
#[derive(Clone, Copy, Debug)]
pub struct Stripe;

/// The content type of every request to Stripe.
pub const FORM_CONTENT_TYPE: &'static str = "application/x-www-form-urlencoded";

/// The headers that authenticate a merchant with Stripe: the key of the
/// merchant as a bearer token. Any way of authenticating but a key in a
/// header gives `FailedToObtainAuthType`.
pub open spec fn auth_header(auth_type: ConnectorAuthType) -> Result<
    Seq<(Seq<char>, Seq<char>)>,
    ConnectorError,
> {
    match auth_type {
        ConnectorAuthType::HeaderKey { api_key } => Ok(
            seq![(AUTHORIZATION@, "Bearer "@ + api_key@)],
        ),
        _ => Err(ConnectorError::FailedToObtainAuthType),
    }
}

/// The headers of a request to Stripe: the content type, the routing trace,
/// and the headers that authenticate the merchant.
pub open spec fn request_headers(auth_type: ConnectorAuthType) -> Result<
    Seq<(Seq<char>, Seq<char>)>,
    ConnectorError,
> {
    match auth_header(auth_type) {
        Ok(auth) => Ok(seq![(CONTENT_TYPE@, FORM_CONTENT_TYPE@), (X_ROUTER@, "test"@)] + auth),
        Err(error) => Err(error),
    }
}

/// The URL of a resource that Stripe knows by `id`: the root, the collection,
/// the id and what follows it. An empty id stands for none, and gives
/// `FailedToObtainIntegrationUrl`.
pub open spec fn resource_url(
    base_url: Seq<char>,
    collection: Seq<char>,
    id: Seq<char>,
    action: Seq<char>,
) -> Result<Seq<char>, ConnectorError> {
    if id.len() == 0 {
        Err(ConnectorError::FailedToObtainIntegrationUrl)
    } else {
        Ok(base_url + collection + id + action)
    }
}

/// The body of a request of Stripe, given the form that it encodes; `None`
/// stands for a request that Stripe is not given, which gives
/// `RequestEncodingFailed`.
pub open spec fn is_body_of(r: Result<Option<String>, ConnectorError>, form: Option<Form>) -> bool {
    match form {
        Some(form) => r matches Ok(Some(text)) && text@ == form_encoded(form),
        None => r == Err::<Option<String>, ConnectorError>(ConnectorError::RequestEncodingFailed),
    }
}

/// What Stripe says of a payment: its id, the status of the attempt that its
/// status stands for, and whether the payer has to act next. The answer must
/// be a JSON object with a text `id` and a text `status` that names a status
/// of Stripe; any other answer gives `ResponseDeserializationFailed`.
pub open spec fn payment_response(document: Option<Json>) -> Result<
    (Seq<char>, AttemptStatus, bool),
    ConnectorError,
> {
    match document {
        Some(answer) => match (answer.member("id"@), answer.member("status"@)) {
            (Some(Json::String(id)), Some(Json::String(status))) => match attempt_status_of(
                status@,
            ) {
                Some(attempt_status) => Ok(
                    (
                        id@,
                        attempt_status,
                        answer.member("next_action"@) is Some && answer.member("next_action"@)
                            != Some(Json::Null),
                    ),
                ),
                None => Err(ConnectorError::ResponseDeserializationFailed),
            },
            _ => Err(ConnectorError::ResponseDeserializationFailed),
        },
        None => Err(ConnectorError::ResponseDeserializationFailed),
    }
}

/// What Stripe says of a refund: its id and the status that its status stands
/// for. The answer must be a JSON object with a text `id` and a text `status`
/// that names a status of Stripe; any other answer gives
/// `ResponseDeserializationFailed`.
pub open spec fn refund_response(document: Option<Json>) -> Result<
    (Seq<char>, RefundStatus),
    ConnectorError,
> {
    match document {
        Some(answer) => match (answer.member("id"@), answer.member("status"@)) {
            (Some(Json::String(id)), Some(Json::String(status))) => match refund_status_of(
                status@,
            ) {
                Some(refund_status) => Ok((id@, refund_status)),
                None => Err(ConnectorError::ResponseDeserializationFailed),
            },
            _ => Err(ConnectorError::ResponseDeserializationFailed),
        },
        None => Err(ConnectorError::ResponseDeserializationFailed),
    }
}

/// What Stripe says of a request that it refused: the code and the message of
/// the member `error`, each replaced by its sentinel where the error gives
/// none. The answer must be a JSON object whose member `error` is an object,
/// with a code and a message that are texts, `null` or absent; any other
/// answer gives `ResponseDeserializationFailed`.
pub open spec fn error_response(document: Option<Json>) -> Result<
    ErrorResponseView,
    ConnectorError,
> {
    match document {
        Some(answer) => match answer.member("error"@) {
            Some(error) => match (
                error is Object,
                error.optional_text("code"@),
                error.optional_text("message"@),
            ) {
                (true, Some(code), Some(message)) => Ok(
                    ErrorResponseView {
                        code: match code {
                            Some(code) => code,
                            None => NO_ERROR_CODE@,
                        },
                        message: match message {
                            Some(message) => message,
                            None => NO_ERROR_MESSAGE@,
                        },
                        reason: None,
                    },
                ),
                _ => Err(ConnectorError::ResponseDeserializationFailed),
            },
            None => Err(ConnectorError::ResponseDeserializationFailed),
        },
        None => Err(ConnectorError::ResponseDeserializationFailed),
    }
}

/// What was read of a refusal of Stripe, given the document of its answer.
pub open spec fn is_error_response_of(
    r: Result<ErrorResponse, ConnectorError>,
    document: Option<Json>,
) -> bool {
    match r {
        Ok(response) => error_response(document) == Ok::<ErrorResponseView, ConnectorError>(
            response@,
        ),
        Err(error) => error_response(document) == Err::<ErrorResponseView, ConnectorError>(error),
    }
}

/// The envelope of a payment flow after Stripe's answer is taken in: the
/// status is the one that the envelope held, reconciled with the status of
/// the answer, so that a terminal status stays and no status moves back; the
/// response is that of the answer; and nothing else changes.
pub open spec fn is_payment_projection<T, Req>(
    r: Result<RouterData<T, Req, PaymentsResponseData>, ConnectorError>,
    data: RouterData<T, Req, PaymentsResponseData>,
    document: Option<Json>,
) -> bool {
    match (r, payment_response(document)) {
        (Ok(envelope), Ok((id, status, redirect))) => {
            &&& envelope.same_call_as(data)
            &&& envelope.status == data.status.reconciled(status)
            &&& envelope.response matches Ok(response)
            &&& response.resource_id matches ResponseId::ConnectorTransactionId(resource_id)
            &&& resource_id@ == id
            &&& response.redirect == redirect
        },
        (Err(error), Err(expected)) => error == expected,
        _ => false,
    }
}

/// The envelope of a refund flow after Stripe's answer is taken in: the
/// response is that of the answer, and nothing else changes.
pub open spec fn is_refund_projection<T>(
    r: Result<RouterData<T, RefundsData, RefundsResponseData>, ConnectorError>,
    data: RouterData<T, RefundsData, RefundsResponseData>,
    document: Option<Json>,
) -> bool {
    match (r, refund_response(document)) {
        (Ok(envelope), Ok((id, status))) => {
            &&& envelope.same_call_as(data)
            &&& envelope.status == data.status
            &&& envelope.response matches Ok(response)
            &&& response.connector_refund_id@ == id
            &&& response.refund_status == status
        },
        (Err(error), Err(expected)) => error == expected,
        _ => false,
    }
}

/// How the pipeline goes on after the payer returns from a redirect: a query
/// that names a `redirect_status` makes the attempt pending without a call to
/// Stripe, any other query has Stripe called. A query that cannot be read
/// gives `ResponseDeserializationFailed`.
pub open spec fn flow_type(query: Option<Form>) -> Result<CallConnectorAction, ConnectorError> {
    match query {
        Some(form) => if transformers::field(form, "redirect_status"@) is Some {
            Ok(CallConnectorAction::StatusUpdate(AttemptStatus::Pending))
        } else {
            Ok(CallConnectorAction::Trigger)
        },
        None => Err(ConnectorError::ResponseDeserializationFailed),
    }
}

/// The text of a member that must be a string.
fn required_text<'a>(answer: &'a Json, name: &str) -> (r: Option<&'a String>)
    ensures
        match r {
            Some(text) => answer.member(name@) matches Some(Json::String(found)) && found@
                == text@,
            None => !(answer.member(name@) matches Some(Json::String(_))),
        },
{
    match answer.get(name) {
        Some(Json::String(text)) => Some(text),
        _ => None,
    }
}

impl Stripe {
    /// The headers of a request of any flow.
    pub fn standard_headers(&self, auth_type: &ConnectorAuthType) -> (r: Result<
        Vec<(String, String)>,
        ConnectorError,
    >)
        ensures
            made_headers(r) == request_headers(*auth_type),
    {
        let mut headers: Vec<(String, String)> = Vec::new();
        let content_type = (
            String::from_str(CONTENT_TYPE),
            String::from_str(self.common_get_content_type()),
        );
        let trace = (String::from_str(X_ROUTER), String::from_str("test"));
        headers.push(content_type);
        headers.push(trace);
        let mut auth = self.get_auth_header(auth_type)?;
        let ghost first = headers@;
        let ghost second = auth@;
        headers.append(&mut auth);
        assert(pairs_view(first + second) == pairs_view(first) + pairs_view(second));
        assert(pairs_view(first) == seq![
            (CONTENT_TYPE@, FORM_CONTENT_TYPE@),
            (X_ROUTER@, "test"@),
        ]);
        Ok(headers)
    }

    /// The URL of a collection of Stripe.
    pub fn collection_url(&self, connectors: &Connectors, collection: &str) -> (r: String)
        ensures
            r@ == connectors.stripe.base_url@ + collection@,
    {
        let mut url = self.base_url(connectors);
        url.append(collection);
        url
    }

    /// The URL of a resource of Stripe.
    pub fn resource_url(
        &self,
        connectors: &Connectors,
        collection: &str,
        id: &str,
        action: &str,
    ) -> (r: Result<String, ConnectorError>)
        ensures
            made_text(r) == resource_url(
                connectors.stripe.base_url@,
                collection@,
                id@,
                action@,
            ),
    {
        if id.unicode_len() == 0 {
            return Err(ConnectorError::FailedToObtainIntegrationUrl);
        }
        let mut url = self.base_url(connectors);
        url.append(collection);
        url.append(id);
        url.append(action);
        Ok(url)
    }

    /// Encodes the form of a body.
    pub fn encode_body(&self, form: Vec<(String, String)>) -> (r: Result<
        Option<String>,
        ConnectorError,
    >)
        ensures
            is_body_of(r, Some(pairs_view(form@))),
    {
        Ok(Some(encode(&form)))
    }

    /// Composes a request.
    pub fn compose(
        &self,
        method: Method,
        url: String,
        headers: Vec<(String, String)>,
        body: Option<String>,
    ) -> (r: Request)
        ensures
            r@ == (RequestView {
                url: url@,
                headers: pairs_view(headers@),
                payload: text_of(body),
                method,
            }),
    {
        let request = RequestBuilder::new().method(method).url(url.as_str()).headers(headers).body(
            body,
        ).build();
        assert(Seq::<(Seq<char>, Seq<char>)>::empty() + pairs_view(headers@) == pairs_view(
            headers@,
        ));
        request
    }

    /// Reads what Stripe says of a payment.
    pub fn parse_payment_response(&self, answer: &Json) -> (r: Result<
        (String, AttemptStatus, bool),
        ConnectorError,
    >)
        ensures
            match r {
                Ok((id, status, redirect)) => payment_response(Some(*answer)) == Ok::<
                    (Seq<char>, AttemptStatus, bool),
                    ConnectorError,
                >((id@, status, redirect)),
                Err(error) => payment_response(Some(*answer)) == Err::<
                    (Seq<char>, AttemptStatus, bool),
                    ConnectorError,
                >(error),
            },
    {
        let id = required_text(answer, "id");
        let status = required_text(answer, "status");
        match (id, status) {
            (Some(id), Some(status)) => match attempt_status(status) {
                Some(attempt_status) => {
                    let redirect = match answer.get("next_action") {
                        Some(Json::Null) => false,
                        Some(_) => true,
                        None => false,
                    };
                    Ok((id.clone(), attempt_status, redirect))
                },
                None => Err(ConnectorError::ResponseDeserializationFailed),
            },
            _ => Err(ConnectorError::ResponseDeserializationFailed),
        }
    }

    /// Reads what Stripe says of a refund.
    pub fn parse_refund_response(&self, answer: &Json) -> (r: Result<
        (String, RefundStatus),
        ConnectorError,
    >)
        ensures
            match r {
                Ok((id, status)) => refund_response(Some(*answer)) == Ok::<
                    (Seq<char>, RefundStatus),
                    ConnectorError,
                >((id@, status)),
                Err(error) => refund_response(Some(*answer)) == Err::<
                    (Seq<char>, RefundStatus),
                    ConnectorError,
                >(error),
            },
    {
        let id = required_text(answer, "id");
        let status = required_text(answer, "status");
        match (id, status) {
            (Some(id), Some(status)) => match refund_status(status) {
                Some(refund_status) => Ok((id.clone(), refund_status)),
                None => Err(ConnectorError::ResponseDeserializationFailed),
            },
            _ => Err(ConnectorError::ResponseDeserializationFailed),
        }
    }

    /// Reads what Stripe says of a request that it refused.
    pub fn parse_error_response(&self, answer: &Json) -> (r: Result<ErrorResponse, ConnectorError>)
        ensures
            is_error_response_of(r, Some(*answer)),
    {
        let error = match answer.get("error") {
            Some(error) => error,
            None => {
                return Err(ConnectorError::ResponseDeserializationFailed);
            },
        };
        if !matches!(error, Json::Object(_)) {
            return Err(ConnectorError::ResponseDeserializationFailed);
        }
        let code = match error.get_optional_str("code") {
            Ok(code) => code,
            Err(_) => {
                return Err(ConnectorError::ResponseDeserializationFailed);
            },
        };
        let message = match error.get_optional_str("message") {
            Ok(message) => message,
            Err(_) => {
                return Err(ConnectorError::ResponseDeserializationFailed);
            },
        };
        Ok(
            ErrorResponse {
                code: match code {
                    Some(code) => code,
                    None => String::from_str(NO_ERROR_CODE),
                },
                message: match message {
                    Some(message) => message,
                    None => String::from_str(NO_ERROR_MESSAGE),
                },
                reason: None,
            },
        )
    }

    /// Takes Stripe's answer to a payment flow into the envelope.
    pub fn project_payment<T, Req>(
        &self,
        data: RouterData<T, Req, PaymentsResponseData>,
        res: Response,
    ) -> (r: Result<RouterData<T, Req, PaymentsResponseData>, ConnectorError>)
        ensures
            is_payment_projection(r, data, json_document(bytes_content(res.response))),
    {
        let body = bytes_to_vec(&res.response);
        let answer = match Json::parse(body.as_slice()) {
            Some(answer) => answer,
            None => {
                return Err(ConnectorError::ResponseDeserializationFailed);
            },
        };
        let (id, status, redirect) = self.parse_payment_response(&answer)?;
        let response = PaymentsResponseData {
            resource_id: ResponseId::ConnectorTransactionId(id),
            redirect,
        };
        let status = data.status.reconcile(status);
        Ok(RouterData { status, response: Ok(response), ..data })
    }

    /// Takes Stripe's answer to a refund flow into the envelope.
    pub fn project_refund<T>(
        &self,
        data: RouterData<T, RefundsData, RefundsResponseData>,
        res: Response,
    ) -> (r: Result<RouterData<T, RefundsData, RefundsResponseData>, ConnectorError>)
        ensures
            is_refund_projection(r, data, json_document(bytes_content(res.response))),
    {
        let body = bytes_to_vec(&res.response);
        let answer = match Json::parse(body.as_slice()) {
            Some(answer) => answer,
            None => {
                return Err(ConnectorError::ResponseDeserializationFailed);
            },
        };
        let (id, refund_status) = self.parse_refund_response(&answer)?;
        let response = RefundsResponseData { connector_refund_id: id, refund_status };
        Ok(RouterData { response: Ok(response), ..data })
    }

    /// Reads what Stripe said of a request that it refused, from the bytes of
    /// its answer.
    pub fn read_error_response(&self, res: &Bytes) -> (r: Result<ErrorResponse, ConnectorError>)
        ensures
            is_error_response_of(r, json_document(bytes_content(*res))),
    {
        let body = bytes_to_vec(res);
        match Json::parse(body.as_slice()) {
            Some(answer) => self.parse_error_response(&answer),
            None => Err(ConnectorError::ResponseDeserializationFailed),
        }
    }

    /// How the pipeline goes on, from the fields of the query of the return
    /// URL.
    pub fn flow_type_of_query(&self, query: &Vec<(String, String)>) -> (r: CallConnectorAction)
        ensures
            Ok::<CallConnectorAction, ConnectorError>(r) == flow_type(Some(pairs_view(query@))),
    {
        if transformers::get_field(query, "redirect_status").is_some() {
            CallConnectorAction::StatusUpdate(AttemptStatus::Pending)
        } else {
            CallConnectorAction::Trigger
        }
    }
}

impl ConnectorCommon for Stripe {
    open spec fn adapter_id(&self) -> Seq<char> {
        "stripe"@
    }

    open spec fn common_content_type(&self) -> Seq<char> {
        FORM_CONTENT_TYPE@
    }

    open spec fn root_url(&self, connectors: Connectors) -> Seq<char> {
        connectors.stripe.base_url@
    }

    open spec fn auth_header(&self, auth_type: ConnectorAuthType) -> Result<
        Seq<(Seq<char>, Seq<char>)>,
        ConnectorError,
    > {
        auth_header(auth_type)
    }

    fn id(&self) -> (r: &'static str) {
        "stripe"
    }

    fn common_get_content_type(&self) -> (r: &'static str) {
        FORM_CONTENT_TYPE
    }

    fn base_url(&self, connectors: &Connectors) -> (r: String) {
        connectors.stripe.base_url.clone()
    }

    fn get_auth_header(&self, auth_type: &ConnectorAuthType) -> (r: Result<
        Vec<(String, String)>,
        ConnectorError,
    >) {
        let auth = StripeAuthType::try_from(auth_type)?;
        let mut value = String::from_str("Bearer ");
        value.append(auth.api_key.as_str());
        let mut headers: Vec<(String, String)> = Vec::new();
        let header = (String::from_str(AUTHORIZATION), value);
        headers.push(header);
        assert(pairs_view(headers@) == seq![(AUTHORIZATION@, "Bearer "@ + auth.api_key@)]);
        Ok(headers)
    }
}

impl ConnectorRedirectResponse for Stripe {
    fn get_flow_type(&self, query_params: &str) -> (r: Result<CallConnectorAction, ConnectorError>)
        ensures
            r == flow_type(form_decoded(query_params@)),
    {
        match decode(query_params) {
            Some(query) => Ok(self.flow_type_of_query(&query)),
            None => Err(ConnectorError::ResponseDeserializationFailed),
        }
    }
}

/// The headers that authenticate a merchant are a function of the way of
/// authenticating and of nothing else: two ways that say the same give the
/// same headers, and so the same headers of a request.
pub proof fn auth_header_depends_on_the_auth_type_alone(
    first: ConnectorAuthType,
    second: ConnectorAuthType,
)
    requires
        first@ == second@,
    ensures
        auth_header(first) == auth_header(second),
        request_headers(first) == request_headers(second),
{
}

/// No answer of Stripe moves an envelope out of a terminal status: a payment
/// that is charged, voided or failed stays so, whatever a stale or repeated
/// answer says, and no answer moves a status back in the order of the attempt
/// state machine.
pub proof fn projection_keeps_a_terminal_status<T, Req>(
    r: Result<RouterData<T, Req, PaymentsResponseData>, ConnectorError>,
    data: RouterData<T, Req, PaymentsResponseData>,
    document: Option<Json>,
)
    requires
        is_payment_projection(r, data, document),
        r is Ok,
    ensures
        data.status.precedes(r->Ok_0.status),
        data.status.is_terminal() ==> r->Ok_0.status == data.status,
{
}

} // verus!
