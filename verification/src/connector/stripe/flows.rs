//! The connector-integration contract of Stripe, flow by flow.

use crate::connector::stripe::transformers::{
    CancelRequest, CaptureRequest, Form, PaymentIntentRequest, RefundRequest,
    SetupIntentRequest, StripeCaptureMethod, StripeCard,
};
use crate::connector::stripe::{
    auth_header, is_body_of, is_error_response_of, is_payment_projection, is_refund_projection,
    request_headers, resource_url, Stripe, FORM_CONTENT_TYPE,
};
use crate::errors::ConnectorError;
use crate::headers::CONTENT_TYPE;
use crate::services::{
    is_request_with, ConnectorCommon, ConnectorIntegration, Method, Request,
};
use crate::types::api::{Authorize, Capture, Execute, PSync, PaymentMethod, RSync, Verify, Void};
use crate::types::{
    bytes_content, Connectors, ErrorResponse, PaymentsAuthorizeData,
    PaymentsCancelData, PaymentsCaptureData, PaymentsResponseData, PaymentsSyncData, RefundsData,
    RefundsResponseData, Response, RouterData, VerifyRequestData,
};
use crate::utils::json::json_document;
use bytes::Bytes;
use crate::utils::text::pairs_view;
use vstd::prelude::*;

verus! {

/// The URL of an authorization: the collection of the payment intents.
pub open spec fn authorize_url(connectors: Connectors) -> Result<Seq<char>, ConnectorError> {
    Ok(connectors.stripe.base_url@ + "v1/payment_intents"@)
}

/// The URL of a capture: the action `capture` of the payment intent.
pub open spec fn capture_url(connectors: Connectors, request: PaymentsCaptureData) -> Result<
    Seq<char>,
    ConnectorError,
> {
    resource_url(
        connectors.stripe.base_url@,
        "v1/payment_intents/"@,
        request.connector_transaction_id@,
        "/capture"@,
    )
}

/// The URL of a payment sync: the payment intent.
pub open spec fn psync_url(connectors: Connectors, request: PaymentsSyncData) -> Result<
    Seq<char>,
    ConnectorError,
> {
    resource_url(
        connectors.stripe.base_url@,
        "v1/payment_intents/"@,
        request.connector_transaction_id@,
        ""@,
    )
}

/// The URL of a void: the action `cancel` of the payment intent.
pub open spec fn void_url(connectors: Connectors, request: PaymentsCancelData) -> Result<
    Seq<char>,
    ConnectorError,
> {
    resource_url(
        connectors.stripe.base_url@,
        "v1/payment_intents/"@,
        request.connector_transaction_id@,
        "/cancel"@,
    )
}

/// The URL of a verification: the collection of the setup intents.
pub open spec fn verify_url(connectors: Connectors) -> Result<Seq<char>, ConnectorError> {
    Ok(connectors.stripe.base_url@ + "v1/setup_intents"@)
}

/// The URL of a refund: the collection of the refunds.
pub open spec fn refund_url(connectors: Connectors) -> Result<Seq<char>, ConnectorError> {
    Ok(connectors.stripe.base_url@ + "v1/refunds"@)
}

/// The URL of a refund sync: the refund, by the id that Stripe gave it when
/// the refund was executed. An envelope without that answer gives
/// `FailedToObtainIntegrationUrl`.
pub open spec fn rsync_url(
    connectors: Connectors,
    response: Result<RefundsResponseData, ErrorResponse>,
) -> Result<Seq<char>, ConnectorError> {
    match response {
        Ok(response) => resource_url(
            connectors.stripe.base_url@,
            "v1/refunds/"@,
            response.connector_refund_id@,
            ""@,
        ),
        Err(_) => Err(ConnectorError::FailedToObtainIntegrationUrl),
    }
}

/// The card of a payment method, where it is one.
pub open spec fn card_of(payment_method: PaymentMethod) -> Option<StripeCard> {
    match payment_method {
        PaymentMethod::Card(card) => Some(
            StripeCard {
                number: card.card_number,
                exp_month: card.card_exp_month,
                exp_year: card.card_exp_year,
                cvc: card.card_cvc,
            },
        ),
        _ => None,
    }
}

/// The form of the body of an authorization; `None` for a payment method
/// that Stripe is not given.
pub open spec fn authorize_form(request: PaymentsAuthorizeData, description: Option<String>)
    -> Option<Form> {
    match card_of(request.payment_method_data) {
        Some(card) => Some(
            (PaymentIntentRequest {
                amount: request.amount,
                currency: request.currency,
                confirm: request.confirm,
                capture_method: StripeCaptureMethod::of(request.capture_method),
                description,
                statement_descriptor_suffix: request.statement_descriptor_suffix,
                card,
            })@.form(),
        ),
        None => None,
    }
}

/// The form of the body of a capture.
pub open spec fn capture_form(request: PaymentsCaptureData) -> Option<Form> {
    Some((CaptureRequest { amount_to_capture: request.amount_to_capture }).form())
}

/// The form of the body of a void.
pub open spec fn void_form(request: PaymentsCancelData) -> Option<Form> {
    Some((CancelRequest { cancellation_reason: request.cancellation_reason }).form())
}

/// The form of the body of a verification; `None` for a payment method that
/// Stripe is not given.
pub open spec fn verify_form(request: VerifyRequestData) -> Option<Form> {
    match card_of(request.payment_method_data) {
        Some(card) => Some((SetupIntentRequest { confirm: request.confirm, card }).form()),
        None => None,
    }
}

/// The form of the body of a refund.
pub open spec fn refund_form(request: RefundsData) -> Option<Form> {
    Some(
        (RefundRequest {
            amount: Some(request.refund_amount),
            payment_intent: request.connector_transaction_id,
        })@.form(),
    )
}

/// An authorization creates a payment intent.
impl ConnectorIntegration<Authorize, PaymentsAuthorizeData, PaymentsResponseData> for Stripe {
    open spec fn method(&self, req: RouterData<Authorize, PaymentsAuthorizeData, PaymentsResponseData>) -> Method {
        Method::Post
    }

    open spec fn content_type(&self, req: RouterData<Authorize, PaymentsAuthorizeData, PaymentsResponseData>) -> Seq<char> {
        FORM_CONTENT_TYPE@
    }

    open spec fn headers(&self, req: RouterData<Authorize, PaymentsAuthorizeData, PaymentsResponseData>) -> Result<
        Seq<(Seq<char>, Seq<char>)>,
        ConnectorError,
    > {
        request_headers(req.connector_auth_type)
    }

    open spec fn url(&self, req: RouterData<Authorize, PaymentsAuthorizeData, PaymentsResponseData>, connectors: Connectors) -> Result<Seq<char>, ConnectorError> {
        authorize_url(connectors)
    }

    open spec fn is_request_body(
        &self,
        req: RouterData<Authorize, PaymentsAuthorizeData, PaymentsResponseData>,
        body: Result<Option<String>, ConnectorError>,
    ) -> bool {
        is_body_of(body, authorize_form(req.request, req.description))
    }

    open spec fn short_circuits(&self, req: RouterData<Authorize, PaymentsAuthorizeData, PaymentsResponseData>) -> bool {
        false
    }

    open spec fn is_handled(
        &self,
        data: RouterData<Authorize, PaymentsAuthorizeData, PaymentsResponseData>,
        res: Response,
        handled: Result<RouterData<Authorize, PaymentsAuthorizeData, PaymentsResponseData>, ConnectorError>,
    ) -> bool {
        is_payment_projection(handled, data, json_document(bytes_content(res.response)))
    }

    open spec fn is_error_response(
        &self,
        req: RouterData<Authorize, PaymentsAuthorizeData, PaymentsResponseData>,
        res: Bytes,
        read: Result<ErrorResponse, ConnectorError>,
    ) -> bool {
        is_error_response_of(read, json_document(bytes_content(res)))
    }

    proof fn headers_are_complete(&self, req: RouterData<Authorize, PaymentsAuthorizeData, PaymentsResponseData>) {
        if let Ok(auth) = auth_header(req.connector_auth_type) {
            let headers = request_headers(req.connector_auth_type)->Ok_0;
            assert(headers[0] == (CONTENT_TYPE@, FORM_CONTENT_TYPE@));
            assert forall|i: int| 0 <= i < auth.len() implies headers.contains(
                #[trigger] auth[i],
            ) by {
                assert(headers[i + 2] == auth[i]);
            }
        }
    }

    fn get_headers(&self, req: &RouterData<Authorize, PaymentsAuthorizeData, PaymentsResponseData>) -> (r: Result<Vec<(String, String)>, ConnectorError>) {
        self.standard_headers(&req.connector_auth_type)
    }

    fn get_content_type(&self, _req: &RouterData<Authorize, PaymentsAuthorizeData, PaymentsResponseData>) -> (r: &'static str) {
        self.common_get_content_type()
    }

    fn get_url(&self, req: &RouterData<Authorize, PaymentsAuthorizeData, PaymentsResponseData>, connectors: &Connectors) -> (r: Result<String, ConnectorError>) {
        Ok(self.collection_url(connectors, "v1/payment_intents"))
    }

    fn get_request_body(&self, req: &RouterData<Authorize, PaymentsAuthorizeData, PaymentsResponseData>) -> (r: Result<Option<String>, ConnectorError>) {
        let body = PaymentIntentRequest::from_request(&req.request, &req.description)?;
        self.encode_body(body.to_form())
    }

    fn build_request(&self, req: &RouterData<Authorize, PaymentsAuthorizeData, PaymentsResponseData>, connectors: &Connectors) -> (r: Result<
        Option<Request>,
        ConnectorError,
    >) {
        let url = self.get_url(req, connectors)?;
        let headers = self.get_headers(req)?;
        let body = self.get_request_body(req);
        let ghost method = self.method(*req);
        let payload = match body {
            Ok(payload) => payload,
            Err(error) => {
                assert(is_request_with(
                    Err::<Option<Request>, ConnectorError>(error),
                    method,
                    url@,
                    pairs_view(headers@),
                    body,
                ));
                return Err(error);
            },
        };
        let request = self.compose(Method::Post, url, headers, payload);
        assert(is_request_with(
            Ok::<Option<Request>, ConnectorError>(Some(request)),
            method,
            url@,
            pairs_view(headers@),
            body,
        ));
        Ok(Some(request))
    }

    fn handle_response(&self, data: RouterData<Authorize, PaymentsAuthorizeData, PaymentsResponseData>, res: Response) -> (r: Result<RouterData<Authorize, PaymentsAuthorizeData, PaymentsResponseData>, ConnectorError>) {
        self.project_payment(data, res)
    }

    fn get_error_response(&self, _req: &RouterData<Authorize, PaymentsAuthorizeData, PaymentsResponseData>, res: Bytes) -> (r: Result<
        ErrorResponse,
        ConnectorError,
    >) {
        self.read_error_response(&res)
    }
}

/// A capture acts on the payment intent that was authorised.
impl ConnectorIntegration<Capture, PaymentsCaptureData, PaymentsResponseData> for Stripe {
    open spec fn method(&self, req: RouterData<Capture, PaymentsCaptureData, PaymentsResponseData>) -> Method {
        Method::Post
    }

    open spec fn content_type(&self, req: RouterData<Capture, PaymentsCaptureData, PaymentsResponseData>) -> Seq<char> {
        FORM_CONTENT_TYPE@
    }

    open spec fn headers(&self, req: RouterData<Capture, PaymentsCaptureData, PaymentsResponseData>) -> Result<
        Seq<(Seq<char>, Seq<char>)>,
        ConnectorError,
    > {
        request_headers(req.connector_auth_type)
    }

    open spec fn url(&self, req: RouterData<Capture, PaymentsCaptureData, PaymentsResponseData>, connectors: Connectors) -> Result<Seq<char>, ConnectorError> {
        capture_url(connectors, req.request)
    }

    open spec fn is_request_body(
        &self,
        req: RouterData<Capture, PaymentsCaptureData, PaymentsResponseData>,
        body: Result<Option<String>, ConnectorError>,
    ) -> bool {
        is_body_of(body, capture_form(req.request))
    }

    open spec fn short_circuits(&self, req: RouterData<Capture, PaymentsCaptureData, PaymentsResponseData>) -> bool {
        false
    }

    open spec fn is_handled(
        &self,
        data: RouterData<Capture, PaymentsCaptureData, PaymentsResponseData>,
        res: Response,
        handled: Result<RouterData<Capture, PaymentsCaptureData, PaymentsResponseData>, ConnectorError>,
    ) -> bool {
        is_payment_projection(handled, data, json_document(bytes_content(res.response)))
    }

    open spec fn is_error_response(
        &self,
        req: RouterData<Capture, PaymentsCaptureData, PaymentsResponseData>,
        res: Bytes,
        read: Result<ErrorResponse, ConnectorError>,
    ) -> bool {
        is_error_response_of(read, json_document(bytes_content(res)))
    }

    proof fn headers_are_complete(&self, req: RouterData<Capture, PaymentsCaptureData, PaymentsResponseData>) {
        if let Ok(auth) = auth_header(req.connector_auth_type) {
            let headers = request_headers(req.connector_auth_type)->Ok_0;
            assert(headers[0] == (CONTENT_TYPE@, FORM_CONTENT_TYPE@));
            assert forall|i: int| 0 <= i < auth.len() implies headers.contains(
                #[trigger] auth[i],
            ) by {
                assert(headers[i + 2] == auth[i]);
            }
        }
    }

    fn get_headers(&self, req: &RouterData<Capture, PaymentsCaptureData, PaymentsResponseData>) -> (r: Result<Vec<(String, String)>, ConnectorError>) {
        self.standard_headers(&req.connector_auth_type)
    }

    fn get_content_type(&self, _req: &RouterData<Capture, PaymentsCaptureData, PaymentsResponseData>) -> (r: &'static str) {
        self.common_get_content_type()
    }

    fn get_url(&self, req: &RouterData<Capture, PaymentsCaptureData, PaymentsResponseData>, connectors: &Connectors) -> (r: Result<String, ConnectorError>) {
        self.resource_url(
            connectors,
            "v1/payment_intents/",
            req.request.connector_transaction_id.as_str(),
            "/capture",
        )
    }

    fn get_request_body(&self, req: &RouterData<Capture, PaymentsCaptureData, PaymentsResponseData>) -> (r: Result<Option<String>, ConnectorError>) {
        self.encode_body(CaptureRequest::from_request(&req.request).to_form())
    }

    fn build_request(&self, req: &RouterData<Capture, PaymentsCaptureData, PaymentsResponseData>, connectors: &Connectors) -> (r: Result<
        Option<Request>,
        ConnectorError,
    >) {
        let url = self.get_url(req, connectors)?;
        let headers = self.get_headers(req)?;
        let body = self.get_request_body(req);
        let ghost method = self.method(*req);
        let payload = match body {
            Ok(payload) => payload,
            Err(error) => {
                assert(is_request_with(
                    Err::<Option<Request>, ConnectorError>(error),
                    method,
                    url@,
                    pairs_view(headers@),
                    body,
                ));
                return Err(error);
            },
        };
        let request = self.compose(Method::Post, url, headers, payload);
        assert(is_request_with(
            Ok::<Option<Request>, ConnectorError>(Some(request)),
            method,
            url@,
            pairs_view(headers@),
            body,
        ));
        Ok(Some(request))
    }

    fn handle_response(&self, data: RouterData<Capture, PaymentsCaptureData, PaymentsResponseData>, res: Response) -> (r: Result<RouterData<Capture, PaymentsCaptureData, PaymentsResponseData>, ConnectorError>) {
        self.project_payment(data, res)
    }

    fn get_error_response(&self, _req: &RouterData<Capture, PaymentsCaptureData, PaymentsResponseData>, res: Bytes) -> (r: Result<
        ErrorResponse,
        ConnectorError,
    >) {
        self.read_error_response(&res)
    }
}

/// A payment sync reads the payment intent.
impl ConnectorIntegration<PSync, PaymentsSyncData, PaymentsResponseData> for Stripe {
    open spec fn method(&self, req: RouterData<PSync, PaymentsSyncData, PaymentsResponseData>) -> Method {
        Method::Get
    }

    open spec fn content_type(&self, req: RouterData<PSync, PaymentsSyncData, PaymentsResponseData>) -> Seq<char> {
        FORM_CONTENT_TYPE@
    }

    open spec fn headers(&self, req: RouterData<PSync, PaymentsSyncData, PaymentsResponseData>) -> Result<
        Seq<(Seq<char>, Seq<char>)>,
        ConnectorError,
    > {
        request_headers(req.connector_auth_type)
    }

    open spec fn url(&self, req: RouterData<PSync, PaymentsSyncData, PaymentsResponseData>, connectors: Connectors) -> Result<Seq<char>, ConnectorError> {
        psync_url(connectors, req.request)
    }

    open spec fn is_request_body(
        &self,
        req: RouterData<PSync, PaymentsSyncData, PaymentsResponseData>,
        body: Result<Option<String>, ConnectorError>,
    ) -> bool {
        body == Ok::<Option<String>, ConnectorError>(None)
    }

    open spec fn short_circuits(&self, req: RouterData<PSync, PaymentsSyncData, PaymentsResponseData>) -> bool {
        false
    }

    open spec fn is_handled(
        &self,
        data: RouterData<PSync, PaymentsSyncData, PaymentsResponseData>,
        res: Response,
        handled: Result<RouterData<PSync, PaymentsSyncData, PaymentsResponseData>, ConnectorError>,
    ) -> bool {
        is_payment_projection(handled, data, json_document(bytes_content(res.response)))
    }

    open spec fn is_error_response(
        &self,
        req: RouterData<PSync, PaymentsSyncData, PaymentsResponseData>,
        res: Bytes,
        read: Result<ErrorResponse, ConnectorError>,
    ) -> bool {
        is_error_response_of(read, json_document(bytes_content(res)))
    }

    proof fn headers_are_complete(&self, req: RouterData<PSync, PaymentsSyncData, PaymentsResponseData>) {
        if let Ok(auth) = auth_header(req.connector_auth_type) {
            let headers = request_headers(req.connector_auth_type)->Ok_0;
            assert(headers[0] == (CONTENT_TYPE@, FORM_CONTENT_TYPE@));
            assert forall|i: int| 0 <= i < auth.len() implies headers.contains(
                #[trigger] auth[i],
            ) by {
                assert(headers[i + 2] == auth[i]);
            }
        }
    }

    fn get_headers(&self, req: &RouterData<PSync, PaymentsSyncData, PaymentsResponseData>) -> (r: Result<Vec<(String, String)>, ConnectorError>) {
        self.standard_headers(&req.connector_auth_type)
    }

    fn get_content_type(&self, _req: &RouterData<PSync, PaymentsSyncData, PaymentsResponseData>) -> (r: &'static str) {
        self.common_get_content_type()
    }

    fn get_url(&self, req: &RouterData<PSync, PaymentsSyncData, PaymentsResponseData>, connectors: &Connectors) -> (r: Result<String, ConnectorError>) {
        self.resource_url(
            connectors,
            "v1/payment_intents/",
            req.request.connector_transaction_id.as_str(),
            "",
        )
    }

    fn get_request_body(&self, req: &RouterData<PSync, PaymentsSyncData, PaymentsResponseData>) -> (r: Result<Option<String>, ConnectorError>) {
        Ok(None)
    }

    fn build_request(&self, req: &RouterData<PSync, PaymentsSyncData, PaymentsResponseData>, connectors: &Connectors) -> (r: Result<
        Option<Request>,
        ConnectorError,
    >) {
        let url = self.get_url(req, connectors)?;
        let headers = self.get_headers(req)?;
        let body = self.get_request_body(req);
        let ghost method = self.method(*req);
        let payload = match body {
            Ok(payload) => payload,
            Err(error) => {
                assert(is_request_with(
                    Err::<Option<Request>, ConnectorError>(error),
                    method,
                    url@,
                    pairs_view(headers@),
                    body,
                ));
                return Err(error);
            },
        };
        let request = self.compose(Method::Get, url, headers, payload);
        assert(is_request_with(
            Ok::<Option<Request>, ConnectorError>(Some(request)),
            method,
            url@,
            pairs_view(headers@),
            body,
        ));
        Ok(Some(request))
    }

    fn handle_response(&self, data: RouterData<PSync, PaymentsSyncData, PaymentsResponseData>, res: Response) -> (r: Result<RouterData<PSync, PaymentsSyncData, PaymentsResponseData>, ConnectorError>) {
        self.project_payment(data, res)
    }

    fn get_error_response(&self, _req: &RouterData<PSync, PaymentsSyncData, PaymentsResponseData>, res: Bytes) -> (r: Result<
        ErrorResponse,
        ConnectorError,
    >) {
        self.read_error_response(&res)
    }
}

/// A void cancels the payment intent.
impl ConnectorIntegration<Void, PaymentsCancelData, PaymentsResponseData> for Stripe {
    open spec fn method(&self, req: RouterData<Void, PaymentsCancelData, PaymentsResponseData>) -> Method {
        Method::Post
    }

    open spec fn content_type(&self, req: RouterData<Void, PaymentsCancelData, PaymentsResponseData>) -> Seq<char> {
        FORM_CONTENT_TYPE@
    }

    open spec fn headers(&self, req: RouterData<Void, PaymentsCancelData, PaymentsResponseData>) -> Result<
        Seq<(Seq<char>, Seq<char>)>,
        ConnectorError,
    > {
        request_headers(req.connector_auth_type)
    }

    open spec fn url(&self, req: RouterData<Void, PaymentsCancelData, PaymentsResponseData>, connectors: Connectors) -> Result<Seq<char>, ConnectorError> {
        void_url(connectors, req.request)
    }

    open spec fn is_request_body(
        &self,
        req: RouterData<Void, PaymentsCancelData, PaymentsResponseData>,
        body: Result<Option<String>, ConnectorError>,
    ) -> bool {
        is_body_of(body, void_form(req.request))
    }

    open spec fn short_circuits(&self, req: RouterData<Void, PaymentsCancelData, PaymentsResponseData>) -> bool {
        false
    }

    open spec fn is_handled(
        &self,
        data: RouterData<Void, PaymentsCancelData, PaymentsResponseData>,
        res: Response,
        handled: Result<RouterData<Void, PaymentsCancelData, PaymentsResponseData>, ConnectorError>,
    ) -> bool {
        is_payment_projection(handled, data, json_document(bytes_content(res.response)))
    }

    open spec fn is_error_response(
        &self,
        req: RouterData<Void, PaymentsCancelData, PaymentsResponseData>,
        res: Bytes,
        read: Result<ErrorResponse, ConnectorError>,
    ) -> bool {
        is_error_response_of(read, json_document(bytes_content(res)))
    }

    proof fn headers_are_complete(&self, req: RouterData<Void, PaymentsCancelData, PaymentsResponseData>) {
        if let Ok(auth) = auth_header(req.connector_auth_type) {
            let headers = request_headers(req.connector_auth_type)->Ok_0;
            assert(headers[0] == (CONTENT_TYPE@, FORM_CONTENT_TYPE@));
            assert forall|i: int| 0 <= i < auth.len() implies headers.contains(
                #[trigger] auth[i],
            ) by {
                assert(headers[i + 2] == auth[i]);
            }
        }
    }

    fn get_headers(&self, req: &RouterData<Void, PaymentsCancelData, PaymentsResponseData>) -> (r: Result<Vec<(String, String)>, ConnectorError>) {
        self.standard_headers(&req.connector_auth_type)
    }

    fn get_content_type(&self, _req: &RouterData<Void, PaymentsCancelData, PaymentsResponseData>) -> (r: &'static str) {
        self.common_get_content_type()
    }

    fn get_url(&self, req: &RouterData<Void, PaymentsCancelData, PaymentsResponseData>, connectors: &Connectors) -> (r: Result<String, ConnectorError>) {
        self.resource_url(
            connectors,
            "v1/payment_intents/",
            req.request.connector_transaction_id.as_str(),
            "/cancel",
        )
    }

    fn get_request_body(&self, req: &RouterData<Void, PaymentsCancelData, PaymentsResponseData>) -> (r: Result<Option<String>, ConnectorError>) {
        self.encode_body(CancelRequest::from_request(&req.request).to_form())
    }

    fn build_request(&self, req: &RouterData<Void, PaymentsCancelData, PaymentsResponseData>, connectors: &Connectors) -> (r: Result<
        Option<Request>,
        ConnectorError,
    >) {
        let url = self.get_url(req, connectors)?;
        let headers = self.get_headers(req)?;
        let body = self.get_request_body(req);
        let ghost method = self.method(*req);
        let payload = match body {
            Ok(payload) => payload,
            Err(error) => {
                assert(is_request_with(
                    Err::<Option<Request>, ConnectorError>(error),
                    method,
                    url@,
                    pairs_view(headers@),
                    body,
                ));
                return Err(error);
            },
        };
        let request = self.compose(Method::Post, url, headers, payload);
        assert(is_request_with(
            Ok::<Option<Request>, ConnectorError>(Some(request)),
            method,
            url@,
            pairs_view(headers@),
            body,
        ));
        Ok(Some(request))
    }

    fn handle_response(&self, data: RouterData<Void, PaymentsCancelData, PaymentsResponseData>, res: Response) -> (r: Result<RouterData<Void, PaymentsCancelData, PaymentsResponseData>, ConnectorError>) {
        self.project_payment(data, res)
    }

    fn get_error_response(&self, _req: &RouterData<Void, PaymentsCancelData, PaymentsResponseData>, res: Bytes) -> (r: Result<
        ErrorResponse,
        ConnectorError,
    >) {
        self.read_error_response(&res)
    }
}

/// A verification creates a setup intent.
impl ConnectorIntegration<Verify, VerifyRequestData, PaymentsResponseData> for Stripe {
    open spec fn method(&self, req: RouterData<Verify, VerifyRequestData, PaymentsResponseData>) -> Method {
        Method::Post
    }

    open spec fn content_type(&self, req: RouterData<Verify, VerifyRequestData, PaymentsResponseData>) -> Seq<char> {
        FORM_CONTENT_TYPE@
    }

    open spec fn headers(&self, req: RouterData<Verify, VerifyRequestData, PaymentsResponseData>) -> Result<
        Seq<(Seq<char>, Seq<char>)>,
        ConnectorError,
    > {
        request_headers(req.connector_auth_type)
    }

    open spec fn url(&self, req: RouterData<Verify, VerifyRequestData, PaymentsResponseData>, connectors: Connectors) -> Result<Seq<char>, ConnectorError> {
        verify_url(connectors)
    }

    open spec fn is_request_body(
        &self,
        req: RouterData<Verify, VerifyRequestData, PaymentsResponseData>,
        body: Result<Option<String>, ConnectorError>,
    ) -> bool {
        is_body_of(body, verify_form(req.request))
    }

    open spec fn short_circuits(&self, req: RouterData<Verify, VerifyRequestData, PaymentsResponseData>) -> bool {
        false
    }

    open spec fn is_handled(
        &self,
        data: RouterData<Verify, VerifyRequestData, PaymentsResponseData>,
        res: Response,
        handled: Result<RouterData<Verify, VerifyRequestData, PaymentsResponseData>, ConnectorError>,
    ) -> bool {
        is_payment_projection(handled, data, json_document(bytes_content(res.response)))
    }

    open spec fn is_error_response(
        &self,
        req: RouterData<Verify, VerifyRequestData, PaymentsResponseData>,
        res: Bytes,
        read: Result<ErrorResponse, ConnectorError>,
    ) -> bool {
        is_error_response_of(read, json_document(bytes_content(res)))
    }

    proof fn headers_are_complete(&self, req: RouterData<Verify, VerifyRequestData, PaymentsResponseData>) {
        if let Ok(auth) = auth_header(req.connector_auth_type) {
            let headers = request_headers(req.connector_auth_type)->Ok_0;
            assert(headers[0] == (CONTENT_TYPE@, FORM_CONTENT_TYPE@));
            assert forall|i: int| 0 <= i < auth.len() implies headers.contains(
                #[trigger] auth[i],
            ) by {
                assert(headers[i + 2] == auth[i]);
            }
        }
    }

    fn get_headers(&self, req: &RouterData<Verify, VerifyRequestData, PaymentsResponseData>) -> (r: Result<Vec<(String, String)>, ConnectorError>) {
        self.standard_headers(&req.connector_auth_type)
    }

    fn get_content_type(&self, _req: &RouterData<Verify, VerifyRequestData, PaymentsResponseData>) -> (r: &'static str) {
        self.common_get_content_type()
    }

    fn get_url(&self, req: &RouterData<Verify, VerifyRequestData, PaymentsResponseData>, connectors: &Connectors) -> (r: Result<String, ConnectorError>) {
        Ok(self.collection_url(connectors, "v1/setup_intents"))
    }

    fn get_request_body(&self, req: &RouterData<Verify, VerifyRequestData, PaymentsResponseData>) -> (r: Result<Option<String>, ConnectorError>) {
        let body = SetupIntentRequest::from_request(&req.request)?;
        self.encode_body(body.to_form())
    }

    fn build_request(&self, req: &RouterData<Verify, VerifyRequestData, PaymentsResponseData>, connectors: &Connectors) -> (r: Result<
        Option<Request>,
        ConnectorError,
    >) {
        let url = self.get_url(req, connectors)?;
        let headers = self.get_headers(req)?;
        let body = self.get_request_body(req);
        let ghost method = self.method(*req);
        let payload = match body {
            Ok(payload) => payload,
            Err(error) => {
                assert(is_request_with(
                    Err::<Option<Request>, ConnectorError>(error),
                    method,
                    url@,
                    pairs_view(headers@),
                    body,
                ));
                return Err(error);
            },
        };
        let request = self.compose(Method::Post, url, headers, payload);
        assert(is_request_with(
            Ok::<Option<Request>, ConnectorError>(Some(request)),
            method,
            url@,
            pairs_view(headers@),
            body,
        ));
        Ok(Some(request))
    }

    fn handle_response(&self, data: RouterData<Verify, VerifyRequestData, PaymentsResponseData>, res: Response) -> (r: Result<RouterData<Verify, VerifyRequestData, PaymentsResponseData>, ConnectorError>) {
        self.project_payment(data, res)
    }

    fn get_error_response(&self, _req: &RouterData<Verify, VerifyRequestData, PaymentsResponseData>, res: Bytes) -> (r: Result<
        ErrorResponse,
        ConnectorError,
    >) {
        self.read_error_response(&res)
    }
}

/// A refund is created against the payment intent.
impl ConnectorIntegration<Execute, RefundsData, RefundsResponseData> for Stripe {
    open spec fn method(&self, req: RouterData<Execute, RefundsData, RefundsResponseData>) -> Method {
        Method::Post
    }

    open spec fn content_type(&self, req: RouterData<Execute, RefundsData, RefundsResponseData>) -> Seq<char> {
        FORM_CONTENT_TYPE@
    }

    open spec fn headers(&self, req: RouterData<Execute, RefundsData, RefundsResponseData>) -> Result<
        Seq<(Seq<char>, Seq<char>)>,
        ConnectorError,
    > {
        request_headers(req.connector_auth_type)
    }

    open spec fn url(&self, req: RouterData<Execute, RefundsData, RefundsResponseData>, connectors: Connectors) -> Result<Seq<char>, ConnectorError> {
        refund_url(connectors)
    }

    open spec fn is_request_body(
        &self,
        req: RouterData<Execute, RefundsData, RefundsResponseData>,
        body: Result<Option<String>, ConnectorError>,
    ) -> bool {
        is_body_of(body, refund_form(req.request))
    }

    open spec fn short_circuits(&self, req: RouterData<Execute, RefundsData, RefundsResponseData>) -> bool {
        false
    }

    open spec fn is_handled(
        &self,
        data: RouterData<Execute, RefundsData, RefundsResponseData>,
        res: Response,
        handled: Result<RouterData<Execute, RefundsData, RefundsResponseData>, ConnectorError>,
    ) -> bool {
        is_refund_projection(handled, data, json_document(bytes_content(res.response)))
    }

    open spec fn is_error_response(
        &self,
        req: RouterData<Execute, RefundsData, RefundsResponseData>,
        res: Bytes,
        read: Result<ErrorResponse, ConnectorError>,
    ) -> bool {
        is_error_response_of(read, json_document(bytes_content(res)))
    }

    proof fn headers_are_complete(&self, req: RouterData<Execute, RefundsData, RefundsResponseData>) {
        if let Ok(auth) = auth_header(req.connector_auth_type) {
            let headers = request_headers(req.connector_auth_type)->Ok_0;
            assert(headers[0] == (CONTENT_TYPE@, FORM_CONTENT_TYPE@));
            assert forall|i: int| 0 <= i < auth.len() implies headers.contains(
                #[trigger] auth[i],
            ) by {
                assert(headers[i + 2] == auth[i]);
            }
        }
    }

    fn get_headers(&self, req: &RouterData<Execute, RefundsData, RefundsResponseData>) -> (r: Result<Vec<(String, String)>, ConnectorError>) {
        self.standard_headers(&req.connector_auth_type)
    }

    fn get_content_type(&self, _req: &RouterData<Execute, RefundsData, RefundsResponseData>) -> (r: &'static str) {
        self.common_get_content_type()
    }

    fn get_url(&self, req: &RouterData<Execute, RefundsData, RefundsResponseData>, connectors: &Connectors) -> (r: Result<String, ConnectorError>) {
        Ok(self.collection_url(connectors, "v1/refunds"))
    }

    fn get_request_body(&self, req: &RouterData<Execute, RefundsData, RefundsResponseData>) -> (r: Result<Option<String>, ConnectorError>) {
        self.encode_body(RefundRequest::from_request(&req.request).to_form())
    }

    fn build_request(&self, req: &RouterData<Execute, RefundsData, RefundsResponseData>, connectors: &Connectors) -> (r: Result<
        Option<Request>,
        ConnectorError,
    >) {
        let url = self.get_url(req, connectors)?;
        let headers = self.get_headers(req)?;
        let body = self.get_request_body(req);
        let ghost method = self.method(*req);
        let payload = match body {
            Ok(payload) => payload,
            Err(error) => {
                assert(is_request_with(
                    Err::<Option<Request>, ConnectorError>(error),
                    method,
                    url@,
                    pairs_view(headers@),
                    body,
                ));
                return Err(error);
            },
        };
        let request = self.compose(Method::Post, url, headers, payload);
        assert(is_request_with(
            Ok::<Option<Request>, ConnectorError>(Some(request)),
            method,
            url@,
            pairs_view(headers@),
            body,
        ));
        Ok(Some(request))
    }

    fn handle_response(&self, data: RouterData<Execute, RefundsData, RefundsResponseData>, res: Response) -> (r: Result<RouterData<Execute, RefundsData, RefundsResponseData>, ConnectorError>) {
        self.project_refund(data, res)
    }

    fn get_error_response(&self, _req: &RouterData<Execute, RefundsData, RefundsResponseData>, res: Bytes) -> (r: Result<
        ErrorResponse,
        ConnectorError,
    >) {
        self.read_error_response(&res)
    }
}

/// A refund sync reads the refund.
impl ConnectorIntegration<RSync, RefundsData, RefundsResponseData> for Stripe {
    open spec fn method(&self, req: RouterData<RSync, RefundsData, RefundsResponseData>) -> Method {
        Method::Get
    }

    open spec fn content_type(&self, req: RouterData<RSync, RefundsData, RefundsResponseData>) -> Seq<char> {
        FORM_CONTENT_TYPE@
    }

    open spec fn headers(&self, req: RouterData<RSync, RefundsData, RefundsResponseData>) -> Result<
        Seq<(Seq<char>, Seq<char>)>,
        ConnectorError,
    > {
        request_headers(req.connector_auth_type)
    }

    open spec fn url(&self, req: RouterData<RSync, RefundsData, RefundsResponseData>, connectors: Connectors) -> Result<Seq<char>, ConnectorError> {
        rsync_url(connectors, req.response)
    }

    open spec fn is_request_body(
        &self,
        req: RouterData<RSync, RefundsData, RefundsResponseData>,
        body: Result<Option<String>, ConnectorError>,
    ) -> bool {
        body == Ok::<Option<String>, ConnectorError>(None)
    }

    open spec fn short_circuits(&self, req: RouterData<RSync, RefundsData, RefundsResponseData>) -> bool {
        false
    }

    open spec fn is_handled(
        &self,
        data: RouterData<RSync, RefundsData, RefundsResponseData>,
        res: Response,
        handled: Result<RouterData<RSync, RefundsData, RefundsResponseData>, ConnectorError>,
    ) -> bool {
        is_refund_projection(handled, data, json_document(bytes_content(res.response)))
    }

    open spec fn is_error_response(
        &self,
        req: RouterData<RSync, RefundsData, RefundsResponseData>,
        res: Bytes,
        read: Result<ErrorResponse, ConnectorError>,
    ) -> bool {
        is_error_response_of(read, json_document(bytes_content(res)))
    }

    proof fn headers_are_complete(&self, req: RouterData<RSync, RefundsData, RefundsResponseData>) {
        if let Ok(auth) = auth_header(req.connector_auth_type) {
            let headers = request_headers(req.connector_auth_type)->Ok_0;
            assert(headers[0] == (CONTENT_TYPE@, FORM_CONTENT_TYPE@));
            assert forall|i: int| 0 <= i < auth.len() implies headers.contains(
                #[trigger] auth[i],
            ) by {
                assert(headers[i + 2] == auth[i]);
            }
        }
    }

    fn get_headers(&self, req: &RouterData<RSync, RefundsData, RefundsResponseData>) -> (r: Result<Vec<(String, String)>, ConnectorError>) {
        self.standard_headers(&req.connector_auth_type)
    }

    fn get_content_type(&self, _req: &RouterData<RSync, RefundsData, RefundsResponseData>) -> (r: &'static str) {
        self.common_get_content_type()
    }

    fn get_url(&self, req: &RouterData<RSync, RefundsData, RefundsResponseData>, connectors: &Connectors) -> (r: Result<String, ConnectorError>) {
        match &req.response {
            Ok(response) => self.resource_url(
                connectors,
                "v1/refunds/",
                response.connector_refund_id.as_str(),
                "",
            ),
            Err(_) => Err(ConnectorError::FailedToObtainIntegrationUrl),
        }
    }

    fn get_request_body(&self, req: &RouterData<RSync, RefundsData, RefundsResponseData>) -> (r: Result<Option<String>, ConnectorError>) {
        Ok(None)
    }

    fn build_request(&self, req: &RouterData<RSync, RefundsData, RefundsResponseData>, connectors: &Connectors) -> (r: Result<
        Option<Request>,
        ConnectorError,
    >) {
        let url = self.get_url(req, connectors)?;
        let headers = self.get_headers(req)?;
        let body = self.get_request_body(req);
        let ghost method = self.method(*req);
        let payload = match body {
            Ok(payload) => payload,
            Err(error) => {
                assert(is_request_with(
                    Err::<Option<Request>, ConnectorError>(error),
                    method,
                    url@,
                    pairs_view(headers@),
                    body,
                ));
                return Err(error);
            },
        };
        let request = self.compose(Method::Get, url, headers, payload);
        assert(is_request_with(
            Ok::<Option<Request>, ConnectorError>(Some(request)),
            method,
            url@,
            pairs_view(headers@),
            body,
        ));
        Ok(Some(request))
    }

    fn handle_response(&self, data: RouterData<RSync, RefundsData, RefundsResponseData>, res: Response) -> (r: Result<RouterData<RSync, RefundsData, RefundsResponseData>, ConnectorError>) {
        self.project_refund(data, res)
    }

    fn get_error_response(&self, _req: &RouterData<RSync, RefundsData, RefundsResponseData>, res: Bytes) -> (r: Result<
        ErrorResponse,
        ConnectorError,
    >) {
        self.read_error_response(&res)
    }
}

} // verus!
