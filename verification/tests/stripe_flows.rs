use bytes::Bytes;
use router::connector::stripe::Stripe;
use router::errors::{ApiErrorResponse, ConnectorError};
use router::payments::{CallConnectorAction, PaymentAddress};
use router::services::{
    conclude_accepted, conclude_connector_processing_step, conclude_refused, connector_refusal,
    execute_connector_processing_step, is_success_status, plan_connector_call, ConnectorCommon,
    ConnectorIntegration, ConnectorRedirectResponse, FlowKind, Method, ProcessingStep, Request,
    RequestBuilder,
};
use router::types::api::{Authorize, CCard, Capture, Execute, Flow, PSync, PaymentMethod, RSync, Verify, Void};
use router::types::storage::enums::{
    AttemptStatus, AuthenticationType, CaptureMethod, Currency, IntentStatus, PaymentMethodType,
    RefundStatus,
};
use router::types::{
    Connector, ConnectorAuthType, ConnectorParams, Connectors, ErrorResponse, PaymentsAuthorizeData,
    PaymentsAuthorizeRouterData, PaymentsCancelData, PaymentsCancelRouterData,
    PaymentsCaptureData, PaymentsCaptureRouterData, PaymentsResponseData, PaymentsSyncData,
    PaymentsSyncRouterData, RefundExecuteRouterData, RefundSyncRouterData, RefundsData,
    RefundsResponseData, Response, ResponseId, RouterData, VerifyRequestData, VerifyRouterData,
};
use std::marker::PhantomData;

fn flow_connectors() -> Connectors {
    let params = |url: &str| ConnectorParams { base_url: url.to_string() };
    Connectors {
        aci: params("https://aci.example/"),
        adyen: params("https://adyen.example/"),
        authorizedotnet: params("https://authorizedotnet.example/"),
        checkout: params("https://checkout.example/"),
        stripe: params("https://api.stripe.com/"),
        worldpay: params("https://worldpay.example/"),
    }
}

fn flow_card() -> PaymentMethod {
    PaymentMethod::Card(CCard {
        card_number: "4242424242424242".to_string(),
        card_exp_month: "10".to_string(),
        card_exp_year: "35".to_string(),
        card_holder_name: "John Doe".to_string(),
        card_cvc: "123".to_string(),
    })
}

fn flow_envelope<F, Req, Resp>(request: Req) -> RouterData<F, Req, Resp> {
    RouterData {
        flow: PhantomData,
        merchant_id: "M1".to_string(),
        connector: "stripe".to_string(),
        payment_id: "pay_1".to_string(),
        status: AttemptStatus::Started,
        payment_method: PaymentMethodType::Card,
        connector_auth_type: ConnectorAuthType::HeaderKey { api_key: "sk_test_123".to_string() },
        description: Some("This is a test".to_string()),
        return_url: None,
        orca_return_url: None,
        address: PaymentAddress { shipping: None, billing: None },
        auth_type: AuthenticationType::NoThreeDs,
        request,
        response: Err(ErrorResponse {
            code: "NO_ERROR_CODE".to_string(),
            message: "NO_ERROR_MESSAGE".to_string(),
            reason: None,
        }),
        payment_method_id: None,
    }
}

fn authorize_envelope() -> PaymentsAuthorizeRouterData {
    flow_envelope(PaymentsAuthorizeData {
        payment_method_data: flow_card(),
        amount: 1000,
        currency: Currency::USD,
        confirm: true,
        statement_descriptor_suffix: None,
        capture_method: Some(CaptureMethod::Manual),
        setup_future_usage: None,
        mandate_id: None,
        off_session: None,
    })
}

fn capture_envelope(id: &str, amount_to_capture: Option<i64>) -> PaymentsCaptureRouterData {
    flow_envelope(PaymentsCaptureData {
        amount_to_capture,
        connector_transaction_id: id.to_string(),
    })
}

fn refund_data(refund_amount: i64) -> RefundsData {
    RefundsData {
        refund_id: "ref_1".to_string(),
        payment_method_data: flow_card(),
        connector_transaction_id: "pi_abc".to_string(),
        currency: Currency::USD,
        amount: 100,
        refund_amount,
    }
}

fn flow_headers(api_key: &str) -> Vec<(String, String)> {
    vec![
        ("Content-Type".to_string(), "application/x-www-form-urlencoded".to_string()),
        ("X-Router".to_string(), "test".to_string()),
        ("Authorization".to_string(), format!("Bearer {}", api_key)),
    ]
}

fn flow_response(status_code: u16, body: &str) -> Response {
    Response { response: Bytes::from(body.as_bytes().to_vec()), status_code }
}

const CARD_FIELDS: &str = "payment_method_data%5Btype%5D=card&payment_method_data%5Bcard%5D%5Bnumber%5D=4242424242424242&payment_method_data%5Bcard%5D%5Bexp_month%5D=10&payment_method_data%5Bcard%5D%5Bexp_year%5D=35&payment_method_data%5Bcard%5D%5Bcvc%5D=123";

#[test]
fn the_registry_knows_its_adapters_by_id() {
    let connectors = flow_connectors();
    for connector in [
        Connector::Aci,
        Connector::Adyen,
        Connector::Authorizedotnet,
        Connector::Checkout,
        Connector::Stripe,
        Connector::Worldpay,
    ] {
        assert_eq!(Connector::from_id(connector.id()), Some(connector));
        assert_eq!(
            connectors.get(connector).base_url,
            format!("https://{}.example/", connector.id()).replace("stripe.example", "api.stripe.com")
        );
    }
    assert_eq!(Connector::Stripe.id(), "stripe");
    assert_eq!(Connector::from_id("authorizedotnet"), Some(Connector::Authorizedotnet));
    assert_eq!(Connector::from_id("Stripe"), None);
    assert_eq!(Connector::from_id("braintree"), None);
    assert_eq!(Connector::from_id(""), None);
    assert_eq!(connectors.get(Connector::Stripe), &connectors.stripe);
}

#[test]
fn the_adapter_identifies_itself() {
    let stripe = Stripe;
    assert_eq!(stripe.id(), "stripe");
    assert_eq!(stripe.common_get_content_type(), "application/x-www-form-urlencoded");
    assert_eq!(stripe.base_url(&flow_connectors()), "https://api.stripe.com/");
    assert_eq!(
        stripe.get_content_type(&capture_envelope("pi_abc", None)),
        "application/x-www-form-urlencoded"
    );
    assert_eq!(stripe.get_content_type(&authorize_envelope()), "application/x-www-form-urlencoded");
}

#[test]
fn the_auth_header_carries_the_key_as_a_bearer_token() {
    let stripe = Stripe;
    let key = ConnectorAuthType::HeaderKey { api_key: "sk_test_123".to_string() };
    let expected = vec![("Authorization".to_string(), "Bearer sk_test_123".to_string())];
    assert_eq!(stripe.get_auth_header(&key), Ok(expected.clone()));
    assert_eq!(stripe.get_auth_header(&key), Ok(expected));
    assert_eq!(
        stripe.get_auth_header(&ConnectorAuthType::HeaderKey { api_key: String::new() }),
        Ok(vec![("Authorization".to_string(), "Bearer ".to_string())])
    );
    assert_eq!(
        stripe.get_auth_header(&ConnectorAuthType::BodyKey {
            api_key: "sk_test_123".to_string(),
            key1: "k".to_string()
        }),
        Err(ConnectorError::FailedToObtainAuthType)
    );
}

#[test]
fn every_flow_sends_the_same_headers() {
    let stripe = Stripe;
    let expected = Ok(flow_headers("sk_test_123"));
    assert_eq!(stripe.get_headers(&authorize_envelope()), expected);
    assert_eq!(stripe.get_headers(&capture_envelope("pi_abc", None)), expected);
    let sync: PaymentsSyncRouterData = flow_envelope(PaymentsSyncData {
        connector_transaction_id: "pi_abc".to_string(),
        encoded_data: None,
    });
    assert_eq!(stripe.get_headers(&sync), expected);
    let refund: RefundExecuteRouterData = flow_envelope(refund_data(10));
    assert_eq!(stripe.get_headers(&refund), expected);
    assert_eq!(stripe.standard_headers(&refund.connector_auth_type), expected);

    let mut unauthenticated = capture_envelope("pi_abc", None);
    unauthenticated.connector_auth_type =
        ConnectorAuthType::BodyKey { api_key: String::new(), key1: String::new() };
    assert_eq!(
        stripe.get_headers(&unauthenticated),
        Err(ConnectorError::FailedToObtainAuthType)
    );
}

#[test]
fn each_flow_has_its_endpoint() {
    let stripe = Stripe;
    let connectors = flow_connectors();
    assert_eq!(
        stripe.get_url(&authorize_envelope(), &connectors),
        Ok("https://api.stripe.com/v1/payment_intents".to_string())
    );
    assert_eq!(
        stripe.get_url(&capture_envelope("pi_abc", None), &connectors),
        Ok("https://api.stripe.com/v1/payment_intents/pi_abc/capture".to_string())
    );
    let sync: PaymentsSyncRouterData = flow_envelope(PaymentsSyncData {
        connector_transaction_id: "pi_abc".to_string(),
        encoded_data: None,
    });
    assert_eq!(
        stripe.get_url(&sync, &connectors),
        Ok("https://api.stripe.com/v1/payment_intents/pi_abc".to_string())
    );
    let void: PaymentsCancelRouterData = flow_envelope(PaymentsCancelData {
        connector_transaction_id: "pi_abc".to_string(),
        cancellation_reason: None,
    });
    assert_eq!(
        stripe.get_url(&void, &connectors),
        Ok("https://api.stripe.com/v1/payment_intents/pi_abc/cancel".to_string())
    );
    let verify: VerifyRouterData = flow_envelope(VerifyRequestData {
        payment_method_data: flow_card(),
        confirm: true,
        statement_descriptor_suffix: None,
        mandate_id: None,
        setup_future_usage: None,
        off_session: None,
    });
    assert_eq!(
        stripe.get_url(&verify, &connectors),
        Ok("https://api.stripe.com/v1/setup_intents".to_string())
    );
    let refund: RefundExecuteRouterData = flow_envelope(refund_data(10));
    assert_eq!(
        stripe.get_url(&refund, &connectors),
        Ok("https://api.stripe.com/v1/refunds".to_string())
    );
    let mut refund_sync: RefundSyncRouterData = flow_envelope(refund_data(10));
    assert_eq!(
        stripe.get_url(&refund_sync, &connectors),
        Err(ConnectorError::FailedToObtainIntegrationUrl)
    );
    refund_sync.response = Ok(RefundsResponseData {
        connector_refund_id: "re_1".to_string(),
        refund_status: RefundStatus::Pending,
    });
    assert_eq!(
        stripe.get_url(&refund_sync, &connectors),
        Ok("https://api.stripe.com/v1/refunds/re_1".to_string())
    );
}

#[test]
fn a_flow_on_a_resource_needs_the_id_of_the_acquirer() {
    let stripe = Stripe;
    let connectors = flow_connectors();
    let missing = Err(ConnectorError::FailedToObtainIntegrationUrl);
    assert_eq!(stripe.get_url(&capture_envelope("", Some(10)), &connectors), missing);
    let sync: PaymentsSyncRouterData = flow_envelope(PaymentsSyncData {
        connector_transaction_id: String::new(),
        encoded_data: None,
    });
    assert_eq!(stripe.get_url(&sync, &connectors), missing);
    let void: PaymentsCancelRouterData = flow_envelope(PaymentsCancelData {
        connector_transaction_id: String::new(),
        cancellation_reason: None,
    });
    assert_eq!(stripe.get_url(&void, &connectors), missing);
    assert_eq!(stripe.build_request(&capture_envelope("", Some(10)), &connectors), missing.map(|_: String| None));
    let mut refund_sync: RefundSyncRouterData = flow_envelope(refund_data(10));
    refund_sync.response = Ok(RefundsResponseData {
        connector_refund_id: String::new(),
        refund_status: RefundStatus::Pending,
    });
    assert_eq!(
        stripe.get_url(&refund_sync, &connectors),
        Err(ConnectorError::FailedToObtainIntegrationUrl)
    );
}

#[test]
fn request_bodies_are_form_encoded() {
    let stripe = Stripe;
    assert_eq!(
        stripe.get_request_body(&capture_envelope("pi_abc", Some(1000))),
        Ok(Some("amount_to_capture=1000".to_string()))
    );
    assert_eq!(
        stripe.get_request_body(&capture_envelope("pi_abc", None)),
        Ok(Some(String::new()))
    );
    assert_eq!(
        stripe.get_request_body(&authorize_envelope()),
        Ok(Some(format!(
            "amount=1000&currency=USD&confirm=true&capture_method=manual&description=This+is+a+test&{}",
            CARD_FIELDS
        )))
    );
    let refund: RefundExecuteRouterData = flow_envelope(refund_data(696969));
    assert_eq!(
        stripe.get_request_body(&refund),
        Ok(Some("amount=696969&payment_intent=pi_abc".to_string()))
    );
    let void: PaymentsCancelRouterData = flow_envelope(PaymentsCancelData {
        connector_transaction_id: "pi_abc".to_string(),
        cancellation_reason: Some("requested_by_customer".to_string()),
    });
    assert_eq!(
        stripe.get_request_body(&void),
        Ok(Some("cancellation_reason=requested_by_customer".to_string()))
    );
    let verify: VerifyRouterData = flow_envelope(VerifyRequestData {
        payment_method_data: flow_card(),
        confirm: false,
        statement_descriptor_suffix: None,
        mandate_id: None,
        setup_future_usage: None,
        off_session: None,
    });
    assert_eq!(
        stripe.get_request_body(&verify),
        Ok(Some(format!("confirm=false&{}", CARD_FIELDS)))
    );
    let sync: PaymentsSyncRouterData = flow_envelope(PaymentsSyncData {
        connector_transaction_id: "pi_abc".to_string(),
        encoded_data: None,
    });
    assert_eq!(stripe.get_request_body(&sync), Ok(None));
    let refund_sync: RefundSyncRouterData = flow_envelope(refund_data(10));
    assert_eq!(stripe.get_request_body(&refund_sync), Ok(None));
}

#[test]
fn a_payment_method_that_is_no_card_is_not_encoded() {
    let stripe = Stripe;
    let mut wallet = authorize_envelope();
    wallet.request.payment_method_data = PaymentMethod::Wallet;
    assert_eq!(stripe.get_request_body(&wallet), Err(ConnectorError::RequestEncodingFailed));
    assert_eq!(
        stripe.build_request(&wallet, &flow_connectors()),
        Err(ConnectorError::RequestEncodingFailed)
    );
}

#[test]
fn build_request_composes_method_url_headers_and_body() {
    let stripe = Stripe;
    let connectors = flow_connectors();
    assert_eq!(
        stripe.build_request(&capture_envelope("pi_abc", Some(1000)), &connectors),
        Ok(Some(Request {
            url: "https://api.stripe.com/v1/payment_intents/pi_abc/capture".to_string(),
            headers: flow_headers("sk_test_123"),
            payload: Some("amount_to_capture=1000".to_string()),
            method: Method::Post,
        }))
    );
    let sync: PaymentsSyncRouterData = flow_envelope(PaymentsSyncData {
        connector_transaction_id: "pi_abc".to_string(),
        encoded_data: None,
    });
    assert_eq!(
        stripe.build_request(&sync, &connectors),
        Ok(Some(Request {
            url: "https://api.stripe.com/v1/payment_intents/pi_abc".to_string(),
            headers: flow_headers("sk_test_123"),
            payload: None,
            method: Method::Get,
        }))
    );
    let mut refund_sync: RefundSyncRouterData = flow_envelope(refund_data(10));
    refund_sync.response = Ok(RefundsResponseData {
        connector_refund_id: "re_1".to_string(),
        refund_status: RefundStatus::Pending,
    });
    let request = stripe.build_request(&refund_sync, &connectors).unwrap().unwrap();
    assert_eq!(request.method, Method::Get);
    assert_eq!(request.url, "https://api.stripe.com/v1/refunds/re_1");
    let authorize = stripe.build_request(&authorize_envelope(), &connectors).unwrap().unwrap();
    assert_eq!(authorize.method, Method::Post);
    assert_eq!(authorize.url, "https://api.stripe.com/v1/payment_intents");
    assert_eq!(authorize.headers, flow_headers("sk_test_123"));
}

#[test]
fn the_request_builder_keeps_what_it_is_given() {
    let request = RequestBuilder::new()
        .method(Method::Put)
        .url("https://example.test/")
        .header("A", "1")
        .headers(vec![("B".to_string(), "2".to_string())])
        .header("C", "3")
        .body(Some("x=y".to_string()))
        .build();
    assert_eq!(
        request,
        Request {
            url: "https://example.test/".to_string(),
            headers: vec![
                ("A".to_string(), "1".to_string()),
                ("B".to_string(), "2".to_string()),
                ("C".to_string(), "3".to_string()),
            ],
            payload: Some("x=y".to_string()),
            method: Method::Put,
        }
    );
    let empty = RequestBuilder::new().build();
    assert_eq!(
        empty,
        Request { url: String::new(), headers: Vec::new(), payload: None, method: Method::Get }
    );
}

#[test]
fn authorize_then_capture_projects_the_statuses() {
    let stripe = Stripe;
    let authorized = stripe
        .handle_response(
            authorize_envelope(),
            flow_response(200, "{\"id\":\"pi_abc\",\"object\":\"payment_intent\",\"amount\":1000,\"status\":\"requires_capture\"}"),
        )
        .unwrap();
    assert_eq!(authorized.status, AttemptStatus::Authorized);
    assert_eq!(
        IntentStatus::from_attempt_status(authorized.status),
        IntentStatus::RequiresCapture
    );
    let response = authorized.response.unwrap();
    assert_eq!(
        response,
        PaymentsResponseData {
            resource_id: ResponseId::ConnectorTransactionId("pi_abc".to_string()),
            redirect: false,
        }
    );
    let id = response.resource_id.get_connector_transaction_id().unwrap();
    assert_eq!(authorized.merchant_id, "M1");
    assert_eq!(authorized.request, authorize_envelope().request);

    let captured = stripe
        .handle_response(
            capture_envelope(&id, Some(1000)),
            flow_response(200, "{\"id\":\"pi_abc\",\"status\":\"succeeded\",\"next_action\":null}"),
        )
        .unwrap();
    assert_eq!(captured.status, AttemptStatus::Charged);
    assert_eq!(IntentStatus::from_attempt_status(captured.status), IntentStatus::Succeeded);
    assert_eq!(
        captured.response,
        Ok(PaymentsResponseData {
            resource_id: ResponseId::ConnectorTransactionId("pi_abc".to_string()),
            redirect: false,
        })
    );
    assert_eq!(ResponseId::EncodedData("x".to_string()).get_connector_transaction_id(), None);
}

#[test]
fn every_status_of_stripe_has_its_attempt_status() {
    let stripe = Stripe;
    let project = |status: &str| {
        stripe
            .handle_response(
                capture_envelope("pi_abc", None),
                flow_response(200, &format!("{{\"id\":\"pi_abc\",\"status\":\"{}\"}}", status)),
            )
            .map(|envelope| envelope.status)
    };
    assert_eq!(project("succeeded"), Ok(AttemptStatus::Charged));
    assert_eq!(project("failed"), Ok(AttemptStatus::Failure));
    assert_eq!(project("processing"), Ok(AttemptStatus::Pending));
    assert_eq!(project("requires_action"), Ok(AttemptStatus::AuthenticationPending));
    assert_eq!(project("requires_payment_method"), Ok(AttemptStatus::Failure));
    assert_eq!(project("requires_confirmation"), Ok(AttemptStatus::Started));
    assert_eq!(project("canceled"), Ok(AttemptStatus::Voided));
    assert_eq!(project("requires_capture"), Ok(AttemptStatus::Authorized));
    assert_eq!(project("unheard_of"), Err(ConnectorError::ResponseDeserializationFailed));
}

#[test]
fn no_answer_moves_a_terminal_status() {
    let stripe = Stripe;
    let project = |held: AttemptStatus, status: &str| {
        let mut envelope = capture_envelope("pi_abc", None);
        envelope.status = held;
        stripe
            .handle_response(
                envelope,
                flow_response(200, &format!("{{\"id\":\"pi_abc\",\"status\":\"{}\"}}", status)),
            )
            .map(|envelope| envelope.status)
    };
    let all = [
        "succeeded",
        "failed",
        "processing",
        "requires_action",
        "requires_payment_method",
        "requires_confirmation",
        "canceled",
        "requires_capture",
    ];
    for held in [AttemptStatus::Charged, AttemptStatus::Voided, AttemptStatus::Failure] {
        for status in all {
            assert_eq!(project(held, status), Ok(held));
        }
    }
    assert_eq!(project(AttemptStatus::Charged, "requires_capture"), Ok(AttemptStatus::Charged));
    assert_eq!(project(AttemptStatus::Authorized, "processing"), Ok(AttemptStatus::Authorized));
    assert_eq!(project(AttemptStatus::Authorized, "succeeded"), Ok(AttemptStatus::Charged));
    assert_eq!(project(AttemptStatus::Authorized, "canceled"), Ok(AttemptStatus::Voided));
    assert_eq!(project(AttemptStatus::Pending, "requires_capture"), Ok(AttemptStatus::Authorized));
    assert_eq!(
        project(AttemptStatus::AuthenticationPending, "requires_confirmation"),
        Ok(AttemptStatus::AuthenticationPending)
    );
    let kept = stripe
        .handle_response(
            {
                let mut envelope = capture_envelope("pi_abc", None);
                envelope.status = AttemptStatus::Charged;
                envelope
            },
            flow_response(200, "{\"id\":\"pi_new\",\"status\":\"requires_capture\"}"),
        )
        .unwrap();
    assert_eq!(kept.status, AttemptStatus::Charged);
    assert_eq!(
        kept.response.unwrap().resource_id,
        ResponseId::ConnectorTransactionId("pi_new".to_string())
    );
}

#[test]
fn an_answer_that_is_not_understood_is_not_projected() {
    let stripe = Stripe;
    let failed = Err(ConnectorError::ResponseDeserializationFailed);
    let project = |body: &str| {
        stripe
            .handle_response(capture_envelope("pi_abc", None), flow_response(200, body))
            .map(|envelope| envelope.status)
    };
    assert_eq!(project("not json"), failed);
    assert_eq!(project("{\"status\":\"succeeded\"}"), failed);
    assert_eq!(project("{\"id\":\"pi_abc\"}"), failed);
    assert_eq!(project("{\"id\":7,\"status\":\"succeeded\"}"), failed);
    assert_eq!(project("{\"id\":\"pi_abc\",\"status\":null}"), failed);
    assert_eq!(project("[]"), failed);
    let redirected = stripe
        .handle_response(
            authorize_envelope(),
            flow_response(
                200,
                "{\"id\":\"pi_abc\",\"status\":\"requires_action\",\"next_action\":{\"type\":\"redirect_to_url\"}}",
            ),
        )
        .unwrap();
    assert_eq!(redirected.response.unwrap().redirect, true);
}

#[test]
fn refund_answers_are_projected() {
    let stripe = Stripe;
    let executed = stripe
        .handle_response(
            flow_envelope::<Execute, _, _>(refund_data(10)),
            flow_response(200, "{\"id\":\"re_1\",\"status\":\"succeeded\",\"amount\":10}"),
        )
        .unwrap();
    assert_eq!(
        executed.response,
        Ok(RefundsResponseData {
            connector_refund_id: "re_1".to_string(),
            refund_status: RefundStatus::Success,
        })
    );
    assert_eq!(executed.status, AttemptStatus::Started);
    let project = |status: &str| {
        stripe
            .handle_response(
                flow_envelope::<RSync, _, _>(refund_data(10)),
                flow_response(200, &format!("{{\"id\":\"re_1\",\"status\":\"{}\"}}", status)),
            )
            .map(|envelope| envelope.response.unwrap().refund_status)
    };
    assert_eq!(project("succeeded"), Ok(RefundStatus::Success));
    assert_eq!(project("failed"), Ok(RefundStatus::Failure));
    assert_eq!(project("pending"), Ok(RefundStatus::Pending));
    assert_eq!(project("requires_action"), Ok(RefundStatus::ManualReview));
    assert_eq!(project("canceled"), Err(ConnectorError::ResponseDeserializationFailed));
}

#[test]
fn error_responses_default_to_the_sentinels() {
    let stripe = Stripe;
    let envelope = capture_envelope("pi_abc", None);
    let read = |body: &str| {
        stripe.get_error_response(&envelope, Bytes::from(body.as_bytes().to_vec()))
    };
    assert_eq!(
        read("{\"error\":{\"code\":\"card_declined\",\"message\":\"Your card was declined.\",\"type\":\"card_error\"}}"),
        Ok(ErrorResponse {
            code: "card_declined".to_string(),
            message: "Your card was declined.".to_string(),
            reason: None,
        })
    );
    assert_eq!(
        read("{\"error\":{}}"),
        Ok(ErrorResponse {
            code: "NO_ERROR_CODE".to_string(),
            message: "NO_ERROR_MESSAGE".to_string(),
            reason: None,
        })
    );
    assert_eq!(
        read("{\"error\":{\"code\":null,\"message\":\"m\"}}"),
        Ok(ErrorResponse {
            code: "NO_ERROR_CODE".to_string(),
            message: "m".to_string(),
            reason: None,
        })
    );
    assert_eq!(router::consts::NO_ERROR_CODE, "NO_ERROR_CODE");
    assert_eq!(router::consts::NO_ERROR_MESSAGE, "NO_ERROR_MESSAGE");
    let failed = Err(ConnectorError::ResponseDeserializationFailed);
    assert_eq!(read("{}"), failed);
    assert_eq!(read("{\"error\":\"declined\"}"), failed);
    assert_eq!(read("{\"error\":{\"code\":5}}"), failed);
    assert_eq!(read("{\"error\":{\"message\":[]}}"), failed);
    assert_eq!(read("<html>"), failed);
    assert_eq!(
        stripe.read_error_response(&Bytes::from_static(b"{\"error\":{\"code\":\"c\"}}")),
        Ok(ErrorResponse {
            code: "c".to_string(),
            message: "NO_ERROR_MESSAGE".to_string(),
            reason: None,
        })
    );
}

#[test]
fn a_redirect_return_decides_how_the_pipeline_goes_on() {
    let stripe = Stripe;
    assert_eq!(
        stripe.get_flow_type("payment_intent=pi_abc&redirect_status=succeeded"),
        Ok(CallConnectorAction::StatusUpdate(AttemptStatus::Pending))
    );
    assert_eq!(stripe.get_flow_type("payment_intent=pi_abc"), Ok(CallConnectorAction::Trigger));
    assert_eq!(stripe.get_flow_type(""), Ok(CallConnectorAction::Trigger));
    assert_eq!(
        stripe.get_flow_type("redirect_status="),
        Ok(CallConnectorAction::StatusUpdate(AttemptStatus::Pending))
    );
    assert_eq!(
        stripe.get_flow_type("redirect%5Fstatus=failed"),
        Ok(CallConnectorAction::StatusUpdate(AttemptStatus::Pending))
    );
    assert_eq!(
        stripe.flow_type_of_query(&vec![("redirect_status".to_string(), "x".to_string())]),
        CallConnectorAction::StatusUpdate(AttemptStatus::Pending)
    );
    assert_eq!(
        stripe.flow_type_of_query(&vec![("Redirect_Status".to_string(), "x".to_string())]),
        CallConnectorAction::Trigger
    );
}

#[test]
fn the_engine_plans_the_call_by_the_action() {
    let stripe = Stripe;
    let connectors = flow_connectors();
    let avoided = execute_connector_processing_step(
        &stripe,
        capture_envelope("pi_abc", Some(1000)),
        &connectors,
        CallConnectorAction::Avoid,
    )
    .unwrap();
    assert!(matches!(avoided, ProcessingStep::Done(ref envelope)
        if envelope.status == AttemptStatus::Started && envelope.response.is_err()));
    let updated = execute_connector_processing_step(
        &stripe,
        capture_envelope("pi_abc", Some(1000)),
        &connectors,
        CallConnectorAction::StatusUpdate(AttemptStatus::Pending),
    )
    .unwrap();
    assert!(matches!(updated, ProcessingStep::Done(ref envelope)
        if envelope.status == AttemptStatus::Pending
            && envelope.request == capture_envelope("pi_abc", Some(1000)).request));
    let triggered = execute_connector_processing_step(
        &stripe,
        capture_envelope("pi_abc", Some(1000)),
        &connectors,
        CallConnectorAction::Trigger,
    )
    .unwrap();
    match triggered {
        ProcessingStep::Send { request, envelope } => {
            assert_eq!(request.url, "https://api.stripe.com/v1/payment_intents/pi_abc/capture");
            assert_eq!(request.payload, Some("amount_to_capture=1000".to_string()));
            assert_eq!(envelope.status, AttemptStatus::Started);
        }
        ProcessingStep::Done(_) => panic!("the request was not sent"),
    }
    let skipped = plan_connector_call(
        CallConnectorAction::Trigger,
        capture_envelope("pi_abc", None),
        Ok(None),
    )
    .unwrap();
    assert!(matches!(skipped, ProcessingStep::Done(_)));
    let failed = plan_connector_call(
        CallConnectorAction::Trigger,
        capture_envelope("pi_abc", None),
        Err(ConnectorError::RequestEncodingFailed),
    );
    assert_eq!(failed.err(), Some(ApiErrorResponse::InternalServerError));
}

#[test]
fn empty_auth_ends_in_an_error_before_any_call() {
    let stripe = Stripe;
    let mut envelope = authorize_envelope();
    envelope.connector_auth_type =
        ConnectorAuthType::BodyKey { api_key: "".to_string(), key1: "".to_string() };
    let result = execute_connector_processing_step(
        &stripe,
        envelope,
        &flow_connectors(),
        CallConnectorAction::Trigger,
    );
    assert!(result.is_err(), "The payment passed");
    assert_eq!(result.err(), Some(ApiErrorResponse::InternalServerError));
}

#[test]
fn every_flow_tag_names_its_flow() {
    assert_eq!(Authorize::kind(), FlowKind::Authorize);
    assert_eq!(Capture::kind(), FlowKind::Capture);
    assert_eq!(PSync::kind(), FlowKind::PSync);
    assert_eq!(Void::kind(), FlowKind::Void);
    assert_eq!(Verify::kind(), FlowKind::Verify);
    assert_eq!(Execute::kind(), FlowKind::RefundExecute);
    assert_eq!(RSync::kind(), FlowKind::RefundSync);
}

#[test]
fn the_engine_takes_an_accepted_answer_in() {
    let stripe = Stripe;
    let concluded = conclude_connector_processing_step(
        &stripe,
        capture_envelope("pi_abc", Some(1000)),
        Ok(flow_response(200, "{\"id\":\"pi_abc\",\"status\":\"succeeded\"}")),
    )
    .unwrap();
    assert_eq!(concluded.status, AttemptStatus::Charged);
    let unreadable = conclude_connector_processing_step(
        &stripe,
        capture_envelope("pi_abc", Some(1000)),
        Ok(flow_response(299, "garbage")),
    );
    assert_eq!(unreadable.err(), Some(ApiErrorResponse::InternalServerError));
    assert!(is_success_status(200));
    assert!(is_success_status(299));
    assert!(!is_success_status(199));
    assert!(!is_success_status(300));
    assert!(!is_success_status(404));
    assert_eq!(
        conclude_accepted(Ok(capture_envelope("pi_abc", None))).map(|envelope| envelope.status),
        Ok(AttemptStatus::Started)
    );
    assert_eq!(
        conclude_accepted::<Capture, PaymentsCaptureData, PaymentsResponseData>(
            Err(ConnectorError::ResponseHandlingFailed)
        )
        .err(),
        Some(ApiErrorResponse::InternalServerError)
    );
}

#[test]
fn the_engine_surfaces_a_refusal_as_the_error_of_the_flow() {
    let stripe = Stripe;
    let refused = conclude_connector_processing_step(
        &stripe,
        flow_envelope::<Execute, _, _>(refund_data(696969)),
        Ok(flow_response(
            400,
            "{\"error\":{\"code\":\"refund_amount_exceeds_balance\",\"message\":\"Refund amount exceeds balance\"}}",
        )),
    );
    assert_eq!(
        refused.err(),
        Some(ApiErrorResponse::RefundFailed {
            code: "refund_amount_exceeds_balance".to_string(),
            message: "Refund amount exceeds balance".to_string(),
        })
    );
    let declined = conclude_connector_processing_step(
        &stripe,
        authorize_envelope(),
        Ok(flow_response(402, "{\"error\":{\"message\":\"declined\"}}")),
    );
    assert_eq!(
        declined.err(),
        Some(ApiErrorResponse::PaymentAuthorizationFailed {
            code: "NO_ERROR_CODE".to_string(),
            message: "declined".to_string(),
        })
    );
    let unreadable = conclude_connector_processing_step(
        &stripe,
        capture_envelope("pi_abc", None),
        Ok(flow_response(500, "oops")),
    );
    assert_eq!(unreadable.err(), Some(ApiErrorResponse::InternalServerError));
    let error = || ErrorResponse {
        code: "c".to_string(),
        message: "m".to_string(),
        reason: None,
    };
    let failure = |code: &str, message: &str| (code.to_string(), message.to_string());
    let (code, message) = failure("c", "m");
    assert_eq!(
        connector_refusal(FlowKind::Capture, error()),
        ApiErrorResponse::PaymentCaptureFailed { code: code.clone(), message: message.clone() }
    );
    assert_eq!(
        connector_refusal(FlowKind::RefundSync, error()),
        ApiErrorResponse::RefundFailed { code: code.clone(), message: message.clone() }
    );
    for flow in [FlowKind::Authorize, FlowKind::PSync, FlowKind::Void, FlowKind::Verify] {
        assert_eq!(
            connector_refusal(flow, error()),
            ApiErrorResponse::PaymentAuthorizationFailed {
                code: code.clone(),
                message: message.clone()
            }
        );
    }
    assert_eq!(
        conclude_refused(FlowKind::Capture, Err(ConnectorError::ResponseDeserializationFailed)),
        ApiErrorResponse::InternalServerError
    );
}

#[test]
fn a_call_that_the_transport_could_not_complete_is_an_internal_error() {
    let stripe = Stripe;
    for failure in [ConnectorError::RequestTimeoutReceived, ConnectorError::ResponseHandlingFailed]
    {
        let concluded = conclude_connector_processing_step(
            &stripe,
            flow_envelope::<PSync, PaymentsSyncData, PaymentsResponseData>(
                PaymentsSyncData {
                    connector_transaction_id: "pi_abc".to_string(),
                    encoded_data: None,
                },
            ),
            Err(failure),
        );
        assert_eq!(concluded.err(), Some(ApiErrorResponse::InternalServerError));
    }
}
