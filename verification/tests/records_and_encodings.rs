use router::connector::stripe::transformers::{
    attempt_status, currency_name, get_field, parse_currency, push_field, push_optional_field,
    refund_status, CancelRequest, CaptureRequest, PaymentIntentRequest, RefundRequest,
    SetupIntentRequest, StripeAuthType, StripeCaptureMethod, StripeCard,
};
use router::errors::{ConnectorError, DatabaseError, StorageError};
use router::types::api::{CCard, PaymentMethod};
use router::types::storage::enums::{
    AttemptStatus, CaptureMethod, Currency, MandateStatus, MandateType, RefundStatus, RefundType,
};
use router::types::storage::mandate::{Mandate, MandateUpdate, MandateUpdateInternal};
use router::types::storage::refund::{
    Refund, RefundCoreWorkflow, RefundUpdate, RefundUpdateInternal,
};
use router::types::{ConnectorAuthType, PaymentsAuthorizeData, PaymentsCaptureData, RefundsData};
use router::utils::decimal::{parse_decimal, to_decimal};
use router::utils::text::{copy_text, text_is};
use router::utils::urlencoded::{decode, encode};

fn record_refund() -> Refund {
    Refund {
        id: 7,
        internal_reference_id: "ref_internal".to_string(),
        refund_id: "ref_1".to_string(),
        payment_id: "pay_1".to_string(),
        merchant_id: "M1".to_string(),
        transaction_id: "txn_1".to_string(),
        connector: "stripe".to_string(),
        pg_refund_id: Some("re_old".to_string()),
        external_reference_id: None,
        refund_type: RefundType::InstantRefund,
        total_amount: 100,
        currency: Currency::EUR,
        refund_amount: 40,
        refund_status: RefundStatus::Pending,
        sent_to_gateway: false,
        refund_error_message: Some("earlier".to_string()),
        metadata: Some(serde_json::Value::Bool(true)),
        refund_arn: None,
        created_at: time::PrimitiveDateTime::MIN,
        updated_at: time::PrimitiveDateTime::MIN,
        description: Some("d".to_string()),
    }
}

fn record_mandate(id: i32) -> Mandate {
    Mandate {
        id,
        mandate_id: format!("man_{}", id),
        customer_id: "cus_1".to_string(),
        merchant_id: "M1".to_string(),
        payment_method_id: "pm_1".to_string(),
        mandate_status: MandateStatus::Active,
        mandate_type: MandateType::MultiUse,
        network_transaction_id: None,
        previous_transaction_id: None,
        mandate_amount: Some(5000),
        mandate_currency: Some(Currency::USD),
        amount_captured: Some(100),
        connector: "stripe".to_string(),
        connector_mandate_id: None,
        created_at: time::PrimitiveDateTime::MIN,
    }
}

fn record_card() -> StripeCard {
    StripeCard {
        number: "4242 4242 4242 4242".to_string(),
        exp_month: "10".to_string(),
        exp_year: "35".to_string(),
        cvc: "1&3".to_string(),
    }
}

fn round_trip(form: &Vec<(String, String)>) -> Vec<(String, String)> {
    decode(&encode(form)).unwrap()
}

#[test]
fn a_refund_update_becomes_a_change_set() {
    let update = RefundUpdateInternal::from(RefundUpdate::Update {
        pg_refund_id: "re_1".to_string(),
        refund_status: RefundStatus::Success,
        sent_to_gateway: true,
        refund_error_message: None,
        refund_arn: "arn".to_string(),
    });
    assert_eq!(update.pg_refund_id, Some("re_1".to_string()));
    assert_eq!(update.refund_status, Some(RefundStatus::Success));
    assert_eq!(update.sent_to_gateway, Some(true));
    assert_eq!(update.refund_error_message, None);
    assert_eq!(update.refund_arn, Some("arn".to_string()));
    assert_eq!(update.metadata, None);

    let metadata = RefundUpdateInternal::from(RefundUpdate::MetadataUpdate {
        metadata: Some(serde_json::Value::String("m".to_string())),
    });
    assert_eq!(metadata.metadata, Some(serde_json::Value::String("m".to_string())));
    assert_eq!(metadata.pg_refund_id, None);
    assert_eq!(metadata.refund_status, None);
    assert_eq!(metadata.sent_to_gateway, None);
    assert_eq!(metadata.refund_error_message, None);
    assert_eq!(metadata.refund_arn, None);

    let status = RefundUpdateInternal::from(RefundUpdate::StatusUpdate {
        pg_refund_id: None,
        sent_to_gateway: false,
        refund_status: RefundStatus::ManualReview,
    });
    assert_eq!(status.pg_refund_id, None);
    assert_eq!(status.sent_to_gateway, Some(false));
    assert_eq!(status.refund_status, Some(RefundStatus::ManualReview));
    assert_eq!(status.refund_error_message, None);
    assert_eq!(status.refund_arn, None);
    assert_eq!(status.metadata, None);

    let error = RefundUpdateInternal::from(RefundUpdate::ErrorUpdate {
        refund_status: Some(RefundStatus::Failure),
        refund_error_message: Some("declined".to_string()),
    });
    assert_eq!(error.refund_status, Some(RefundStatus::Failure));
    assert_eq!(error.refund_error_message, Some("declined".to_string()));
    assert_eq!(error.pg_refund_id, None);
    assert_eq!(error.sent_to_gateway, None);
    assert_eq!(error.refund_arn, None);
    assert_eq!(error.metadata, None);
}

#[test]
fn a_change_set_replaces_the_columns_it_names() {
    let update = RefundUpdateInternal::from(RefundUpdate::StatusUpdate {
        pg_refund_id: None,
        sent_to_gateway: true,
        refund_status: RefundStatus::Success,
    });
    let updated = update.apply(record_refund());
    let mut expected = record_refund();
    expected.sent_to_gateway = true;
    expected.refund_status = RefundStatus::Success;
    assert_eq!(updated, expected);

    let all = RefundUpdateInternal {
        pg_refund_id: Some("re_new".to_string()),
        refund_status: Some(RefundStatus::Failure),
        sent_to_gateway: Some(true),
        refund_error_message: Some("later".to_string()),
        refund_arn: Some("arn".to_string()),
        metadata: Some(serde_json::Value::Null),
    };
    let updated = all.apply(record_refund());
    assert_eq!(updated.pg_refund_id, Some("re_new".to_string()));
    assert_eq!(updated.refund_status, RefundStatus::Failure);
    assert_eq!(updated.refund_error_message, Some("later".to_string()));
    assert_eq!(updated.refund_arn, Some("arn".to_string()));
    assert_eq!(updated.metadata, Some(serde_json::Value::Null));
    assert_eq!(updated.refund_amount, 40);
    assert_eq!(updated.description, Some("d".to_string()));
}

#[test]
fn stored_records_are_cloned_field_by_field() {
    assert_eq!(record_refund().clone(), record_refund());
    assert_eq!(record_mandate(4).clone(), record_mandate(4));
    let update = RefundUpdateInternal::from(RefundUpdate::MetadataUpdate {
        metadata: Some(serde_json::Value::String("m".to_string())),
    });
    let copy = update.clone();
    assert_eq!(copy.metadata, update.metadata);
    assert_eq!(copy.refund_status, None);
    assert_eq!(
        router::types::storage::refund::copy_metadata(&Some(serde_json::Value::Bool(false))),
        Some(serde_json::Value::Bool(false))
    );
    assert_eq!(router::types::storage::refund::copy_metadata(&None), None);
}

#[test]
fn the_refund_workflow_record_compares_by_its_fields() {
    let workflow = RefundCoreWorkflow {
        refund_internal_reference_id: "ref_internal".to_string(),
        transaction_id: "txn_1".to_string(),
        merchant_id: "M1".to_string(),
        payment_id: "pay_1".to_string(),
    };
    assert_eq!(workflow.clone(), workflow);
    let mut other = workflow.clone();
    other.payment_id = "pay_2".to_string();
    assert_ne!(other, workflow);
}

#[test]
fn a_mandate_update_becomes_a_change_set() {
    assert_eq!(
        MandateUpdateInternal::from(MandateUpdate::StatusUpdate {
            mandate_status: MandateStatus::Revoked
        }),
        MandateUpdateInternal {
            mandate_status: Some(MandateStatus::Revoked),
            amount_captured: None,
            connector_mandate_id: None,
        }
    );
    assert_eq!(
        MandateUpdateInternal::from(MandateUpdate::CaptureAmountUpdate {
            amount_captured: Some(250)
        }),
        MandateUpdateInternal {
            mandate_status: None,
            amount_captured: Some(250),
            connector_mandate_id: None,
        }
    );
    assert_eq!(
        MandateUpdateInternal::from(MandateUpdate::ConnectorReferenceUpdate {
            connector_mandate_id: Some("seti_1".to_string())
        }),
        MandateUpdateInternal {
            mandate_status: None,
            amount_captured: None,
            connector_mandate_id: Some("seti_1".to_string()),
        }
    );
    let updated = MandateUpdateInternal::from(MandateUpdate::CaptureAmountUpdate {
        amount_captured: Some(250),
    })
    .apply(record_mandate(1));
    let mut expected = record_mandate(1);
    expected.amount_captured = Some(250);
    assert_eq!(updated, expected);
    let untouched = MandateUpdateInternal::from(MandateUpdate::CaptureAmountUpdate {
        amount_captured: None,
    })
    .apply(record_mandate(1));
    assert_eq!(untouched, record_mandate(1));
}

#[test]
fn a_mandate_update_returns_the_first_updated_row() {
    assert_eq!(
        Mandate::update_by_merchant_id_mandate_id(vec![record_mandate(1), record_mandate(2)]),
        Ok(record_mandate(1))
    );
    assert_eq!(
        Mandate::update_by_merchant_id_mandate_id(vec![record_mandate(3)]),
        Ok(record_mandate(3))
    );
    assert_eq!(
        Mandate::update_by_merchant_id_mandate_id(Vec::new()),
        Err(StorageError::DatabaseError(DatabaseError::NotFound))
    );
}

#[test]
fn whole_numbers_are_written_in_decimal() {
    assert_eq!(to_decimal(0), "0");
    assert_eq!(to_decimal(7), "7");
    assert_eq!(to_decimal(1000), "1000");
    assert_eq!(to_decimal(-1), "-1");
    assert_eq!(to_decimal(696969), "696969");
    assert_eq!(to_decimal(i64::MAX), "9223372036854775807");
    assert_eq!(to_decimal(i64::MIN), "-9223372036854775808");
}

#[test]
fn decimal_text_is_read_strictly() {
    assert_eq!(parse_decimal("0"), Some(0));
    assert_eq!(parse_decimal("1000"), Some(1000));
    assert_eq!(parse_decimal("-42"), Some(-42));
    assert_eq!(parse_decimal("9223372036854775807"), Some(i64::MAX));
    assert_eq!(parse_decimal("-9223372036854775808"), Some(i64::MIN));
    assert_eq!(parse_decimal("9223372036854775808"), None);
    assert_eq!(parse_decimal("-9223372036854775809"), None);
    assert_eq!(parse_decimal("99999999999999999999999999"), None);
    assert_eq!(parse_decimal(""), None);
    assert_eq!(parse_decimal("-"), None);
    assert_eq!(parse_decimal("-0"), None);
    assert_eq!(parse_decimal("007"), None);
    assert_eq!(parse_decimal("+7"), None);
    assert_eq!(parse_decimal("1 "), None);
    assert_eq!(parse_decimal("12a"), None);
    assert_eq!(parse_decimal("١٢"), None);
    for number in [0, 1, -1, 9, 10, 99, 100, -100, 123456789, i64::MAX, i64::MIN, i64::MIN + 1] {
        assert_eq!(parse_decimal(&to_decimal(number)), Some(number));
    }
}

#[test]
fn forms_are_encoded_and_decoded() {
    let form = vec![
        ("a".to_string(), "1".to_string()),
        ("b c".to_string(), "d&e=f".to_string()),
        ("k[x]".to_string(), "é".to_string()),
    ];
    assert_eq!(encode(&form), "a=1&b+c=d%26e%3Df&k%5Bx%5D=%C3%A9");
    assert_eq!(decode("a=1&b+c=d%26e%3Df&k%5Bx%5D=%C3%A9"), Some(form.clone()));
    assert_eq!(round_trip(&form), form);
    assert_eq!(encode(&Vec::new()), "");
    assert_eq!(decode(""), Some(Vec::new()));
    assert_eq!(
        decode("a=1&a=2&b"),
        Some(vec![
            ("a".to_string(), "1".to_string()),
            ("a".to_string(), "2".to_string()),
            ("b".to_string(), String::new()),
        ])
    );
}

#[test]
fn fields_are_pushed_and_found() {
    let mut form: Vec<(String, String)> = Vec::new();
    push_field(&mut form, "a", "1".to_string());
    push_optional_field(&mut form, "b", &None);
    push_optional_field(&mut form, "c", &Some("3".to_string()));
    push_field(&mut form, "a", "4".to_string());
    assert_eq!(
        form,
        vec![
            ("a".to_string(), "1".to_string()),
            ("c".to_string(), "3".to_string()),
            ("a".to_string(), "4".to_string()),
        ]
    );
    assert_eq!(get_field(&form, "a"), Some(&"1".to_string()));
    assert_eq!(get_field(&form, "c"), Some(&"3".to_string()));
    assert_eq!(get_field(&form, "b"), None);
    assert_eq!(copy_text(&Some("x".to_string())), Some("x".to_string()));
    assert_eq!(copy_text(&None), None);
    assert!(text_is(&"card".to_string(), "card"));
    assert!(!text_is(&"card".to_string(), "Card"));
}

#[test]
fn currencies_and_statuses_have_their_names() {
    for currency in [
        Currency::AUD,
        Currency::CAD,
        Currency::CHF,
        Currency::EUR,
        Currency::GBP,
        Currency::INR,
        Currency::JPY,
        Currency::SGD,
        Currency::USD,
    ] {
        assert_eq!(parse_currency(&currency_name(currency).to_string()), Some(currency));
    }
    assert_eq!(currency_name(Currency::USD), "USD");
    assert_eq!(currency_name(Currency::CHF), "CHF");
    assert_eq!(parse_currency(&"usd".to_string()), None);
    assert_eq!(attempt_status(&"requires_capture".to_string()), Some(AttemptStatus::Authorized));
    assert_eq!(attempt_status(&"Succeeded".to_string()), None);
    assert_eq!(refund_status(&"pending".to_string()), Some(RefundStatus::Pending));
    assert_eq!(refund_status(&"requires_capture".to_string()), None);
    assert_eq!(
        StripeCaptureMethod::from_capture_method(Some(CaptureMethod::Manual)),
        StripeCaptureMethod::Manual
    );
    assert_eq!(
        StripeCaptureMethod::from_capture_method(Some(CaptureMethod::ManualMultiple)),
        StripeCaptureMethod::Manual
    );
    assert_eq!(
        StripeCaptureMethod::from_capture_method(Some(CaptureMethod::Scheduled)),
        StripeCaptureMethod::Automatic
    );
    assert_eq!(StripeCaptureMethod::from_capture_method(None), StripeCaptureMethod::Automatic);
    assert_eq!(StripeCaptureMethod::Manual.name(), "manual");
    assert_eq!(StripeCaptureMethod::Automatic.name(), "automatic");
}

#[test]
fn stripe_takes_a_key_in_a_header_only() {
    assert_eq!(
        StripeAuthType::try_from(&ConnectorAuthType::HeaderKey { api_key: "sk".to_string() }),
        Ok(StripeAuthType { api_key: "sk".to_string() })
    );
    assert_eq!(
        StripeAuthType::try_from(&ConnectorAuthType::BodyKey {
            api_key: "sk".to_string(),
            key1: "k".to_string()
        }),
        Err(ConnectorError::FailedToObtainAuthType)
    );
}

#[test]
fn a_capture_request_survives_the_round_trip() {
    for amount_to_capture in [None, Some(1000), Some(1), Some(i64::MAX), Some(-3)] {
        let request = CaptureRequest::from_request(&PaymentsCaptureData {
            amount_to_capture,
            connector_transaction_id: "pi_abc".to_string(),
        });
        assert_eq!(request, CaptureRequest { amount_to_capture });
        assert_eq!(CaptureRequest::from_form(&request.to_form()), Some(request));
        assert_eq!(CaptureRequest::from_form(&round_trip(&request.to_form())), Some(request));
    }
    assert_eq!(
        CaptureRequest::from_form(&vec![("amount_to_capture".to_string(), "ten".to_string())]),
        None
    );
}

#[test]
fn a_refund_request_survives_the_round_trip() {
    let request = RefundRequest::from_request(&RefundsData {
        refund_id: "ref_1".to_string(),
        payment_method_data: PaymentMethod::Wallet,
        connector_transaction_id: "pi_a b&c".to_string(),
        currency: Currency::USD,
        amount: 100,
        refund_amount: 696969,
    });
    assert_eq!(
        request,
        RefundRequest { amount: Some(696969), payment_intent: "pi_a b&c".to_string() }
    );
    assert_eq!(
        request.to_form(),
        vec![
            ("amount".to_string(), "696969".to_string()),
            ("payment_intent".to_string(), "pi_a b&c".to_string()),
        ]
    );
    assert_eq!(RefundRequest::from_form(&round_trip(&request.to_form())), Some(request));
    let whole = RefundRequest { amount: None, payment_intent: "pi_abc".to_string() };
    assert_eq!(RefundRequest::from_form(&round_trip(&whole.to_form())), Some(whole));
    assert_eq!(RefundRequest::from_form(&vec![("amount".to_string(), "5".to_string())]), None);
    assert_eq!(
        RefundRequest::from_form(&vec![
            ("amount".to_string(), "5.0".to_string()),
            ("payment_intent".to_string(), "pi_abc".to_string()),
        ]),
        None
    );
}

#[test]
fn an_authorize_request_survives_the_round_trip() {
    let data = PaymentsAuthorizeData {
        payment_method_data: PaymentMethod::Card(CCard {
            card_number: "4242 4242 4242 4242".to_string(),
            card_exp_month: "10".to_string(),
            card_exp_year: "35".to_string(),
            card_holder_name: "John Doe".to_string(),
            card_cvc: "1&3".to_string(),
        }),
        amount: 1000,
        currency: Currency::USD,
        confirm: true,
        statement_descriptor_suffix: Some("ORCA*shop".to_string()),
        capture_method: Some(CaptureMethod::Manual),
        setup_future_usage: None,
        mandate_id: None,
        off_session: None,
    };
    let request =
        PaymentIntentRequest::from_request(&data, &Some("a=b&c d".to_string())).unwrap();
    assert_eq!(
        request,
        PaymentIntentRequest {
            amount: 1000,
            currency: Currency::USD,
            confirm: true,
            capture_method: StripeCaptureMethod::Manual,
            description: Some("a=b&c d".to_string()),
            statement_descriptor_suffix: Some("ORCA*shop".to_string()),
            card: record_card(),
        }
    );
    assert_eq!(PaymentIntentRequest::from_form(&request.to_form()), Some(request.clone()));
    assert_eq!(
        PaymentIntentRequest::from_form(&round_trip(&request.to_form())),
        Some(request.clone())
    );
    let bare = PaymentIntentRequest {
        amount: -5,
        currency: Currency::JPY,
        confirm: false,
        capture_method: StripeCaptureMethod::Automatic,
        description: None,
        statement_descriptor_suffix: None,
        card: record_card(),
    };
    assert_eq!(PaymentIntentRequest::from_form(&round_trip(&bare.to_form())), Some(bare));

    let mut form = request.to_form();
    form.retain(|(name, _)| name != "currency");
    assert_eq!(PaymentIntentRequest::from_form(&form), None);
    let mut form = request.to_form();
    form.retain(|(name, _)| name != "payment_method_data[card][cvc]");
    assert_eq!(PaymentIntentRequest::from_form(&form), None);
    let mut form = request.to_form();
    form[2].1 = "yes".to_string();
    assert_eq!(PaymentIntentRequest::from_form(&form), None);
    assert_eq!(StripeCard::from_form(&request.to_form()), Some(record_card()));
}

#[test]
fn other_request_bodies_are_written_as_forms() {
    assert_eq!(
        (CancelRequest { cancellation_reason: Some("duplicate".to_string()) }).to_form(),
        vec![("cancellation_reason".to_string(), "duplicate".to_string())]
    );
    assert_eq!((CancelRequest { cancellation_reason: None }).to_form(), Vec::new());
    let setup = SetupIntentRequest { confirm: true, card: record_card() };
    let form = setup.to_form();
    assert_eq!(form.len(), 6);
    assert_eq!(form[0], ("confirm".to_string(), "true".to_string()));
    assert_eq!(form[1], ("payment_method_data[type]".to_string(), "card".to_string()));
    assert_eq!(
        form[5],
        ("payment_method_data[card][cvc]".to_string(), "1&3".to_string())
    );
    assert_eq!(StripeCard::from_payment_method(&PaymentMethod::Paypal), None);
}
