use abacatepay_rust_sdk::resolver::classify;
use abacatepay_rust_sdk::{
    AbacatePay, AbacatePayError, BillingBuilder, BillingKind, BillingMethods, BillingStatus,
    CheckPixStatusBuilder, CreateBillingResponse, Exchange, PixChargeBuilder, PixChargeResponse,
    PixStatus, SimulatePixPaymentBuilder, Timestamp,
};

const MISMATCH: &str = "the response does not have the expected shape";

const BILLING: &str = r#"{
    "metadata": {"fee": 100, "returnUrl": "http://x/ret", "completionUrl": "http://x/comp"},
    "pId": "66f1", "publicId": "bill_123",
    "products": [{"productId": "prod_1", "quantity": 1}],
    "amount": 1000, "status": "PENDING", "devMode": true,
    "methods": ["Pix"], "frequency": "OneTime",
    "createdAt": "2024-11-04T18:38:28.573Z", "updateAt": "2025-01-01T00:00:00Z",
    "v": 0, "url": "https://pay/bill_123", "id": "bill_123"
}"#;

const CHARGE: &str = r#"{
    "amount": 1000, "status": "PENDING", "devMode": true, "method": "PIX",
    "brCode": "0002", "brCodeBase64": "data:image/png;base64,AAAA", "platformFee": 80,
    "createdAt": "2025-03-25T21:50:20.772Z", "updatedAt": "2025-03-25T21:50:20.772Z",
    "expiresAt": "2025-03-25T22:50:20.772Z", "id": "pix_char_1"
}"#;

fn answered(status: u16, body: &str) -> Exchange {
    Exchange::Answered { status, body: body.to_string() }
}

#[test]
fn created_billing_is_read_with_its_echoed_fields() {
    let client = AbacatePay::new("key".to_string());
    let request = client
        .create_billing()
        .method(BillingMethods::Pix)
        .product(abacatepay_rust_sdk::CreateBillingProduct {
            external_id: "p1".to_string(),
            name: "Widget".to_string(),
            quantity: 1,
            price: 10,
            description: None,
        })
        .return_url("http://x/ret".to_string())
        .completion_url("http://x/comp".to_string())
        .build();
    assert!(request.is_ok());

    let body = format!("{{\"billing\": {}}}", BILLING);
    let billing = BillingBuilder::conclude(answered(200, &body)).unwrap();

    assert_eq!(billing.metadata.fee, 100);
    assert_eq!(billing.metadata.return_url, "http://x/ret");
    assert_eq!(billing.metadata.completion_url, "http://x/comp");
    assert_eq!(billing._id, "66f1");
    assert_eq!(billing.public_id, "bill_123");
    assert_eq!(billing.products.len(), 1);
    assert_eq!(billing.products[0].product_id, "prod_1");
    assert_eq!(billing.products[0].quantity, 1);
    assert_eq!(billing.amount, 1000);
    assert_eq!(billing.status, BillingStatus::PENDING);
    assert!(billing.dev_mode);
    assert_eq!(billing.methods, vec![BillingMethods::Pix]);
    assert_eq!(billing.frequency, BillingKind::OneTime);
    assert_eq!(billing.created_at, Timestamp { seconds: 1730745508, nanos: 573000000 });
    assert_eq!(billing.update_at, Timestamp { seconds: 1735689600, nanos: 0 });
    assert_eq!(billing.__v, 0);
    assert_eq!(billing.url, "https://pay/bill_123");
    assert_eq!(billing.id, "bill_123");
    assert_eq!(billing.customer_id, None);
    assert_eq!(billing.customer, None);
}

#[test]
fn error_inside_a_success_status_is_an_api_error() {
    let got = BillingBuilder::conclude(answered(200, r#"{"error":"invalid_product"}"#));
    assert_eq!(
        got,
        Err(AbacatePayError::ApiError {
            status: 200,
            error: "invalid_product".to_string(),
            message: String::new(),
            code: String::new(),
        })
    );
}

#[test]
fn error_inside_a_success_status_keeps_the_real_status() {
    let body = r#"{"error":"e","message":"m","code":"c"}"#;
    for status in [200u16, 201, 204, 299] {
        let got = PixChargeBuilder::conclude(answered(status, body));
        assert_eq!(
            got,
            Err(AbacatePayError::ApiError {
                status,
                error: "e".to_string(),
                message: "m".to_string(),
                code: "c".to_string(),
            })
        );
    }
}

#[test]
fn plain_text_under_a_failure_status_is_an_unexpected_response() {
    let got = BillingBuilder::conclude(answered(500, "internal error"));
    assert_eq!(
        got,
        Err(AbacatePayError::UnexpectedResponse {
            status: 500,
            response: "internal error".to_string(),
        })
    );
}

#[test]
fn pix_status_check_reads_paid() {
    let body = r#"{"data":{"status":"PAID","expiresAt":"2025-03-25T21:50:20.772Z"}}"#;
    let got = CheckPixStatusBuilder::conclude(answered(200, body)).unwrap();
    assert_eq!(got.status, PixStatus::PAID);
    assert_eq!(got.expires_at, Timestamp { seconds: 1742939420, nanos: 772000000 });
}

#[test]
fn failure_status_with_an_envelope_reports_that_status() {
    let body = r#"{"error":"Unauthorized","message":"bad token","code":"401"}"#;
    for status in [400u16, 401, 404, 422, 500, 503, 199, 300] {
        let got = AbacatePay::handle_response::<PixChargeResponse>(status, body.to_string());
        assert_eq!(
            got,
            Err(AbacatePayError::ApiError {
                status,
                error: "Unauthorized".to_string(),
                message: "bad token".to_string(),
                code: "401".to_string(),
            })
        );
    }
}

#[test]
fn envelope_without_message_and_code_has_them_empty() {
    let got =
        AbacatePay::handle_response::<PixChargeResponse>(404, r#"{"error":"nf"}"#.to_string());
    assert_eq!(
        got,
        Err(AbacatePayError::ApiError {
            status: 404,
            error: "nf".to_string(),
            message: String::new(),
            code: String::new(),
        })
    );
    let got = AbacatePay::handle_response::<PixChargeResponse>(
        404,
        r#"{"error":"nf","message":null,"code":"c"}"#.to_string(),
    );
    assert_eq!(
        got,
        Err(AbacatePayError::ApiError {
            status: 404,
            error: "nf".to_string(),
            message: String::new(),
            code: "c".to_string(),
        })
    );
}

#[test]
fn failure_status_with_json_that_is_no_envelope_is_unexpected() {
    for body in [r#"{"message":"no error member"}"#, r#"{"error":5}"#, r#"["error"]"#, "null",
        r#"{"error":"e","message":7}"#]
    {
        let got = AbacatePay::handle_response::<PixChargeResponse>(502, body.to_string());
        assert_eq!(
            got,
            Err(AbacatePayError::UnexpectedResponse { status: 502, response: body.to_string() })
        );
    }
}

#[test]
fn malformed_json_under_a_success_status_is_a_parse_error_with_the_body() {
    for body in ["not json", "", "{\"data\":", "{\"a\":1} trailing"] {
        let complaint = serde_json::from_str::<serde_json::Value>(body).unwrap_err().to_string();
        let got = AbacatePay::handle_response::<PixChargeResponse>(200, body.to_string());
        assert_eq!(
            got,
            Err(AbacatePayError::ParseError { message: complaint, response: body.to_string() })
        );
    }
}

#[test]
fn parse_error_carries_the_parsers_own_words() {
    let got = AbacatePay::handle_response::<PixChargeResponse>(200, "{".to_string());
    assert_eq!(
        got,
        Err(AbacatePayError::ParseError {
            message: "EOF while parsing an object at line 1 column 1".to_string(),
            response: "{".to_string(),
        })
    );
}

#[test]
fn mismatched_shape_under_a_success_status_is_a_parse_error_with_the_body() {
    for body in [r#"{"data":{"amount":"ten"}}"#, r#"{}"#, r#"[1,2]"#, r#"{"billing":{}}"#, "7"] {
        let got = AbacatePay::handle_response::<PixChargeResponse>(200, body.to_string());
        assert_eq!(
            got,
            Err(AbacatePayError::ParseError {
                message: MISMATCH.to_string(),
                response: body.to_string(),
            })
        );
    }
}

#[test]
fn status_is_a_success_from_200_to_299_only() {
    assert!(!abacatepay_rust_sdk::http::is_success(0));
    assert!(!abacatepay_rust_sdk::http::is_success(199));
    assert!(abacatepay_rust_sdk::http::is_success(200));
    assert!(abacatepay_rust_sdk::http::is_success(204));
    assert!(abacatepay_rust_sdk::http::is_success(299));
    assert!(!abacatepay_rust_sdk::http::is_success(300));
    assert!(!abacatepay_rust_sdk::http::is_success(404));
    assert!(!abacatepay_rust_sdk::http::is_success(u16::MAX));
}

#[test]
fn success_shape_is_tried_first_and_needs_no_error() {
    let with_null = format!("{{\"error\": null, \"data\": {}}}", CHARGE);
    let got = PixChargeBuilder::conclude(answered(200, &with_null)).unwrap();
    assert_eq!(got.id, "pix_char_1");

    let with_text = format!("{{\"error\": \"refused\", \"data\": {}}}", CHARGE);
    let got = PixChargeBuilder::conclude(answered(200, &with_text));
    assert_eq!(
        got,
        Err(AbacatePayError::ApiError {
            status: 200,
            error: "refused".to_string(),
            message: String::new(),
            code: String::new(),
        })
    );
}

#[test]
fn charge_is_read_with_every_field() {
    let body = format!("{{\"data\": {}}}", CHARGE);
    let got = SimulatePixPaymentBuilder::conclude(answered(200, &body)).unwrap();
    assert_eq!(got.amount, 1000);
    assert_eq!(got.status, "PENDING");
    assert!(got.dev_mode);
    assert_eq!(got.method, "PIX");
    assert_eq!(got.br_code, "0002");
    assert_eq!(got.br_code_base64, "data:image/png;base64,AAAA");
    assert_eq!(got.platform_fee, 80);
    assert_eq!(got.created_at, "2025-03-25T21:50:20.772Z");
    assert_eq!(got.updated_at, "2025-03-25T21:50:20.772Z");
    assert_eq!(got.expires_at, "2025-03-25T22:50:20.772Z");
    assert_eq!(got.id, "pix_char_1");
}

#[test]
fn billings_are_listed_in_the_order_of_the_answer() {
    let second = BILLING.replace("bill_123", "bill_456");
    let body = format!("{{\"billings\": [{}, {}]}}", BILLING, second);
    let got = AbacatePay::conclude_list_billings(answered(200, &body)).unwrap();
    assert_eq!(got.len(), 2);
    assert_eq!(got[0].id, "bill_123");
    assert_eq!(got[1].id, "bill_456");

    let got = AbacatePay::conclude_list_billings(answered(200, r#"{"billings": []}"#)).unwrap();
    assert!(got.is_empty());
}

#[test]
fn one_bad_billing_spoils_the_list() {
    let body = format!("{{\"billings\": [{}, {{\"id\": \"x\"}}]}}", BILLING);
    let got = AbacatePay::conclude_list_billings(answered(200, &body));
    assert_eq!(
        got,
        Err(AbacatePayError::ParseError { message: MISMATCH.to_string(), response: body })
    );
}

#[test]
fn transport_failure_is_a_request_error() {
    let failed = || Exchange::Failed { cause: "connection refused".to_string() };
    let expected = AbacatePayError::RequestError("connection refused".to_string());
    assert_eq!(BillingBuilder::conclude(failed()), Err(expected.clone()));
    assert_eq!(PixChargeBuilder::conclude(failed()), Err(expected.clone()));
    assert_eq!(SimulatePixPaymentBuilder::conclude(failed()), Err(expected.clone()));
    assert_eq!(CheckPixStatusBuilder::conclude(failed()), Err(expected.clone()));
    assert_eq!(AbacatePay::conclude_list_billings(failed()), Err(expected));
}

#[test]
fn classify_goes_by_the_parse_it_is_given() {
    let body = "anything".to_string();
    let envelope = serde_json::from_str::<serde_json::Value>(r#"{"error":"e"}"#).unwrap();

    let got = classify::<CreateBillingResponse>(500, body.clone(), Ok(envelope.clone()));
    assert_eq!(
        got,
        Err(AbacatePayError::ApiError {
            status: 500,
            error: "e".to_string(),
            message: String::new(),
            code: String::new(),
        })
    );

    let got = classify::<CreateBillingResponse>(500, body.clone(), Err("bad".to_string()));
    assert_eq!(
        got,
        Err(AbacatePayError::UnexpectedResponse { status: 500, response: body.clone() })
    );

    let got = classify::<CreateBillingResponse>(200, body.clone(), Err("bad".to_string()));
    assert_eq!(
        got,
        Err(AbacatePayError::ParseError { message: "bad".to_string(), response: body.clone() })
    );

    let got = classify::<CreateBillingResponse>(200, body.clone(), Ok(envelope));
    assert_eq!(
        got,
        Ok(CreateBillingResponse::Error {
            error: "e".to_string(),
            message: String::new(),
            code: String::new(),
        })
    );

    let got = classify::<CreateBillingResponse>(200, body.clone(), Ok(serde_json::Value::Null));
    assert_eq!(
        got,
        Err(AbacatePayError::ParseError { message: MISMATCH.to_string(), response: body })
    );
}
