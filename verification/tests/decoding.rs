use abacatepay_rust_sdk::decode::{
    boolean_field, field, instant_field, integer_field, list_from_json, optional_field,
    optional_text_field, optional_unsigned_field, reports_no_error, text_field, FromJson,
};
use abacatepay_rust_sdk::encode::{list_to_json, text_or_null_json, ToJson};
use abacatepay_rust_sdk::envelope::read_envelope;
use abacatepay_rust_sdk::{
    Billing, BillingKind, BillingMethods, BillingStatus, CheckPixStatusData, CreateBillingData,
    CreateBillingProduct, CreatePixChargeData, Customer, CustomerId, CustomerMetadata,
    ErrorResponse, Metadata, PixChargeData, PixStatus, Product, Timestamp,
};

fn json(text: &str) -> serde_json::Value {
    serde_json::from_str(text).unwrap()
}

#[test]
fn text_field_wants_a_string_member() {
    let doc = json(r#"{"a":"x","b":1,"c":null,"d":""}"#);
    assert_eq!(text_field(&doc, "a"), Some("x".to_string()));
    assert_eq!(text_field(&doc, "d"), Some(String::new()));
    assert_eq!(text_field(&doc, "b"), None);
    assert_eq!(text_field(&doc, "c"), None);
    assert_eq!(text_field(&doc, "missing"), None);
    assert_eq!(text_field(&json(r#"["a"]"#), "a"), None);
    assert_eq!(text_field(&json(r#""a""#), "a"), None);
}

#[test]
fn optional_text_field_takes_missing_and_null_for_nothing() {
    let doc = json(r#"{"a":"x","b":1,"c":null}"#);
    assert_eq!(optional_text_field(&doc, "a"), Some(Some("x".to_string())));
    assert_eq!(optional_text_field(&doc, "c"), Some(None));
    assert_eq!(optional_text_field(&doc, "missing"), Some(None));
    assert_eq!(optional_text_field(&doc, "b"), None);
}

#[test]
fn integer_field_wants_an_integer_that_fits() {
    let doc = json(
        r#"{"a":5,"b":-7,"c":1.5,"d":"5","e":9223372036854775807,"f":9223372036854775808,
            "g":-9223372036854775808,"h":2.0,"i":true}"#,
    );
    assert_eq!(integer_field(&doc, "a"), Some(5));
    assert_eq!(integer_field(&doc, "b"), Some(-7));
    assert_eq!(integer_field(&doc, "c"), None);
    assert_eq!(integer_field(&doc, "d"), None);
    assert_eq!(integer_field(&doc, "e"), Some(i64::MAX));
    assert_eq!(integer_field(&doc, "f"), None);
    assert_eq!(integer_field(&doc, "g"), Some(i64::MIN));
    assert_eq!(integer_field(&doc, "h"), None);
    assert_eq!(integer_field(&doc, "i"), None);
    assert_eq!(integer_field(&doc, "missing"), None);
}

#[test]
fn boolean_field_wants_a_boolean() {
    let doc = json(r#"{"a":true,"b":false,"c":"true","d":1}"#);
    assert_eq!(boolean_field(&doc, "a"), Some(true));
    assert_eq!(boolean_field(&doc, "b"), Some(false));
    assert_eq!(boolean_field(&doc, "c"), None);
    assert_eq!(boolean_field(&doc, "d"), None);
    assert_eq!(boolean_field(&doc, "missing"), None);
}

#[test]
fn instant_field_reads_date_and_time_text() {
    let doc = json(
        r#"{"z":"2024-11-04T18:38:28.573Z","o":"2024-11-04T21:38:28+03:00",
            "s":"2024-11-04 18:38:28Z","e":"1970-01-01T00:00:00Z",
            "n":"1969-12-31T23:59:59.5Z","bad":"yesterday","num":1730745508,
            "date":"2024-11-04"}"#,
    );
    assert_eq!(
        instant_field(&doc, "z"),
        Some(Timestamp { seconds: 1730745508, nanos: 573000000 })
    );
    assert_eq!(instant_field(&doc, "o"), Some(Timestamp { seconds: 1730745508, nanos: 0 }));
    assert_eq!(instant_field(&doc, "s"), Some(Timestamp { seconds: 1730745508, nanos: 0 }));
    assert_eq!(instant_field(&doc, "e"), Some(Timestamp { seconds: 0, nanos: 0 }));
    assert_eq!(instant_field(&doc, "n"), Some(Timestamp { seconds: -1, nanos: 500000000 }));
    assert_eq!(instant_field(&doc, "bad"), None);
    assert_eq!(instant_field(&doc, "num"), None);
    assert_eq!(instant_field(&doc, "date"), None);
    assert_eq!(instant_field(&doc, "missing"), None);
}

#[test]
fn status_names_are_read_exactly() {
    let read = |name: &str| BillingStatus::from_json(&serde_json::Value::from(name));
    assert_eq!(read("PENDING"), Some(BillingStatus::PENDING));
    assert_eq!(read("EXPIRED"), Some(BillingStatus::EXPIRED));
    assert_eq!(read("CANCELLED"), Some(BillingStatus::CANCELLED));
    assert_eq!(read("PAID"), Some(BillingStatus::PAID));
    assert_eq!(read("REFUNDED"), Some(BillingStatus::REFUNDED));
    assert_eq!(read("paid"), None);
    assert_eq!(read("PAID "), None);
    assert_eq!(read(""), None);
    assert_eq!(BillingStatus::from_json(&json("1")), None);

    let read = |name: &str| PixStatus::from_json(&serde_json::Value::from(name));
    assert_eq!(read("PENDING"), Some(PixStatus::PENDING));
    assert_eq!(read("EXPIRED"), Some(PixStatus::EXPIRED));
    assert_eq!(read("CANCELLED"), Some(PixStatus::CANCELLED));
    assert_eq!(read("PAID"), Some(PixStatus::PAID));
    assert_eq!(read("REFUNDED"), Some(PixStatus::REFUNDED));
    assert_eq!(read("Paid"), None);

    assert_eq!(BillingMethods::from_json(&json(r#""Pix""#)), Some(BillingMethods::Pix));
    assert_eq!(BillingMethods::from_json(&json(r#""PIX""#)), None);
    assert_eq!(BillingKind::from_json(&json(r#""OneTime""#)), Some(BillingKind::OneTime));
    assert_eq!(BillingKind::from_json(&json(r#""ONE_TIME""#)), None);
    assert_eq!(BillingKind::from_name("OneTime"), Some(BillingKind::OneTime));
    assert_eq!(BillingMethods::from_name("pix"), None);
}

#[test]
fn records_are_read_member_by_member() {
    assert_eq!(
        Metadata::from_json(&json(r#"{"fee":80,"returnUrl":"r","completionUrl":"c","x":1}"#)),
        Some(Metadata { fee: 80, return_url: "r".to_string(), completion_url: "c".to_string() })
    );
    assert_eq!(Metadata::from_json(&json(r#"{"fee":80,"returnUrl":"r"}"#)), None);
    assert_eq!(
        Metadata::from_json(&json(r#"{"fee":80,"return_url":"r","completion_url":"c"}"#)),
        None
    );

    assert_eq!(
        Product::from_json(&json(r#"{"productId":"p","quantity":3}"#)),
        Some(Product { product_id: "p".to_string(), quantity: 3 })
    );
    assert_eq!(Product::from_json(&json(r#"{"productId":"p","quantity":"3"}"#)), None);

    let details = CustomerMetadata {
        name: "n".to_string(),
        cellphone: "c".to_string(),
        tax_id: "t".to_string(),
        email: "e".to_string(),
    };
    let details_text = r#"{"name":"n","cellphone":"c","taxId":"t","email":"e"}"#;
    assert_eq!(CustomerMetadata::from_json(&json(details_text)), Some(details.clone()));
    assert_eq!(
        CustomerMetadata::from_json(&json(r#"{"name":"n","cellphone":"c","email":"e"}"#)),
        None
    );

    assert_eq!(
        Customer::from_json(&json(&format!("{{\"_id\":\"c1\",\"metadata\":{}}}", details_text))),
        Some(Customer { _id: "c1".to_string(), metadata: details.clone() })
    );
    assert_eq!(Customer::from_json(&json(r#"{"_id":"c1","metadata":{}}"#)), None);

    let owner = format!(
        "{{\"metadata\":{},\"id\":\"i\",\"publicId\":\"p\",\"storeId\":\"s\",\"devMode\":false,\
         \"createdAt\":\"1970-01-01T00:00:01Z\",\"updatedAt\":\"1970-01-01T00:00:02Z\",\"v\":3}}",
        details_text
    );
    assert_eq!(
        CustomerId::from_json(&json(&owner)),
        Some(CustomerId {
            metadata: details,
            _id: "i".to_string(),
            public_id: "p".to_string(),
            store_id: "s".to_string(),
            dev_mode: false,
            created_at: Timestamp { seconds: 1, nanos: 0 },
            updated_at: Timestamp { seconds: 2, nanos: 0 },
            __v: 3,
        })
    );
    assert_eq!(
        CustomerId::from_json(&json(&owner.replace("1970-01-01T00:00:02Z", "never"))),
        None
    );

    assert_eq!(
        CheckPixStatusData::from_json(&json(
            r#"{"status":"EXPIRED","expiresAt":"1970-01-01T00:00:10Z"}"#
        )),
        Some(CheckPixStatusData {
            status: PixStatus::EXPIRED,
            expires_at: Timestamp { seconds: 10, nanos: 0 },
        })
    );
    assert_eq!(
        CheckPixStatusData::from_json(&json(
            r#"{"status":"GONE","expiresAt":"1970-01-01T00:00:10Z"}"#
        )),
        None
    );
}

const BILLING: &str = r#"{
    "metadata": {"fee": 100, "returnUrl": "r", "completionUrl": "c"},
    "pId": "66f1", "publicId": "bill_123",
    "products": [{"productId": "a", "quantity": 1}, {"productId": "b", "quantity": 2}],
    "amount": 1000, "status": "PAID", "devMode": false,
    "methods": ["Pix", "Pix"], "frequency": "OneTime",
    "createdAt": "1970-01-01T00:00:01Z", "updateAt": "1970-01-01T00:00:02Z",
    "v": 7, "url": "u", "id": "bill_123",
    "customerId": null,
    "customer": {"_id": "c1",
        "metadata": {"name": "n", "cellphone": "c", "taxId": "t", "email": "e"}}
}"#;

#[test]
fn billing_is_read_with_its_lists_and_optional_members() {
    let billing = Billing::from_json(&json(BILLING)).unwrap();
    assert_eq!(billing._id, "66f1");
    assert_eq!(billing.id, "bill_123");
    assert_eq!(billing.status, BillingStatus::PAID);
    assert_eq!(
        billing.products,
        vec![
            Product { product_id: "a".to_string(), quantity: 1 },
            Product { product_id: "b".to_string(), quantity: 2 },
        ]
    );
    assert_eq!(billing.methods, vec![BillingMethods::Pix, BillingMethods::Pix]);
    assert_eq!(billing.__v, 7);
    assert_eq!(billing.customer_id, None);
    assert_eq!(billing.customer.unwrap()._id, "c1");
}

#[test]
fn billing_with_a_member_of_the_wrong_kind_is_not_read() {
    for (from, to) in [
        ("\"amount\": 1000", "\"amount\": 10.5"),
        ("\"status\": \"PAID\"", "\"status\": \"paid\""),
        ("\"methods\": [\"Pix\", \"Pix\"]", "\"methods\": [\"Pix\", \"Card\"]"),
        ("\"methods\": [\"Pix\", \"Pix\"]", "\"methods\": \"Pix\""),
        ("\"customerId\": null", "\"customerId\": \"cust\""),
        ("\"pId\": \"66f1\",", ""),
        ("\"devMode\": false", "\"devMode\": 0"),
        ("{\"productId\": \"b\", \"quantity\": 2}", "{\"productId\": \"b\"}"),
        ("\"createdAt\": \"1970-01-01T00:00:01Z\"", "\"createdAt\": \"01/01/1970\""),
        ("\"_id\": \"c1\",", ""),
    ] {
        let changed = BILLING.replace(from, to);
        assert!(changed != BILLING);
        assert_eq!(Billing::from_json(&json(&changed)), None);
    }
}

#[test]
fn lists_keep_their_order_and_fail_as_a_whole() {
    let got: Option<Vec<BillingStatus>> =
        list_from_json(&json(r#"["PAID","PENDING","PAID"]"#));
    assert_eq!(
        got,
        Some(vec![BillingStatus::PAID, BillingStatus::PENDING, BillingStatus::PAID])
    );
    let got: Option<Vec<BillingStatus>> = list_from_json(&json("[]"));
    assert_eq!(got, Some(vec![]));
    let got: Option<Vec<BillingStatus>> = list_from_json(&json(r#"["PAID","x","PAID"]"#));
    assert_eq!(got, None);
    let got: Option<Vec<BillingStatus>> = list_from_json(&json(r#"{"0":"PAID"}"#));
    assert_eq!(got, None);
    let got: Option<Vec<Vec<BillingStatus>>> = Vec::from_json(&json(r#"[["PAID"],[]]"#));
    assert_eq!(got, Some(vec![vec![BillingStatus::PAID], vec![]]));
}

#[test]
fn field_and_optional_field_read_nested_records() {
    let doc = json(r#"{"p":{"productId":"a","quantity":1},"n":null,"bad":{"productId":1}}"#);
    let product = Product { product_id: "a".to_string(), quantity: 1 };
    assert_eq!(field::<Product>(&doc, "p"), Some(product.clone()));
    assert_eq!(field::<Product>(&doc, "n"), None);
    assert_eq!(field::<Product>(&doc, "missing"), None);
    assert_eq!(optional_field::<Product>(&doc, "p"), Some(Some(product)));
    assert_eq!(optional_field::<Product>(&doc, "n"), Some(None));
    assert_eq!(optional_field::<Product>(&doc, "missing"), Some(None));
    assert_eq!(optional_field::<Product>(&doc, "bad"), None);
}

#[test]
fn error_free_means_no_error_member_or_a_null_one() {
    assert!(reports_no_error(&json(r#"{"data":1}"#)));
    assert!(reports_no_error(&json(r#"{"error":null}"#)));
    assert!(!reports_no_error(&json(r#"{"error":"x"}"#)));
    assert!(!reports_no_error(&json(r#"{"error":false}"#)));
    assert!(reports_no_error(&json("[]")));
}

#[test]
fn envelope_is_a_success_a_failure_or_neither() {
    let got = read_envelope::<Product>(&json(r#"{"data":{"productId":"a","quantity":1}}"#), "data");
    assert_eq!(got, Some(Ok(Product { product_id: "a".to_string(), quantity: 1 })));

    let got = read_envelope::<Product>(&json(r#"{"error":"e","message":"m","code":"c"}"#), "data");
    assert_eq!(
        got,
        Some(Err(ErrorResponse {
            error: "e".to_string(),
            message: "m".to_string(),
            code: "c".to_string(),
        }))
    );

    let got = read_envelope::<Product>(&json(r#"{"data":{"productId":"a"}}"#), "data");
    assert_eq!(got, None);
    let got = read_envelope::<Product>(&json(r#"{"item":{"productId":"a","quantity":1}}"#), "data");
    assert_eq!(got, None);
    let got = read_envelope::<Product>(&json(r#"{"error":{"code":1}}"#), "data");
    assert_eq!(got, None);
}

#[test]
fn error_envelope_turns_into_an_api_error_under_the_given_status() {
    let envelope = ErrorResponse::from_json(&json(r#"{"error":"e","code":"c"}"#)).unwrap();
    assert_eq!(
        envelope.into_error(418),
        abacatepay_rust_sdk::AbacatePayError::ApiError {
            status: 418,
            error: "e".to_string(),
            message: String::new(),
            code: "c".to_string(),
        }
    );
}

#[test]
fn charge_wants_every_member() {
    let text = r#"{"amount":1,"status":"s","devMode":true,"method":"m","brCode":"b",
        "brCodeBase64":"b64","platformFee":2,"createdAt":"c","updatedAt":"u",
        "expiresAt":"x","id":"i"}"#;
    assert_eq!(
        PixChargeData::from_json(&json(text)),
        Some(PixChargeData {
            amount: 1,
            status: "s".to_string(),
            dev_mode: true,
            method: "m".to_string(),
            br_code: "b".to_string(),
            br_code_base64: "b64".to_string(),
            platform_fee: 2,
            created_at: "c".to_string(),
            updated_at: "u".to_string(),
            expires_at: "x".to_string(),
            id: "i".to_string(),
        })
    );
    for key in ["amount", "status", "devMode", "method", "brCode", "brCodeBase64", "platformFee",
        "createdAt", "updatedAt", "expiresAt", "id"]
    {
        let renamed = text.replace(&format!("\"{}\"", key), "\"other\"");
        assert_eq!(PixChargeData::from_json(&json(&renamed)), None);
    }
}

#[test]
fn optional_unsigned_field_wants_a_non_negative_integer() {
    let doc = json(r#"{"a":5,"b":-1,"c":18446744073709551615,"d":18446744073709551616,
        "e":null,"f":"5","g":0,"h":1.0}"#);
    assert_eq!(optional_unsigned_field(&doc, "a"), Some(Some(5)));
    assert_eq!(optional_unsigned_field(&doc, "b"), None);
    assert_eq!(optional_unsigned_field(&doc, "c"), Some(Some(u64::MAX)));
    assert_eq!(optional_unsigned_field(&doc, "d"), None);
    assert_eq!(optional_unsigned_field(&doc, "e"), Some(None));
    assert_eq!(optional_unsigned_field(&doc, "f"), None);
    assert_eq!(optional_unsigned_field(&doc, "g"), Some(Some(0)));
    assert_eq!(optional_unsigned_field(&doc, "h"), None);
    assert_eq!(optional_unsigned_field(&doc, "missing"), Some(None));
}

fn customer() -> CustomerMetadata {
    CustomerMetadata {
        name: "John Doe".to_string(),
        cellphone: "5511999999999".to_string(),
        tax_id: "123.456.789-00".to_string(),
        email: "john@example.com".to_string(),
    }
}

#[test]
fn written_documents_have_the_members_of_the_wire() {
    assert_eq!(BillingKind::OneTime.to_json(), json(r#""OneTime""#));
    assert_eq!(BillingMethods::Pix.to_json(), json(r#""Pix""#));
    assert_eq!(text_or_null_json(&None), serde_json::Value::Null);
    assert_eq!(text_or_null_json(&Some("x".to_string())), json(r#""x""#));
    assert_eq!(list_to_json::<BillingMethods>(&vec![]), json("[]"));
    assert_eq!(
        list_to_json(&vec![BillingMethods::Pix, BillingMethods::Pix]),
        json(r#"["Pix","Pix"]"#)
    );
    assert_eq!(
        customer().to_json(),
        json(
            r#"{"name":"John Doe","cellphone":"5511999999999","taxId":"123.456.789-00",
                "email":"john@example.com"}"#
        )
    );
    let product = CreateBillingProduct {
        external_id: "p1".to_string(),
        name: "Widget".to_string(),
        quantity: 3,
        price: 1050,
        description: None,
    };
    assert_eq!(
        product.to_json(),
        json(r#"{"externalId":"p1","name":"Widget","quantity":3,"price":1050,"description":null}"#)
    );
}

#[test]
fn payloads_survive_writing_and_reading() {
    let product = CreateBillingProduct {
        external_id: "p1".to_string(),
        name: "Widget".to_string(),
        quantity: 3,
        price: 1050,
        description: Some("d".to_string()),
    };
    assert_eq!(CreateBillingProduct::from_json(&product.to_json()), Some(product.clone()));

    let billing = CreateBillingData {
        frequency: BillingKind::OneTime,
        methods: vec![BillingMethods::Pix],
        products: vec![product.clone(), CreateBillingProduct { description: None, ..product }],
        return_url: "http://x/ret".to_string(),
        completion_url: "http://x/comp".to_string(),
        customer_id: Some("cust".to_string()),
    };
    assert_eq!(CreateBillingData::from_json(&billing.to_json()), Some(billing.clone()));
    let billing = CreateBillingData { customer_id: None, methods: vec![], ..billing };
    assert_eq!(CreateBillingData::from_json(&billing.to_json()), Some(billing));

    for expires_in in [None, Some(0), Some(u64::MAX)] {
        for description in [None, Some("Test".to_string())] {
            for customer in [None, Some(customer())] {
                let charge = CreatePixChargeData {
                    amount: i64::MIN,
                    expires_in,
                    description: description.clone(),
                    customer,
                };
                assert_eq!(CreatePixChargeData::from_json(&charge.to_json()), Some(charge));
            }
        }
    }

    assert_eq!(CustomerMetadata::from_json(&customer().to_json()), Some(customer()));
}

#[test]
fn charge_survives_writing_and_reading() {
    let charge = PixChargeData {
        amount: 1000,
        status: "PENDING".to_string(),
        dev_mode: true,
        method: "PIX".to_string(),
        br_code: "0002".to_string(),
        br_code_base64: "AAAA".to_string(),
        platform_fee: 80,
        created_at: "c".to_string(),
        updated_at: "u".to_string(),
        expires_at: "e".to_string(),
        id: "pix_char_1".to_string(),
    };
    assert_eq!(PixChargeData::from_json(&charge.to_json()), Some(charge.clone()));

    let body = format!("{{\"data\":{}}}", charge.to_json());
    let got = abacatepay_rust_sdk::PixChargeBuilder::conclude(abacatepay_rust_sdk::Exchange::Answered {
        status: 200,
        body,
    });
    assert_eq!(got, Ok(charge));
}
