use abacatepay_rust_sdk::{
    AbacatePay, BillingKind, BillingMethods, CreateBillingProduct, CustomerMetadata,
};

fn client() -> AbacatePay {
    AbacatePay::new("my-key!".to_string())
}

#[test]
fn create_billing_builder() {
    let client = client();

    let builder = client
        .create_billing()
        .frequency(BillingKind::OneTime)
        .method(BillingMethods::Pix)
        .customer_id("my-customer-id".to_string());

    assert_eq!(builder.data.frequency, BillingKind::OneTime);
    assert_eq!(builder.data.methods, vec![BillingMethods::Pix]);
    assert_eq!(builder.data.customer_id, Some("my-customer-id".to_string()));
}

#[test]
fn payment_method() {
    let client = client();

    let builder = client.create_billing().method(BillingMethods::Pix);

    assert_eq!(builder.data.methods, vec![BillingMethods::Pix]);
}

#[test]
fn billing_urls() {
    let client = client();

    let builder = client
        .create_billing()
        .return_url("http://localhost:3030".to_string())
        .completion_url("http://localhost:3030?success=true".to_string());

    assert_eq!(builder.data.return_url, "http://localhost:3030");
    assert_eq!(
        builder.data.completion_url,
        "http://localhost:3030?success=true"
    );
}

#[test]
fn billing_products() {
    let client = client();

    let product1 = CreateBillingProduct {
        external_id: "external_id_1".to_string(),
        name: "Product 1".to_string(),
        price: 1000,
        quantity: 1,
        description: None,
    };

    let product2 = CreateBillingProduct {
        external_id: "external_id_2".to_string(),
        name: "Product 2".to_string(),
        price: 2412,
        quantity: 2,
        description: Some("product_description".to_string()),
    };

    let builder = client
        .create_billing()
        .product(product1.clone())
        .product(product2.clone());

    assert_eq!(builder.data.products, vec![product1, product2]);
}

#[test]
fn default_values() {
    let client = client();
    let builder = client.create_billing();

    assert_eq!(builder.data.frequency, BillingKind::OneTime);
    assert!(builder.data.methods.is_empty());
    assert!(builder.data.products.is_empty());
    assert_eq!(builder.data.return_url, String::new());
    assert_eq!(builder.data.completion_url, String::new());
    assert_eq!(builder.data.customer_id, None);
}

#[test]
fn create_pix_charge_builder() {
    let client = client();

    let builder = client
        .create_pix_charge()
        .amount(1000)
        .expires_in(Some(3600))
        .description(Some("Test PIX charge".to_string()));

    assert_eq!(builder.data.amount, 1000);
    assert_eq!(builder.data.expires_in, Some(3600));
    assert_eq!(
        builder.data.description,
        Some("Test PIX charge".to_string())
    );
    assert!(builder.data.customer.is_none());
}

#[test]
fn pix_charge_with_customer() {
    let client = client();

    let customer = CustomerMetadata {
        name: "John Doe".to_string(),
        email: "john@example.com".to_string(),
        tax_id: "123.456.789-00".to_string(),
        cellphone: "5511999999999".to_string(),
    };

    let builder = client.create_pix_charge().customer(Some(customer.clone()));

    let builder_customer = builder.data.customer.as_ref().unwrap();
    assert!(builder_customer.name == customer.name);
    assert!(builder_customer.email == customer.email);
    assert!(builder_customer.tax_id == customer.tax_id);
    assert!(builder_customer.cellphone == customer.cellphone);
}

#[test]
fn pix_charge_default_values() {
    let client = client();
    let builder = client.create_pix_charge();

    assert_eq!(builder.data.amount, 00);
    assert_eq!(builder.data.expires_in, None);
    assert_eq!(builder.data.description, None);
    assert!(builder.data.customer.is_none());
}

#[test]
fn simulate_pix_payment_builder() {
    let client = client();

    let builder = client.create_simulate_pix_payment("test-charge-id".to_string());
    assert_eq!(builder.id, "test-charge-id");

    let builder = builder.id("new-test-id".to_string());
    assert_eq!(builder.id, "new-test-id");
}

#[test]
fn check_pix_status_builder_replaces_the_id() {
    let client = client();

    let builder = client.check_pix_status("first".to_string());
    assert_eq!(builder.id, "first");

    let builder = builder.id("second".to_string());
    assert_eq!(builder.id, "second");
}

#[test]
fn a_later_setting_replaces_an_earlier_one() {
    let client = client();

    let builder = client
        .create_billing()
        .return_url("http://first".to_string())
        .method(BillingMethods::Pix)
        .customer_id("one".to_string())
        .return_url("http://second".to_string())
        .customer_id("two".to_string());

    assert_eq!(builder.data.return_url, "http://second");
    assert_eq!(builder.data.customer_id, Some("two".to_string()));
    assert_eq!(builder.data.methods, vec![BillingMethods::Pix]);
    assert_eq!(builder.data.completion_url, "");
}

#[test]
fn repeated_methods_accumulate_in_call_order() {
    let client = client();

    let builder = client
        .create_billing()
        .method(BillingMethods::Pix)
        .return_url("http://x".to_string())
        .method(BillingMethods::Pix);

    assert_eq!(
        builder.data.methods,
        vec![BillingMethods::Pix, BillingMethods::Pix]
    );
}

#[test]
fn a_later_pix_setting_replaces_an_earlier_one() {
    let client = client();

    let builder = client
        .create_pix_charge()
        .amount(100)
        .description(Some("first".to_string()))
        .expires_in(Some(60))
        .amount(250)
        .description(None);

    assert_eq!(builder.data.amount, 250);
    assert_eq!(builder.data.description, None);
    assert_eq!(builder.data.expires_in, Some(60));
}
