use exportpro::documents::{
    document_filename, generate_order_documents, required_documents, DocumentGenerator,
    DocumentKind,
};
use exportpro::lifecycle::{status_effects, update_order_status, StatusEffect};
use exportpro::order::{ClientInfo, RawLineItem, RawOrder};
use exportpro::pipeline::create_order;

fn sample_order() -> exportpro::order::Order {
    let order_data = RawOrder {
        client: Some(ClientInfo {
            company_name: "Test Company".to_string(),
            contact_person: "John Doe".to_string(),
            email: "john@testcompany.com".to_string(),
        }),
        products: Some(vec![RawLineItem {
            product_id: "test_product_1".to_string(),
            name: "Test Product".to_string(),
            quantity: 10,
            unit_price: 100,
            unit_cost: None,
        }]),
        payment_terms: None,
        delivery_terms: None,
    };
    create_order(order_data, &vec![None], 0, None, 2024).unwrap()
}

#[test]
fn document_policy_is_invariable() {
    let order = sample_order();
    let docs = required_documents(&order);
    assert_eq!(
        docs,
        vec![
            DocumentKind::CommercialInvoice,
            DocumentKind::PackingList,
            DocumentKind::CertificateOfOrigin,
        ]
    );
    assert!(!docs.contains(&DocumentKind::PhytosanitaryCertificate));
}

#[test]
fn document_filenames_carry_the_order_number() {
    assert_eq!(
        document_filename(DocumentKind::CommercialInvoice, "EXP-2024-001"),
        "commercial_invoice_EXP-2024-001.html"
    );
    assert_eq!(
        document_filename(DocumentKind::PackingList, "EXP-2024-001"),
        "packing_list_EXP-2024-001.html"
    );
    let order = sample_order();
    let names = generate_order_documents(&order);
    assert_eq!(
        names,
        vec![
            "commercial_invoice_EXP-2024-001.html".to_string(),
            "packing_list_EXP-2024-001.html".to_string(),
            "certificate_of_origin_EXP-2024-001.html".to_string(),
        ]
    );
}

#[test]
fn test_document_generation() {
    let order = sample_order();
    let generator = DocumentGenerator::new();
    let invoice = generator.create_invoice_content(&order);
    assert_eq!(invoice.order_number, "EXP-2024-001");
    assert_eq!(invoice.company_name, "Test Company");
    assert_eq!(invoice.currency, "INR");
    assert_eq!(invoice.total_value, 1000);
    assert_eq!(invoice.lines.len(), 1);
    assert_eq!(invoice.lines[0].name, "Test Product");
    assert_eq!(invoice.lines[0].total, 1000);
}

#[test]
fn packing_list_counts_packages_and_weight() {
    // One package per line item; 10 units and 5 units at 500 g each.
    let order_data = RawOrder {
        client: Some(ClientInfo {
            company_name: "Test Company".to_string(),
            contact_person: "Jo".to_string(),
            email: "jo@example.com".to_string(),
        }),
        products: Some(vec![
            RawLineItem {
                product_id: "p1".to_string(),
                name: "Saffron".to_string(),
                quantity: 10,
                unit_price: 100,
                unit_cost: None,
            },
            RawLineItem {
                product_id: "p2".to_string(),
                name: "Cardamom".to_string(),
                quantity: 5,
                unit_price: 50,
                unit_cost: None,
            },
        ]),
        payment_terms: None,
        delivery_terms: None,
    };
    let order = create_order(order_data, &vec![None, None], 0, None, 2024).unwrap();
    let generator = DocumentGenerator::new();
    let packing = generator.create_packing_list_content(&order);
    assert_eq!(packing.total_packages, 2);
    assert_eq!(packing.total_weight_grams, 7500);
    assert_eq!(packing.lines[0].package_number, 1);
    assert_eq!(packing.lines[0].weight_grams, 5000);
    assert_eq!(packing.lines[1].package_number, 2);
    assert_eq!(packing.lines[1].weight_grams, 2500);
}

#[test]
fn generator_pairs_filenames_with_content() {
    let order = sample_order();
    let generator = DocumentGenerator::new();
    let (invoice_name, invoice) = generator.generate_commercial_invoice(&order);
    assert_eq!(invoice_name, "commercial_invoice_EXP-2024-001.html");
    assert_eq!(invoice.total_value, 1000);
    let (packing_name, packing) = generator.generate_packing_list(&order);
    assert_eq!(packing_name, "packing_list_EXP-2024-001.html");
    assert_eq!(packing.total_packages, 1);
    assert_eq!(packing.total_weight_grams, 5000);
    let (coo_name, coo) = generator.generate_certificate_of_origin(&order);
    assert_eq!(coo_name, "certificate_of_origin_EXP-2024-001.html");
    assert_eq!(coo.certificate_number, "COO-EXP-2024-001-001");
}

#[test]
fn certificate_of_origin_number_derives_from_order() {
    let order = sample_order();
    let generator = DocumentGenerator::new();
    let coo = generator.create_certificate_of_origin_content(&order);
    assert_eq!(coo.certificate_number, "COO-EXP-2024-001-001");
}

#[test]
fn documentation_status_triggers_exactly_one_package_generation() {
    let mut order = sample_order();
    let effects = update_order_status(&mut order, "documentation".to_string(), 99);
    assert_eq!(effects, vec![StatusEffect::GenerateDocumentationPackage]);
    assert_eq!(order.tracking.current_status, "documentation");
    assert_eq!(order.tracking.history.len(), 2);
    assert_eq!(order.tracking.history[1].status, "documentation");
    assert_eq!(order.tracking.history[1].timestamp_millis, 99);
    assert_eq!(order.tracking.history[1].note, "Status updated to documentation");
}

#[test]
fn completed_status_triggers_inventory_notification() {
    let mut order = sample_order();
    let effects = update_order_status(&mut order, "completed".to_string(), 100);
    assert_eq!(effects, vec![StatusEffect::UpdateWebsiteInventory]);
}

#[test]
fn other_statuses_trigger_no_side_effects() {
    let mut order = sample_order();
    let effects = update_order_status(&mut order, "shipped".to_string(), 100);
    assert!(effects.is_empty());
    assert!(status_effects("in_review").is_empty());
    assert!(status_effects("").is_empty());
}

#[test]
fn every_status_transition_is_accepted() {
    // The open policy: any status string passes validation.
    assert!(exportpro::lifecycle::validate_status_transition("id-1", "anything").is_ok());
    assert!(exportpro::lifecycle::validate_status_transition("id-1", "").is_ok());
}
