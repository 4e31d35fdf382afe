use exportpro::analysis::{analyze_order_profit, determine_optimal_shipping};
use exportpro::errors::{StageError, ValidationError};
use exportpro::order::{
    ClientInfo, MarketRecord, PricePrediction, RawLineItem, RawOrder, RiskSignal, ShippingMethod,
};
use exportpro::pipeline::{create_order, order_within_limits};
use exportpro::totals::calculate_order_totals;
use exportpro::validate::validate_order_data;

fn client() -> ClientInfo {
    ClientInfo {
        company_name: "Test Company".to_string(),
        contact_person: "John Doe".to_string(),
        email: "john@testcompany.com".to_string(),
    }
}

fn item(id: &str, name: &str, quantity: i64, unit_price: i64, unit_cost: Option<i64>) -> RawLineItem {
    RawLineItem {
        product_id: id.to_string(),
        name: name.to_string(),
        quantity,
        unit_price,
        unit_cost,
    }
}

fn raw_order(products: Option<Vec<RawLineItem>>) -> RawOrder {
    RawOrder {
        client: Some(client()),
        products,
        payment_terms: Some("LC_at_sight".to_string()),
        delivery_terms: Some("FOB_Mumbai".to_string()),
    }
}

#[test]
fn test_order_creation() {
    let order_data = raw_order(Some(vec![item(
        "test_product_1",
        "Test Product",
        10,
        100,
        None,
    )]));
    let records = vec![None];
    let result = create_order(order_data, &records, 0, None, 2024);
    assert!(result.is_ok());
    let order = result.unwrap();
    assert_eq!(order.order_number, "EXP-2024-001");
    assert_eq!(order.details.total_value, 1000);
    assert_eq!(order.details.currency, "INR");
    assert_eq!(order.products.len(), 1);
    assert_eq!(order.products[0].total, 1000);
    assert_eq!(order.tracking.current_status, "created");
    assert_eq!(order.tracking.history.len(), 1);
    assert_eq!(order.tracking.history[0].status, "created");
    assert_eq!(order.tracking.history[0].timestamp_millis, 0);
    assert_eq!(order.tracking.history[0].note, "Order created");
    assert!(order.analysis.is_some());
}

#[test]
fn two_line_items_scenario() {
    // qty 10 @ 100 plus qty 5 @ 50: total 1,250, sea freight, insurance 1,375.
    let order_data = raw_order(Some(vec![
        item("p1", "Saffron", 10, 100, None),
        item("p2", "Cardamom", 5, 50, None),
    ]));
    let records = vec![None, None];
    let order = create_order(order_data, &records, 0, None, 2025).unwrap();
    assert_eq!(order.details.total_value, 1250);
    assert_eq!(order.products[0].total, 1000);
    assert_eq!(order.products[1].total, 250);
    let analysis = order.analysis.unwrap();
    assert_eq!(analysis.optimal_shipping_method, ShippingMethod::SeaFreight);
    assert_eq!(analysis.recommended_insurance, 1375);
}

#[test]
fn high_value_order_ships_by_air() {
    // total_value 120,000 is above the air-freight threshold.
    let order_data = raw_order(Some(vec![item("p1", "Saffron", 120, 1000, None)]));
    let records = vec![None];
    let order = create_order(order_data, &records, 0, None, 2025).unwrap();
    assert_eq!(order.details.total_value, 120_000);
    let analysis = order.analysis.unwrap();
    assert_eq!(analysis.optimal_shipping_method, ShippingMethod::AirFreight);
}

#[test]
fn shipping_tiers_at_thresholds() {
    assert_eq!(determine_optimal_shipping(0), ShippingMethod::SeaFreight);
    assert_eq!(determine_optimal_shipping(50_000), ShippingMethod::SeaFreight);
    assert_eq!(determine_optimal_shipping(50_001), ShippingMethod::ExpressCourier);
    assert_eq!(determine_optimal_shipping(100_000), ShippingMethod::ExpressCourier);
    assert_eq!(determine_optimal_shipping(100_001), ShippingMethod::AirFreight);
}

#[test]
fn empty_product_list_is_rejected_with_no_order() {
    let order_data = raw_order(Some(vec![]));
    let records = vec![];
    let result = create_order(order_data, &records, 0, None, 2025);
    // The error is the validation verdict and no order record exists, so
    // there is nothing a host could persist.
    assert_eq!(result.unwrap_err(), ValidationError::EmptyProducts);
}

#[test]
fn missing_client_is_rejected() {
    let mut order_data = raw_order(Some(vec![item("p1", "Saffron", 1, 1, None)]));
    order_data.client = None;
    let result = validate_order_data(&order_data);
    assert_eq!(result.unwrap_err(), ValidationError::MissingClient);
}

#[test]
fn missing_product_list_is_rejected() {
    let order_data = raw_order(None);
    let result = validate_order_data(&order_data);
    assert_eq!(result.unwrap_err(), ValidationError::MissingProducts);
}

#[test]
fn non_positive_quantity_is_rejected() {
    let order_data = raw_order(Some(vec![
        item("p1", "Saffron", 1, 10, None),
        item("p2", "Cardamom", 0, 10, None),
    ]));
    let result = validate_order_data(&order_data);
    assert_eq!(result.unwrap_err(), ValidationError::NonPositiveQuantity);
}

#[test]
fn negative_unit_price_is_rejected() {
    let order_data = raw_order(Some(vec![item("p1", "Saffron", 1, -10, None)]));
    let result = validate_order_data(&order_data);
    assert_eq!(result.unwrap_err(), ValidationError::NegativeUnitPrice);
}

#[test]
fn validation_error_messages() {
    assert_eq!(
        ValidationError::MissingClient.message(),
        "Client information is required"
    );
    assert_eq!(ValidationError::MissingProducts.message(), "Products are required");
    assert_eq!(
        ValidationError::EmptyProducts.message(),
        "At least one product is required"
    );
}

#[test]
fn stage_errors_carry_stage_context() {
    assert_eq!(
        StageError::Validation(ValidationError::EmptyProducts).message(),
        "validation error: At least one product is required"
    );
    assert_eq!(
        StageError::Store("connection refused".to_string()).message(),
        "store error: connection refused"
    );
    assert_eq!(
        StageError::AnalysisData("intelligence read failed".to_string()).message(),
        "analysis data error: intelligence read failed"
    );
    assert_eq!(
        StageError::Render("disk full".to_string()).message(),
        "render error: disk full"
    );
}

#[test]
fn shipping_method_codes() {
    assert_eq!(ShippingMethod::SeaFreight.code(), "sea_freight");
    assert_eq!(ShippingMethod::ExpressCourier.code(), "express_courier");
    assert_eq!(ShippingMethod::AirFreight.code(), "air_freight");
}

#[test]
fn totals_overwrite_derived_fields() {
    let order_data = raw_order(Some(vec![
        item("p1", "Saffron", 3, 7, Some(2)),
        item("p2", "Cardamom", 2, 0, None),
    ]));
    let priced = calculate_order_totals(order_data);
    assert_eq!(priced.products[0].total, 21);
    assert_eq!(priced.products[1].total, 0);
    assert_eq!(priced.details.total_value, 21);
    assert_eq!(priced.details.payment_terms.as_deref(), Some("LC_at_sight"));
    assert_eq!(priced.details.delivery_terms.as_deref(), Some("FOB_Mumbai"));
}

#[test]
fn zero_total_value_gives_zero_margin() {
    // Every unit price zero: total_value is 0 and the margin must be
    // exactly 0, not a division fault.
    let order_data = raw_order(Some(vec![item("p1", "Sample", 5, 0, Some(10))]));
    let priced = calculate_order_totals(order_data);
    assert_eq!(priced.details.total_value, 0);
    let analysis = analyze_order_profit(&priced, &vec![None], 0);
    assert_eq!(analysis.profit_margin_bp, 0);
}

#[test]
fn profit_margin_is_exact_basis_points() {
    // total 1,000, cost 600: margin 40% = 4,000 basis points.
    let order_data = raw_order(Some(vec![item("p1", "Saffron", 10, 100, Some(60))]));
    let priced = calculate_order_totals(order_data);
    let analysis = analyze_order_profit(&priced, &vec![None], 0);
    assert_eq!(analysis.profit_margin_bp, 4000);
}

#[test]
fn negative_margin_keeps_its_sign() {
    // total 100, cost 150: margin -50% = -5,000 basis points.
    let order_data = raw_order(Some(vec![item("p1", "Saffron", 10, 10, Some(15))]));
    let priced = calculate_order_totals(order_data);
    let analysis = analyze_order_profit(&priced, &vec![None], 0);
    assert_eq!(analysis.profit_margin_bp, -5000);
}

#[test]
fn risk_score_is_clamped_to_one() {
    // Three items with fresh risk factors at volatility 1.0: each adds
    // 0.1 + 0.5, the raw sum 1.8 clamps to 1.0 (a thousand thousandths).
    let order_data = raw_order(Some(vec![
        item("p1", "A", 1, 1, None),
        item("p2", "B", 1, 1, None),
        item("p3", "C", 1, 1, None),
    ]));
    let priced = calculate_order_totals(order_data);
    let record = MarketRecord {
        timestamp_millis: 1_000,
        prediction: None,
        risk: Some(RiskSignal { volatility_milli: Some(1000) }),
    };
    let records = vec![Some(record), Some(record), Some(record)];
    let analysis = analyze_order_profit(&priced, &records, 1_000);
    assert_eq!(analysis.risk_milli, 1000);
}

#[test]
fn risk_score_sums_below_the_cap() {
    // One item with risk factors and volatility 0.2: 0.1 + 0.1 = 0.2.
    let order_data = raw_order(Some(vec![item("p1", "A", 1, 1, None)]));
    let priced = calculate_order_totals(order_data);
    let record = MarketRecord {
        timestamp_millis: 0,
        prediction: None,
        risk: Some(RiskSignal { volatility_milli: Some(200) }),
    };
    let analysis = analyze_order_profit(&priced, &vec![Some(record)], 0);
    assert_eq!(analysis.risk_milli, 200);
}

#[test]
fn predicted_profit_and_confidence_from_fresh_records() {
    // Item one: qty 10 at 100, predicted 120 -> +200, confidence 0.8.
    // Item two: qty 5 at 50, no prediction: does not lower the average.
    let order_data = raw_order(Some(vec![
        item("p1", "Saffron", 10, 100, None),
        item("p2", "Cardamom", 5, 50, None),
    ]));
    let priced = calculate_order_totals(order_data);
    let records = vec![
        Some(MarketRecord {
            timestamp_millis: 500,
            prediction: Some(PricePrediction { predicted_price: 120, confidence_milli: 800 }),
            risk: None,
        }),
        None,
    ];
    let analysis = analyze_order_profit(&priced, &records, 500);
    assert_eq!(analysis.predicted_total_profit, 200);
    assert_eq!(analysis.confidence_milli, 800);
    assert_eq!(analysis.risk_milli, 0);
}

#[test]
fn confidence_averages_over_predicted_items_only() {
    // Confidences 0.8 and 0.6 over two predicted items average to 0.7;
    // the third, unpredicted item does not lower the average.
    let order_data = raw_order(Some(vec![
        item("p1", "A", 1, 10, None),
        item("p2", "B", 1, 10, None),
        item("p3", "C", 1, 10, None),
    ]));
    let priced = calculate_order_totals(order_data);
    let records = vec![
        Some(MarketRecord {
            timestamp_millis: 0,
            prediction: Some(PricePrediction { predicted_price: 12, confidence_milli: 800 }),
            risk: None,
        }),
        Some(MarketRecord {
            timestamp_millis: 0,
            prediction: Some(PricePrediction { predicted_price: 8, confidence_milli: 600 }),
            risk: None,
        }),
        None,
    ];
    let analysis = analyze_order_profit(&priced, &records, 0);
    assert_eq!(analysis.confidence_milli, 700);
    // Predicted profit sums signed differences: (12-10)*1 + (8-10)*1 = 0.
    assert_eq!(analysis.predicted_total_profit, 0);
}

#[test]
fn stale_records_are_treated_as_absent() {
    // A record older than 24 hours contributes neither prediction nor risk.
    let order_data = raw_order(Some(vec![item("p1", "Saffron", 10, 100, None)]));
    let priced = calculate_order_totals(order_data);
    let day_millis: i64 = 86_400_000;
    let stale = MarketRecord {
        timestamp_millis: 0,
        prediction: Some(PricePrediction { predicted_price: 120, confidence_milli: 800 }),
        risk: Some(RiskSignal { volatility_milli: Some(1000) }),
    };
    let analysis = analyze_order_profit(&priced, &vec![Some(stale)], day_millis + 1);
    assert_eq!(analysis.predicted_total_profit, 0);
    assert_eq!(analysis.confidence_milli, 0);
    assert_eq!(analysis.risk_milli, 0);
    // At exactly the window edge the record is still fresh.
    let edge = analyze_order_profit(&priced, &vec![Some(stale)], day_millis);
    assert_eq!(edge.predicted_total_profit, 200);
}

#[test]
fn limits_check_accepts_ordinary_orders() {
    let order_data = raw_order(Some(vec![item("p1", "Saffron", 10, 100, Some(60))]));
    let records = vec![None];
    assert!(order_within_limits(&order_data, &records, 0));
}

#[test]
fn limits_check_rejects_overflowing_totals() {
    let big = i64::MAX;
    let order_data = raw_order(Some(vec![
        item("p1", "A", big, big, None),
        item("p2", "B", big, big, None),
    ]));
    let records = vec![None, None];
    assert!(!order_within_limits(&order_data, &records, 0));
}
