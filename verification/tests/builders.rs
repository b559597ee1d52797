//! Tests of the response envelope, the configuration builders and the
//! query builders.

use tastytrade_rs::api::base::{ApiError, Items, Paginated, Pagination, Response, TastyError};
use tastytrade_rs::api::market_data::MarketDataRequest;
use tastytrade_rs::api::oauth2::OAuth2ClientBuilder;
use tastytrade_rs::api::transaction::{
    Date, Timestamp, TransactionQueryError, TransactionQueryParams, TransactionType,
};
use tastytrade_rs::client::FromTastyResponse;

#[test]
fn test_api_error_display() {
    let error = ApiError {
        code: Some("X".to_string()),
        message: "msg".to_string(),
        errors: None,
    };

    assert_eq!(error.display_string(), "Error Some(\"X\"): msg");
}

#[test]
fn test_api_error_display_no_code() {
    let error = ApiError {
        code: None,
        message: "msg".to_string(),
        errors: None,
    };

    assert_eq!(error.display_string(), "Error None: msg");
}

#[test]
fn test_from_tasty_response_for_t() {
    let response = Response {
        data: "test_data".to_string(),
        context: Some("test".to_string()),
        pagination: None,
    };

    let result = String::from_tasty(response);
    assert_eq!(result, "test_data");
}

#[test]
fn request_to_query_pairs_deduplicates() {
    let request = MarketDataRequest::new()
        .with_equity("AAPL".to_string())
        .with_equity("MSFT".to_string())
        .with_equity_option("AAPL  250119C00150000".to_string())
        .with_equity_option("AAPL  250119C00150000".to_string());

    let mut pairs = request.to_query_pairs();
    pairs.sort();

    assert_eq!(pairs.len(), 2);
    assert!(pairs.contains(&("equity".to_string(), "AAPL,MSFT".to_string())));
    assert!(pairs.contains(&(
        "equity-option".to_string(),
        "AAPL  250119C00150000".to_string()
    )));
}

#[test]
fn test_builder_validation() {
    let err = OAuth2ClientBuilder::new().build().unwrap_err();
    let msg = err.display_string();
    assert!(msg.contains("client_id is required"));
}

#[test]
fn builder_requires_secret_and_redirect_in_turn() {
    let err = OAuth2ClientBuilder::new()
        .client_id("id".to_string())
        .build()
        .unwrap_err();
    assert!(err.display_string().contains("client_secret is required"));

    let err = OAuth2ClientBuilder::new()
        .client_id("id".to_string())
        .client_secret("secret".to_string())
        .build()
        .unwrap_err();
    assert!(err.display_string().contains("redirect_uri is required"));

    let cfg = OAuth2ClientBuilder::new()
        .client_id("id".to_string())
        .client_secret("secret".to_string())
        .redirect_uri("http://localhost".to_string())
        .add_scope("read".to_string())
        .demo(true)
        .build()
        .unwrap();
    assert_eq!(cfg.client_id, "id");
    assert_eq!(cfg.client_secret, "secret");
    assert_eq!(cfg.redirect_uri, "http://localhost");
    assert_eq!(cfg.scopes, vec!["read".to_string()]);
}

#[test]
fn market_data_symbols_stay_sorted() {
    let mut request = MarketDataRequest::new();
    request.add_equity("MSFT".to_string());
    request.add_equity("AAPL".to_string());
    request.add_equity("TSLA".to_string());
    let pairs = request.to_query_pairs();
    assert_eq!(pairs, vec![("equity".to_string(), "AAPL,MSFT,TSLA".to_string())]);
    assert!(!request.is_empty());
    assert!(MarketDataRequest::new().is_empty());
}

#[test]
fn test_from_tasty_response_for_paginated() {
    let items = Items { items: vec!["item1".to_string(), "item2".to_string()] };

    let pagination = Pagination {
        per_page: 10,
        page_offset: 0,
        item_offset: 0,
        total_items: 2,
        total_pages: 1,
        current_item_count: 2,
        previous_link: None,
        next_link: None,
        paging_link_template: None,
    };

    let response = Response {
        data: items,
        context: Some("test".to_string()),
        pagination: Some(pagination),
    };

    let result = Paginated::<String>::from_tasty(response);
    assert_eq!(result.items.len(), 2);
    assert_eq!(result.items[0], "item1");
    assert_eq!(result.items[1], "item2");
    assert_eq!(result.pagination.total_items, 2);
}

#[test]
fn tasty_error_display_strings() {
    let e = TastyError::Config("client_id is required".to_string());
    assert_eq!(e.display_string(), "client_id is required");

    let e = TastyError::TransactionQuery(TransactionQueryError::ConflictingTypeFilters);
    assert_eq!(
        e.display_string(),
        "transaction query cannot use both type and types[] filters simultaneously"
    );

    let e = TastyError::TransactionQuery(TransactionQueryError::ConflictingDateFilters);
    assert!(e.display_string().contains("start-date/end-date"));

    let e = TastyError::UnexpectedResponse { status: 503, body: "busy".to_string() };
    assert_eq!(e.display_string(), "Unexpected response (status 503): busy");

    let e = TastyError::Api(ApiError {
        code: None,
        message: "nope".to_string(),
        errors: None,
    });
    assert_eq!(e.display_string(), "Tastyworks API error");
}

#[test]
fn transaction_query_validation_flags_conflicts() {
    let mut params = TransactionQueryParams::default();
    assert!(params.validate().is_ok());

    params.transaction_type = Some(TransactionType::Trade);
    params.transaction_types = vec![TransactionType::MoneyMovement];
    assert!(matches!(
        params.validate(),
        Err(TransactionQueryError::ConflictingTypeFilters)
    ));

    let mut params = TransactionQueryParams::default();
    params.start_date = Some(Date { year: 2023, month: 1, day: 1 });
    params.start_at = Some(Timestamp {
        date: Date { year: 2023, month: 1, day: 1 },
        hour: 0,
        minute: 0,
        second: 0,
        offset_minutes: 0,
    });
    assert!(matches!(
        params.validate(),
        Err(TransactionQueryError::ConflictingDateFilters)
    ));
}

#[test]
fn transaction_query_renders_dates_and_numbers() {
    let mut params = TransactionQueryParams::default();
    params.sort = Some(tastytrade_rs::api::transaction::SortOrder::Asc);
    params.transaction_types = vec![TransactionType::Trade, TransactionType::MoneyMovement];
    params.start_date = Some(Date { year: 2023, month: 1, day: 5 });
    params.end_at = Some(Timestamp {
        date: Date { year: 2024, month: 11, day: 30 },
        hour: 9,
        minute: 5,
        second: 7,
        offset_minutes: -330,
    });
    params.page_offset = Some(3);
    params.per_page = Some(250);

    let pairs = params.into_query();
    assert_eq!(
        pairs,
        vec![
            ("sort".to_string(), "Asc".to_string()),
            ("types[]".to_string(), "Trade".to_string()),
            ("types[]".to_string(), "Money Movement".to_string()),
            ("start-date".to_string(), "2023-01-05".to_string()),
            ("end-at".to_string(), "2024-11-30T09:05:07-05:30".to_string()),
            ("page-offset".to_string(), "3".to_string()),
            ("per-page".to_string(), "250".to_string()),
        ]
    );
}
