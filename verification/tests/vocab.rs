//! Tests of the account, order, position and transaction vocabulary.

use std::collections::HashSet;
use tastytrade_rs::api::accounts::{AccountNumber, SnapshotTimeOfDay};
use tastytrade_rs::api::order::{AsSymbol, InstrumentType, Symbol};
use tastytrade_rs::api::position::QuantityDirection;
use tastytrade_rs::api::transaction::{SortOrder, TransactionSubType, TransactionType};

#[test]
fn test_account_number_from_str() {
    let account_number = AccountNumber::from("12345");
    assert_eq!(account_number.0, "12345");
}

#[test]
fn test_account_number_from_string() {
    let account_number = AccountNumber::from("ABCDE".to_string());
    assert_eq!(account_number.0, "ABCDE");
}

#[test]
fn test_account_number_ordering_and_equality() {
    let acc1 = AccountNumber::from("AAA123");
    let acc2 = AccountNumber::from("AAA123");
    let acc3 = AccountNumber::from("BBB456");

    assert_eq!(acc1, acc2);
    assert_ne!(acc1, acc3);
    assert!(acc1 < acc3); // AAA123 < BBB456 alphabetically
}

#[test]
fn test_snapshot_time_of_day_display() {
    assert_eq!(SnapshotTimeOfDay::EOD.as_str(), "EOD");
    assert_eq!(SnapshotTimeOfDay::BOD.as_str(), "BOD");
}

#[test]
fn test_symbol_from_str() {
    let symbol = Symbol::from("AAPL");
    assert_eq!(symbol.0, "AAPL");
}

#[test]
fn test_symbol_from_string() {
    let symbol = Symbol::from("SPY".to_string());
    assert_eq!(symbol.0, "SPY");
}

#[test]
fn test_as_symbol_for_str() {
    let symbol = "MSFT".as_symbol();
    assert_eq!(symbol.0, "MSFT");
}

#[test]
fn test_as_symbol_for_string() {
    let symbol = "TSLA".to_string().as_symbol();
    assert_eq!(symbol.0, "TSLA");
}

#[test]
fn test_as_symbol_for_symbol() {
    let original = Symbol::from("GOOGL");
    let symbol = original.as_symbol();
    assert_eq!(symbol.0, "GOOGL");
}

#[test]
fn test_as_symbol_for_symbol_ref() {
    let original = Symbol::from("NVDA");
    let symbol = (&original).as_symbol();
    assert_eq!(symbol.0, "NVDA");
}

#[test]
fn test_instrument_type_as_api_str() {
    assert_eq!(InstrumentType::Equity.as_api_str(), "Equity");
    assert_eq!(InstrumentType::EquityOption.as_api_str(), "Equity Option");
    assert_eq!(InstrumentType::EquityOffering.as_api_str(), "Equity Offering");
    assert_eq!(InstrumentType::Future.as_api_str(), "Future");
    assert_eq!(InstrumentType::FutureOption.as_api_str(), "Future Option");
    assert_eq!(InstrumentType::Cryptocurrency.as_api_str(), "Cryptocurrency");
    assert_eq!(InstrumentType::Bond.as_api_str(), "Bond");
    assert_eq!(InstrumentType::Index.as_api_str(), "Index");
    assert_eq!(InstrumentType::Warrant.as_api_str(), "Warrant");
    assert_eq!(InstrumentType::Unknown.as_api_str(), "Unknown");
}

#[test]
fn test_symbol_ordering_and_equality() {
    let symbol1 = Symbol::from("AAPL");
    let symbol2 = Symbol::from("AAPL");
    let symbol3 = Symbol::from("MSFT");

    assert_eq!(symbol1, symbol2);
    assert_ne!(symbol1, symbol3);
    assert!(symbol1 < symbol3); // AAPL < MSFT alphabetically
}

#[test]
fn test_symbol_hash() {
    let mut set = HashSet::new();
    set.insert(Symbol::from("AAPL"));
    set.insert(Symbol::from("AAPL")); // Duplicate
    set.insert(Symbol::from("MSFT"));

    assert_eq!(set.len(), 2); // Duplicates are not added
    assert!(set.contains(&Symbol::from("AAPL")));
    assert!(set.contains(&Symbol::from("MSFT")));
}

#[test]
fn test_position_copy_and_clone() {
    let direction = QuantityDirection::Long;
    let direction_copy = direction; // Test Copy
    let direction_clone = direction.clone(); // Test Clone

    assert!(matches!(direction, QuantityDirection::Long));
    assert!(matches!(direction_copy, QuantityDirection::Long));
    assert!(matches!(direction_clone, QuantityDirection::Long));
}

#[test]
fn test_transaction_type_as_api_str() {
    assert_eq!(TransactionType::Trade.as_api_str(), "Trade");
    assert_eq!(TransactionType::MoneyMovement.as_api_str(), "Money Movement");
    assert_eq!(
        TransactionType::AdministrativeTransfer.as_api_str(),
        "Administrative Transfer"
    );
    assert_eq!(TransactionType::ReceiveDeliver.as_api_str(), "Receive Deliver");
    assert_eq!(TransactionType::Unknown.as_api_str(), "Unknown");
}

#[test]
fn test_transaction_sub_type_as_api_str() {
    assert_eq!(TransactionSubType::Dividend.as_api_str(), "Dividend");
    assert_eq!(
        TransactionSubType::CashSettledExercise.as_api_str(),
        "Cash Settled Exercise"
    );
    assert_eq!(TransactionSubType::ACAT.as_api_str(), "ACAT");
    assert_eq!(
        TransactionSubType::FullyPaidStockLendingIncome.as_api_str(),
        "Fully Paid Stock Lending Income"
    );
}

#[test]
fn test_sort_order_as_api_str() {
    assert_eq!(SortOrder::Asc.as_api_str(), "Asc");
    assert_eq!(SortOrder::Desc.as_api_str(), "Desc");
}
