//! Account records and identifiers.

use crate::streaming::text::{spec_chars_cmp, str_cmp, str_eq};
use vstd::prelude::*;

verus! {

/// An account identifier.
#[derive(Debug, Clone, Eq, Hash)]
pub struct AccountNumber(pub String);

impl PartialEq for AccountNumber {
    /// Two account numbers are equal when their text is.
    fn eq(&self, other: &AccountNumber) -> (r: bool) {
        str_eq(self.0.as_str(), other.0.as_str())
    }
}

impl vstd::std_specs::cmp::PartialEqSpecImpl for AccountNumber {
    open spec fn obeys_eq_spec() -> bool {
        true
    }

    open spec fn eq_spec(&self, other: &AccountNumber) -> bool {
        self.0@ == other.0@
    }
}

impl PartialOrd for AccountNumber {
    /// Account numbers order lexicographically by their text.
    fn partial_cmp(&self, other: &AccountNumber) -> (r: Option<core::cmp::Ordering>) {
        Option::Some(str_cmp(self.0.as_str(), other.0.as_str()))
    }
}

impl vstd::std_specs::cmp::PartialOrdSpecImpl for AccountNumber {
    open spec fn obeys_partial_cmp_spec() -> bool {
        true
    }

    open spec fn partial_cmp_spec(&self, other: &AccountNumber) -> Option<core::cmp::Ordering> {
        Option::Some(spec_chars_cmp(self.0@, other.0@))
    }
}

impl From<&str> for AccountNumber {
    /// An account number holding exactly the given text.
    fn from(value: &str) -> (r: AccountNumber)
        ensures
            r.0@ == value@,
    {
        AccountNumber(value.to_owned())
    }
}

impl vstd::std_specs::convert::FromSpecImpl<&str> for AccountNumber {
    open spec fn obeys_from_spec() -> bool {
        false
    }

    open spec fn from_spec(t: &str) -> AccountNumber {
        arbitrary()
    }
}

impl From<String> for AccountNumber {
    /// An account number holding exactly the given text.
    fn from(value: String) -> (r: AccountNumber)
        ensures
            r.0@ == value@,
    {
        AccountNumber(value)
    }
}

impl vstd::std_specs::convert::FromSpecImpl<String> for AccountNumber {
    open spec fn obeys_from_spec() -> bool {
        false
    }

    open spec fn from_spec(t: String) -> AccountNumber {
        arbitrary()
    }
}

/// The descriptive record of one account.
#[derive(Debug)]
pub struct AccountDetails {
    pub account_number: AccountNumber,
    pub external_id: Option<String>,
    pub opened_at: String,
    pub nickname: String,
    pub account_type_name: String,
    pub day_trader_status: bool,
    pub is_firm_error: bool,
    pub is_firm_proprietary: bool,
    pub is_test_drive: Option<bool>,
    pub margin_or_cash: String,
    pub is_foreign: bool,
    pub funding_date: Option<String>,
}

/// One account as the account-list endpoint returns it.
#[derive(Debug)]
pub struct AccountInner {
    pub account: AccountDetails,
    pub authority_level: String,
}

/// Whether a balance snapshot was taken at the start or the end of a day.
#[derive(Debug, Clone, Copy, PartialEq, Eq, Structural)]
pub enum SnapshotTimeOfDay {
    EOD,
    BOD,
}

impl SnapshotTimeOfDay {
    /// The snapshot marker's display text.
    pub fn as_str(&self) -> (r: &'static str)
        ensures
            *self is EOD ==> r@ == "EOD"@,
            *self is BOD ==> r@ == "BOD"@,
    {
        match self {
            SnapshotTimeOfDay::EOD => "EOD",
            SnapshotTimeOfDay::BOD => "BOD",
        }
    }
}

} // verus!
