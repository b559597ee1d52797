//! Transaction vocabulary and the transaction-history query builder.

use crate::api::order::{
    spec_action_api, spec_instrument_type_api, Action, InstrumentType, Symbol,
};
use crate::streaming::encode::{push_dec, spec_dec};
use crate::streaming::text::push_char;
use vstd::prelude::*;

verus! {

/// The server-assigned identifier of a transaction.
#[derive(Debug, Clone, Copy, PartialEq, Eq, Structural)]
pub struct TransactionId(pub u64);

/// The top-level kind of a transaction.
#[derive(Debug, Clone, PartialEq, Eq, Structural)]
pub enum TransactionType {
    AdministrativeTransfer,
    MoneyMovement,
    ReceiveDeliver,
    Trade,
    Unknown,
}

/// The name each transaction type carries in the API.
pub open spec fn spec_transaction_type_api(t: TransactionType) -> Seq<char> {
    match t {
        TransactionType::AdministrativeTransfer => "Administrative Transfer"@,
        TransactionType::MoneyMovement => "Money Movement"@,
        TransactionType::ReceiveDeliver => "Receive Deliver"@,
        TransactionType::Trade => "Trade"@,
        TransactionType::Unknown => "Unknown"@,
    }
}

impl TransactionType {
    /// The API's name for this transaction type.
    pub fn as_api_str(&self) -> (r: &'static str)
        ensures
            r@ == spec_transaction_type_api(*self),
    {
        match self {
            TransactionType::AdministrativeTransfer => "Administrative Transfer",
            TransactionType::MoneyMovement => "Money Movement",
            TransactionType::ReceiveDeliver => "Receive Deliver",
            TransactionType::Trade => "Trade",
            TransactionType::Unknown => "Unknown",
        }
    }
}

/// The detailed kind of a transaction.
#[derive(Debug, Clone, PartialEq, Eq, Structural)]
pub enum TransactionSubType {
    ACAT,
    Assignment,
    BalanceAdjustment,
    CashMerger,
    CashSettledAssignment,
    CashSettledExercise,
    CreditInterest,
    DebitInterest,
    Deposit,
    Dividend,
    Exercise,
    Expiration,
    Fee,
    ForwardSplit,
    FullyPaidStockLendingIncome,
    FuturesSettlement,
    MarkToMarket,
    Maturity,
    ReverseSplit,
    ReverseSplitRemoval,
    SpecialDividend,
    StockMerger,
    StockMergerRemoval,
    SymbolChange,
    Transfer,
    Withdrawal,
    Unknown,
}

/// The name each transaction sub-type carries in the API.
pub open spec fn spec_transaction_sub_type_api(t: TransactionSubType) -> Seq<char> {
    match t {
        TransactionSubType::ACAT => "ACAT"@,
        TransactionSubType::Assignment => "Assignment"@,
        TransactionSubType::BalanceAdjustment => "Balance Adjustment"@,
        TransactionSubType::CashMerger => "Cash Merger"@,
        TransactionSubType::CashSettledAssignment => "Cash Settled Assignment"@,
        TransactionSubType::CashSettledExercise => "Cash Settled Exercise"@,
        TransactionSubType::CreditInterest => "Credit Interest"@,
        TransactionSubType::DebitInterest => "Debit Interest"@,
        TransactionSubType::Deposit => "Deposit"@,
        TransactionSubType::Dividend => "Dividend"@,
        TransactionSubType::Exercise => "Exercise"@,
        TransactionSubType::Expiration => "Expiration"@,
        TransactionSubType::Fee => "Fee"@,
        TransactionSubType::ForwardSplit => "Forward Split"@,
        TransactionSubType::FullyPaidStockLendingIncome => "Fully Paid Stock Lending Income"@,
        TransactionSubType::FuturesSettlement => "Futures Settlement"@,
        TransactionSubType::MarkToMarket => "Mark to Market"@,
        TransactionSubType::Maturity => "Maturity"@,
        TransactionSubType::ReverseSplit => "Reverse Split"@,
        TransactionSubType::ReverseSplitRemoval => "Reverse Split Removal"@,
        TransactionSubType::SpecialDividend => "Special Dividend"@,
        TransactionSubType::StockMerger => "Stock Merger"@,
        TransactionSubType::StockMergerRemoval => "Stock Merger Removal"@,
        TransactionSubType::SymbolChange => "Symbol Change"@,
        TransactionSubType::Transfer => "Transfer"@,
        TransactionSubType::Withdrawal => "Withdrawal"@,
        TransactionSubType::Unknown => "Unknown"@,
    }
}

impl TransactionSubType {
    /// The API's name for this transaction sub-type.
    pub fn as_api_str(&self) -> (r: &'static str)
        ensures
            r@ == spec_transaction_sub_type_api(*self),
    {
        match self {
            TransactionSubType::ACAT => "ACAT",
            TransactionSubType::Assignment => "Assignment",
            TransactionSubType::BalanceAdjustment => "Balance Adjustment",
            TransactionSubType::CashMerger => "Cash Merger",
            TransactionSubType::CashSettledAssignment => "Cash Settled Assignment",
            TransactionSubType::CashSettledExercise => "Cash Settled Exercise",
            TransactionSubType::CreditInterest => "Credit Interest",
            TransactionSubType::DebitInterest => "Debit Interest",
            TransactionSubType::Deposit => "Deposit",
            TransactionSubType::Dividend => "Dividend",
            TransactionSubType::Exercise => "Exercise",
            TransactionSubType::Expiration => "Expiration",
            TransactionSubType::Fee => "Fee",
            TransactionSubType::ForwardSplit => "Forward Split",
            TransactionSubType::FullyPaidStockLendingIncome => "Fully Paid Stock Lending Income",
            TransactionSubType::FuturesSettlement => "Futures Settlement",
            TransactionSubType::MarkToMarket => "Mark to Market",
            TransactionSubType::Maturity => "Maturity",
            TransactionSubType::ReverseSplit => "Reverse Split",
            TransactionSubType::ReverseSplitRemoval => "Reverse Split Removal",
            TransactionSubType::SpecialDividend => "Special Dividend",
            TransactionSubType::StockMerger => "Stock Merger",
            TransactionSubType::StockMergerRemoval => "Stock Merger Removal",
            TransactionSubType::SymbolChange => "Symbol Change",
            TransactionSubType::Transfer => "Transfer",
            TransactionSubType::Withdrawal => "Withdrawal",
            TransactionSubType::Unknown => "Unknown",
        }
    }
}

/// The order in which transactions are listed.
#[derive(Debug, Clone, Copy, PartialEq, Eq, Structural)]
pub enum SortOrder {
    Asc,
    Desc,
}

/// The name each sort order carries in the API.
pub open spec fn spec_sort_order_api(s: SortOrder) -> Seq<char> {
    match s {
        SortOrder::Asc => "Asc"@,
        SortOrder::Desc => "Desc"@,
    }
}

impl SortOrder {
    /// The API's name for this sort order.
    pub fn as_api_str(&self) -> (r: &'static str)
        ensures
            r@ == spec_sort_order_api(*self),
    {
        match self {
            SortOrder::Asc => "Asc",
            SortOrder::Desc => "Desc",
        }
    }
}

/// A rejected transaction query.
#[derive(Debug, Clone, Copy, PartialEq, Eq, Structural)]
pub enum TransactionQueryError {
    ConflictingTypeFilters,
    ConflictingDateFilters,
}

impl TransactionQueryError {
    /// The error's display text.
    pub open spec fn spec_display(&self) -> Seq<char> {
        match self {
            TransactionQueryError::ConflictingTypeFilters =>
                "transaction query cannot use both type and types[] filters simultaneously"@,
            TransactionQueryError::ConflictingDateFilters =>
                "transaction query cannot use both date filters (start-date/end-date) and timestamp filters (start-at/end-at) simultaneously"@,
        }
    }

    /// The error's display text.
    pub fn display_string(&self) -> (r: String)
        ensures
            r@ == self.spec_display(),
    {
        match self {
            TransactionQueryError::ConflictingTypeFilters =>
                "transaction query cannot use both type and types[] filters simultaneously"
                .to_owned(),
            TransactionQueryError::ConflictingDateFilters =>
                "transaction query cannot use both date filters (start-date/end-date) and timestamp filters (start-at/end-at) simultaneously"
                .to_owned(),
        }
    }
}

/// A calendar date, held as plain year, month and day.
#[derive(Debug, Clone, Copy, PartialEq, Eq, Structural)]
pub struct Date {
    pub year: u16,
    pub month: u8,
    pub day: u8,
}

/// Two decimal digits, zero-padded.
pub open spec fn spec_pad2(n: int) -> Seq<char>
    recommends
        0 <= n < 100,
{
    if n < 10 {
        seq!['0'] + spec_dec(n)
    } else {
        spec_dec(n)
    }
}

/// Four decimal digits, zero-padded.
pub open spec fn spec_pad4(n: int) -> Seq<char>
    recommends
        0 <= n < 10000,
{
    if n < 10 {
        seq!['0', '0', '0'] + spec_dec(n)
    } else if n < 100 {
        seq!['0', '0'] + spec_dec(n)
    } else if n < 1000 {
        seq!['0'] + spec_dec(n)
    } else {
        spec_dec(n)
    }
}

/// Appends `n` as two zero-padded decimal digits.
fn push_pad2(out: &mut String, n: u64)
    requires
        n < 100,
    ensures
        final(out)@ == old(out)@ + spec_pad2(n as int),
{
    if n < 10 {
        push_char(out, '0');
        push_dec(out, n);
        assert(final(out)@ =~= old(out)@ + spec_pad2(n as int));
    } else {
        push_dec(out, n);
    }
}

/// Appends `n` as four zero-padded decimal digits.
fn push_pad4(out: &mut String, n: u64)
    requires
        n < 10000,
    ensures
        final(out)@ == old(out)@ + spec_pad4(n as int),
{
    if n < 10 {
        push_char(out, '0');
        push_char(out, '0');
        push_char(out, '0');
        push_dec(out, n);
        assert(final(out)@ =~= old(out)@ + spec_pad4(n as int));
    } else if n < 100 {
        push_char(out, '0');
        push_char(out, '0');
        push_dec(out, n);
        assert(final(out)@ =~= old(out)@ + spec_pad4(n as int));
    } else if n < 1000 {
        push_char(out, '0');
        push_dec(out, n);
        assert(final(out)@ =~= old(out)@ + spec_pad4(n as int));
    } else {
        push_dec(out, n);
    }
}

/// The ISO rendering of a date: `YYYY-MM-DD`.
pub open spec fn spec_date_iso(d: Date) -> Seq<char> {
    spec_pad4(d.year as int) + seq!['-'] + spec_pad2(d.month as int) + seq!['-'] + spec_pad2(
        d.day as int,
    )
}

impl Date {
    /// A date the calendar could show.
    pub open spec fn wf(&self) -> bool {
        &&& self.year <= 9999
        &&& 1 <= self.month <= 12
        &&& 1 <= self.day <= 31
    }

    /// Renders the date as `YYYY-MM-DD`.
    pub fn to_iso_string(&self) -> (r: String)
        requires
            self.wf(),
        ensures
            r@ == spec_date_iso(*self),
    {
        let mut out = String::new();
        push_pad4(&mut out, self.year as u64);
        push_char(&mut out, '-');
        push_pad2(&mut out, self.month as u64);
        push_char(&mut out, '-');
        push_pad2(&mut out, self.day as u64);
        proof {
            assert(out@ =~= spec_date_iso(*self));
        }
        out
    }
}

/// A point in time with a fixed offset from UTC, held as plain values.
#[derive(Debug, Clone, Copy, PartialEq, Eq, Structural)]
pub struct Timestamp {
    pub date: Date,
    pub hour: u8,
    pub minute: u8,
    pub second: u8,
    /// Offset east of UTC, in minutes.
    pub offset_minutes: i32,
}

/// The RFC 3339 rendering of a timestamp:
/// `YYYY-MM-DDTHH:MM:SS[+-]HH:MM`.
pub open spec fn spec_timestamp_rfc3339(t: Timestamp) -> Seq<char> {
    let a = if t.offset_minutes >= 0 {
        t.offset_minutes as int
    } else {
        -(t.offset_minutes as int)
    };
    let sign = if t.offset_minutes >= 0 {
        seq!['+']
    } else {
        seq!['-']
    };
    spec_date_iso(t.date) + seq!['T'] + spec_pad2(t.hour as int) + seq![':'] + spec_pad2(
        t.minute as int,
    ) + seq![':'] + spec_pad2(t.second as int) + sign + spec_pad2(a / 60) + seq![':'] + spec_pad2(
        a % 60,
    )
}

impl Timestamp {
    /// A timestamp a clock could show.
    pub open spec fn wf(&self) -> bool {
        &&& self.date.wf()
        &&& self.hour < 24
        &&& self.minute < 60
        &&& self.second < 60
        &&& -1440 < self.offset_minutes < 1440
    }

    /// Renders the timestamp in RFC 3339 form.
    pub fn to_rfc3339_string(&self) -> (r: String)
        requires
            self.wf(),
        ensures
            r@ == spec_timestamp_rfc3339(*self),
    {
        let mut out = String::new();
        push_pad4(&mut out, self.date.year as u64);
        push_char(&mut out, '-');
        push_pad2(&mut out, self.date.month as u64);
        push_char(&mut out, '-');
        push_pad2(&mut out, self.date.day as u64);
        push_char(&mut out, 'T');
        push_pad2(&mut out, self.hour as u64);
        push_char(&mut out, ':');
        push_pad2(&mut out, self.minute as u64);
        push_char(&mut out, ':');
        push_pad2(&mut out, self.second as u64);
        let a: u64 = if self.offset_minutes >= 0 {
            push_char(&mut out, '+');
            self.offset_minutes as u64
        } else {
            push_char(&mut out, '-');
            (-self.offset_minutes) as u64
        };
        push_pad2(&mut out, a / 60);
        push_char(&mut out, ':');
        push_pad2(&mut out, a % 60);
        proof {
            assert(out@ =~= spec_timestamp_rfc3339(*self));
        }
        out
    }
}

/// The filters of a transaction-history query.
pub struct TransactionQueryParams {
    pub sort: Option<SortOrder>,
    pub transaction_type: Option<TransactionType>,
    pub transaction_types: Vec<TransactionType>,
    pub sub_types: Vec<TransactionSubType>,
    pub start_date: Option<Date>,
    pub end_date: Option<Date>,
    pub start_at: Option<Timestamp>,
    pub end_at: Option<Timestamp>,
    pub instrument_type: Option<InstrumentType>,
    pub symbol: Option<Symbol>,
    pub underlying_symbol: Option<Symbol>,
    pub action: Option<Action>,
    pub partition_key: Option<String>,
    pub futures_symbol: Option<String>,
    pub page_offset: Option<usize>,
    pub per_page: Option<usize>,
}

impl Default for TransactionQueryParams {
    /// No filters at all.
    fn default() -> (r: TransactionQueryParams)
        ensures
            r.sort is None,
            r.transaction_type is None,
            r.transaction_types@.len() == 0,
            r.sub_types@.len() == 0,
            r.start_date is None,
            r.end_date is None,
            r.start_at is None,
            r.end_at is None,
            r.instrument_type is None,
            r.symbol is None,
            r.underlying_symbol is None,
            r.action is None,
            r.partition_key is None,
            r.futures_symbol is None,
            r.page_offset is None,
            r.per_page is None,
    {
        TransactionQueryParams {
            sort: Option::None,
            transaction_type: Option::None,
            transaction_types: Vec::new(),
            sub_types: Vec::new(),
            start_date: Option::None,
            end_date: Option::None,
            start_at: Option::None,
            end_at: Option::None,
            instrument_type: Option::None,
            symbol: Option::None,
            underlying_symbol: Option::None,
            action: Option::None,
            partition_key: Option::None,
            futures_symbol: Option::None,
            page_offset: Option::None,
            per_page: Option::None,
        }
    }
}

impl TransactionQueryParams {
    /// Whether the query mixes the single-type filter with the type-list
    /// filter.
    pub open spec fn spec_has_type_conflict(&self) -> bool {
        self.transaction_type is Some && self.transaction_types@.len() > 0
    }

    /// Whether the query mixes whole-day date filters with timestamp
    /// filters.
    pub open spec fn spec_has_date_conflict(&self) -> bool {
        (self.start_date is Some || self.end_date is Some) && (self.start_at is Some
            || self.end_at is Some)
    }

    /// Rejects a query that mixes contradictory filters; accepts exactly
    /// the queries that mix neither the type filters nor the date filters.
    pub fn validate(&self) -> (r: core::result::Result<(), TransactionQueryError>)
        ensures
            r matches Err(e) ==> {
                &&& (e is ConflictingTypeFilters <==> self.spec_has_type_conflict())
                &&& (e is ConflictingDateFilters <==> !self.spec_has_type_conflict()
                    && self.spec_has_date_conflict())
            },
            r is Ok <==> !self.spec_has_type_conflict() && !self.spec_has_date_conflict(),
    {
        if self.transaction_type.is_some() && self.transaction_types.len() > 0 {
            return core::result::Result::Err(TransactionQueryError::ConflictingTypeFilters);
        }
        let has_date_filters = self.start_date.is_some() || self.end_date.is_some();
        let has_timestamp_filters = self.start_at.is_some() || self.end_at.is_some();
        if has_date_filters && has_timestamp_filters {
            return core::result::Result::Err(TransactionQueryError::ConflictingDateFilters);
        }
        core::result::Result::Ok(())
    }
}

/// The query pairs a sort filter contributes.
pub open spec fn spec_q_sort(p: Option<SortOrder>) -> Seq<(Seq<char>, Seq<char>)> {
    match p {
        Option::Some(s) => seq![("sort"@, spec_sort_order_api(s))],
        Option::None => Seq::empty(),
    }
}

/// The query pair a single-type filter contributes.
pub open spec fn spec_q_type(p: Option<TransactionType>) -> Seq<(Seq<char>, Seq<char>)> {
    match p {
        Option::Some(t) => seq![("type"@, spec_transaction_type_api(t))],
        Option::None => Seq::empty(),
    }
}

/// The query pairs a type-list filter contributes, one per listed type.
pub open spec fn spec_q_types(l: Seq<TransactionType>) -> Seq<(Seq<char>, Seq<char>)> {
    l.map_values(|t: TransactionType| ("types[]"@, spec_transaction_type_api(t)))
}

/// The query pairs the sub-type filter contributes, one per listed
/// sub-type.
pub open spec fn spec_q_sub_types(l: Seq<TransactionSubType>) -> Seq<(Seq<char>, Seq<char>)> {
    l.map_values(|t: TransactionSubType| ("sub-type[]"@, spec_transaction_sub_type_api(t)))
}

/// The query pair a date filter contributes.
pub open spec fn spec_q_date(key: Seq<char>, p: Option<Date>) -> Seq<(Seq<char>, Seq<char>)> {
    match p {
        Option::Some(d) => seq![(key, spec_date_iso(d))],
        Option::None => Seq::empty(),
    }
}

/// The query pair a timestamp filter contributes.
pub open spec fn spec_q_at(key: Seq<char>, p: Option<Timestamp>) -> Seq<(Seq<char>, Seq<char>)> {
    match p {
        Option::Some(t) => seq![(key, spec_timestamp_rfc3339(t))],
        Option::None => Seq::empty(),
    }
}

/// The query pair the instrument-type filter contributes.
pub open spec fn spec_q_instrument(p: Option<InstrumentType>) -> Seq<(Seq<char>, Seq<char>)> {
    match p {
        Option::Some(t) => seq![("instrument-type"@, spec_instrument_type_api(t))],
        Option::None => Seq::empty(),
    }
}

/// The query pair a symbol filter contributes.
pub open spec fn spec_q_symbol(key: Seq<char>, p: Option<Symbol>) -> Seq<(Seq<char>, Seq<char>)> {
    match p {
        Option::Some(s) => seq![(key, s.0@)],
        Option::None => Seq::empty(),
    }
}

/// The query pair the action filter contributes.
pub open spec fn spec_q_action(p: Option<Action>) -> Seq<(Seq<char>, Seq<char>)> {
    match p {
        Option::Some(a) => seq![("action"@, spec_action_api(a))],
        Option::None => Seq::empty(),
    }
}

/// The query pair a plain string filter contributes.
pub open spec fn spec_q_string(key: Seq<char>, p: Option<String>) -> Seq<(Seq<char>, Seq<char>)> {
    match p {
        Option::Some(s) => seq![(key, s@)],
        Option::None => Seq::empty(),
    }
}

/// The query pair a numeric filter contributes.
pub open spec fn spec_q_num(key: Seq<char>, p: Option<usize>) -> Seq<(Seq<char>, Seq<char>)> {
    match p {
        Option::Some(n) => seq![(key, spec_dec(n as int))],
        Option::None => Seq::empty(),
    }
}

/// Every query pair the filters produce, in their fixed order.
pub open spec fn spec_into_query(p: TransactionQueryParams) -> Seq<(Seq<char>, Seq<char>)> {
    spec_q_sort(p.sort) + spec_q_type(p.transaction_type) + spec_q_types(p.transaction_types@)
        + spec_q_sub_types(p.sub_types@) + spec_q_date("start-date"@, p.start_date) + spec_q_date(
        "end-date"@,
        p.end_date,
    ) + spec_q_at("start-at"@, p.start_at) + spec_q_at("end-at"@, p.end_at) + spec_q_instrument(
        p.instrument_type,
    ) + spec_q_symbol("symbol"@, p.symbol) + spec_q_symbol(
        "underlying-symbol"@,
        p.underlying_symbol,
    ) + spec_q_action(p.action) + spec_q_string("partition-key"@, p.partition_key) + spec_q_string(
        "futures-symbol"@,
        p.futures_symbol,
    ) + spec_q_num("page-offset"@, p.page_offset) + spec_q_num("per-page"@, p.per_page)
}

/// The views of a vector of query pairs.
pub open spec fn spec_pairs_view(v: Seq<(String, String)>) -> Seq<(Seq<char>, Seq<char>)> {
    v.map_values(|p: (String, String)| (p.0@, p.1@))
}

/// Mapping pair views commutes with appending one pair.
proof fn lemma_pairs_view_push(s: Seq<(String, String)>, p: (String, String))
    ensures
        spec_pairs_view(s.push(p)) == spec_pairs_view(s).push((p.0@, p.1@)),
{
    assert forall|k: int| 0 <= k <= s.len() implies spec_pairs_view(s.push(p))[k]
        == spec_pairs_view(s).push((p.0@, p.1@))[k] by {
        if k < s.len() {
            assert(s.push(p)[k] == s[k]);
            assert(spec_pairs_view(s.push(p))[k] == spec_pairs_view(s)[k]);
        } else {
            assert(s.push(p)[k] == p);
        }
    }
    assert(spec_pairs_view(s.push(p)) =~= spec_pairs_view(s).push((p.0@, p.1@)));
}

/// Appends one query pair.
fn push_pair(out: &mut Vec<(String, String)>, key: &str, val: String)
    ensures
        spec_pairs_view(final(out)@) == spec_pairs_view(old(out)@).push((key@, val@)),
{
    let ghost prev = out@;
    let pair = (key.to_owned(), val);
    let ghost gp = pair;
    out.push(pair);
    proof {
        lemma_pairs_view_push(prev, gp);
    }
}

/// Appends one `types[]` pair per listed type.
fn push_type_pairs(out: &mut Vec<(String, String)>, l: &Vec<TransactionType>)
    ensures
        spec_pairs_view(final(out)@) == spec_pairs_view(old(out)@) + spec_q_types(l@),
{
    let ghost base = spec_pairs_view(out@);
    let n = l.len();
    let mut i: usize = 0;
    proof {
        assert(spec_pairs_view(out@) =~= base + spec_q_types(l@.take(0)));
    }
    while i < n
        invariant
            i <= n,
            n == l@.len(),
            spec_pairs_view(out@) == base + spec_q_types(l@.take(i as int)),
        decreases n - i,
    {
        push_pair(out, "types[]", l[i].as_api_str().to_owned());
        proof {
            assert(spec_pairs_view(out@) =~= base + spec_q_types(l@.take(i + 1 as int)));
        }
        i = i + 1;
    }
    proof {
        assert(l@.take(n as int) =~= l@);
    }
}

/// Appends one `sub-type[]` pair per listed sub-type.
fn push_sub_type_pairs(out: &mut Vec<(String, String)>, l: &Vec<TransactionSubType>)
    ensures
        spec_pairs_view(final(out)@) == spec_pairs_view(old(out)@) + spec_q_sub_types(l@),
{
    let ghost base = spec_pairs_view(out@);
    let n = l.len();
    let mut i: usize = 0;
    proof {
        assert(spec_pairs_view(out@) =~= base + spec_q_sub_types(l@.take(0)));
    }
    while i < n
        invariant
            i <= n,
            n == l@.len(),
            spec_pairs_view(out@) == base + spec_q_sub_types(l@.take(i as int)),
        decreases n - i,
    {
        push_pair(out, "sub-type[]", l[i].as_api_str().to_owned());
        proof {
            assert(spec_pairs_view(out@) =~= base + spec_q_sub_types(l@.take(i + 1 as int)));
        }
        i = i + 1;
    }
    proof {
        assert(l@.take(n as int) =~= l@);
    }
}

impl TransactionQueryParams {
    /// Appends the sort and type filters' pairs.
    fn push_type_filters(&self, out: &mut Vec<(String, String)>)
        ensures
            spec_pairs_view(final(out)@) == spec_pairs_view(old(out)@) + spec_q_sort(self.sort)
                + spec_q_type(self.transaction_type) + spec_q_types(self.transaction_types@)
                + spec_q_sub_types(self.sub_types@),
    {
        let ghost base = spec_pairs_view(out@);
        let ghost mut done = base;
        if let Option::Some(sort) = &self.sort {
            push_pair(out, "sort", sort.as_api_str().to_owned());
        }
        proof {
            done = done + spec_q_sort(self.sort);
            assert(spec_pairs_view(out@) =~= done);
        }
        if let Option::Some(t) = &self.transaction_type {
            push_pair(out, "type", t.as_api_str().to_owned());
        }
        proof {
            done = done + spec_q_type(self.transaction_type);
            assert(spec_pairs_view(out@) =~= done);
        }
        push_type_pairs(out, &self.transaction_types);
        proof {
            done = done + spec_q_types(self.transaction_types@);
            assert(spec_pairs_view(out@) =~= done);
        }
        push_sub_type_pairs(out, &self.sub_types);
        proof {
            done = done + spec_q_sub_types(self.sub_types@);
            assert(spec_pairs_view(out@) =~= done);
        }
    }

    /// Appends the date and timestamp filters' pairs.
    fn push_date_filters(&self, out: &mut Vec<(String, String)>)
        requires
            self.start_date matches Some(d) ==> d.wf(),
            self.end_date matches Some(d) ==> d.wf(),
            self.start_at matches Some(t) ==> t.wf(),
            self.end_at matches Some(t) ==> t.wf(),
        ensures
            spec_pairs_view(final(out)@) == spec_pairs_view(old(out)@) + spec_q_date(
                "start-date"@,
                self.start_date,
            ) + spec_q_date("end-date"@, self.end_date) + spec_q_at("start-at"@, self.start_at)
                + spec_q_at("end-at"@, self.end_at),
    {
        let ghost base = spec_pairs_view(out@);
        let ghost mut done = base;
        if let Option::Some(d) = &self.start_date {
            push_pair(out, "start-date", d.to_iso_string());
        }
        proof {
            done = done + spec_q_date("start-date"@, self.start_date);
            assert(spec_pairs_view(out@) =~= done);
        }
        if let Option::Some(d) = &self.end_date {
            push_pair(out, "end-date", d.to_iso_string());
        }
        proof {
            done = done + spec_q_date("end-date"@, self.end_date);
            assert(spec_pairs_view(out@) =~= done);
        }
        if let Option::Some(t) = &self.start_at {
            push_pair(out, "start-at", t.to_rfc3339_string());
        }
        proof {
            done = done + spec_q_at("start-at"@, self.start_at);
            assert(spec_pairs_view(out@) =~= done);
        }
        if let Option::Some(t) = &self.end_at {
            push_pair(out, "end-at", t.to_rfc3339_string());
        }
        proof {
            done = done + spec_q_at("end-at"@, self.end_at);
            assert(spec_pairs_view(out@) =~= done);
        }
    }

    /// Appends the instrument, symbol and action filters' pairs.
    fn push_instrument_filters(&self, out: &mut Vec<(String, String)>)
        ensures
            spec_pairs_view(final(out)@) == spec_pairs_view(old(out)@) + spec_q_instrument(
                self.instrument_type,
            ) + spec_q_symbol("symbol"@, self.symbol) + spec_q_symbol(
                "underlying-symbol"@,
                self.underlying_symbol,
            ) + spec_q_action(self.action),
    {
        let ghost base = spec_pairs_view(out@);
        let ghost mut done = base;
        if let Option::Some(t) = &self.instrument_type {
            push_pair(out, "instrument-type", t.as_api_str().to_owned());
        }
        proof {
            done = done + spec_q_instrument(self.instrument_type);
            assert(spec_pairs_view(out@) =~= done);
        }
        if let Option::Some(s) = &self.symbol {
            push_pair(out, "symbol", s.0.clone());
        }
        proof {
            done = done + spec_q_symbol("symbol"@, self.symbol);
            assert(spec_pairs_view(out@) =~= done);
        }
        if let Option::Some(s) = &self.underlying_symbol {
            push_pair(out, "underlying-symbol", s.0.clone());
        }
        proof {
            done = done + spec_q_symbol("underlying-symbol"@, self.underlying_symbol);
            assert(spec_pairs_view(out@) =~= done);
        }
        if let Option::Some(a) = &self.action {
            push_pair(out, "action", a.as_api_str().to_owned());
        }
        proof {
            done = done + spec_q_action(self.action);
            assert(spec_pairs_view(out@) =~= done);
        }
    }

    /// Appends the partition, futures-symbol and paging filters' pairs.
    fn push_paging_filters(&self, out: &mut Vec<(String, String)>)
        ensures
            spec_pairs_view(final(out)@) == spec_pairs_view(old(out)@) + spec_q_string(
                "partition-key"@,
                self.partition_key,
            ) + spec_q_string("futures-symbol"@, self.futures_symbol) + spec_q_num(
                "page-offset"@,
                self.page_offset,
            ) + spec_q_num("per-page"@, self.per_page),
    {
        let ghost base = spec_pairs_view(out@);
        let ghost mut done = base;
        if let Option::Some(p) = &self.partition_key {
            push_pair(out, "partition-key", p.clone());
        }
        proof {
            done = done + spec_q_string("partition-key"@, self.partition_key);
            assert(spec_pairs_view(out@) =~= done);
        }
        if let Option::Some(f) = &self.futures_symbol {
            push_pair(out, "futures-symbol", f.clone());
        }
        proof {
            done = done + spec_q_string("futures-symbol"@, self.futures_symbol);
            assert(spec_pairs_view(out@) =~= done);
        }
        if let Option::Some(o) = self.page_offset {
            let mut s = String::new();
            push_dec(&mut s, o as u64);
            push_pair(out, "page-offset", s);
        }
        proof {
            done = done + spec_q_num("page-offset"@, self.page_offset);
            assert(spec_pairs_view(out@) =~= done);
        }
        if let Option::Some(o) = self.per_page {
            let mut s = String::new();
            push_dec(&mut s, o as u64);
            push_pair(out, "per-page", s);
        }
        proof {
            done = done + spec_q_num("per-page"@, self.per_page);
            assert(spec_pairs_view(out@) =~= done);
        }
    }

    /// Turns the filters into request query pairs, in a fixed order, with
    /// dates in ISO form and timestamps in RFC 3339 form.  Queries should
    /// be validated first; this rendering does not check for conflicts.
    pub fn into_query(self) -> (r: Vec<(String, String)>)
        requires
            self.start_date matches Some(d) ==> d.wf(),
            self.end_date matches Some(d) ==> d.wf(),
            self.start_at matches Some(t) ==> t.wf(),
            self.end_at matches Some(t) ==> t.wf(),
        ensures
            spec_pairs_view(r@) == spec_into_query(self),
    {
        let mut out: Vec<(String, String)> = Vec::new();
        proof {
            assert(spec_pairs_view(out@) =~= Seq::<(Seq<char>, Seq<char>)>::empty());
        }
        self.push_type_filters(&mut out);
        self.push_date_filters(&mut out);
        self.push_instrument_filters(&mut out);
        self.push_paging_filters(&mut out);
        proof {
            assert(spec_pairs_view(out@) =~= spec_into_query(self));
        }
        out
    }
}

} // verus!
