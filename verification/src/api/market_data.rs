//! The market-data query builder: symbols grouped by instrument kind,
//! de-duplicated and kept sorted, rendered as request query pairs.

use crate::streaming::text::{
    lemma_chars_cmp_eq, lemma_chars_cmp_flip, lemma_chars_cmp_trans, spec_chars_cmp, str_cmp,
};
use vstd::prelude::*;

verus! {

/// The instrument groupings the market-data endpoint accepts.
#[derive(Debug, Clone, Copy, PartialEq, Eq, Structural, Hash)]
pub enum MarketDataParam {
    Cryptocurrency,
    Equity,
    EquityOption,
    Index,
    Future,
    FutureOption,
}

/// The query key each grouping carries in the API.
pub open spec fn spec_param_key(p: MarketDataParam) -> Seq<char> {
    match p {
        MarketDataParam::Cryptocurrency => "cryptocurrency"@,
        MarketDataParam::Equity => "equity"@,
        MarketDataParam::EquityOption => "equity-option"@,
        MarketDataParam::Index => "index"@,
        MarketDataParam::Future => "future"@,
        MarketDataParam::FutureOption => "future-option"@,
    }
}

impl MarketDataParam {
    /// The API's query key for this grouping.
    fn as_key(&self) -> (r: &'static str)
        ensures
            r@ == spec_param_key(*self),
    {
        match self {
            MarketDataParam::Cryptocurrency => "cryptocurrency",
            MarketDataParam::Equity => "equity",
            MarketDataParam::EquityOption => "equity-option",
            MarketDataParam::Index => "index",
            MarketDataParam::Future => "future",
            MarketDataParam::FutureOption => "future-option",
        }
    }
}

/// The views of a vector of strings.
pub open spec fn spec_views(v: Seq<String>) -> Seq<Seq<char>> {
    v.map_values(|x: String| x@)
}

/// A strictly sorted sequence: no duplicates, ascending order.
pub open spec fn spec_sorted_strict(l: Seq<Seq<char>>) -> bool {
    forall|i: int, j: int| 0 <= i < j < l.len() ==> spec_chars_cmp(l[i], l[j]) is Less
}

/// The comma-joined rendering of a symbol list.
pub open spec fn spec_join_commas(l: Seq<Seq<char>>) -> Seq<char>
    decreases l.len(),
{
    if l.len() == 0 {
        Seq::empty()
    } else if l.len() == 1 {
        l[0]
    } else {
        spec_join_commas(l.drop_last()) + seq![','] + l.last()
    }
}

/// A builder for market-data queries, one de-duplicated, sorted symbol
/// list per instrument grouping.
#[derive(Debug, Clone)]
pub struct MarketDataRequest {
    cryptocurrency: Vec<String>,
    equity: Vec<String>,
    equity_option: Vec<String>,
    index: Vec<String>,
    future: Vec<String>,
    future_option: Vec<String>,
}

/// Inserts `s` into the sorted list `v`, keeping it sorted and
/// de-duplicated.
fn insert_sorted(v: &mut Vec<String>, s: String)
    requires
        spec_sorted_strict(spec_views(old(v)@)),
    ensures
        spec_sorted_strict(spec_views(final(v)@)),
        forall|x: Seq<char>|
            (#[trigger] spec_views(final(v)@).contains(x)) <==> (spec_views(old(v)@).contains(x)
                || x == s@),
{
    let ghost before = spec_views(v@);
    let n = v.len();
    let mut i: usize = 0;
    let mut found_larger = false;
    while i < n && !found_larger
        invariant
            i <= n,
            n == before.len(),
            before == spec_views(v@),
            spec_sorted_strict(before),
            forall|j: int| 0 <= j < i ==> spec_chars_cmp(before[j], s@) is Less,
            found_larger ==> i < n && (spec_chars_cmp(before[i as int], s@) is Greater),
        decreases n - i, (if found_larger { 0 as int } else { 1 as int }),
    {
        let c = str_cmp(v[i].as_str(), s.as_str());
        if matches!(c, core::cmp::Ordering::Equal) {
            // Already present: the list is unchanged and already contains
            // the symbol.
            proof {
                lemma_chars_cmp_eq(before[i as int], s@);
                assert(before.contains(s@)) by {
                    assert(before[i as int] == s@);
                }
            }
            return ;
        }
        if matches!(c, core::cmp::Ordering::Greater) {
            found_larger = true;
        } else {
            i = i + 1;
        }
    }
    // Everything before `i` is smaller, and either the list is exhausted
    // or `v[i]` is larger.
    proof {
        if found_larger {
            lemma_chars_cmp_flip(s@, before[i as int]);
        }
    }
    v.insert(i, s);
    let ghost after = spec_views(v@);
    proof {
        assert(after =~= before.take(i as int) + seq![s@] + before.skip(i as int));
        // Sortedness: smaller prefix, the new element, larger suffix.
        assert forall|p: int, q: int| 0 <= p < q < after.len() implies spec_chars_cmp(
            after[p],
            after[q],
        ) is Less by {
            let iv = i as int;
            if p < iv && q == iv {
            } else if p < iv && q > iv {
            } else if p == iv && q > iv {
                assert(spec_chars_cmp(s@, before[q - 1]) is Less) by {
                    if iv < q - 1 {
                        lemma_chars_cmp_trans(s@, before[iv], before[q - 1]);
                    }
                }
            } else {
            }
        }
        assert forall|x: Seq<char>| after.contains(x) implies (before.contains(x) || x == s@) by {
            let k = choose|k: int| 0 <= k < after.len() && #[trigger] after[k] == x;
            if k < i as int {
                assert(before[k] == x);
            } else if k == i as int {
            } else {
                assert(before[k - 1] == x);
            }
        }
        assert forall|x: Seq<char>| before.contains(x) implies after.contains(x) by {
            let k = choose|k: int| 0 <= k < before.len() && #[trigger] before[k] == x;
            if k < i as int {
                assert(after[k] == x);
            } else {
                assert(after[k + 1] == x);
            }
        }
        assert(after.contains(s@)) by {
            assert(after[i as int] == s@);
        }
    }
}

impl MarketDataRequest {
    /// The recorded symbols of one grouping, in their sorted order.
    pub closed spec fn syms(&self, p: MarketDataParam) -> Seq<Seq<char>> {
        spec_views(
            match p {
                MarketDataParam::Cryptocurrency => self.cryptocurrency@,
                MarketDataParam::Equity => self.equity@,
                MarketDataParam::EquityOption => self.equity_option@,
                MarketDataParam::Index => self.index@,
                MarketDataParam::Future => self.future@,
                MarketDataParam::FutureOption => self.future_option@,
            },
        )
    }

    /// Every grouping's list is sorted and duplicate-free.
    pub open spec fn wf(&self) -> bool {
        forall|p: MarketDataParam| spec_sorted_strict(#[trigger] self.syms(p))
    }

    /// An empty request.
    pub fn new() -> (r: MarketDataRequest)
        ensures
            r.wf(),
            forall|p: MarketDataParam| (#[trigger] r.syms(p)).len() == 0,
    {
        let r = MarketDataRequest {
            cryptocurrency: Vec::new(),
            equity: Vec::new(),
            equity_option: Vec::new(),
            index: Vec::new(),
            future: Vec::new(),
            future_option: Vec::new(),
        };
        proof {
            assert forall|p: MarketDataParam| (#[trigger] r.syms(p)).len() == 0 by {
                assert(r.syms(p) =~= Seq::<Seq<char>>::empty());
            }
        }
        r
    }

    /// Records one symbol under the given grouping; recording a symbol
    /// twice leaves the request unchanged.
    pub fn add_symbol(&mut self, param: MarketDataParam, symbol: String)
        requires
            old(self).wf(),
        ensures
            final(self).wf(),
            forall|x: Seq<char>|
                (#[trigger] final(self).syms(param).contains(x)) <==> (old(self).syms(
                    param,
                ).contains(x) || x == symbol@),
            forall|q: MarketDataParam| q != param ==> #[trigger] final(self).syms(q) == old(
                self,
            ).syms(q),
    {
        proof {
            assert(spec_sorted_strict(old(self).syms(param)));
        }
        match param {
            MarketDataParam::Cryptocurrency => insert_sorted(&mut self.cryptocurrency, symbol),
            MarketDataParam::Equity => insert_sorted(&mut self.equity, symbol),
            MarketDataParam::EquityOption => insert_sorted(&mut self.equity_option, symbol),
            MarketDataParam::Index => insert_sorted(&mut self.index, symbol),
            MarketDataParam::Future => insert_sorted(&mut self.future, symbol),
            MarketDataParam::FutureOption => insert_sorted(&mut self.future_option, symbol),
        }
        proof {
            assert forall|q: MarketDataParam| q != param implies #[trigger] self.syms(q) == old(
                self,
            ).syms(q) by {
                match q {
                    MarketDataParam::Cryptocurrency => {},
                    MarketDataParam::Equity => {},
                    MarketDataParam::EquityOption => {},
                    MarketDataParam::Index => {},
                    MarketDataParam::Future => {},
                    MarketDataParam::FutureOption => {},
                }
            }
            assert forall|q: MarketDataParam| spec_sorted_strict(#[trigger] self.syms(q)) by {
                if q != param {
                    assert(spec_sorted_strict(old(self).syms(q)));
                }
            }
        }
    }

    /// Records every given symbol under the given grouping.
    pub fn add_symbols(&mut self, param: MarketDataParam, symbols: Vec<String>)
        requires
            old(self).wf(),
        ensures
            final(self).wf(),
            forall|x: Seq<char>|
                (#[trigger] final(self).syms(param).contains(x)) <==> (old(self).syms(
                    param,
                ).contains(x) || symbols@.map_values(|y: String| y@).contains(x)),
            forall|q: MarketDataParam| q != param ==> #[trigger] final(self).syms(q) == old(
                self,
            ).syms(q),
    {
        let ghost views = symbols@.map_values(|y: String| y@);
        let n = symbols.len();
        let mut i: usize = 0;
        while i < n
            invariant
                i <= n,
                n == views.len(),
                views == symbols@.map_values(|y: String| y@),
                self.wf(),
                forall|x: Seq<char>|
                    (#[trigger] self.syms(param).contains(x)) <==> (old(self).syms(
                        param,
                    ).contains(x) || views.take(i as int).contains(x)),
                forall|q: MarketDataParam| q != param ==> #[trigger] self.syms(q) == old(
                    self,
                ).syms(q),
            decreases n - i,
        {
            let s = symbols[i].clone();
            proof {
                assert(views[i as int] == s@);
            }
            self.add_symbol(param, s);
            proof {
                assert forall|x: Seq<char>| views.take(i + 1 as int).contains(x) implies (
                views.take(i as int).contains(x) || x == views[i as int]) by {
                    let k = choose|k: int|
                        0 <= k < i + 1 && #[trigger] views.take(i + 1 as int)[k] == x;
                    if k < i as int {
                        assert(views.take(i as int)[k] == x);
                    }
                }
                assert forall|x: Seq<char>|
                    views.take(i as int).contains(x) implies views.take(i + 1 as int).contains(
                    x,
                ) by {
                    let k = choose|k: int| 0 <= k < i && #[trigger] views.take(i as int)[k] == x;
                    assert(views.take(i + 1 as int)[k] == x);
                }
                assert(views.take(i + 1 as int)[i as int] == views[i as int]);
            }
            i = i + 1;
        }
        proof {
            assert(views.take(n as int) =~= views);
        }
    }

    /// Records one symbol and hands the request back.
    pub fn with_symbol(self, param: MarketDataParam, symbol: String) -> (r: MarketDataRequest)
        requires
            self.wf(),
        ensures
            r.wf(),
            forall|x: Seq<char>|
                (#[trigger] r.syms(param).contains(x)) <==> (self.syms(param).contains(x) || x
                    == symbol@),
            forall|q: MarketDataParam| q != param ==> #[trigger] r.syms(q) == self.syms(q),
    {
        let mut b = self;
        b.add_symbol(param, symbol);
        b
    }

    /// Records every given symbol and hands the request back.
    pub fn with_symbols(self, param: MarketDataParam, symbols: Vec<String>) -> (r:
        MarketDataRequest)
        requires
            self.wf(),
        ensures
            r.wf(),
            forall|x: Seq<char>|
                (#[trigger] r.syms(param).contains(x)) <==> (self.syms(param).contains(x)
                    || symbols@.map_values(|y: String| y@).contains(x)),
            forall|q: MarketDataParam| q != param ==> #[trigger] r.syms(q) == self.syms(q),
    {
        let mut b = self;
        b.add_symbols(param, symbols);
        b
    }

    /// Records one equity symbol.
    pub fn add_equity(&mut self, symbol: String)
        requires
            old(self).wf(),
        ensures
            final(self).wf(),
            forall|x: Seq<char>|
                (#[trigger] final(self).syms(MarketDataParam::Equity).contains(x)) <==> (old(
                    self,
                ).syms(MarketDataParam::Equity).contains(x) || x == symbol@),
            forall|q: MarketDataParam|
                q != MarketDataParam::Equity ==> #[trigger] final(self).syms(q) == old(self).syms(
                    q,
                ),
    {
        self.add_symbol(MarketDataParam::Equity, symbol);
    }

    /// Records one equity-option symbol.
    pub fn add_equity_option(&mut self, symbol: String)
        requires
            old(self).wf(),
        ensures
            final(self).wf(),
            forall|x: Seq<char>|
                (#[trigger] final(self).syms(MarketDataParam::EquityOption).contains(x)) <==> (old(
                    self,
                ).syms(MarketDataParam::EquityOption).contains(x) || x == symbol@),
            forall|q: MarketDataParam|
                q != MarketDataParam::EquityOption ==> #[trigger] final(self).syms(q) == old(
                    self,
                ).syms(q),
    {
        self.add_symbol(MarketDataParam::EquityOption, symbol);
    }

    /// Records one equity symbol and hands the request back.
    pub fn with_equity(self, symbol: String) -> (r: MarketDataRequest)
        requires
            self.wf(),
        ensures
            r.wf(),
            forall|x: Seq<char>|
                (#[trigger] r.syms(MarketDataParam::Equity).contains(x)) <==> (self.syms(
                    MarketDataParam::Equity,
                ).contains(x) || x == symbol@),
            forall|q: MarketDataParam|
                q != MarketDataParam::Equity ==> #[trigger] r.syms(q) == self.syms(q),
    {
        self.with_symbol(MarketDataParam::Equity, symbol)
    }

    /// Records one equity-option symbol and hands the request back.
    pub fn with_equity_option(self, symbol: String) -> (r: MarketDataRequest)
        requires
            self.wf(),
        ensures
            r.wf(),
            forall|x: Seq<char>|
                (#[trigger] r.syms(MarketDataParam::EquityOption).contains(x)) <==> (self.syms(
                    MarketDataParam::EquityOption,
                ).contains(x) || x == symbol@),
            forall|q: MarketDataParam|
                q != MarketDataParam::EquityOption ==> #[trigger] r.syms(q) == self.syms(q),
    {
        self.with_symbol(MarketDataParam::EquityOption, symbol)
    }

    /// Whether no symbol was recorded under any grouping.
    pub fn is_empty(&self) -> (r: bool)
        ensures
            r == (forall|p: MarketDataParam| (#[trigger] self.syms(p)).len() == 0),
    {
        let r = self.cryptocurrency.len() == 0 && self.equity.len() == 0
            && self.equity_option.len() == 0 && self.index.len() == 0 && self.future.len() == 0
            && self.future_option.len() == 0;
        proof {
            if r {
                assert forall|p: MarketDataParam| (#[trigger] self.syms(p)).len() == 0 by {
                    match p {
                        MarketDataParam::Cryptocurrency => {},
                        MarketDataParam::Equity => {},
                        MarketDataParam::EquityOption => {},
                        MarketDataParam::Index => {},
                        MarketDataParam::Future => {},
                        MarketDataParam::FutureOption => {},
                    }
                }
            } else {
                if self.cryptocurrency.len() != 0 {
                    assert(self.syms(MarketDataParam::Cryptocurrency).len() != 0);
                } else if self.equity.len() != 0 {
                    assert(self.syms(MarketDataParam::Equity).len() != 0);
                } else if self.equity_option.len() != 0 {
                    assert(self.syms(MarketDataParam::EquityOption).len() != 0);
                } else if self.index.len() != 0 {
                    assert(self.syms(MarketDataParam::Index).len() != 0);
                } else if self.future.len() != 0 {
                    assert(self.syms(MarketDataParam::Future).len() != 0);
                } else {
                    assert(self.syms(MarketDataParam::FutureOption).len() != 0);
                }
            }
        }
        r
    }

    /// The query pairs one grouping contributes: nothing when it is empty,
    /// else its key and its comma-joined symbols.
    pub open spec fn spec_group_pairs(&self, p: MarketDataParam) -> Seq<(Seq<char>, Seq<char>)> {
        if self.syms(p).len() == 0 {
            Seq::empty()
        } else {
            seq![(spec_param_key(p), spec_join_commas(self.syms(p)))]
        }
    }

    /// Renders the request as query pairs: one pair per non-empty
    /// grouping, groupings in their fixed order, each value the sorted
    /// symbols joined by commas.
    pub fn to_query_pairs(&self) -> (r: Vec<(String, String)>)
        ensures
            r@.map_values(|p: (String, String)| (p.0@, p.1@)) == self.spec_group_pairs(
                MarketDataParam::Cryptocurrency,
            ) + self.spec_group_pairs(MarketDataParam::Equity) + self.spec_group_pairs(
                MarketDataParam::EquityOption,
            ) + self.spec_group_pairs(MarketDataParam::Index) + self.spec_group_pairs(
                MarketDataParam::Future,
            ) + self.spec_group_pairs(MarketDataParam::FutureOption),
    {
        let mut out: Vec<(String, String)> = Vec::new();
        self.push_group(&mut out, MarketDataParam::Cryptocurrency);
        self.push_group(&mut out, MarketDataParam::Equity);
        self.push_group(&mut out, MarketDataParam::EquityOption);
        self.push_group(&mut out, MarketDataParam::Index);
        self.push_group(&mut out, MarketDataParam::Future);
        self.push_group(&mut out, MarketDataParam::FutureOption);
        proof {
            assert(out@.map_values(|p: (String, String)| (p.0@, p.1@)) =~= self.spec_group_pairs(
                MarketDataParam::Cryptocurrency,
            ) + self.spec_group_pairs(MarketDataParam::Equity) + self.spec_group_pairs(
                MarketDataParam::EquityOption,
            ) + self.spec_group_pairs(MarketDataParam::Index) + self.spec_group_pairs(
                MarketDataParam::Future,
            ) + self.spec_group_pairs(MarketDataParam::FutureOption));
        }
        out
    }

    /// Appends one grouping's query pair, when it has symbols.
    fn push_group(&self, out: &mut Vec<(String, String)>, p: MarketDataParam)
        ensures
            final(out)@.map_values(|q: (String, String)| (q.0@, q.1@)) == old(out)@.map_values(
                |q: (String, String)| (q.0@, q.1@),
            ) + self.spec_group_pairs(p),
    {
        let list = match p {
            MarketDataParam::Cryptocurrency => &self.cryptocurrency,
            MarketDataParam::Equity => &self.equity,
            MarketDataParam::EquityOption => &self.equity_option,
            MarketDataParam::Index => &self.index,
            MarketDataParam::Future => &self.future,
            MarketDataParam::FutureOption => &self.future_option,
        };
        if list.len() == 0 {
            proof {
                assert(final(out)@.map_values(|q: (String, String)| (q.0@, q.1@)) =~= old(
                    out,
                )@.map_values(|q: (String, String)| (q.0@, q.1@)) + self.spec_group_pairs(p));
            }
            return ;
        }
        let joined = join_commas(list);
        proof {
            assert(list@.map_values(|x: String| x@) == self.syms(p));
        }
        out.push((p.as_key().to_owned(), joined));
        proof {
            assert(final(out)@.map_values(|q: (String, String)| (q.0@, q.1@)) =~= old(
                out,
            )@.map_values(|q: (String, String)| (q.0@, q.1@)) + self.spec_group_pairs(p));
        }
    }
}

impl Default for MarketDataRequest {
    /// An empty request.
    fn default() -> (r: MarketDataRequest)
        ensures
            r.wf(),
            forall|p: MarketDataParam| (#[trigger] r.syms(p)).len() == 0,
    {
        MarketDataRequest::new()
    }
}

/// Joins the given strings with commas.
fn join_commas(v: &Vec<String>) -> (r: String)
    ensures
        r@ == spec_join_commas(v@.map_values(|x: String| x@)),
{
    let ghost views = v@.map_values(|x: String| x@);
    let mut out = String::new();
    let n = v.len();
    let mut i: usize = 0;
    while i < n
        invariant
            i <= n,
            n == views.len(),
            views == v@.map_values(|x: String| x@),
            out@ == spec_join_commas(views.take(i as int)),
        decreases n - i,
    {
        if i > 0 {
            crate::streaming::text::push_char(&mut out, ',');
        }
        out.append(v[i].as_str());
        proof {
            assert(views.take(i + 1 as int).drop_last() =~= views.take(i as int));
            assert(views.take(i + 1 as int).last() == views[i as int]);
            if i == 0 {
                assert(out@ =~= spec_join_commas(views.take(1)));
            }
        }
        i = i + 1;
    }
    proof {
        assert(views.take(n as int) =~= views);
    }
    out
}

} // verus!
