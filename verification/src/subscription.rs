//! Subscription and usage-record bindings: parameter structures, response
//! resources, and the verified construction of the requests that each
//! operation sends.

use vstd::prelude::*;
use vstd::string::*;
use crate::digits::{dec_i64, dec_u64, i64_to_dec, u64_to_dec};
use crate::encode::{
    contains_key, contains_key_prefixed, lemma_contains_key_concat,
    lemma_contains_key_opt_pair, lemma_contains_key_prefixed_concat,
    lemma_contains_key_prefixed_opt_pair, lemma_first_char_differs,
    lemma_not_contains_if_prefixed, lemma_not_contains_prefixed_if_prefixed, opt_pair, opt_view,
    pairs_view, push_opt, qs_of, query_string, starts_with,
};
use crate::params::{percent_chars, Discount, List, Metadata, Percent, Plan, Timestamp};
use crate::request::{Method, Request};

verus! {

/// Parameters of a subscription cancellation. They travel in the query
/// string of the request.
pub struct CancelParams {
    pub at_period_end: Option<bool>,
}

impl Default for CancelParams {
    /// A cancellation with no options set.
    fn default() -> (r: Self)
        ensures
            r.at_period_end is None,
    {
        CancelParams { at_period_end: None }
    }
}

/// One plan entry of a subscription's item list.
#[derive(Debug)]
pub struct ItemParams {
    pub plan: String,
    pub quantity: Option<u64>,
}

/// When a subscription's trial ends: at a given time, or one of the
/// special values the remote service understands (such as `now`).
#[derive(Debug)]
pub enum TrialEnd {
    Timestamp(Timestamp),
    Special(String),
}

/// The set of parameters that can be used when creating or updating a
/// subscription. Every field is optional; an unset field is left out of
/// the encoded request entirely.
#[derive(Debug)]
pub struct SubscriptionParams {
    pub customer: Option<String>,
    pub application_fee_percent: Option<Percent>,
    pub coupon: Option<String>,
    pub items: Option<Vec<ItemParams>>,
    pub metadata: Option<Metadata>,
    pub plan: Option<String>,
    pub prorate: Option<bool>,
    pub proration_date: Option<Timestamp>,
    pub quantity: Option<u64>,
    pub source: Option<String>,
    pub tax_percent: Option<Percent>,
    pub trial_end: Option<TrialEnd>,
    pub trial_period_days: Option<u64>,
}

impl Default for SubscriptionParams {
    /// A parameter set with no field set: it encodes to no pairs at all.
    fn default() -> (r: Self)
        ensures
            r.customer is None,
            r.application_fee_percent is None,
            r.coupon is None,
            r.items is None,
            r.metadata is None,
            r.plan is None,
            r.prorate is None,
            r.proration_date is None,
            r.quantity is None,
            r.source is None,
            r.tax_percent is None,
            r.trial_end is None,
            r.trial_period_days is None,
    {
        SubscriptionParams {
            customer: None,
            application_fee_percent: None,
            coupon: None,
            items: None,
            metadata: None,
            plan: None,
            prorate: None,
            proration_date: None,
            quantity: None,
            source: None,
            tax_percent: None,
            trial_end: None,
            trial_period_days: None,
        }
    }
}

/// The rendering of an optional count.
pub open spec fn u64_opt(v: Option<u64>) -> Option<Seq<char>> {
    match v {
        Option::None => Option::None,
        Option::Some(n) => Option::Some(dec_u64(n as nat)),
    }
}

/// The rendering of a boolean value.
pub open spec fn bool_chars(b: bool) -> Seq<char> {
    if b {
        "true"@
    } else {
        "false"@
    }
}

/// The rendering of an optional boolean.
pub open spec fn bool_opt(v: Option<bool>) -> Option<Seq<char>> {
    match v {
        Option::None => Option::None,
        Option::Some(b) => Option::Some(bool_chars(b)),
    }
}

/// The rendering of an optional timestamp.
pub open spec fn ts_opt(v: Option<Timestamp>) -> Option<Seq<char>> {
    match v {
        Option::None => Option::None,
        Option::Some(t) => Option::Some(dec_i64(t as int)),
    }
}

/// The rendering of an optional percentage.
pub open spec fn percent_opt(v: Option<Percent>) -> Option<Seq<char>> {
    match v {
        Option::None => Option::None,
        Option::Some(p) => Option::Some(percent_chars(p)),
    }
}

/// The rendering of a trial end: the timestamp's decimal digits, or the
/// special value's own characters.
pub open spec fn trial_chars(t: TrialEnd) -> Seq<char> {
    match t {
        TrialEnd::Timestamp(ts) => dec_i64(ts as int),
        TrialEnd::Special(s) => s@,
    }
}

/// The rendering of an optional trial end.
pub open spec fn trial_opt(v: Option<TrialEnd>) -> Option<Seq<char>> {
    match v {
        Option::None => Option::None,
        Option::Some(t) => Option::Some(trial_chars(t)),
    }
}

/// The key of the plan entry of the item at position `i`.
pub open spec fn item_key_plan(i: nat) -> Seq<char> {
    "items["@ + dec_u64(i) + "][plan]"@
}

/// The key of the quantity entry of the item at position `i`.
pub open spec fn item_key_quantity(i: nat) -> Seq<char> {
    "items["@ + dec_u64(i) + "][quantity]"@
}

/// The pairs contributed by the item at position `i`: its plan, and its
/// quantity when set.
pub open spec fn item_pairs(i: nat, item: ItemParams) -> Seq<(Seq<char>, Seq<char>)> {
    seq![(item_key_plan(i), item.plan@)] + opt_pair(item_key_quantity(i), u64_opt(item.quantity))
}

/// The pairs contributed by the items from position `from` on.
pub open spec fn items_pairs_from(items: Seq<ItemParams>, from: nat) -> Seq<
    (Seq<char>, Seq<char>),
>
    decreases items.len() - from,
    when from <= items.len()
{
    if from >= items.len() {
        Seq::empty()
    } else {
        item_pairs(from, items[from as int]) + items_pairs_from(items, from + 1)
    }
}

/// The pairs contributed by an optional item list.
pub open spec fn items_segment(v: Option<Vec<ItemParams>>) -> Seq<(Seq<char>, Seq<char>)> {
    match v {
        Option::None => Seq::empty(),
        Option::Some(items) => items_pairs_from(items@, 0),
    }
}

/// The key of the metadata entry with key `k`.
pub open spec fn metadata_key(k: Seq<char>) -> Seq<char> {
    "metadata["@ + k + "]"@
}

/// The pairs contributed by the metadata entries from position `from` on.
pub open spec fn metadata_pairs_from(m: Seq<(String, String)>, from: nat) -> Seq<
    (Seq<char>, Seq<char>),
>
    decreases m.len() - from,
    when from <= m.len()
{
    if from >= m.len() {
        Seq::empty()
    } else {
        seq![(metadata_key(m[from as int].0@), m[from as int].1@)] + metadata_pairs_from(
            m,
            from + 1,
        )
    }
}

/// The pairs contributed by an optional metadata set.
pub open spec fn metadata_segment(v: Option<Metadata>) -> Seq<(Seq<char>, Seq<char>)> {
    match v {
        Option::None => Seq::empty(),
        Option::Some(m) => metadata_pairs_from(m@, 0),
    }
}

fn bool_lit(b: bool) -> (s: &'static str)
    ensures
        s@ == bool_chars(b),
{
    if b {
        "true"
    } else {
        "false"
    }
}

fn render_u64_opt(v: &Option<u64>) -> (r: Option<String>)
    ensures
        opt_view(r) == u64_opt(*v),
{
    match v {
        Option::None => None,
        Option::Some(n) => Some(u64_to_dec(*n)),
    }
}

fn render_bool_opt(v: &Option<bool>) -> (r: Option<String>)
    ensures
        opt_view(r) == bool_opt(*v),
{
    match v {
        Option::None => None,
        Option::Some(b) => Some(String::from_str(bool_lit(*b))),
    }
}

fn render_ts_opt(v: &Option<Timestamp>) -> (r: Option<String>)
    ensures
        opt_view(r) == ts_opt(*v),
{
    match v {
        Option::None => None,
        Option::Some(t) => Some(i64_to_dec(*t)),
    }
}

fn render_percent_opt(v: &Option<Percent>) -> (r: Option<String>)
    ensures
        opt_view(r) == percent_opt(*v),
{
    match v {
        Option::None => None,
        Option::Some(p) => Some(p.render()),
    }
}

fn render_trial_opt(v: &Option<TrialEnd>) -> (r: Option<String>)
    ensures
        opt_view(r) == trial_opt(*v),
{
    match v {
        Option::None => None,
        Option::Some(TrialEnd::Timestamp(t)) => Some(i64_to_dec(*t)),
        Option::Some(TrialEnd::Special(s)) => Some(s.clone()),
    }
}

fn push_items_from(out: &mut Vec<(String, String)>, items: &Vec<ItemParams>, from: usize)
    requires
        from <= items.len(),
    ensures
        pairs_view(*final(out)) == pairs_view(*old(out)) + items_pairs_from(
            items@,
            from as nat,
        ),
    decreases items.len() - from,
{
    if from < items.len() {
        let idx = u64_to_dec(from as u64);
        let mut kp = String::from_str("items[");
        kp.append(idx.as_str());
        kp.append("][plan]");
        out.push((kp, items[from].plan.clone()));
        match &items[from].quantity {
            Option::None => {},
            Option::Some(q) => {
                let mut kq = String::from_str("items[");
                kq.append(idx.as_str());
                kq.append("][quantity]");
                out.push((kq, u64_to_dec(*q)));
            },
        }
        proof {
            assert(pairs_view(*out) =~= pairs_view(*old(out)) + item_pairs(
                from as nat,
                items@[from as int],
            ));
        }
        push_items_from(out, items, from + 1);
        proof {
            assert(pairs_view(*out) =~= pairs_view(*old(out)) + items_pairs_from(
                items@,
                from as nat,
            ));
        }
    } else {
        proof {
            assert(pairs_view(*out) =~= pairs_view(*old(out)) + items_pairs_from(
                items@,
                from as nat,
            ));
        }
    }
}

fn push_metadata_from(out: &mut Vec<(String, String)>, m: &Vec<(String, String)>, from: usize)
    requires
        from <= m.len(),
    ensures
        pairs_view(*final(out)) == pairs_view(*old(out)) + metadata_pairs_from(
            m@,
            from as nat,
        ),
    decreases m.len() - from,
{
    if from < m.len() {
        let mut k = String::from_str("metadata[");
        k.append(m[from].0.as_str());
        k.append("]");
        out.push((k, m[from].1.clone()));
        proof {
            assert(pairs_view(*out) =~= pairs_view(*old(out)) + seq![
                (metadata_key(m@[from as int].0@), m@[from as int].1@),
            ]);
        }
        push_metadata_from(out, m, from + 1);
        proof {
            assert(pairs_view(*out) =~= pairs_view(*old(out)) + metadata_pairs_from(
                m@,
                from as nat,
            ));
        }
    } else {
        proof {
            assert(pairs_view(*out) =~= pairs_view(*old(out)) + metadata_pairs_from(
                m@,
                from as nat,
            ));
        }
    }
}

impl SubscriptionParams {
    /// The exact pair sequence this parameter set encodes to, field by
    /// field in declaration order.
    pub open spec fn spec_pairs(self) -> Seq<(Seq<char>, Seq<char>)> {
        opt_pair("customer"@, opt_view(self.customer)) + opt_pair(
            "application_fee_percent"@,
            percent_opt(self.application_fee_percent),
        ) + opt_pair("coupon"@, opt_view(self.coupon)) + items_segment(self.items)
            + metadata_segment(self.metadata) + opt_pair("plan"@, opt_view(self.plan)) + opt_pair(
            "prorate"@,
            bool_opt(self.prorate),
        ) + opt_pair("proration_date"@, ts_opt(self.proration_date)) + opt_pair(
            "quantity"@,
            u64_opt(self.quantity),
        ) + opt_pair("source"@, opt_view(self.source)) + opt_pair(
            "tax_percent"@,
            percent_opt(self.tax_percent),
        ) + opt_pair("trial_end"@, trial_opt(self.trial_end)) + opt_pair(
            "trial_period_days"@,
            u64_opt(self.trial_period_days),
        )
    }

    /// Encodes the parameters as key/value pairs: exactly one pair per set
    /// field (plus one pair per item entry and metadata entry), none for an
    /// unset field.
    pub fn encode(&self) -> (out: Vec<(String, String)>)
        ensures
            pairs_view(out) == self.spec_pairs(),
    {
        let mut out: Vec<(String, String)> = Vec::new();
        push_opt(&mut out, "customer", &self.customer);
        let afp = render_percent_opt(&self.application_fee_percent);
        push_opt(&mut out, "application_fee_percent", &afp);
        push_opt(&mut out, "coupon", &self.coupon);
        match &self.items {
            Option::None => {},
            Option::Some(items) => {
                push_items_from(&mut out, items, 0);
            },
        }
        match &self.metadata {
            Option::None => {},
            Option::Some(m) => {
                push_metadata_from(&mut out, m, 0);
            },
        }
        push_opt(&mut out, "plan", &self.plan);
        let pr = render_bool_opt(&self.prorate);
        push_opt(&mut out, "prorate", &pr);
        let pd = render_ts_opt(&self.proration_date);
        push_opt(&mut out, "proration_date", &pd);
        let q = render_u64_opt(&self.quantity);
        push_opt(&mut out, "quantity", &q);
        push_opt(&mut out, "source", &self.source);
        let tp = render_percent_opt(&self.tax_percent);
        push_opt(&mut out, "tax_percent", &tp);
        let te = render_trial_opt(&self.trial_end);
        push_opt(&mut out, "trial_end", &te);
        let tpd = render_u64_opt(&self.trial_period_days);
        push_opt(&mut out, "trial_period_days", &tpd);
        proof {
            assert(pairs_view(out) =~= (*self).spec_pairs());
        }
        out
    }
}

/// Law: the encoding of a subscription parameter set carries a pair under
/// an optional field's key exactly when that field is set, and a key under
/// the item-list (or metadata) prefix exactly when the item list (or
/// metadata set) is set and non-empty. This holds for every combination of
/// set and unset fields.
#[verifier::rlimit(100)]
pub proof fn lemma_subscription_field_presence(p: SubscriptionParams)
    ensures
        contains_key(p.spec_pairs(), "customer"@) <==> p.customer is Some,
        contains_key(p.spec_pairs(), "application_fee_percent"@)
            <==> p.application_fee_percent is Some,
        contains_key(p.spec_pairs(), "coupon"@) <==> p.coupon is Some,
        contains_key_prefixed(p.spec_pairs(), "items["@) <==> (p.items matches Some(v)
            && v@.len() > 0),
        contains_key_prefixed(p.spec_pairs(), "metadata["@) <==> (p.metadata matches Some(m)
            && m@.len() > 0),
        contains_key(p.spec_pairs(), "plan"@) <==> p.plan is Some,
        contains_key(p.spec_pairs(), "prorate"@) <==> p.prorate is Some,
        contains_key(p.spec_pairs(), "proration_date"@) <==> p.proration_date is Some,
        contains_key(p.spec_pairs(), "quantity"@) <==> p.quantity is Some,
        contains_key(p.spec_pairs(), "source"@) <==> p.source is Some,
        contains_key(p.spec_pairs(), "tax_percent"@) <==> p.tax_percent is Some,
        contains_key(p.spec_pairs(), "trial_end"@) <==> p.trial_end is Some,
        contains_key(p.spec_pairs(), "trial_period_days"@) <==> p.trial_period_days is Some,
{
    reveal_strlit("customer");
    reveal_strlit("application_fee_percent");
    reveal_strlit("coupon");
    reveal_strlit("plan");
    reveal_strlit("prorate");
    reveal_strlit("proration_date");
    reveal_strlit("quantity");
    reveal_strlit("source");
    reveal_strlit("tax_percent");
    reveal_strlit("trial_end");
    reveal_strlit("trial_period_days");
    reveal_strlit("items[");
    reveal_strlit("metadata[");
    assert("customer"@.len() == 8 && "customer"@[0] == 'c');
    assert("application_fee_percent"@.len() == 23 && "application_fee_percent"@[0] == 'a');
    assert("coupon"@.len() == 6 && "coupon"@[0] == 'c');
    assert("plan"@.len() == 4 && "plan"@[0] == 'p');
    assert("prorate"@.len() == 7 && "prorate"@[0] == 'p');
    assert("proration_date"@.len() == 14 && "proration_date"@[0] == 'p');
    assert("quantity"@.len() == 8 && "quantity"@[0] == 'q');
    assert("source"@.len() == 6 && "source"@[0] == 's');
    assert("tax_percent"@.len() == 11 && "tax_percent"@[0] == 't');
    assert("trial_end"@.len() == 9 && "trial_end"@[0] == 't');
    assert("trial_period_days"@.len() == 17 && "trial_period_days"@[0] == 't');
    assert("items["@.len() == 6 && "items["@[0] == 'i');
    assert("metadata["@.len() == 9 && "metadata["@[0] == 'm');
    let s1 = opt_pair("customer"@, opt_view(p.customer));
    let s2 = opt_pair("application_fee_percent"@, percent_opt(p.application_fee_percent));
    let s3 = opt_pair("coupon"@, opt_view(p.coupon));
    let s4 = items_segment(p.items);
    let s5 = metadata_segment(p.metadata);
    let s6 = opt_pair("plan"@, opt_view(p.plan));
    let s7 = opt_pair("prorate"@, bool_opt(p.prorate));
    let s8 = opt_pair("proration_date"@, ts_opt(p.proration_date));
    let s9 = opt_pair("quantity"@, u64_opt(p.quantity));
    let s10 = opt_pair("source"@, opt_view(p.source));
    let s11 = opt_pair("tax_percent"@, percent_opt(p.tax_percent));
    let s12 = opt_pair("trial_end"@, trial_opt(p.trial_end));
    let s13 = opt_pair("trial_period_days"@, u64_opt(p.trial_period_days));
    let ps = p.spec_pairs();
    assert(ps == s1 + s2 + s3 + s4 + s5 + s6 + s7 + s8 + s9 + s10 + s11 + s12 + s13);
    assert forall|k: Seq<char>|
        #[trigger] contains_key(ps, k) == ((p.customer is Some && k == "customer"@) || (
        p.application_fee_percent is Some && k == "application_fee_percent"@) || (
        p.coupon is Some && k == "coupon"@) || contains_key(s4, k) || contains_key(s5, k) || (
        p.plan is Some && k == "plan"@) || (p.prorate is Some && k == "prorate"@) || (
        p.proration_date is Some && k == "proration_date"@) || (p.quantity is Some && k
            == "quantity"@) || (p.source is Some && k == "source"@) || (p.tax_percent is Some
            && k == "tax_percent"@) || (p.trial_end is Some && k == "trial_end"@) || (
        p.trial_period_days is Some && k == "trial_period_days"@)) by {
        lemma_contains_key_concat(s1, s2, k);
        lemma_contains_key_concat(s1 + s2, s3, k);
        lemma_contains_key_concat(s1 + s2 + s3, s4, k);
        lemma_contains_key_concat(s1 + s2 + s3 + s4, s5, k);
        lemma_contains_key_concat(s1 + s2 + s3 + s4 + s5, s6, k);
        lemma_contains_key_concat(s1 + s2 + s3 + s4 + s5 + s6, s7, k);
        lemma_contains_key_concat(s1 + s2 + s3 + s4 + s5 + s6 + s7, s8, k);
        lemma_contains_key_concat(s1 + s2 + s3 + s4 + s5 + s6 + s7 + s8, s9, k);
        lemma_contains_key_concat(s1 + s2 + s3 + s4 + s5 + s6 + s7 + s8 + s9, s10, k);
        lemma_contains_key_concat(s1 + s2 + s3 + s4 + s5 + s6 + s7 + s8 + s9 + s10, s11, k);
        lemma_contains_key_concat(s1 + s2 + s3 + s4 + s5 + s6 + s7 + s8 + s9 + s10 + s11, s12, k);
        lemma_contains_key_concat(
            s1 + s2 + s3 + s4 + s5 + s6 + s7 + s8 + s9 + s10 + s11 + s12,
            s13,
            k,
        );
        lemma_contains_key_opt_pair("customer"@, opt_view(p.customer), k);
        lemma_contains_key_opt_pair(
            "application_fee_percent"@,
            percent_opt(p.application_fee_percent),
            k,
        );
        lemma_contains_key_opt_pair("coupon"@, opt_view(p.coupon), k);
        lemma_contains_key_opt_pair("plan"@, opt_view(p.plan), k);
        lemma_contains_key_opt_pair("prorate"@, bool_opt(p.prorate), k);
        lemma_contains_key_opt_pair("proration_date"@, ts_opt(p.proration_date), k);
        lemma_contains_key_opt_pair("quantity"@, u64_opt(p.quantity), k);
        lemma_contains_key_opt_pair("source"@, opt_view(p.source), k);
        lemma_contains_key_opt_pair("tax_percent"@, percent_opt(p.tax_percent), k);
        lemma_contains_key_opt_pair("trial_end"@, trial_opt(p.trial_end), k);
        lemma_contains_key_opt_pair("trial_period_days"@, u64_opt(p.trial_period_days), k);
    }
    assert forall|k: Seq<char>| k.len() > 0 && k[0] != 'i' implies !contains_key(s4, k) by {
        match p.items {
            Option::None => {},
            Option::Some(items) => {
                lemma_items_keys(items@, 0);
                lemma_first_char_differs(k, "items["@);
                lemma_not_contains_if_prefixed(s4, "items["@, k);
            },
        }
    }
    assert forall|k: Seq<char>| k.len() > 0 && k[0] != 'm' implies !contains_key(s5, k) by {
        match p.metadata {
            Option::None => {},
            Option::Some(m) => {
                lemma_metadata_keys(m@, 0);
                lemma_first_char_differs(k, "metadata["@);
                lemma_not_contains_if_prefixed(s5, "metadata["@, k);
            },
        }
    }
    assert forall|pre: Seq<char>|
        #[trigger] contains_key_prefixed(ps, pre) == ((p.customer is Some && starts_with(
            "customer"@,
            pre,
        )) || (p.application_fee_percent is Some && starts_with("application_fee_percent"@, pre))
            || (p.coupon is Some && starts_with("coupon"@, pre)) || contains_key_prefixed(s4, pre)
            || contains_key_prefixed(s5, pre) || (p.plan is Some && starts_with("plan"@, pre)) || (
        p.prorate is Some && starts_with("prorate"@, pre)) || (p.proration_date is Some
            && starts_with("proration_date"@, pre)) || (p.quantity is Some && starts_with(
            "quantity"@,
            pre,
        )) || (p.source is Some && starts_with("source"@, pre)) || (p.tax_percent is Some
            && starts_with("tax_percent"@, pre)) || (p.trial_end is Some && starts_with(
            "trial_end"@,
            pre,
        )) || (p.trial_period_days is Some && starts_with("trial_period_days"@, pre))) by {
        lemma_contains_key_prefixed_concat(s1, s2, pre);
        lemma_contains_key_prefixed_concat(s1 + s2, s3, pre);
        lemma_contains_key_prefixed_concat(s1 + s2 + s3, s4, pre);
        lemma_contains_key_prefixed_concat(s1 + s2 + s3 + s4, s5, pre);
        lemma_contains_key_prefixed_concat(s1 + s2 + s3 + s4 + s5, s6, pre);
        lemma_contains_key_prefixed_concat(s1 + s2 + s3 + s4 + s5 + s6, s7, pre);
        lemma_contains_key_prefixed_concat(s1 + s2 + s3 + s4 + s5 + s6 + s7, s8, pre);
        lemma_contains_key_prefixed_concat(s1 + s2 + s3 + s4 + s5 + s6 + s7 + s8, s9, pre);
        lemma_contains_key_prefixed_concat(s1 + s2 + s3 + s4 + s5 + s6 + s7 + s8 + s9, s10, pre);
        lemma_contains_key_prefixed_concat(
            s1 + s2 + s3 + s4 + s5 + s6 + s7 + s8 + s9 + s10,
            s11,
            pre,
        );
        lemma_contains_key_prefixed_concat(
            s1 + s2 + s3 + s4 + s5 + s6 + s7 + s8 + s9 + s10 + s11,
            s12,
            pre,
        );
        lemma_contains_key_prefixed_concat(
            s1 + s2 + s3 + s4 + s5 + s6 + s7 + s8 + s9 + s10 + s11 + s12,
            s13,
            pre,
        );
        lemma_contains_key_prefixed_opt_pair("customer"@, opt_view(p.customer), pre);
        lemma_contains_key_prefixed_opt_pair(
            "application_fee_percent"@,
            percent_opt(p.application_fee_percent),
            pre,
        );
        lemma_contains_key_prefixed_opt_pair("coupon"@, opt_view(p.coupon), pre);
        lemma_contains_key_prefixed_opt_pair("plan"@, opt_view(p.plan), pre);
        lemma_contains_key_prefixed_opt_pair("prorate"@, bool_opt(p.prorate), pre);
        lemma_contains_key_prefixed_opt_pair("proration_date"@, ts_opt(p.proration_date), pre);
        lemma_contains_key_prefixed_opt_pair("quantity"@, u64_opt(p.quantity), pre);
        lemma_contains_key_prefixed_opt_pair("source"@, opt_view(p.source), pre);
        lemma_contains_key_prefixed_opt_pair("tax_percent"@, percent_opt(p.tax_percent), pre);
        lemma_contains_key_prefixed_opt_pair("trial_end"@, trial_opt(p.trial_end), pre);
        lemma_contains_key_prefixed_opt_pair(
            "trial_period_days"@,
            u64_opt(p.trial_period_days),
            pre,
        );
    }
    assert forall|k: Seq<char>| k.len() > 0 && k[0] != 'i' implies !starts_with(
        k,
        "items["@,
    ) by {
        lemma_first_char_differs(k, "items["@);
    }
    assert forall|k: Seq<char>| k.len() > 0 && k[0] != 'm' implies !starts_with(
        k,
        "metadata["@,
    ) by {
        lemma_first_char_differs(k, "metadata["@);
    }
    match p.metadata {
        Option::None => {},
        Option::Some(m) => {
            lemma_metadata_keys(m@, 0);
            lemma_not_contains_prefixed_if_prefixed(s5, "metadata["@, "items["@);
            if m@.len() > 0 {
                lemma_metadata_key_prefix(m@[0].0@);
                assert(s5[0].0 == metadata_key(m@[0].0@));
                assert(contains_key_prefixed(s5, "metadata["@));
            }
        },
    }
    match p.items {
        Option::None => {},
        Option::Some(items) => {
            lemma_items_keys(items@, 0);
            lemma_not_contains_prefixed_if_prefixed(s4, "items["@, "metadata["@);
            if items@.len() > 0 {
                lemma_item_key_prefix(0);
                let head = item_pairs(0, items@[0]);
                assert(s4 == head + items_pairs_from(items@, 1));
                assert(head[0].0 == item_key_plan(0));
                assert(s4[0] == head[0]);
                assert(contains_key_prefixed(s4, "items["@));
            }
        },
    }
}

impl CancelParams {
    /// The exact pair sequence this parameter set encodes to.
    pub open spec fn spec_pairs(self) -> Seq<(Seq<char>, Seq<char>)> {
        opt_pair("at_period_end"@, bool_opt(self.at_period_end))
    }

    /// Encodes the parameters as key/value pairs: one pair when
    /// `at_period_end` is set, none otherwise.
    pub fn encode(&self) -> (out: Vec<(String, String)>)
        ensures
            pairs_view(out) == self.spec_pairs(),
    {
        let mut out: Vec<(String, String)> = Vec::new();
        let ape = render_bool_opt(&self.at_period_end);
        push_opt(&mut out, "at_period_end", &ape);
        proof {
            assert(pairs_view(out) =~= (*self).spec_pairs());
        }
        out
    }
}

/// Every key of an item's pairs begins with the item-list prefix.
proof fn lemma_item_key_prefix(i: nat)
    ensures
        starts_with(item_key_plan(i), "items["@),
        starts_with(item_key_quantity(i), "items["@),
{
    assert(item_key_plan(i).subrange(0, "items["@.len() as int) =~= "items["@);
    assert(item_key_quantity(i).subrange(0, "items["@.len() as int) =~= "items["@);
}

/// Every key contributed by the item list begins with the item-list
/// prefix.
proof fn lemma_items_keys(items: Seq<ItemParams>, from: nat)
    requires
        from <= items.len(),
    ensures
        forall|j: int|
            0 <= j < items_pairs_from(items, from).len() ==> starts_with(
                (#[trigger] items_pairs_from(items, from)[j]).0,
                "items["@,
            ),
    decreases items.len() - from,
{
    if from < items.len() {
        lemma_items_keys(items, from + 1);
        lemma_item_key_prefix(from);
        let head = item_pairs(from, items[from as int]);
        let tail = items_pairs_from(items, from + 1);
        assert(items_pairs_from(items, from) == head + tail);
        assert forall|j: int| 0 <= j < (head + tail).len() implies starts_with(
            ((head + tail)[j]).0,
            "items["@,
        ) by {
            if j < head.len() {
                assert((head + tail)[j] == head[j]);
                assert(head[0].0 == item_key_plan(from));
                if j == 1 {
                    assert(head[1].0 == item_key_quantity(from));
                }
            } else {
                assert((head + tail)[j] == tail[j - head.len()]);
            }
        }
    }
}

/// The key of a metadata entry begins with the metadata prefix.
proof fn lemma_metadata_key_prefix(k: Seq<char>)
    ensures
        starts_with(metadata_key(k), "metadata["@),
{
    assert(metadata_key(k).subrange(0, "metadata["@.len() as int) =~= "metadata["@);
}

/// Every key contributed by the metadata set begins with the metadata
/// prefix.
proof fn lemma_metadata_keys(m: Seq<(String, String)>, from: nat)
    requires
        from <= m.len(),
    ensures
        forall|j: int|
            0 <= j < metadata_pairs_from(m, from).len() ==> starts_with(
                (#[trigger] metadata_pairs_from(m, from)[j]).0,
                "metadata["@,
            ),
    decreases m.len() - from,
{
    if from < m.len() {
        lemma_metadata_keys(m, from + 1);
        lemma_metadata_key_prefix(m[from as int].0@);
        let head = seq![(metadata_key(m[from as int].0@), m[from as int].1@)];
        let tail = metadata_pairs_from(m, from + 1);
        assert(metadata_pairs_from(m, from) == head + tail);
        assert forall|j: int| 0 <= j < (head + tail).len() implies starts_with(
            ((head + tail)[j]).0,
            "metadata["@,
        ) by {
            if j < head.len() {
                assert((head + tail)[j] == head[j]);
            } else {
                assert((head + tail)[j] == tail[j - head.len()]);
            }
        }
    }
}

/// One item of a subscription, as the remote service returns it.
#[derive(Debug)]
pub struct SubscriptionItem {
    pub id: String,
    pub created: Timestamp,
    pub plan: Plan,
    pub quantity: Option<u64>,
}

/// A subscription, as the remote service returns it. The status is the
/// remote lifecycle label, mirrored without interpretation.
#[derive(Debug)]
pub struct Subscription {
    pub id: String,
    pub application_fee_percent: Option<Percent>,
    pub cancel_at_period_end: bool,
    pub canceled_at: Option<Timestamp>,
    pub created: Option<Timestamp>,
    pub current_period_start: Timestamp,
    pub current_period_end: Timestamp,
    pub customer: String,
    pub discount: Option<Discount>,
    pub ended_at: Option<Timestamp>,
    pub items: List<SubscriptionItem>,
    pub livemode: bool,
    pub metadata: Metadata,
    pub plan: Plan,
    pub quantity: Option<u64>,
    pub start: Timestamp,
    pub status: String,
    pub tax_percent: Option<Percent>,
    pub trial_start: Option<Timestamp>,
    pub trial_end: Option<Timestamp>,
}

impl Subscription {
    /// The request that creates a new subscription for a customer: a POST
    /// to the collection path carrying the encoded parameters.
    pub fn create_request(params: &SubscriptionParams) -> (r: Request)
        ensures
            r.method == Method::Post,
            r.path@ == "/subscriptions"@,
            pairs_view(r.body) == params.spec_pairs(),
    {
        Request {
            method: Method::Post,
            path: String::from_str("/subscriptions"),
            body: params.encode(),
        }
    }

    /// The request that retrieves one subscription: a GET to the item path
    /// built from the identifier, with an empty body.
    pub fn retrieve_request(subscription_id: &str) -> (r: Request)
        ensures
            r.method == Method::Get,
            r.path@ == "/subscriptions/"@ + subscription_id@,
            r.body@.len() == 0,
    {
        let mut p = String::from_str("/subscriptions/");
        p.append(subscription_id);
        Request { method: Method::Get, path: p, body: Vec::new() }
    }

    /// The request that updates a subscription's properties: a POST to the
    /// item path carrying the encoded parameters.
    pub fn update_request(subscription_id: &str, params: &SubscriptionParams) -> (r: Request)
        ensures
            r.method == Method::Post,
            r.path@ == "/subscriptions/"@ + subscription_id@,
            pairs_view(r.body) == params.spec_pairs(),
    {
        let mut p = String::from_str("/subscriptions/");
        p.append(subscription_id);
        Request { method: Method::Post, path: p, body: params.encode() }
    }

    /// The request that cancels a subscription: a DELETE to the item path,
    /// with the parameters rendered into the query string. The query
    /// encoding is total on `CancelParams`, so building the request cannot
    /// fail.
    pub fn cancel_request(subscription_id: &str, params: &CancelParams) -> (r: Request)
        ensures
            r.method == Method::Delete,
            r.path@ == "/subscriptions/"@ + subscription_id@ + "?"@ + qs_of(
                params.spec_pairs(),
            ),
            r.body@.len() == 0,
    {
        let mut p = String::from_str("/subscriptions/");
        p.append(subscription_id);
        p.append("?");
        let pairs = params.encode();
        let q = query_string(&pairs);
        p.append(q.as_str());
        Request { method: Method::Delete, path: p, body: Vec::new() }
    }
}

/// The parameters that create one usage record.
#[derive(Debug)]
pub struct UsageRecordParams {
    pub timestamp: Timestamp,
    pub quantity: u64,
    pub action: Option<String>,
}

/// The type of action to apply to the usage record quantity.
pub enum UsageRecordAction {
    Increment,
    SetQuantity,
}

/// The wire rendering of an action.
pub open spec fn action_chars(a: UsageRecordAction) -> Seq<char> {
    match a {
        UsageRecordAction::Increment => "increment"@,
        UsageRecordAction::SetQuantity => "set"@,
    }
}

/// The wire rendering of an optional action.
pub open spec fn action_opt(v: Option<UsageRecordAction>) -> Option<Seq<char>> {
    match v {
        Option::None => Option::None,
        Option::Some(a) => Option::Some(action_chars(a)),
    }
}

impl UsageRecordAction {
    /// The wire name of the action: `increment` or `set`.
    pub fn name(&self) -> (s: String)
        ensures
            s@ == action_chars(*self),
    {
        match self {
            UsageRecordAction::Increment => String::from_str("increment"),
            UsageRecordAction::SetQuantity => String::from_str("set"),
        }
    }
}

/// Relies on `chrono::DateTime::<Utc>::from(SystemTime)` and
/// `chrono::DateTime::timestamp`: the current wall-clock time as whole
/// seconds since the Unix epoch. The conversion handles a clock that
/// reads before the epoch (it negates the distance rather than panic, as
/// `chrono::Utc::now` would); chrono still refuses a clock outside its
/// representable range of hundreds of millennia. Nothing is assumed of
/// the value, since it depends on the clock.
#[verifier::external_body]
fn unix_time_now() -> Timestamp {
    chrono::DateTime::<chrono::Utc>::from(std::time::SystemTime::now()).timestamp()
}

impl UsageRecordParams {
    /// The exact pair sequence this parameter set encodes to: the
    /// timestamp, the quantity, and the action when one is set.
    pub open spec fn spec_pairs(self) -> Seq<(Seq<char>, Seq<char>)> {
        seq![
            ("timestamp"@, dec_i64(self.timestamp as int)),
            ("quantity"@, dec_u64(self.quantity as nat)),
        ] + opt_pair("action"@, opt_view(self.action))
    }

    /// Encodes the parameters as key/value pairs.
    pub fn encode(&self) -> (out: Vec<(String, String)>)
        ensures
            pairs_view(out) == self.spec_pairs(),
    {
        let mut out: Vec<(String, String)> = Vec::new();
        out.push((String::from_str("timestamp"), i64_to_dec(self.timestamp)));
        out.push((String::from_str("quantity"), u64_to_dec(self.quantity)));
        push_opt(&mut out, "action", &self.action);
        proof {
            assert(pairs_view(out) =~= (*self).spec_pairs());
        }
        out
    }

    /// Builds the parameters for one usage record, stamped with the
    /// current wall-clock time. When no action is given, none is encoded,
    /// and the remote service applies its additive default.
    pub fn create(quantity: u64, action: Option<UsageRecordAction>) -> (r: UsageRecordParams)
        ensures
            r.quantity == quantity,
            opt_view(r.action) == action_opt(action),
    {
        let timestamp = unix_time_now();
        let action_name: Option<String> = match action {
            Option::None => None,
            Option::Some(a) => Some(a.name()),
        };
        UsageRecordParams { timestamp, quantity, action: action_name }
    }
}

/// Law: the encoding of a usage record parameter set always carries the
/// timestamp and the quantity, and carries the action exactly when one is
/// set.
pub proof fn lemma_usage_record_field_presence(p: UsageRecordParams)
    ensures
        contains_key(p.spec_pairs(), "timestamp"@),
        contains_key(p.spec_pairs(), "quantity"@),
        contains_key(p.spec_pairs(), "action"@) <==> p.action is Some,
{
    reveal_strlit("timestamp");
    reveal_strlit("quantity");
    reveal_strlit("action");
    assert("timestamp"@.len() == 9 && "timestamp"@[0] == 't');
    assert("quantity"@.len() == 8 && "quantity"@[0] == 'q');
    assert("action"@.len() == 6 && "action"@[0] == 'a');
    let head = seq![
        ("timestamp"@, dec_i64(p.timestamp as int)),
        ("quantity"@, dec_u64(p.quantity as nat)),
    ];
    let tail = opt_pair("action"@, opt_view(p.action));
    let ps = p.spec_pairs();
    assert(ps == head + tail);
    assert(ps[0].0 == "timestamp"@);
    assert(ps[1].0 == "quantity"@);
    lemma_contains_key_concat(head, tail, "action"@);
    lemma_contains_key_opt_pair("action"@, opt_view(p.action), "action"@);
    assert(!contains_key(head, "action"@)) by {
        if contains_key(head, "action"@) {
            let i = choose|i: int| 0 <= i < head.len() && head[i].0 == "action"@;
            assert(i == 0 || i == 1);
        }
    }
}

/// Law: the encoding of a cancellation parameter set carries the
/// `at_period_end` pair exactly when the field is set; with it unset the
/// encoding, and with it the query string, is empty.
pub proof fn lemma_cancel_field_presence(p: CancelParams)
    ensures
        contains_key(p.spec_pairs(), "at_period_end"@) <==> p.at_period_end is Some,
        p.at_period_end is None ==> p.spec_pairs().len() == 0,
        p.at_period_end is None ==> qs_of(p.spec_pairs()) == Seq::<char>::empty(),
{
    lemma_contains_key_opt_pair("at_period_end"@, bool_opt(p.at_period_end), "at_period_end"@);
}

/// A usage record, as the remote service returns it.
#[derive(Debug)]
pub struct UsageRecord {
    pub id: String,
    pub object: String,
    pub livemode: bool,
    pub quantity: u64,
    pub subscription_item: String,
    pub timestamp: Timestamp,
}

impl UsageRecord {
    /// The request that creates a usage record under a subscription item:
    /// a POST to the nested collection path carrying the encoded
    /// parameters.
    pub fn create_request(subscription_item_id: &str, params: &UsageRecordParams) -> (r: Request)
        ensures
            r.method == Method::Post,
            r.path@ == "/subscription_items/"@ + subscription_item_id@ + "/usage_records"@,
            pairs_view(r.body) == params.spec_pairs(),
    {
        let mut p = String::from_str("/subscription_items/");
        p.append(subscription_item_id);
        p.append("/usage_records");
        Request { method: Method::Post, path: p, body: params.encode() }
    }
}

} // verus!
