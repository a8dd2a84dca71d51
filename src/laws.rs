//! Properties that hold of the rules and of the dispatcher for every input.
use vstd::prelude::*;
use crate::aria::{prop_name, AriaProp};
use crate::ast::{AstKind, AttributeItem, AttributeValue, OpeningElement, Span};
use crate::attrs::{first_attr, has_attr, names_attr};
use crate::diagnostic::{Diagnostic, RuleKind};
use crate::google_font_preconnect::google_font_diags;
use crate::linter::{file_diags, node_diags, rule_diags};
use crate::no_sync_scripts::ident_names;
use crate::role_has_required_aria_props::{missing_props, role_diags, word_diags};

verus! {

/// The diagnostics of `ds` that rule `r` reported, in order.
pub open spec fn reported_by(ds: Seq<Diagnostic>, r: RuleKind) -> Seq<Diagnostic> {
    ds.filter(|d: Diagnostic| d.rule == r)
}

proof fn lemma_word_diags_tagged(items: Seq<AttributeItem>, span: Span, ws: Seq<Seq<char>>)
    ensures
        forall|i: int| 0 <= i < word_diags(items, span, ws).len()
            ==> (#[trigger] word_diags(items, span, ws)[i]).rule == RuleKind::RoleHasRequiredAriaProps,
    decreases ws.len(),
{
    if ws.len() > 0 {
        lemma_word_diags_tagged(items, span, ws.drop_last());
    }
}

/// Every diagnostic a rule reports carries that rule's identity.
proof fn lemma_rule_diags_tagged(r: RuleKind, node: AstKind)
    ensures
        forall|i: int| 0 <= i < rule_diags(r, node).len() ==> (#[trigger] rule_diags(r, node)[i]).rule == r,
{
    if r == RuleKind::RoleHasRequiredAriaProps {
        if let AstKind::JsxOpeningElement(el) = node {
            if let Some(a) = first_attr(el.attributes@, "role"@) {
                if let Some(AttributeValue::Literal(v)) = a.value {
                    lemma_word_diags_tagged(el.attributes@, a.span, crate::text::words_of(v@));
                }
            }
        }
    }
}

proof fn lemma_filter_tagged(ds: Seq<Diagnostic>, t: RuleKind, r: RuleKind)
    requires
        forall|i: int| 0 <= i < ds.len() ==> (#[trigger] ds[i]).rule == t,
    ensures
        reported_by(ds, r) == (if t == r { ds } else { Seq::<Diagnostic>::empty() }),
    decreases ds.len(),
{
    reveal(Seq::filter);
    if ds.len() > 0 {
        lemma_filter_tagged(ds.drop_last(), t, r);
        assert(ds.drop_last().push(ds.last()) == ds);
    }
}

proof fn lemma_node_diags_reported_by(rules: Seq<RuleKind>, node: AstKind, r: RuleKind)
    requires
        rules.no_duplicates(),
    ensures
        reported_by(node_diags(rules, node), r) == (if rules.contains(r) {
            rule_diags(r, node)
        } else {
            Seq::<Diagnostic>::empty()
        }),
    decreases rules.len(),
{
    broadcast use Seq::filter_distributes_over_add;

    reveal(Seq::filter);
    if rules.len() > 0 {
        let init = rules.drop_last();
        let last = rules.last();
        assert(init.no_duplicates());
        lemma_node_diags_reported_by(init, node, r);
        lemma_rule_diags_tagged(last, node);
        lemma_filter_tagged(rule_diags(last, node), last, r);
        let pred = |d: Diagnostic| d.rule == r;
        assert(node_diags(rules, node).filter(pred) == node_diags(init, node).filter(pred) + rule_diags(
            last,
            node,
        ).filter(pred));
        if last == r {
            assert(!init.contains(r)) by {
                if init.contains(r) {
                    let k = choose|k: int| 0 <= k < init.len() && init[k] == r;
                    assert(rules[k] == rules[rules.len() - 1]);
                }
            }
            assert(Seq::<Diagnostic>::empty() + rule_diags(r, node) == rule_diags(r, node));
        } else {
            assert(rules.contains(r) == init.contains(r)) by {
                if rules.contains(r) {
                    let k = choose|k: int| 0 <= k < rules.len() && rules[k] == r;
                    assert(init[k] == r);
                }
                if init.contains(r) {
                    let k = choose|k: int| 0 <= k < init.len() && init[k] == r;
                    assert(rules[k] == r);
                }
            }
            let x = if init.contains(r) { rule_diags(r, node) } else { Seq::<Diagnostic>::empty() };
            assert(x + Seq::<Diagnostic>::empty() == x);
        }
    }
}

proof fn lemma_single_rule(r: RuleKind, node: AstKind)
    ensures
        node_diags(seq![r], node) == rule_diags(r, node),
{
    assert(seq![r].drop_last() =~= Seq::<RuleKind>::empty());
    assert(seq![r].last() == r);
    assert(node_diags(seq![r].drop_last(), node) == Seq::<Diagnostic>::empty());
    assert(node_diags(seq![r], node) == node_diags(seq![r].drop_last(), node) + rule_diags(r, node));
    assert(Seq::<Diagnostic>::empty() + rule_diags(r, node) =~= rule_diags(r, node));
}

/// Rules run together do not affect one another: in a registry whose rules are
/// distinct, what any one rule reports over a file is exactly what it reports
/// when it runs alone. So the order in which the rules are registered changes
/// no rule's output.
pub proof fn lemma_rules_independent(rules: Seq<RuleKind>, nodes: Seq<AstKind>, r: RuleKind)
    requires
        rules.no_duplicates(),
        rules.contains(r),
    ensures
        reported_by(file_diags(rules, nodes), r) == file_diags(seq![r], nodes),
    decreases nodes.len(),
{
    let pred = |d: Diagnostic| d.rule == r;
    if nodes.len() > 0 {
        let n = nodes.last();
        let init = nodes.drop_last();
        lemma_rules_independent(rules, init, r);
        lemma_node_diags_reported_by(rules, n, r);
        lemma_single_rule(r, n);
        Seq::filter_distributes_over_add(file_diags(rules, init), node_diags(rules, n), pred);
    } else {
        reveal(Seq::filter);
        assert(file_diags(rules, nodes).filter(pred) =~= Seq::<Diagnostic>::empty());
    }
}

/// Two registries with the same distinct rules in any order give every rule
/// the same output.
pub proof fn lemma_registration_order_irrelevant(
    rules1: Seq<RuleKind>,
    rules2: Seq<RuleKind>,
    nodes: Seq<AstKind>,
    r: RuleKind,
)
    requires
        rules1.no_duplicates(),
        rules2.no_duplicates(),
        rules1.to_set() == rules2.to_set(),
    ensures
        reported_by(file_diags(rules1, nodes), r) == reported_by(file_diags(rules2, nodes), r),
{
    if rules1.contains(r) {
        assert(rules1.to_set().contains(r));
        assert(rules2.contains(r));
        lemma_rules_independent(rules1, nodes, r);
        lemma_rules_independent(rules2, nodes, r);
    } else {
        assert(!rules2.contains(r)) by {
            if rules2.contains(r) {
                assert(rules2.to_set().contains(r));
            }
        }
        lemma_absent_rule_silent(rules1, nodes, r);
        lemma_absent_rule_silent(rules2, nodes, r);
    }
}

proof fn lemma_absent_rule_silent(rules: Seq<RuleKind>, nodes: Seq<AstKind>, r: RuleKind)
    requires
        rules.no_duplicates(),
        !rules.contains(r),
    ensures
        reported_by(file_diags(rules, nodes), r) == Seq::<Diagnostic>::empty(),
    decreases nodes.len(),
{
    broadcast use Seq::filter_distributes_over_add;

    reveal(Seq::filter);
    if nodes.len() > 0 {
        lemma_absent_rule_silent(rules, nodes.drop_last(), r);
        lemma_node_diags_reported_by(rules, nodes.last(), r);
        let pred = |d: Diagnostic| d.rule == r;
        assert(file_diags(rules, nodes).filter(pred) == file_diags(rules, nodes.drop_last()).filter(pred)
            + node_diags(rules, nodes.last()).filter(pred));
        assert(Seq::<Diagnostic>::empty() + Seq::<Diagnostic>::empty() =~= Seq::<Diagnostic>::empty());
    }
}

/// An element whose `role` value, or whose `href` value for the font rule, is
/// an expression gets no diagnostic from that rule, whatever else it holds.
pub proof fn lemma_non_literal_value_silent(el: OpeningElement)
    ensures
        (first_attr(el.attributes@, "role"@) matches Some(a) && a.value == Some(AttributeValue::Expression))
            ==> role_diags(AstKind::JsxOpeningElement(el)) == Seq::<Diagnostic>::empty(),
        (first_attr(el.attributes@, "href"@) matches Some(a) && a.value == Some(AttributeValue::Expression))
            ==> google_font_diags(AstKind::JsxOpeningElement(el)) == Seq::<Diagnostic>::empty(),
{
}

proof fn lemma_spread_first_attr(a: Seq<AttributeItem>, k: int, s: Span, t: Seq<char>)
    requires
        0 <= k <= a.len(),
    ensures
        first_attr(a.insert(k, AttributeItem::Spread(s)), t) == first_attr(a, t),
    decreases k,
{
    let b = a.insert(k, AttributeItem::Spread(s));
    if k == 0 {
        assert(b.drop_first() =~= a);
    } else {
        assert(b[0] == a[0]);
        assert(b.drop_first() =~= a.drop_first().insert(k - 1, AttributeItem::Spread(s)));
        lemma_spread_first_attr(a.drop_first(), k - 1, s, t);
    }
}

proof fn lemma_spread_has_attr(a: Seq<AttributeItem>, k: int, s: Span, t: Seq<char>)
    requires
        0 <= k <= a.len(),
    ensures
        has_attr(a.insert(k, AttributeItem::Spread(s)), t) == has_attr(a, t),
{
    let b = a.insert(k, AttributeItem::Spread(s));
    if has_attr(a, t) {
        let i = choose|i: int| 0 <= i < a.len() && #[trigger] names_attr(a[i], t);
        if i < k {
            assert(b[i] == a[i]);
        } else {
            assert(b[i + 1] == a[i]);
        }
    }
    if has_attr(b, t) {
        let i = choose|i: int| 0 <= i < b.len() && #[trigger] names_attr(b[i], t);
        if i < k {
            assert(a[i] == b[i]);
        } else {
            assert(i != k);
            assert(a[i - 1] == b[i]);
        }
    }
}

proof fn lemma_same_presence_missing_props(a: Seq<AttributeItem>, b: Seq<AttributeItem>, props: Seq<AriaProp>)
    requires
        forall|t: Seq<char>| #[trigger] has_attr(a, t) == has_attr(b, t),
    ensures
        missing_props(b, props) == missing_props(a, props),
    decreases props.len(),
{
    if props.len() > 0 {
        lemma_same_presence_missing_props(a, b, props.drop_last());
        assert(has_attr(a, prop_name(props.last())) == has_attr(b, prop_name(props.last())));
    }
}

proof fn lemma_same_presence_word_diags(a: Seq<AttributeItem>, b: Seq<AttributeItem>, span: Span, ws: Seq<Seq<char>>)
    requires
        forall|t: Seq<char>| #[trigger] has_attr(a, t) == has_attr(b, t),
    ensures
        word_diags(b, span, ws) == word_diags(a, span, ws),
    decreases ws.len(),
{
    if ws.len() > 0 {
        lemma_same_presence_word_diags(a, b, span, ws.drop_last());
        if let Some(r) = crate::aria::role_of_word(ws.last()) {
            lemma_same_presence_missing_props(a, b, crate::aria::required_props(r));
        }
    }
}

proof fn lemma_spread_ident_names(a: Seq<AttributeItem>, k: int, s: Span)
    requires
        0 <= k <= a.len(),
    ensures
        ident_names(a.insert(k, AttributeItem::Spread(s))) == ident_names(a),
    decreases a.len(),
{
    let b = a.insert(k, AttributeItem::Spread(s));
    if k == a.len() {
        assert(b.drop_last() =~= a);
    } else {
        assert(b.last() == a.last());
        assert(b.drop_last() =~= a.drop_last().insert(k, AttributeItem::Spread(s)));
        lemma_spread_ident_names(a.drop_last(), k, s);
    }
}

/// A spread attribute counts as absent: adding one anywhere in an element's
/// attribute list changes no rule's diagnostics for that element.
pub proof fn lemma_spread_ignored(el: OpeningElement, with_spread: OpeningElement, k: int, s: Span, r: RuleKind)
    requires
        0 <= k <= el.attributes@.len(),
        with_spread.name == el.name,
        with_spread.attributes@ == el.attributes@.insert(k, AttributeItem::Spread(s)),
    ensures
        rule_diags(r, AstKind::JsxOpeningElement(with_spread)) == rule_diags(r, AstKind::JsxOpeningElement(el)),
{
    let a = el.attributes@;
    lemma_spread_first_attr(a, k, s, "role"@);
    lemma_spread_first_attr(a, k, s, "href"@);
    lemma_spread_first_attr(a, k, s, "rel"@);
    lemma_spread_ident_names(a, k, s);
    let b = a.insert(k, AttributeItem::Spread(s));
    assert forall|t: Seq<char>| #[trigger] has_attr(a, t) == has_attr(b, t) by {
        lemma_spread_has_attr(a, k, s, t);
    }
    if let Some(ra) = first_attr(a, "role"@) {
        if let Some(AttributeValue::Literal(v)) = ra.value {
            lemma_same_presence_word_diags(a, b, ra.span, crate::text::words_of(v@));
        }
    }
}

/// The attribute list without its spread attributes, order kept.
pub open spec fn drop_spreads(items: Seq<AttributeItem>) -> Seq<AttributeItem>
    decreases items.len(),
{
    if items.len() == 0 {
        Seq::empty()
    } else if items[0] is Spread {
        drop_spreads(items.drop_first())
    } else {
        seq![items[0]] + drop_spreads(items.drop_first())
    }
}

proof fn lemma_drop_spreads_first_attr(a: Seq<AttributeItem>, t: Seq<char>)
    ensures
        first_attr(drop_spreads(a), t) == first_attr(a, t),
    decreases a.len(),
{
    if a.len() > 0 {
        lemma_drop_spreads_first_attr(a.drop_first(), t);
        if !(a[0] is Spread) {
            let b = seq![a[0]] + drop_spreads(a.drop_first());
            assert(b[0] == a[0]);
            assert(b.drop_first() =~= drop_spreads(a.drop_first()));
        }
    }
}

proof fn lemma_has_attr_front(a: Seq<AttributeItem>, t: Seq<char>)
    requires
        a.len() > 0,
    ensures
        has_attr(a, t) == (names_attr(a[0], t) || has_attr(a.drop_first(), t)),
{
    if has_attr(a, t) {
        let i = choose|i: int| 0 <= i < a.len() && #[trigger] names_attr(a[i], t);
        if i > 0 {
            assert(a.drop_first()[i - 1] == a[i]);
        }
    }
    if has_attr(a.drop_first(), t) {
        let i = choose|i: int| 0 <= i < a.drop_first().len() && #[trigger] names_attr(a.drop_first()[i], t);
        assert(a[i + 1] == a.drop_first()[i]);
    }
}

proof fn lemma_drop_spreads_has_attr(a: Seq<AttributeItem>, t: Seq<char>)
    ensures
        has_attr(drop_spreads(a), t) == has_attr(a, t),
    decreases a.len(),
{
    if a.len() > 0 {
        lemma_drop_spreads_has_attr(a.drop_first(), t);
        lemma_has_attr_front(a, t);
        if !(a[0] is Spread) {
            let b = seq![a[0]] + drop_spreads(a.drop_first());
            assert(b[0] == a[0]);
            assert(b.drop_first() =~= drop_spreads(a.drop_first()));
            lemma_has_attr_front(b, t);
        }
    }
}

proof fn lemma_ident_names_concat(a: Seq<AttributeItem>, b: Seq<AttributeItem>)
    ensures
        ident_names(a + b) == ident_names(a).union(ident_names(b)),
    decreases b.len(),
{
    if b.len() == 0 {
        assert(a + b =~= a);
        assert(ident_names(a).union(Set::empty()) =~= ident_names(a));
    } else {
        lemma_ident_names_concat(a, b.drop_last());
        assert((a + b).drop_last() =~= a + b.drop_last());
        assert((a + b).last() == b.last());
        assert(ident_names(a + b) =~= ident_names(a).union(ident_names(b)));
    }
}

proof fn lemma_drop_spreads_ident_names(a: Seq<AttributeItem>)
    ensures
        ident_names(drop_spreads(a)) == ident_names(a),
    decreases a.len(),
{
    if a.len() > 0 {
        let head = seq![a[0]];
        let rest = a.drop_first();
        lemma_drop_spreads_ident_names(rest);
        assert(a =~= head + rest);
        lemma_ident_names_concat(head, rest);
        assert(head.drop_last() =~= Seq::<AttributeItem>::empty());
        assert(head.last() == a[0]);
        assert(ident_names(head.drop_last()) == Set::<Seq<char>>::empty());
        if a[0] is Spread {
            assert(ident_names(head) =~= Set::<Seq<char>>::empty());
            assert(ident_names(a) =~= ident_names(rest));
        } else {
            lemma_ident_names_concat(head, drop_spreads(rest));
        }
    }
}

/// Spread attributes count as absent: an element and the same element with
/// every spread attribute removed get the same diagnostics from every rule.
pub proof fn lemma_spreads_removed(el: OpeningElement, without: OpeningElement, r: RuleKind)
    requires
        without.name == el.name,
        without.attributes@ == drop_spreads(el.attributes@),
    ensures
        rule_diags(r, AstKind::JsxOpeningElement(without)) == rule_diags(r, AstKind::JsxOpeningElement(el)),
{
    let a = el.attributes@;
    let b = drop_spreads(a);
    lemma_drop_spreads_first_attr(a, "role"@);
    lemma_drop_spreads_first_attr(a, "href"@);
    lemma_drop_spreads_first_attr(a, "rel"@);
    lemma_drop_spreads_ident_names(a);
    assert forall|t: Seq<char>| #[trigger] has_attr(a, t) == has_attr(b, t) by {
        lemma_drop_spreads_has_attr(a, t);
    }
    if let Some(ra) = first_attr(a, "role"@) {
        if let Some(AttributeValue::Literal(v)) = ra.value {
            lemma_same_presence_word_diags(a, b, ra.span, crate::text::words_of(v@));
        }
    }
}

} // verus!
