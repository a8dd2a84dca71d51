//! `role-has-required-aria-props`: an element with an ARIA role must carry
//! every property that role requires.
use vstd::prelude::*;
use crate::aria::{prop_name, required_props, role_name, role_of_word, AriaProp, AriaRole};
use crate::ast::{AstKind, AttributeItem, Span};
use crate::attrs::{find_attribute, first_attr, has_attr, literal_of, literal_string_value};
use crate::diagnostic::{Diagnostic, DiagnosticKind, LintContext, RuleKind};
use crate::text::{is_lower_word, split_words, words_of};

verus! {

/// The properties of `props` that no attribute of `items` names, in order.
pub open spec fn missing_props(items: Seq<AttributeItem>, props: Seq<AriaProp>) -> Seq<AriaProp>
    decreases props.len(),
{
    if props.len() == 0 {
        Seq::empty()
    } else {
        let prev = missing_props(items, props.drop_last());
        if has_attr(items, prop_name(props.last())) {
            prev
        } else {
            prev.push(props.last())
        }
    }
}

/// The diagnostic for a missing property, placed at the `role` attribute.
pub open spec fn missing_prop_diag(span: Span, role: AriaRole, p: AriaProp) -> Diagnostic {
    Diagnostic { rule: RuleKind::RoleHasRequiredAriaProps, span, kind: DiagnosticKind::MissingAriaProp(role, p) }
}

/// One diagnostic for each property of `props` that `items` lacks.
pub open spec fn prop_diags(items: Seq<AttributeItem>, span: Span, role: AriaRole, props: Seq<AriaProp>) -> Seq<Diagnostic> {
    missing_props(items, props).map_values(|p: AriaProp| missing_prop_diag(span, role, p))
}

/// The diagnostics for the words of a `role` value, word by word; words that
/// name no role of the table give none.
pub open spec fn word_diags(items: Seq<AttributeItem>, span: Span, words: Seq<Seq<char>>) -> Seq<Diagnostic>
    decreases words.len(),
{
    if words.len() == 0 {
        Seq::empty()
    } else {
        word_diags(items, span, words.drop_last()) + match role_of_word(words.last()) {
            Some(r) => prop_diags(items, span, r, required_props(r)),
            None => Seq::empty(),
        }
    }
}

/// The diagnostics `role-has-required-aria-props` reports for a node. Only an
/// opening element whose first `role` attribute has a literal value is
/// checked; each word of that value is a role.
pub open spec fn role_diags(node: AstKind) -> Seq<Diagnostic> {
    match node {
        AstKind::JsxOpeningElement(el) => match first_attr(el.attributes@, "role"@) {
            Some(a) => match literal_of(a) {
                Some(v) => word_diags(el.attributes@, a.span, words_of(v)),
                None => Seq::empty(),
            },
            None => Seq::empty(),
        },
        AstKind::Other(_) => Seq::empty(),
    }
}

/// Enforces that elements with ARIA roles have all the attributes their role
/// requires.
#[derive(Clone, Copy, Debug, Default)]
pub struct RoleHasRequiredAriaProps;

impl RoleHasRequiredAriaProps {
    /// The rule's name.
    pub fn name() -> (r: &'static str)
        ensures
            r@ == "role-has-required-aria-props"@,
    {
        "role-has-required-aria-props"
    }

    /// Reports the missing properties of one role.
    fn check_role(items: &Vec<AttributeItem>, span: Span, role: AriaRole, ctx: &mut LintContext)
        ensures
            final(ctx)@ == old(ctx)@ + prop_diags(items@, span, role, required_props(role)),
            final(ctx).plugin_flags() == old(ctx).plugin_flags(),
            final(ctx).settings_spec() == old(ctx).settings_spec(),
    {
        let ghost before = ctx@;
        let props = role.required_props();
        let mut i: usize = 0;
        assert(props@.subrange(0, 0) =~= Seq::<AriaProp>::empty());
        assert(before + Seq::<Diagnostic>::empty() == before);
        while i < props.len()
            invariant
                i <= props@.len(),
                props@ == required_props(role),
                ctx@ == before + prop_diags(items@, span, role, props@.subrange(0, i as int)),
                ctx.plugin_flags() == old(ctx).plugin_flags(),
                ctx.settings_spec() == old(ctx).settings_spec(),
            decreases props@.len() - i,
        {
            let p = props[i];
            let ghost prev = missing_props(items@, props@.subrange(0, i as int));
            let ghost f = |q: AriaProp| missing_prop_diag(span, role, q);
            assert(props@.subrange(0, i + 1).drop_last() == props@.subrange(0, i as int));
            assert(props@.subrange(0, i + 1).last() == p);
            if find_attribute(items, p.name()).is_none() {
                let d = Diagnostic { rule: RuleKind::RoleHasRequiredAriaProps, span, kind: DiagnosticKind::MissingAriaProp(role, p) };
                ctx.diagnostic(d);
                assert(prev.push(p).map_values(f) =~= prev.map_values(f).push(d));
                assert((before + prev.map_values(f)).push(d) =~= before + prev.map_values(f).push(d));
            }
            i = i + 1;
        }
        assert(props@.subrange(0, i as int) == props@);
    }

    /// Checks one node. Where the `role` value is exactly the name of a role
    /// of the table, there is one diagnostic for each required property that
    /// no attribute names (case aside).
    pub fn run(&self, node: &AstKind, ctx: &mut LintContext)
        ensures
            final(ctx)@ == old(ctx)@ + role_diags(*node),
            final(ctx).plugin_flags() == old(ctx).plugin_flags(),
            final(ctx).settings_spec() == old(ctx).settings_spec(),
            forall|r: AriaRole| #![trigger role_name(r)]
                *node matches AstKind::JsxOpeningElement(el) ==> (
                    first_attr(el.attributes@, "role"@) matches Some(a) ==> (
                        literal_of(a) == Some(role_name(r)) ==> final(ctx)@.len() == old(ctx)@.len()
                            + missing_props(el.attributes@, required_props(r)).len())),
    {
        let ghost before = ctx@;
        assert(before + Seq::<Diagnostic>::empty() == before);
        if let AstKind::JsxOpeningElement(el) = node {
            let found = find_attribute(&el.attributes, "role");
            if let Some(ri) = found {
                if let AttributeItem::Attribute(attr) = &el.attributes[ri] {
                    if let Some(v) = literal_string_value(attr) {
                        let words = split_words(v);
                        let ghost ws = words_of(v@);
                        let mut wi: usize = 0;
                        assert(ws.subrange(0, 0) =~= Seq::<Seq<char>>::empty());
                        while wi < words.len()
                            invariant
                                wi <= words@.len(),
                                words@.len() == ws.len(),
                                forall|k: int| 0 <= k < words@.len() ==> #[trigger] words@[k]@ == ws[k],
                                ctx@ == before + word_diags(el.attributes@, attr.span, ws.subrange(0, wi as int)),
                                ctx.plugin_flags() == old(ctx).plugin_flags(),
                                ctx.settings_spec() == old(ctx).settings_spec(),
                            decreases words@.len() - wi,
                        {
                            let ghost mid = ctx@;
                            assert(ws.subrange(0, wi + 1).drop_last() == ws.subrange(0, wi as int));
                            assert(ws.subrange(0, wi + 1).last() == words@[wi as int]@);
                            if let Some(role) = AriaRole::from_word(words[wi].as_str()) {
                                Self::check_role(&el.attributes, attr.span, role, ctx);
                            } else {
                                assert(mid + Seq::<Diagnostic>::empty() == mid);
                            }
                            wi = wi + 1;
                        }
                        assert(ws.subrange(0, wi as int) == ws);
                        proof {
                            assert forall|r: AriaRole| #![trigger role_name(r)] v@ == role_name(r) implies
                                ctx@.len() == before.len() + missing_props(el.attributes@, required_props(r)).len() by {
                                lemma_role_name(r);
                                assert(ws == seq![v@]);
                                assert(ws.drop_last() =~= Seq::<Seq<char>>::empty());
                                assert(ws.last() == role_name(r));
                                let pd = prop_diags(el.attributes@, attr.span, r, required_props(r));
                                assert(word_diags(el.attributes@, attr.span, ws.drop_last()) == Seq::<Diagnostic>::empty());
                                assert(word_diags(el.attributes@, attr.span, ws) == Seq::<Diagnostic>::empty() + pd);
                                assert(pd.len() == missing_props(el.attributes@, required_props(r)).len());
                            }
                        }
                    }
                }
            }
        }
    }
}

/// A role's name is a non-empty lowercase word, and looking it up gives the
/// role back.
proof fn lemma_role_name(r: AriaRole)
    ensures
        is_lower_word(role_name(r)),
        role_name(r).len() > 0,
        role_of_word(role_name(r)) == Some(r),
{
    reveal_strlit("checkbox");
    reveal_strlit("radio");
    reveal_strlit("combobox");
    reveal_strlit("tab");
    reveal_strlit("slider");
    reveal_strlit("scrollbar");
    reveal_strlit("heading");
    reveal_strlit("option");
    assert("checkbox"@.len() == 8);
    assert("radio"@.len() == 5);
    assert("combobox"@.len() == 8);
    assert("tab"@.len() == 3);
    assert("slider"@.len() == 6);
    assert("scrollbar"@.len() == 9);
    assert("heading"@.len() == 7);
    assert("option"@.len() == 6);
    assert("combobox"@[1] != "checkbox"@[1]);
    assert("option"@[0] != "slider"@[0]);
}

} // verus!
