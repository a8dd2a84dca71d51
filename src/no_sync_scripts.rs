//! `no-sync-scripts`: a `<script>` with a `src` must be `async` or `defer`.
use vstd::prelude::*;
use crate::ast::{AstKind, AttributeItem, AttributeName, ElementName};
use crate::diagnostic::{Diagnostic, DiagnosticKind, LintContext, RuleKind};
use crate::names::{name_set_contains, name_set_insert, name_set_new, names_in};
use crate::text::str_eq;

verus! {

/// The plain names of the named attributes of `items`, exactly as written.
pub open spec fn ident_names(items: Seq<AttributeItem>) -> Set<Seq<char>>
    decreases items.len(),
{
    if items.len() == 0 {
        Set::empty()
    } else {
        let prev = ident_names(items.drop_last());
        match items.last() {
            AttributeItem::Attribute(a) => match a.name {
                AttributeName::Identifier(n) => prev.insert(n@),
                AttributeName::Namespaced(_, _) => prev,
            },
            AttributeItem::Spread(_) => prev,
        }
    }
}

/// A script with these attribute names loads synchronously.
pub open spec fn is_sync_script(names: Set<Seq<char>>) -> bool {
    names.contains("src"@) && !names.contains("async"@) && !names.contains("defer"@)
}

/// The diagnostics `no-sync-scripts` reports for a node: one, at the tag
/// name, for a `<script>` whose attributes name `src` and neither `async` nor
/// `defer`.
pub open spec fn no_sync_scripts_diags(node: AstKind) -> Seq<Diagnostic> {
    match node {
        AstKind::JsxOpeningElement(el) => match el.name {
            ElementName::Identifier(n, span) => {
                if n@ == "script"@ && is_sync_script(ident_names(el.attributes@)) {
                    seq![Diagnostic { rule: RuleKind::NoSyncScripts, span, kind: DiagnosticKind::SyncScript }]
                } else {
                    Seq::empty()
                }
            },
            ElementName::Other(_) => Seq::empty(),
        },
        AstKind::Other(_) => Seq::empty(),
    }
}

/// Prevents synchronous scripts.
#[derive(Clone, Copy, Debug, Default)]
pub struct NoSyncScripts;

impl NoSyncScripts {
    /// The rule's name.
    pub fn name() -> (r: &'static str)
        ensures
            r@ == "no-sync-scripts"@,
    {
        "no-sync-scripts"
    }

    /// Checks one node.
    pub fn run(&self, node: &AstKind, ctx: &mut LintContext)
        ensures
            final(ctx)@ == old(ctx)@ + no_sync_scripts_diags(*node),
            final(ctx).plugin_flags() == old(ctx).plugin_flags(),
            final(ctx).settings_spec() == old(ctx).settings_spec(),
    {
        let ghost before = ctx@;
        assert(before + Seq::<Diagnostic>::empty() == before);
        if let AstKind::JsxOpeningElement(el) = node {
            if let ElementName::Identifier(n, span) = &el.name {
                if !str_eq(n.as_str(), "script") {
                    return;
                }
                let mut names = name_set_new();
                let mut i: usize = 0;
                while i < el.attributes.len()
                    invariant
                        i <= el.attributes@.len(),
                        names_in(names) == ident_names(el.attributes@.subrange(0, i as int)),
                    decreases el.attributes@.len() - i,
                {
                    assert(el.attributes@.subrange(0, i + 1).drop_last()
                        == el.attributes@.subrange(0, i as int));
                    if let AttributeItem::Attribute(a) = &el.attributes[i] {
                        if let AttributeName::Identifier(an) = &a.name {
                            name_set_insert(&mut names, an.clone());
                        }
                    }
                    i = i + 1;
                }
                assert(el.attributes@.subrange(0, i as int) == el.attributes@);
                if name_set_contains(&names, "src") && !name_set_contains(&names, "async")
                    && !name_set_contains(&names, "defer") {
                    let d = Diagnostic { rule: RuleKind::NoSyncScripts, span: *span, kind: DiagnosticKind::SyncScript };
                    ctx.diagnostic(d);
                    assert(before.push(d) == before + seq![d]);
                }
            }
        }
    }
}

} // verus!
