//! `google-font-preconnect`: a `<link>` to Google Fonts needs
//! `rel="preconnect"`.
use vstd::prelude::*;
use crate::ast::{AstKind, AttributeItem, ElementName};
use crate::attrs::{find_attribute, first_attr, literal_of, literal_string_value};
use crate::diagnostic::{Diagnostic, DiagnosticKind, LintContext, RuleKind};
use crate::text::{starts_with, str_eq};

verus! {

/// The address prefix of Google's font files.
pub open spec fn font_host() -> Seq<char> {
    "https://fonts.gstatic.com"@
}

/// `p` begins `s`.
pub open spec fn is_prefix(p: Seq<char>, s: Seq<char>) -> bool {
    p.len() <= s.len() && s.subrange(0, p.len() as int) == p
}

/// No `rel` attribute, or one whose value is not exactly the literal
/// `preconnect`.
pub open spec fn preconnect_missing(items: Seq<AttributeItem>) -> bool {
    match first_attr(items, "rel"@) {
        Some(a) => literal_of(a) != Some("preconnect"@),
        None => true,
    }
}

/// The diagnostics `google-font-preconnect` reports for a node: one, at the
/// tag name, for a `<link>` whose first `href` is a literal starting with
/// Google's font host and which lacks `rel="preconnect"`.
pub open spec fn google_font_diags(node: AstKind) -> Seq<Diagnostic> {
    match node {
        AstKind::JsxOpeningElement(el) => match el.name {
            ElementName::Identifier(n, span) => match first_attr(el.attributes@, "href"@) {
                Some(h) => match literal_of(h) {
                    Some(url) => if n@ == "link"@ && is_prefix(font_host(), url) && preconnect_missing(el.attributes@) {
                        seq![Diagnostic { rule: RuleKind::GoogleFontPreconnect, span, kind: DiagnosticKind::GoogleFontPreconnectMissing }]
                    } else {
                        Seq::empty()
                    },
                    None => Seq::empty(),
                },
                None => Seq::empty(),
            },
            ElementName::Other(_) => Seq::empty(),
        },
        AstKind::Other(_) => Seq::empty(),
    }
}

/// Ensures that links to Google Fonts are preconnected.
#[derive(Clone, Copy, Debug, Default)]
pub struct GoogleFontPreconnect;

impl GoogleFontPreconnect {
    /// The rule's name.
    pub fn name() -> (r: &'static str)
        ensures
            r@ == "google-font-preconnect"@,
    {
        "google-font-preconnect"
    }

    /// Checks one node.
    pub fn run(&self, node: &AstKind, ctx: &mut LintContext)
        ensures
            final(ctx)@ == old(ctx)@ + google_font_diags(*node),
            final(ctx).plugin_flags() == old(ctx).plugin_flags(),
            final(ctx).settings_spec() == old(ctx).settings_spec(),
    {
        let ghost before = ctx@;
        assert(before + Seq::<Diagnostic>::empty() == before);
        if let AstKind::JsxOpeningElement(el) = node {
            if let ElementName::Identifier(n, span) = &el.name {
                if !str_eq(n.as_str(), "link") {
                    return;
                }
                let href_at = match find_attribute(&el.attributes, "href") {
                    Some(i) => i,
                    None => return,
                };
                let href = match &el.attributes[href_at] {
                    AttributeItem::Attribute(a) => a,
                    AttributeItem::Spread(_) => return,
                };
                let url = match literal_string_value(href) {
                    Some(u) => u,
                    None => return,
                };
                let missing = match find_attribute(&el.attributes, "rel") {
                    None => true,
                    Some(ri) => match &el.attributes[ri] {
                        AttributeItem::Attribute(rel) => match literal_string_value(rel) {
                            Some(v) => !str_eq(v, "preconnect"),
                            None => true,
                        },
                        AttributeItem::Spread(_) => true,
                    },
                };
                if starts_with(url, "https://fonts.gstatic.com") && missing {
                    let d = Diagnostic {
                        rule: RuleKind::GoogleFontPreconnect,
                        span: *span,
                        kind: DiagnosticKind::GoogleFontPreconnectMissing,
                    };
                    ctx.diagnostic(d);
                    assert(before.push(d) == before + seq![d]);
                }
            }
        }
    }
}

} // verus!
