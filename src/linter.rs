//! The registry of active rules and the dispatcher that runs them over a
//! file's nodes.
use vstd::prelude::*;
use crate::ast::AstKind;
use crate::diagnostic::{Category, Diagnostic, LintContext, Plugin, RuleKind};
use crate::google_font_preconnect::{google_font_diags, GoogleFontPreconnect};
use crate::no_sync_scripts::{no_sync_scripts_diags, NoSyncScripts};
use crate::role_has_required_aria_props::{role_diags, RoleHasRequiredAriaProps};
use crate::settings::{PluginFlags, Settings};
use crate::text::str_eq;

verus! {

/// What one rule reports for one node.
pub open spec fn rule_diags(r: RuleKind, node: AstKind) -> Seq<Diagnostic> {
    match r {
        RuleKind::RoleHasRequiredAriaProps => role_diags(node),
        RuleKind::GoogleFontPreconnect => google_font_diags(node),
        RuleKind::NoSyncScripts => no_sync_scripts_diags(node),
    }
}

/// What the rules report for one node, rule after rule in registration order.
pub open spec fn node_diags(rules: Seq<RuleKind>, node: AstKind) -> Seq<Diagnostic>
    decreases rules.len(),
{
    if rules.len() == 0 {
        Seq::empty()
    } else {
        node_diags(rules.drop_last(), node) + rule_diags(rules.last(), node)
    }
}

/// What the rules report for a file whose nodes, in traversal order, are
/// `nodes`.
pub open spec fn file_diags(rules: Seq<RuleKind>, nodes: Seq<AstKind>) -> Seq<Diagnostic>
    decreases nodes.len(),
{
    if nodes.len() == 0 {
        Seq::empty()
    } else {
        file_diags(rules, nodes.drop_last()) + node_diags(rules, nodes.last())
    }
}

/// The plugin each rule belongs to.
pub open spec fn plugin_of(r: RuleKind) -> Plugin {
    match r {
        RuleKind::RoleHasRequiredAriaProps => Plugin::JsxA11y,
        RuleKind::GoogleFontPreconnect => Plugin::Nextjs,
        RuleKind::NoSyncScripts => Plugin::Nextjs,
    }
}

/// The rule a name stands for.
pub open spec fn rule_named(name: Seq<char>) -> Option<RuleKind> {
    if name == "role-has-required-aria-props"@ {
        Some(RuleKind::RoleHasRequiredAriaProps)
    } else if name == "google-font-preconnect"@ {
        Some(RuleKind::GoogleFontPreconnect)
    } else if name == "no-sync-scripts"@ {
        Some(RuleKind::NoSyncScripts)
    } else {
        None
    }
}

/// Whether a plugin is switched on.
pub open spec fn plugin_enabled(flags: PluginFlags, p: Plugin) -> bool {
    match p {
        Plugin::JsxA11y => flags.jsx_a11y,
        Plugin::Nextjs => flags.nextjs,
    }
}

/// The rules that a set of plugin switches makes active, in registration order.
pub open spec fn enabled_rules(flags: PluginFlags) -> Seq<RuleKind> {
    (if flags.jsx_a11y {
        seq![RuleKind::RoleHasRequiredAriaProps]
    } else {
        Seq::empty()
    }) + (if flags.nextjs {
        seq![RuleKind::GoogleFontPreconnect, RuleKind::NoSyncScripts]
    } else {
        Seq::empty()
    })
}

impl RuleKind {
    /// The rule's name.
    pub fn name(&self) -> (r: &'static str)
        ensures
            rule_named(r@) == Some(*self),
    {
        proof {
            reveal_strlit("role-has-required-aria-props");
            reveal_strlit("google-font-preconnect");
            reveal_strlit("no-sync-scripts");
            assert("role-has-required-aria-props"@.len() == 28);
            assert("google-font-preconnect"@.len() == 22);
            assert("no-sync-scripts"@.len() == 15);
        }
        match self {
            RuleKind::RoleHasRequiredAriaProps => RoleHasRequiredAriaProps::name(),
            RuleKind::GoogleFontPreconnect => GoogleFontPreconnect::name(),
            RuleKind::NoSyncScripts => NoSyncScripts::name(),
        }
    }

    /// The rule a name stands for, if any.
    pub fn from_name(name: &str) -> (r: Option<RuleKind>)
        ensures
            r == rule_named(name@),
    {
        if str_eq(name, "role-has-required-aria-props") {
            Some(RuleKind::RoleHasRequiredAriaProps)
        } else if str_eq(name, "google-font-preconnect") {
            Some(RuleKind::GoogleFontPreconnect)
        } else if str_eq(name, "no-sync-scripts") {
            Some(RuleKind::NoSyncScripts)
        } else {
            None
        }
    }

    /// The rule's category: every rule here checks correctness.
    pub fn category(&self) -> (r: Category)
        ensures
            r == Category::Correctness,
    {
        Category::Correctness
    }

    /// The plugin the rule belongs to.
    pub fn plugin(&self) -> (r: Plugin)
        ensures
            r == plugin_of(*self),
    {
        match self {
            RuleKind::RoleHasRequiredAriaProps => Plugin::JsxA11y,
            RuleKind::GoogleFontPreconnect => Plugin::Nextjs,
            RuleKind::NoSyncScripts => Plugin::Nextjs,
        }
    }

    /// Runs the rule on one node.
    pub fn run(&self, node: &AstKind, ctx: &mut LintContext)
        ensures
            final(ctx)@ == old(ctx)@ + rule_diags(*self, *node),
            final(ctx).plugin_flags() == old(ctx).plugin_flags(),
            final(ctx).settings_spec() == old(ctx).settings_spec(),
    {
        match self {
            RuleKind::RoleHasRequiredAriaProps => RoleHasRequiredAriaProps.run(node, ctx),
            RuleKind::GoogleFontPreconnect => GoogleFontPreconnect.run(node, ctx),
            RuleKind::NoSyncScripts => NoSyncScripts.run(node, ctx),
        }
    }
}

/// Why a registry could not be built.
#[derive(Clone, Copy, Debug, PartialEq, Eq, Structural)]
pub enum ConfigError {
    /// No rule has the name asked for.
    UnknownRule,
}

/// The active rules, in registration order.
pub struct Registry {
    rules: Vec<RuleKind>,
}

impl View for Registry {
    type V = Seq<RuleKind>;

    closed spec fn view(&self) -> Seq<RuleKind> {
        self.rules@
    }
}

impl Registry {
    /// The rules of the switched-on plugins; the others are left out.
    pub fn from_flags(flags: PluginFlags) -> (r: Registry)
        ensures
            r@ == enabled_rules(flags),
            r@.no_duplicates(),
            forall|k: RuleKind| #[trigger] r@.contains(k) == plugin_enabled(flags, plugin_of(k)),
    {
        let mut rules: Vec<RuleKind> = Vec::new();
        if flags.jsx_a11y {
            rules.push(RuleKind::RoleHasRequiredAriaProps);
        }
        if flags.nextjs {
            rules.push(RuleKind::GoogleFontPreconnect);
            rules.push(RuleKind::NoSyncScripts);
        }
        assert(rules@ =~= enabled_rules(flags));
        assert forall|k: RuleKind| #[trigger] rules@.contains(k) == plugin_enabled(flags, plugin_of(k)) by {
            if plugin_enabled(flags, plugin_of(k)) {
                let i: int = if k == RuleKind::RoleHasRequiredAriaProps {
                    0
                } else if k == RuleKind::GoogleFontPreconnect {
                    if flags.jsx_a11y { 1 } else { 0 }
                } else {
                    if flags.jsx_a11y { 2 } else { 1 }
                };
                assert(rules@[i] == k);
            }
        }
        Registry { rules }
    }

    /// A registry holding the one rule of that name.
    pub fn single(name: &str) -> (r: Result<Registry, ConfigError>)
        ensures
            match r {
                Ok(reg) => rule_named(name@) is Some && reg@ == seq![rule_named(name@)->Some_0],
                Err(e) => rule_named(name@) is None && e == ConfigError::UnknownRule,
            },
    {
        match RuleKind::from_name(name) {
            Some(k) => {
                let rules = vec![k];
                Ok(Registry { rules })
            },
            None => Err(ConfigError::UnknownRule),
        }
    }

    /// The number of active rules.
    pub fn len(&self) -> (r: usize)
        ensures
            r == self@.len(),
    {
        self.rules.len()
    }

    /// Runs every active rule over one node.
    pub fn run_node(&self, node: &AstKind, ctx: &mut LintContext)
        ensures
            final(ctx)@ == old(ctx)@ + node_diags(self@, *node),
            final(ctx).plugin_flags() == old(ctx).plugin_flags(),
            final(ctx).settings_spec() == old(ctx).settings_spec(),
    {
        let ghost before = ctx@;
        let mut j: usize = 0;
        assert(self.rules@.subrange(0, 0) =~= Seq::<RuleKind>::empty());
        assert(before + Seq::<Diagnostic>::empty() == before);
        while j < self.rules.len()
            invariant
                j <= self.rules@.len(),
                ctx@ == before + node_diags(self.rules@.subrange(0, j as int), *node),
                ctx.plugin_flags() == old(ctx).plugin_flags(),
                ctx.settings_spec() == old(ctx).settings_spec(),
            decreases self.rules@.len() - j,
        {
            let ghost mid = ctx@;
            assert(self.rules@.subrange(0, j + 1).drop_last() == self.rules@.subrange(0, j as int));
            self.rules[j].run(node, ctx);
            assert(mid + rule_diags(self.rules@[j as int], *node) == before + node_diags(
                self.rules@.subrange(0, j + 1),
                *node,
            ));
            j = j + 1;
        }
        assert(self.rules@.subrange(0, j as int) == self.rules@);
    }

    /// Lints one file: a fresh context, one pass over the nodes in traversal
    /// order, every active rule on each node; the diagnostics collected are the
    /// file's result.
    pub fn lint(&self, nodes: &Vec<AstKind>, settings: Settings, plugins: PluginFlags) -> (r: Vec<Diagnostic>)
        ensures
            r@ == file_diags(self@, nodes@),
    {
        let mut ctx = LintContext::new(settings, plugins);
        let mut i: usize = 0;
        assert(nodes@.subrange(0, 0) =~= Seq::<AstKind>::empty());
        while i < nodes.len()
            invariant
                i <= nodes@.len(),
                ctx@ == file_diags(self@, nodes@.subrange(0, i as int)),
            decreases nodes@.len() - i,
        {
            assert(nodes@.subrange(0, i + 1).drop_last() == nodes@.subrange(0, i as int));
            self.run_node(&nodes[i], &mut ctx);
            i = i + 1;
        }
        assert(nodes@.subrange(0, i as int) == nodes@);
        ctx.into_diagnostics()
    }
}

} // verus!
