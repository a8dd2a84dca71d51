//! Diagnostics and the per-file context that collects them.
use vstd::prelude::*;
use crate::aria::{prop_name, role_name, AriaProp, AriaRole};
use vstd::string::StringExecFns;
use crate::ast::Span;
use crate::settings::{PluginFlags, Settings};

verus! {

/// The rules of this library; a rule's identity is its name.
#[derive(Clone, Copy, Debug, PartialEq, Eq, Structural)]
pub enum RuleKind {
    RoleHasRequiredAriaProps,
    GoogleFontPreconnect,
    NoSyncScripts,
}

/// The plugin namespace a rule belongs to.
#[derive(Clone, Copy, Debug, PartialEq, Eq, Structural)]
pub enum Plugin {
    JsxA11y,
    Nextjs,
}

/// The kind of problem a rule looks for.
#[derive(Clone, Copy, Debug, PartialEq, Eq, Structural)]
pub enum Category {
    Correctness,
}

/// How grave a diagnostic is.
#[derive(Clone, Copy, Debug, PartialEq, Eq, Structural)]
pub enum Severity {
    Warning,
}

/// What a diagnostic reports, with the values its message mentions.
#[derive(Clone, Copy, Debug, PartialEq, Eq, Structural)]
pub enum DiagnosticKind {
    /// An element with the role lacks the property.
    MissingAriaProp(AriaRole, AriaProp),
    /// A link to Google Fonts lacks `rel="preconnect"`.
    GoogleFontPreconnectMissing,
    /// A script with a `src` is neither `async` nor `defer`.
    SyncScript,
}

/// One reported violation.
#[derive(Clone, Copy, Debug, PartialEq, Eq, Structural)]
pub struct Diagnostic {
    pub rule: RuleKind,
    pub span: Span,
    pub kind: DiagnosticKind,
}

/// The primary message of a diagnostic, with the role and property it is
/// about written in.
pub open spec fn message_of(d: Diagnostic) -> Seq<char> {
    match d.kind {
        DiagnosticKind::MissingAriaProp(r, p) => "eslint-plugin-jsx-a11y(role-has-required-aria-props): `"@
            + role_name(r) + "` role is missing required aria props `"@ + prop_name(p) + "`."@,
        DiagnosticKind::GoogleFontPreconnectMissing =>
            "eslint-plugin-next(google-font-preconnect): `rel=\"preconnect\"` is missing from Google Font."@,
        DiagnosticKind::SyncScript => "eslint-plugin-next(no-sync-scripts): Prevent synchronous scripts."@,
    }
}

/// The help text of a diagnostic.
pub open spec fn help_of(d: Diagnostic) -> Seq<char> {
    match d.kind {
        DiagnosticKind::MissingAriaProp(r, p) => "Add missing aria props `"@ + prop_name(p)
            + "` to the element with `"@ + role_name(r) + "` role."@,
        DiagnosticKind::GoogleFontPreconnectMissing => "See: https://nextjs.org/docs/messages/google-font-preconnect"@,
        DiagnosticKind::SyncScript => "See https://nextjs.org/docs/messages/no-sync-scripts"@,
    }
}

impl Diagnostic {
    /// The primary message.
    pub fn message(&self) -> (r: String)
        ensures
            r@ == message_of(*self),
    {
        match self.kind {
            DiagnosticKind::MissingAriaProp(role, prop) => {
                let s = String::from_str("eslint-plugin-jsx-a11y(role-has-required-aria-props): `");
                let s = s.concat(role.name());
                let s = s.concat("` role is missing required aria props `");
                let s = s.concat(prop.name());
                s.concat("`.")
            },
            DiagnosticKind::GoogleFontPreconnectMissing => String::from_str(
                "eslint-plugin-next(google-font-preconnect): `rel=\"preconnect\"` is missing from Google Font.",
            ),
            DiagnosticKind::SyncScript => String::from_str(
                "eslint-plugin-next(no-sync-scripts): Prevent synchronous scripts.",
            ),
        }
    }

    /// The help text.
    pub fn help(&self) -> (r: String)
        ensures
            r@ == help_of(*self),
    {
        match self.kind {
            DiagnosticKind::MissingAriaProp(role, prop) => {
                let s = String::from_str("Add missing aria props `");
                let s = s.concat(prop.name());
                let s = s.concat("` to the element with `");
                let s = s.concat(role.name());
                s.concat("` role.")
            },
            DiagnosticKind::GoogleFontPreconnectMissing => String::from_str(
                "See: https://nextjs.org/docs/messages/google-font-preconnect",
            ),
            DiagnosticKind::SyncScript => String::from_str("See https://nextjs.org/docs/messages/no-sync-scripts"),
        }
    }

    /// Every diagnostic here is a warning.
    pub fn severity(&self) -> (r: Severity)
        ensures
            r == Severity::Warning,
    {
        Severity::Warning
    }
}

/// The per-file context handed to every rule: where diagnostics go, and the
/// configuration that holds for the file.
pub struct LintContext {
    diagnostics: Vec<Diagnostic>,
    settings: Settings,
    plugins: PluginFlags,
}

impl View for LintContext {
    type V = Seq<Diagnostic>;

    /// The diagnostics reported so far, in the order they were reported.
    closed spec fn view(&self) -> Seq<Diagnostic> {
        self.diagnostics@
    }
}

impl LintContext {
    /// The plugin switches that hold for the file.
    pub closed spec fn plugin_flags(&self) -> PluginFlags {
        self.plugins
    }

    /// The plugin switches that hold for the file.
    pub fn plugins(&self) -> (r: PluginFlags)
        ensures
            r == self.plugin_flags(),
    {
        self.plugins
    }

    /// The settings that hold for the file.
    pub closed spec fn settings_spec(&self) -> Settings {
        self.settings
    }

    /// The settings that hold for the file.
    pub fn settings(&self) -> (r: &Settings)
        ensures
            *r == self.settings_spec(),
    {
        &self.settings
    }

    /// A context with no diagnostics yet.
    pub fn new(settings: Settings, plugins: PluginFlags) -> (r: LintContext)
        ensures
            r@ == Seq::<Diagnostic>::empty(),
            r.plugin_flags() == plugins,
            r.settings_spec() == settings,
    {
        LintContext { diagnostics: Vec::new(), settings, plugins }
    }

    /// Reports one diagnostic.
    pub fn diagnostic(&mut self, d: Diagnostic)
        ensures
            final(self)@ == old(self)@.push(d),
            final(self).plugin_flags() == old(self).plugin_flags(),
            final(self).settings_spec() == old(self).settings_spec(),
    {
        self.diagnostics.push(d);
    }

    /// The number of diagnostics reported so far.
    pub fn len(&self) -> (r: usize)
        ensures
            r == self@.len(),
    {
        self.diagnostics.len()
    }

    /// The diagnostics reported, in order.
    pub fn into_diagnostics(self) -> (r: Vec<Diagnostic>)
        ensures
            r@ == self@,
    {
        self.diagnostics
    }
}

} // verus!
