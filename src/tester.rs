//! Fixtures: a rule, the nodes of a source fragment, and whether the rule
//! should stay silent on them or report.
use vstd::prelude::*;
use crate::ast::AstKind;
use crate::diagnostic::Diagnostic;
use crate::linter::{file_diags, rule_named, ConfigError, Registry};
use crate::settings::{PluginFlags, Settings};

verus! {

/// What a fixture expects of the rule under test.
#[derive(Clone, Copy, Debug, PartialEq, Eq, Structural)]
pub enum Expectation {
    /// No diagnostic at all.
    Pass,
    /// At least one diagnostic.
    Fail,
}

/// Whether a list of diagnostics meets an expectation.
pub open spec fn meets(expect: Expectation, ds: Seq<Diagnostic>) -> bool {
    match expect {
        Expectation::Pass => ds.len() == 0,
        Expectation::Fail => ds.len() > 0,
    }
}

/// Whether the diagnostics meet the expectation.
pub fn expectation_met(expect: Expectation, ds: &Vec<Diagnostic>) -> (r: bool)
    ensures
        r == meets(expect, ds@),
{
    match expect {
        Expectation::Pass => ds.len() == 0,
        Expectation::Fail => ds.len() > 0,
    }
}

/// Runs the rule of that name, alone, over a fixture's nodes; the
/// diagnostics are what a snapshot records.
pub fn lint_fixture(rule: &str, nodes: &Vec<AstKind>, settings: Settings, plugins: PluginFlags) -> (r: Result<
    Vec<Diagnostic>,
    ConfigError,
>)
    ensures
        match r {
            Ok(ds) => rule_named(rule@) is Some && ds@ == file_diags(seq![rule_named(rule@)->Some_0], nodes@),
            Err(e) => rule_named(rule@) is None && e == ConfigError::UnknownRule,
        },
{
    let reg = Registry::single(rule)?;
    Ok(reg.lint(nodes, settings, plugins))
}

/// Runs a fixture and says whether its expectation holds.
pub fn check_fixture(
    rule: &str,
    nodes: &Vec<AstKind>,
    expect: Expectation,
    settings: Settings,
    plugins: PluginFlags,
) -> (r: Result<bool, ConfigError>)
    ensures
        match r {
            Ok(b) => rule_named(rule@) is Some && b == meets(expect, file_diags(seq![rule_named(rule@)->Some_0], nodes@)),
            Err(e) => rule_named(rule@) is None && e == ConfigError::UnknownRule,
        },
{
    match lint_fixture(rule, nodes, settings, plugins) {
        Ok(ds) => Ok(expectation_met(expect, &ds)),
        Err(e) => Err(e),
    }
}

} // verus!
