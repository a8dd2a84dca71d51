use oxc_rules::aria::{AriaProp, AriaRole};
use oxc_rules::ast::{AstKind, Attribute, AttributeItem, AttributeName, AttributeValue, ElementName, OpeningElement, Span};
use oxc_rules::diagnostic::{Category, Diagnostic, DiagnosticKind, LintContext, Plugin, RuleKind, Severity};
use oxc_rules::linter::{ConfigError, Registry};
use oxc_rules::no_sync_scripts::NoSyncScripts;
use oxc_rules::role_has_required_aria_props::RoleHasRequiredAriaProps;
use oxc_rules::google_font_preconnect::GoogleFontPreconnect;
use oxc_rules::settings::{PluginFlags, Settings};
use oxc_rules::tester::{check_fixture, lint_fixture, Expectation};

const ALL: PluginFlags = PluginFlags { jsx_a11y: true, nextjs: true };

fn span(a: usize, b: usize) -> Span {
    Span { start: a as u32, end: b as u32 }
}

fn is_name_char(c: u8) -> bool {
    c.is_ascii_alphanumeric() || c == b'_' || c == b'-' || c == b':' || c == b'.' || c == b'$'
}

/// Skips a `{ ... }` group starting at `i`, returning the index after it.
fn skip_braces(b: &[u8], mut i: usize) -> usize {
    let mut depth = 0usize;
    while i < b.len() {
        match b[i] {
            b'{' => depth += 1,
            b'}' => {
                depth -= 1;
                if depth == 0 {
                    return i + 1;
                }
            }
            q @ (b'"' | b'\'' | b'`') => {
                i += 1;
                while i < b.len() && b[i] != q {
                    i += 1;
                }
            }
            _ => {}
        }
        i += 1;
    }
    i
}

/// The opening elements of a JSX fragment, in source order: enough of a
/// parser for the fixtures below.
fn parse(src: &str) -> Vec<AstKind> {
    let b = src.as_bytes();
    let mut nodes = Vec::new();
    let mut i = 0;
    while i < b.len() {
        if b[i] != b'<' || i + 1 >= b.len() || !b[i + 1].is_ascii_alphabetic() {
            i += 1;
            continue;
        }
        let start = i;
        i += 1;
        let ns = i;
        while i < b.len() && is_name_char(b[i]) {
            i += 1;
        }
        let tag = &src[ns..i];
        let name = if tag.contains('.') || tag.contains(':') {
            ElementName::Other(span(ns, i))
        } else {
            ElementName::Identifier(tag.to_string(), span(ns, i))
        };
        let mut attributes = Vec::new();
        loop {
            while i < b.len() && b[i].is_ascii_whitespace() {
                i += 1;
            }
            if i >= b.len() || b[i] == b'>' {
                i += 1;
                break;
            }
            if b[i] == b'/' {
                i += 2;
                break;
            }
            let a0 = i;
            if b[i] == b'{' {
                i = skip_braces(b, i);
                attributes.push(AttributeItem::Spread(span(a0, i)));
                continue;
            }
            while i < b.len() && is_name_char(b[i]) {
                i += 1;
            }
            let raw = &src[a0..i];
            let aname = match raw.split_once(':') {
                Some((n, l)) => AttributeName::Namespaced(n.to_string(), l.to_string()),
                None => AttributeName::Identifier(raw.to_string()),
            };
            let mut value = None;
            if i < b.len() && b[i] == b'=' {
                i += 1;
                if b[i] == b'{' {
                    i = skip_braces(b, i);
                    value = Some(AttributeValue::Expression);
                } else {
                    let q = b[i];
                    let v0 = i + 1;
                    i += 1;
                    while i < b.len() && b[i] != q {
                        i += 1;
                    }
                    value = Some(AttributeValue::Literal(src[v0..i].to_string()));
                    i += 1;
                }
            }
            attributes.push(AttributeItem::Attribute(Attribute { name: aname, value, span: span(a0, i) }));
        }
        nodes.push(AstKind::JsxOpeningElement(OpeningElement { name, attributes, span: span(start, i) }));
    }
    nodes
}

fn run_cases(rule: &str, pass: &[&str], fail: &[&str], settings: fn() -> Settings) {
    for src in pass {
        let ok = check_fixture(rule, &parse(src), Expectation::Pass, settings(), ALL).unwrap();
        assert!(ok, "expected no diagnostic: {src}");
    }
    for src in fail {
        let ok = check_fixture(rule, &parse(src), Expectation::Fail, settings(), ALL).unwrap();
        assert!(ok, "expected a diagnostic: {src}");
    }
}

fn count(rule: &str, src: &str) -> usize {
    lint_fixture(rule, &parse(src), Settings::new(), ALL).unwrap().len()
}

fn a11y_settings() -> Settings {
    Settings::new().with_component("MyComponent".to_string(), "div".to_string())
}

#[test]
fn role_has_required_aria_props_test() {
    let pass = [
        "<Bar baz />",
        "<div />",
        "<div></div>",
        "<div role={role} />",
        "<div role={role || 'button'} />",
        "<div role={role || 'foobar'} />",
        "<div role='row' />",
        "<span role='checkbox' aria-checked='false' aria-labelledby='foo' tabindex='0'></span>",
        "<input role='checkbox' aria-checked='false' aria-labelledby='foo' tabindex='0' {...props} type='checkbox' />",
        "<input type='checkbox' role='switch' />",
        "<MyComponent role='checkbox' aria-checked='false' aria-labelledby='foo' tabindex='0' />",
    ];
    let fail = [
        "<div role='slider' />",
        "<div role='slider' aria-valuemax />",
        "<div role='slider' aria-valuemax aria-valuemin />",
        "<div role='checkbox' />",
        "<div role='checkbox' checked />",
        "<div role='checkbox' aria-chcked />",
        "<span role='checkbox' aria-labelledby='foo' tabindex='0'></span>",
        "<div role='combobox' />",
        "<div role='combobox' expanded />",
        "<div role='combobox' aria-expandd />",
        "<div role='scrollbar' />",
        "<div role='scrollbar' aria-valuemax />",
        "<div role='scrollbar' aria-valuemax aria-valuemin />",
        "<div role='scrollbar' aria-valuemax aria-valuenow />",
        "<div role='scrollbar' aria-valuemin aria-valuenow />",
        "<div role='heading' />",
        "<div role='option' />",
        "<MyComponent role='combobox' />",
    ];
    run_cases(RoleHasRequiredAriaProps::name(), &pass, &fail, a11y_settings);
}

#[test]
fn google_font_preconnect_test() {
    let pass = [r#"export const Test = () => (
			        <div>
			          <link rel="preconnect" href="https://fonts.gstatic.com"/>
			          <link
			            href={process.env.NEXT_PUBLIC_CANONICAL_URL}
			            rel="canonical"
			          />
			          <link
			            href={new URL("../public/favicon.ico", import.meta.url).toString()}
			            rel="icon"
			          />
			        </div>
			      )
			    "#];
    let fail = [
        r#"
			      export const Test = () => (
			        <div>
			          <link href="https://fonts.gstatic.com"/>
			        </div>
			      )
			    "#,
        r#"
			      export const Test = () => (
			        <div>
			          <link rel="preload" href="https://fonts.gstatic.com"/>
			        </div>
			      )
			    "#,
    ];
    run_cases(GoogleFontPreconnect::name(), &pass, &fail, Settings::new);
}

#[test]
fn no_sync_scripts_test() {
    let pass = [
        r"import {Head} from 'next/document';
			
			      export class Blah extends Head {
			        render() {
			          return (
			            <div>
			              <h1>Hello title</h1>
			              <script src='https://blah.com' async></script>
			            </div>
			          );
			        }
			    }",
        r"import {Head} from 'next/document';
			
			      export class Blah extends Head {
			        render(props) {
			          return (
			            <div>
			              <h1>Hello title</h1>
			              <script {...props} ></script>
			            </div>
			          );
			        }
			    }",
    ];
    let fail = [
        r"
			      import {Head} from 'next/document';
			
			        export class Blah extends Head {
			          render() {
			            return (
			              <div>
			                <h1>Hello title</h1>
			                <script src='https://blah.com'></script>
			              </div>
			            );
			          }
			      }",
        r"
			      import {Head} from 'next/document';
			
			        export class Blah extends Head {
			          render(props) {
			            return (
			              <div>
			                <h1>Hello title</h1>
			                <script src={props.src}></script>
			              </div>
			            );
			          }
			      }",
    ];
    run_cases(NoSyncScripts::name(), &pass, &fail, Settings::new);
}

#[test]
fn checkbox_without_checked_has_one_diagnostic() {
    let ds = lint_fixture(RoleHasRequiredAriaProps::name(), &parse(r#"<div role="checkbox" />"#), Settings::new(), ALL).unwrap();
    assert_eq!(ds.len(), 1);
    assert_eq!(ds[0].kind, DiagnosticKind::MissingAriaProp(AriaRole::Checkbox, AriaProp::Checked));
    assert_eq!(ds[0].rule, RuleKind::RoleHasRequiredAriaProps);
    assert_eq!(ds[0].span, span(5, 20));
    assert_eq!(ds[0].severity(), Severity::Warning);
}

#[test]
fn checkbox_with_checked_is_clean() {
    assert_eq!(count("role-has-required-aria-props", r#"<div role="checkbox" aria-checked="false" />"#), 0);
}

#[test]
fn async_script_is_clean() {
    assert_eq!(count("no-sync-scripts", r#"<script src="a.js" async></script>"#), 0);
}

#[test]
fn sync_script_has_one_diagnostic() {
    let ds = lint_fixture("no-sync-scripts", &parse(r#"<script src="a.js"></script>"#), Settings::new(), ALL).unwrap();
    assert_eq!(ds.len(), 1);
    assert_eq!(ds[0].kind, DiagnosticKind::SyncScript);
    assert_eq!(ds[0].span, span(1, 7));
}

#[test]
fn deferred_script_is_clean() {
    assert_eq!(count("no-sync-scripts", r#"<script src="a.js" defer></script>"#), 0);
}

#[test]
fn script_attribute_names_are_case_sensitive() {
    assert_eq!(count("no-sync-scripts", r#"<script src="a.js" ASYNC></script>"#), 1);
}

#[test]
fn font_link_with_preconnect_is_clean() {
    assert_eq!(count("google-font-preconnect", r#"<link href="https://fonts.gstatic.com" rel="preconnect"/>"#), 0);
}

#[test]
fn font_link_with_preload_has_one_diagnostic() {
    let ds = lint_fixture("google-font-preconnect", &parse(r#"<link href="https://fonts.gstatic.com" rel="preload"/>"#), Settings::new(), ALL).unwrap();
    assert_eq!(ds.len(), 1);
    assert_eq!(ds[0].kind, DiagnosticKind::GoogleFontPreconnectMissing);
    assert_eq!(ds[0].span, span(1, 5));
}

#[test]
fn font_rel_must_match_exactly() {
    assert_eq!(count("google-font-preconnect", r#"<link href="https://fonts.gstatic.com/s/x.woff" rel="preconnect noopener"/>"#), 1);
    assert_eq!(count("google-font-preconnect", r#"<link href="https://fonts.gstatic.com" rel={x}/>"#), 1);
    assert_eq!(count("google-font-preconnect", r#"<link href="https://example.com"/>"#), 0);
    assert_eq!(count("google-font-preconnect", r#"<link href="https://fonts.gstatic"/>"#), 0);
    assert_eq!(count("google-font-preconnect", r#"<Link href="https://fonts.gstatic.com"/>"#), 0);
}

#[test]
fn every_missing_property_is_reported() {
    assert_eq!(count("role-has-required-aria-props", "<div role='scrollbar' />"), 5);
    assert_eq!(count("role-has-required-aria-props", "<div role='scrollbar' aria-valuemax aria-valuemin />"), 3);
    assert_eq!(count("role-has-required-aria-props", "<div role='slider' aria-valuemax aria-valuemin aria-valuenow />"), 0);
}

#[test]
fn property_names_match_without_case() {
    assert_eq!(count("role-has-required-aria-props", "<div ROLE='checkbox' ARIA-CHECKED='true' />"), 0);
    assert_eq!(count("role-has-required-aria-props", "<div role='checkbox' Aria-Checked />"), 0);
}

#[test]
fn role_value_is_split_into_words() {
    assert_eq!(count("role-has-required-aria-props", "<div role='checkbox  slider' />"), 4);
    assert_eq!(count("role-has-required-aria-props", "<div role=' heading ' />"), 1);
    assert_eq!(count("role-has-required-aria-props", "<div role='' />"), 0);
    assert_eq!(count("role-has-required-aria-props", "<div role='Checkbox' />"), 0);
}

#[test]
fn expression_role_is_never_reported() {
    assert_eq!(count("role-has-required-aria-props", "<div role={'checkbox'} />"), 0);
    assert_eq!(count("role-has-required-aria-props", "<div role {...p} />"), 0);
}

#[test]
fn spread_never_counts_as_present() {
    assert_eq!(count("role-has-required-aria-props", "<div role='checkbox' {...props} />"), 1);
    assert_eq!(count("no-sync-scripts", "<script {...props} src='a.js'></script>"), 1);
    assert_eq!(count("google-font-preconnect", "<link {...p} href='https://fonts.gstatic.com' />"), 1);
}

#[test]
fn repeated_runs_give_the_same_diagnostics() {
    let nodes = parse("<div role='combobox' /><script src='x'></script><link href='https://fonts.gstatic.com' />");
    let reg = Registry::from_flags(ALL);
    let a = reg.lint(&nodes, Settings::new(), ALL);
    let b = reg.lint(&nodes, Settings::new(), ALL);
    assert_eq!(a, b);
    assert_eq!(a.len(), 4);
}

#[test]
fn rules_do_not_affect_each_other() {
    let nodes = parse("<div role='combobox' /><script src='x'></script><link href='https://fonts.gstatic.com' />");
    let all: Vec<Diagnostic> = Registry::from_flags(ALL).lint(&nodes, Settings::new(), ALL);
    for name in ["role-has-required-aria-props", "google-font-preconnect", "no-sync-scripts"] {
        let kind = RuleKind::from_name(name).unwrap();
        let alone = lint_fixture(name, &nodes, Settings::new(), ALL).unwrap();
        let mine: Vec<Diagnostic> = all.iter().copied().filter(|d| d.rule == kind).collect();
        assert_eq!(mine, alone);
    }
}

#[test]
fn plugins_decide_registry_membership() {
    assert_eq!(Registry::from_flags(ALL).len(), 3);
    assert_eq!(Registry::from_flags(PluginFlags { jsx_a11y: true, nextjs: false }).len(), 1);
    assert_eq!(Registry::from_flags(PluginFlags { jsx_a11y: false, nextjs: true }).len(), 2);
    let none = Registry::from_flags(PluginFlags { jsx_a11y: false, nextjs: false });
    assert_eq!(none.len(), 0);
    assert_eq!(RuleKind::NoSyncScripts.plugin(), Plugin::Nextjs);
    assert_eq!(RuleKind::RoleHasRequiredAriaProps.plugin(), Plugin::JsxA11y);
    assert!(none.lint(&parse("<div role='checkbox' />"), Settings::new(), ALL).is_empty());
}

#[test]
fn unknown_rule_is_a_configuration_error() {
    assert_eq!(lint_fixture("no-such-rule", &parse("<div />"), Settings::new(), ALL).unwrap_err(), ConfigError::UnknownRule);
    assert!(Registry::single("No-Sync-Scripts").is_err());
    assert_eq!(RuleKind::NoSyncScripts.name(), "no-sync-scripts");
}

#[test]
fn context_appends_in_order() {
    let mut ctx = LintContext::new(Settings::new(), ALL);
    let node = parse("<div role='combobox' />").remove(0);
    RoleHasRequiredAriaProps.run(&node, &mut ctx);
    NoSyncScripts.run(&AstKind::Other(span(0, 1)), &mut ctx);
    GoogleFontPreconnect.run(&node, &mut ctx);
    assert_eq!(ctx.len(), 2);
    let ds = ctx.into_diagnostics();
    assert_eq!(ds[0].kind, DiagnosticKind::MissingAriaProp(AriaRole::Combobox, AriaProp::Controls));
    assert_eq!(ds[1].kind, DiagnosticKind::MissingAriaProp(AriaRole::Combobox, AriaProp::Expanded));
}

#[test]
fn component_aliases_resolve() {
    let s = a11y_settings().with_component("MyComponent".to_string(), "span".to_string());
    assert_eq!(s.component_alias("MyComponent"), Some("div"));
    assert_eq!(s.component_alias("mycomponent"), None);
    assert_eq!(Settings::new().component_alias("MyComponent"), None);
}

#[test]
fn names_and_table_entries() {
    assert_eq!(AriaRole::from_word("scrollbar"), Some(AriaRole::Scrollbar));
    assert_eq!(AriaRole::from_word("row"), None);
    assert_eq!(AriaRole::Heading.name(), "heading");
    assert_eq!(AriaProp::Orientation.name(), "aria-orientation");
    assert_eq!(AriaRole::Combobox.required_props(), vec![AriaProp::Controls, AriaProp::Expanded]);
}

#[test]
fn namespaced_attribute_is_not_a_match() {
    assert_eq!(count("role-has-required-aria-props", "<div role='heading' x:aria-level='2' />"), 1);
}

#[test]
fn messages_name_the_role_and_property() {
    let ds = lint_fixture("role-has-required-aria-props", &parse("<div role='heading' />"), Settings::new(), ALL).unwrap();
    assert_eq!(
        ds[0].message(),
        "eslint-plugin-jsx-a11y(role-has-required-aria-props): `heading` role is missing required aria props `aria-level`."
    );
    assert_eq!(ds[0].help(), "Add missing aria props `aria-level` to the element with `heading` role.");
    let ds = lint_fixture("no-sync-scripts", &parse("<script src='a' />"), Settings::new(), ALL).unwrap();
    assert_eq!(ds[0].message(), "eslint-plugin-next(no-sync-scripts): Prevent synchronous scripts.");
    assert_eq!(ds[0].help(), "See https://nextjs.org/docs/messages/no-sync-scripts");
    let ds = lint_fixture("google-font-preconnect", &parse("<link href='https://fonts.gstatic.com' />"), Settings::new(), ALL).unwrap();
    assert_eq!(ds[0].message(), "eslint-plugin-next(google-font-preconnect): `rel=\"preconnect\"` is missing from Google Font.");
    assert_eq!(ds[0].help(), "See: https://nextjs.org/docs/messages/google-font-preconnect");
}

#[test]
fn every_rule_checks_correctness() {
    for k in [RuleKind::RoleHasRequiredAriaProps, RuleKind::GoogleFontPreconnect, RuleKind::NoSyncScripts] {
        assert_eq!(k.category(), Category::Correctness);
    }
}

#[test]
fn removing_every_spread_changes_nothing() {
    let cases = [
        ("role-has-required-aria-props", "<div {...a} role='checkbox' {...props} />", "<div role='checkbox' />", 1),
        ("google-font-preconnect", "<link {...props} href='https://fonts.gstatic.com' {...b} />", "<link href='https://fonts.gstatic.com' />", 1),
        ("google-font-preconnect", "<link {...props} />", "<link />", 0),
        ("no-sync-scripts", "<script {...props} ></script>", "<script ></script>", 0),
        ("no-sync-scripts", "<script src='a.js' {...props}></script>", "<script src='a.js'></script>", 1),
    ];
    for (rule, with, without, n) in cases {
        let a: Vec<DiagnosticKind> = lint_fixture(rule, &parse(with), Settings::new(), ALL).unwrap().iter().map(|d| d.kind).collect();
        let b: Vec<DiagnosticKind> = lint_fixture(rule, &parse(without), Settings::new(), ALL).unwrap().iter().map(|d| d.kind).collect();
        assert_eq!(a, b, "{with}");
        assert_eq!(a.len(), n, "{with}");
    }
}
