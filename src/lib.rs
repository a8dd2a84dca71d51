//! Lint rules over JSX opening elements, and the engine that runs them over a
//! file's syntax nodes and collects their diagnostics.
pub mod ast;
pub mod text;
pub mod attrs;
pub mod aria;
pub mod settings;
pub mod diagnostic;
pub mod names;
pub mod no_sync_scripts;
pub mod role_has_required_aria_props;
pub mod google_font_preconnect;
pub mod linter;
pub mod laws;
pub mod tester;

pub use google_font_preconnect::GoogleFontPreconnect;
pub use no_sync_scripts::NoSyncScripts;
pub use role_has_required_aria_props::RoleHasRequiredAriaProps;
