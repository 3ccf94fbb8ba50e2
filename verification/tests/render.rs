//! Rendering one resolved path, the Unicode policy, and the commands.

use platform_path::command::serve::route_template;
use platform_path::command::{Command, InfoCommand, PrintCommand, PrintTarget};
use platform_path::output::{path_to_text, render_path, Format, Unicode};
use platform_path::platform::info::{Info, InfoFilter};
use platform_path::platform::path::PlatformPathKind;
use platform_path::platform::status::Status;
use platform_path::platform::Platform;
use platform_path::{Base, Project, ProjectOptions};

#[test]
fn text_format_returns_the_path_unchanged() {
    assert_eq!(render_path("/tmp/x".to_string(), &Format::Text), Ok("/tmp/x".to_string()));
}

#[test]
fn json_format_wraps_the_path() {
    let rendered = render_path("/tmp/x".to_string(), &Format::Json).unwrap();
    assert_eq!(rendered, "{\"path\":\"/tmp/x\"}");
}

#[test]
fn json_format_escapes_the_path() {
    let rendered = render_path("a\"b\\c".to_string(), &Format::Json).unwrap();
    assert_eq!(rendered, "{\"path\":\"a\\\"b\\\\c\"}");
}

#[test]
fn json_pretty_format_indents() {
    let rendered = render_path("/tmp/x".to_string(), &Format::JsonPretty).unwrap();
    assert_eq!(rendered, "{\n  \"path\": \"/tmp/x\"\n}");
}

#[test]
fn yaml_format_wraps_the_path() {
    let rendered = render_path("/tmp/x".to_string(), &Format::Yaml).unwrap();
    assert_eq!(rendered, "path: /tmp/x\n");
}

#[test]
fn unicode_policies_accept_unicode_paths() {
    let p = std::path::PathBuf::from("/tmp/plain");
    assert_eq!(path_to_text(&p, &Unicode::Required), Ok("/tmp/plain".to_string()));
    assert_eq!(path_to_text(&p, &Unicode::Enforced), Ok("/tmp/plain".to_string()));
}

#[test]
fn print_command_uses_the_default_on_failure() {
    let command = PrintCommand {
        default: Some(std::path::PathBuf::from("/tmp/fallback")),
        unicode: Unicode::Enforced,
        format: Format::Text,
        path: PrintTarget::Project(
            Project::Cache,
            ProjectOptions { qualifier: None, organization: None, application: String::new() },
        ),
    };
    assert_eq!(command.execute(), Ok("/tmp/fallback".to_string()));
}

#[test]
fn print_command_resolves_home() {
    let command = PrintCommand {
        default: None,
        unicode: Unicode::Required,
        format: Format::Text,
        path: PrintTarget::Base(Base::Home),
    };
    let output = command.execute().unwrap();
    assert!(!output.is_empty());
}

#[test]
fn info_command_renders_the_filtered_report() {
    let filter = InfoFilter::from_selection(
        Some(Platform::Linux),
        Some(PlatformPathKind::Base),
        Some(Status::Supported),
    );
    let command = InfoCommand { filter: filter.clone(), format: Format::Text };
    let direct = Info::filtered(&filter).render_text();
    assert_eq!(command.execute(), Ok(direct));
}

#[test]
fn route_templates_normalize_the_prefix() {
    assert_eq!(
        route_template("platform-path", &Format::Text),
        "/platform-path/v0/:kind/:path/text"
    );
    assert_eq!(
        route_template("/platform-path", &Format::Json),
        "/platform-path/v0/:kind/:path/json"
    );
    assert_eq!(route_template("/x", &Format::Yaml), "/x/v0/:kind/:path/yaml");
    assert_eq!(route_template("", &Format::JsonPretty), "//v0/:kind/:path/json-pretty");
}

#[test]
fn command_dispatches_both_variants() {
    let print = Command::Print(PrintCommand {
        default: None,
        unicode: Unicode::Enforced,
        format: Format::Text,
        path: PrintTarget::Base(Base::Home),
    });
    assert!(print.execute().is_ok());

    let info = Command::Info(InfoCommand {
        filter: InfoFilter::from_selection(None, None, None),
        format: Format::Text,
    });
    let rendered = info.execute().unwrap();
    assert_eq!(rendered.lines().count(), 108);
}
