//! The informational report: counting, filtering, and rendering.

use platform_path::output::Format;
use platform_path::platform::info::{Info, InfoFilter};
use platform_path::platform::path::{PlatformPath, PlatformPathKind};
use platform_path::platform::status::Status;
use platform_path::platform::Platform;

fn full_filter() -> InfoFilter {
    InfoFilter::from_selection(None, None, None)
}

#[test]
fn full_filter_selects_every_candidate() {
    let info = Info::filtered(&full_filter());
    assert_eq!(info.records.len(), 108);
    assert_eq!(info.platforms.len(), 4);
    assert_eq!(info.kinds.len(), 3);
}

#[test]
fn empty_statuses_select_nothing() {
    let filter = InfoFilter {
        platforms: Platform::all(),
        paths: PlatformPathKind::all(),
        statuses: vec![],
    };
    let info = Info::filtered(&filter);
    assert_eq!(info.records.len(), 0);
    assert_eq!(info.platforms.len(), 4);
}

#[test]
fn empty_platforms_select_nothing() {
    let filter = InfoFilter { platforms: vec![], paths: PlatformPathKind::all(), statuses: Status::all() };
    assert_eq!(Info::filtered(&filter).records.len(), 0);
}

#[test]
fn empty_paths_select_nothing() {
    let filter = InfoFilter { platforms: Platform::all(), paths: vec![], statuses: Status::all() };
    assert_eq!(Info::filtered(&filter).records.len(), 0);
}

#[test]
fn linux_base_supported_selects_all_nine() {
    let filter = InfoFilter::from_selection(
        Some(Platform::Linux),
        Some(PlatformPathKind::Base),
        Some(Status::Supported),
    );
    let info = Info::filtered(&filter);
    assert_eq!(info.records.len(), 9);
    for rec in &info.records {
        assert_eq!(rec.platform, Platform::Linux);
        assert_eq!(rec.kind, PlatformPathKind::Base);
        assert_eq!(rec.status, Status::Supported);
        assert!(matches!(rec.path, PlatformPath::Base(_)));
    }
}

#[test]
fn linux_base_text_render_is_sorted() {
    let filter = InfoFilter::from_selection(
        Some(Platform::Linux),
        Some(PlatformPathKind::Base),
        Some(Status::Supported),
    );
    let text = Info::filtered(&filter).render_text();
    let expected = [
        "linux base cache supported",
        "linux base config supported",
        "linux base data supported",
        "linux base data-local supported",
        "linux base executable supported",
        "linux base home supported",
        "linux base preference supported",
        "linux base runtime supported",
        "linux base state supported",
    ]
    .join("\n");
    assert_eq!(text, expected);
}

#[test]
fn text_render_is_stable_under_record_reordering() {
    let info = Info::filtered(&full_filter());
    let mut reversed_records = info.records.clone();
    reversed_records.reverse();
    let reversed = Info {
        platforms: info.platforms.clone(),
        kinds: info.kinds.clone(),
        records: reversed_records,
    };
    assert_eq!(info.render_text(), reversed.render_text());
}

#[test]
fn from_selection_narrows_each_dimension() {
    let filter = InfoFilter::from_selection(Some(Platform::MacOS), None, Some(Status::Unknown));
    assert_eq!(filter.platforms, vec![Platform::MacOS]);
    assert_eq!(filter.paths.len(), 3);
    assert_eq!(filter.statuses, vec![Status::Unknown]);
    let info = Info::filtered(&filter);
    for rec in &info.records {
        assert_eq!(rec.platform, Platform::MacOS);
        assert_eq!(rec.status, Status::Unknown);
    }
    assert_eq!(info.records.len(), 1);
}

#[test]
fn structured_render_groups_by_labels() {
    let filter = InfoFilter::from_selection(
        Some(Platform::Linux),
        Some(PlatformPathKind::Base),
        Some(Status::Supported),
    );
    let rendered = Info::filtered(&filter).render(&Format::Json).unwrap();
    let value: serde_json::Value = serde_json::from_str(&rendered).unwrap();
    let status = value
        .get("linux")
        .and_then(|v| v.get("base"))
        .and_then(|v| v.get("cache"))
        .and_then(|v| v.get("status"))
        .and_then(|v| v.as_str());
    assert_eq!(status, Some("supported"));
}

#[test]
fn structured_render_keeps_empty_groups() {
    let filter = InfoFilter {
        platforms: vec![Platform::Wasm],
        paths: vec![PlatformPathKind::Base],
        statuses: vec![Status::Supported],
    };
    let info = Info::filtered(&filter);
    assert_eq!(info.records.len(), 0);
    let rendered = info.render(&Format::Json).unwrap();
    let value: serde_json::Value = serde_json::from_str(&rendered).unwrap();
    let base = value.get("wasm").and_then(|v| v.get("base"));
    assert!(base.is_some());
    assert_eq!(base.unwrap().as_object().map(|o| o.len()), Some(0));
}

#[test]
fn grouped_rows_follow_declaration_order() {
    let filter = InfoFilter::from_selection(
        Some(Platform::Linux),
        Some(PlatformPathKind::Base),
        Some(Status::Supported),
    );
    let groups = Info::filtered(&filter).grouped();
    assert_eq!(groups.len(), 1);
    assert_eq!(groups[0].0, "linux");
    assert_eq!(groups[0].1.len(), 1);
    assert_eq!(groups[0].1[0].0, "base");
    let entries = &groups[0].1[0].1;
    assert_eq!(entries.len(), 9);
    assert_eq!(entries[0].0, "cache");
    assert_eq!(entries[0].1, ("status".to_string(), "supported".to_string()));
    assert_eq!(entries[3].0, "data-local");
    assert_eq!(entries[8].0, "state");
}

#[test]
fn grouped_keeps_filtered_away_rows_empty() {
    let filter = InfoFilter {
        platforms: vec![Platform::Wasm],
        paths: vec![PlatformPathKind::Base],
        statuses: vec![Status::Supported],
    };
    let groups = Info::filtered(&filter).grouped();
    assert_eq!(groups.len(), 1);
    assert_eq!(groups[0].0, "wasm");
    assert_eq!(groups[0].1.len(), 1);
    assert_eq!(groups[0].1[0].0, "base");
    assert!(groups[0].1[0].1.is_empty());
}

#[test]
fn yaml_render_groups_by_labels() {
    let filter = InfoFilter::from_selection(
        Some(Platform::Linux),
        Some(PlatformPathKind::Base),
        Some(Status::Supported),
    );
    let rendered = Info::filtered(&filter).render(&Format::Yaml).unwrap();
    let value: serde_yaml::Value = serde_yaml::from_str(&rendered).unwrap();
    let status = value
        .get("linux")
        .and_then(|v| v.get("base"))
        .and_then(|v| v.get("cache"))
        .and_then(|v| v.get("status"))
        .and_then(|v| v.as_str());
    assert_eq!(status, Some("supported"));
}

#[test]
fn text_render_of_empty_report_is_empty() {
    let filter = InfoFilter {
        platforms: vec![],
        paths: vec![],
        statuses: vec![],
    };
    assert_eq!(Info::filtered(&filter).render_text(), "");
}
