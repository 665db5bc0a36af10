use fui::fonts::{font_source, FontSource};
use fui::background::{background_pixels, background_texture_data, draw_background_shades};
use fui::file_dialog::{
    filter_to_string, filters_to_string, AppFileDialog, FileDialogData, FileFilter, PathEdit,
    PathKind,
};
use fui::high_dpi::{
    dpi_call_argument, dpi_call_function, dpi_call_succeeded, first_dpi_call, next_dpi_call,
    set_process_high_dpi_aware, DpiAwarenessCall, DpiCallOutcome,
};

fn filter(name: &str, patterns: &[&str]) -> FileFilter {
    FileFilter { name: name.to_string(), filters: patterns.iter().map(|p| p.to_string()).collect() }
}

#[test]
fn no_filters_no_text() {
    assert_eq!(filters_to_string(vec![]), None);
}

#[test]
fn one_filter_text() {
    assert_eq!(
        filters_to_string(vec![filter("Images", &["*.png", "*.jpg"])]),
        Some("Images (*.png *.jpg)".to_string())
    );
    assert_eq!(filter_to_string(&filter("All", &[])), "All ()");
}

#[test]
fn filters_joined_by_double_semicolon() {
    assert_eq!(
        filters_to_string(vec![filter("Text", &["*.txt"]), filter("All files", &["*"])]),
        Some("Text (*.txt);;All files (*)".to_string())
    );
}

#[test]
fn dialog_args_keep_title_and_path() {
    let data = FileDialogData {
        title: Some("Open".to_string()),
        initial_path: None,
        filters: vec![filter("Rust", &["*.rs"])],
    };
    let a = AppFileDialog::file_dialog_args(data.clone());
    assert_eq!(a.title, Some("Open".to_string()));
    assert_eq!(a.initial_path, None);
    assert_eq!(a.filter, Some("Rust (*.rs)".to_string()));
    let f = AppFileDialog::folder_dialog_args(data);
    assert_eq!(f.filter, None);
    assert_eq!(f.title, Some("Open".to_string()));
}

#[test]
fn path_edit_dialog_and_pick() {
    let mut p = PathEdit::new();
    p.label = "Source".to_string();
    p.path = "/tmp/a.txt".to_string();
    p.filters = vec![filter("Text", &["*.txt"])];
    let r = p.dialog_request();
    assert_eq!(r.kind, PathKind::OpenFile);
    assert_eq!(r.args.title, Some("Source".to_string()));
    assert_eq!(r.args.initial_path, Some("/tmp/a.txt".to_string()));
    assert_eq!(r.args.filter, Some("Text (*.txt)".to_string()));
    p.kind = PathKind::Folder;
    assert_eq!(p.dialog_request().args.filter, None);
    p.picked(None);
    assert_eq!(p.path, "/tmp/a.txt");
    p.picked(Some("/home".to_string()));
    assert_eq!(p.path, "/home");
}

#[test]
fn background_pixels_layout() {
    let shades: Vec<u8> = (0..4096u32).map(|i| (i % 15) as u8).collect();
    let data = background_pixels(&shades);
    assert_eq!(data.len(), 256 * 256 * 4);
    for &(x, y) in &[(0usize, 0usize), (3, 3), (4, 0), (255, 255), (17, 130)] {
        let block = (y / 4) * 64 + x / 4;
        let i = (y * 256 + x) * 4;
        assert_eq!(data[i], shades[block] + 25);
        assert_eq!(data[i + 1], shades[block] + 25);
        assert_eq!(data[i + 2], shades[block] + 25);
        assert_eq!(data[i + 3], 255);
    }
}

#[test]
fn drawn_shades_are_in_range() {
    let shades = draw_background_shades();
    assert_eq!(shades.len(), 4096);
    assert!(shades.iter().all(|&s| s < 15));
}

#[test]
fn background_texture_is_blocky_gray() {
    let data = background_texture_data();
    assert_eq!(data.len(), 262144);
    for p in 0..65536usize {
        let (x, y) = (p % 256, p / 256);
        let v = data[p * 4];
        assert!((25..40).contains(&v));
        assert_eq!(data[p * 4 + 1], v);
        assert_eq!(data[p * 4 + 2], v);
        assert_eq!(data[p * 4 + 3], 255);
        let corner = ((y / 4 * 4) * 256 + (x / 4 * 4)) * 4;
        assert_eq!(data[corner], v);
    }
}

#[test]
fn dpi_fallback_order() {
    let c = first_dpi_call();
    assert_eq!(c, DpiAwarenessCall::PerMonitorContextV2);
    assert_eq!(next_dpi_call(c, DpiCallOutcome::Returned(1)), None);
    assert_eq!(
        next_dpi_call(c, DpiCallOutcome::Returned(0)),
        Some(DpiAwarenessCall::PerMonitorContextV1)
    );
    assert_eq!(
        next_dpi_call(c, DpiCallOutcome::Unavailable),
        Some(DpiAwarenessCall::ProcessPerMonitor)
    );
    assert_eq!(
        next_dpi_call(DpiAwarenessCall::PerMonitorContextV1, DpiCallOutcome::Returned(0)),
        Some(DpiAwarenessCall::ProcessPerMonitor)
    );
    assert_eq!(next_dpi_call(DpiAwarenessCall::ProcessPerMonitor, DpiCallOutcome::Returned(0)), None);
    assert_eq!(
        next_dpi_call(DpiAwarenessCall::ProcessPerMonitor, DpiCallOutcome::Returned(5)),
        Some(DpiAwarenessCall::SystemAware)
    );
    assert_eq!(next_dpi_call(DpiAwarenessCall::SystemAware, DpiCallOutcome::Returned(0)), None);
    assert!(dpi_call_succeeded(DpiAwarenessCall::SystemAware, DpiCallOutcome::Returned(1)));
    assert!(!dpi_call_succeeded(DpiAwarenessCall::SystemAware, DpiCallOutcome::Unavailable));
}

#[test]
fn dpi_call_details() {
    assert_eq!(dpi_call_argument(DpiAwarenessCall::PerMonitorContextV2), Some(-4));
    assert_eq!(dpi_call_argument(DpiAwarenessCall::PerMonitorContextV1), Some(-3));
    assert_eq!(dpi_call_argument(DpiAwarenessCall::ProcessPerMonitor), Some(2));
    assert_eq!(dpi_call_argument(DpiAwarenessCall::SystemAware), None);
    assert_eq!(
        dpi_call_function(DpiAwarenessCall::ProcessPerMonitor),
        ("Shcore.dll", "SetProcessDpiAwareness")
    );
    assert_eq!(
        dpi_call_function(DpiAwarenessCall::PerMonitorContextV1),
        ("User32.dll", "SetProcessDpiAwarenessContext")
    );
    assert_eq!(dpi_call_function(DpiAwarenessCall::SystemAware), ("User32.dll", "SetProcessDPIAware"));
    set_process_high_dpi_aware();
}

#[test]
fn generic_font_names_use_embedded_fonts() {
    assert_eq!(font_source("sans-serif"), FontSource::Asset("Rajdhani-Medium.ttf"));
    assert_eq!(font_source("sans-serif bold"), FontSource::Asset("Rajdhani-Bold.ttf"));
    assert_eq!(font_source("monospace"), FontSource::Asset("RajdhaniMono-Medium.ttf"));
    assert_eq!(font_source("monospace bold"), FontSource::Asset("RajdhaniMono-Bold.ttf"));
    assert_eq!(font_source("Arial.ttf"), FontSource::File("Arial.ttf".to_string()));
    assert_eq!(font_source("Sans-Serif"), FontSource::File("Sans-Serif".to_string()));
}

#[test]
fn default_font_family_is_embedded() {
    assert_eq!(
        font_source(fui::theme::DEFAULT_FONT_FAMILY),
        FontSource::Asset("Rajdhani-Medium.ttf")
    );
}

#[test]
fn background_texture_is_made_once() {
    let mut t = fui::background::BackgroundTexture::new();
    assert_eq!(t.get_texture_id(), -1);
    let mut made = 0;
    let id = t.get_or_create(|data: Vec<u8>| {
        assert_eq!(data.len(), 262144);
        made += 1;
        7
    });
    assert_eq!(id, 7);
    let id = t.get_or_create(|_data: Vec<u8>| {
        made += 1;
        8
    });
    assert_eq!(id, 7);
    assert_eq!(made, 1);
    assert_eq!(t.get_texture_id(), 7);
}
