use plumeimpactor::download::{download_step, ipa_file_name, DownloadProgress, DownloadStep};
use plumeimpactor::icons::{bundled_icon, decode_icon, BundledIcon};
use plumeimpactor::layout::ScreenLayout;
use plumeimpactor::library::{
    default_category, entry_is_shown, filter_entries, matches_lowered, same_text, IpaEntry,
};
use plumeimpactor::screen::{Effect, IpaLibraryScreen, Message};
use plumeimpactor::text::contains_text;
use plumeimpactor::theme::PlumeTheme;

fn entry(title: &str, description: &str, category: &str) -> IpaEntry {
    IpaEntry {
        title: title.to_string(),
        description: description.to_string(),
        download_url: format!("https://example.com/{}.ipa", title),
        icon_path: None,
        category: category.to_string(),
    }
}

fn sample() -> Vec<IpaEntry> {
    vec![
        entry("LiveContainer", "Run apps without installing", "container"),
        entry("Dopamine", "Semi-untethered jailbreak", "jailbreak"),
        entry("TrollInstallerX", "Installs TrollStore", "utility"),
        entry("Lara", "A small utility", "utility"),
    ]
}

fn titles(entries: &[IpaEntry]) -> Vec<String> {
    entries.iter().map(|e| e.title.clone()).collect()
}

fn loaded_screen() -> IpaLibraryScreen {
    let mut screen = IpaLibraryScreen::new();
    let effect = screen.update(Message::LibraryFetched(sample()));
    assert!(matches!(effect, Effect::Nothing));
    screen
}

#[test]
fn default_category_is_utility() {
    assert_eq!(default_category(), "utility");
}

#[test]
fn contains_text_finds_substrings() {
    assert!(contains_text("hello world", "lo w"));
    assert!(contains_text("hello", ""));
    assert!(contains_text("", ""));
    assert!(!contains_text("", "a"));
    assert!(!contains_text("hello", "hellos"));
    assert!(contains_text("abcabd", "abd"));
    assert!(!contains_text("abcabd", "abe"));
}

#[test]
fn same_text_compares_characters() {
    assert!(same_text("all", "all"));
    assert!(!same_text("all", "All"));
    assert!(!same_text("all", "al"));
}

#[test]
fn matches_lowered_checks_search_and_category() {
    assert!(matches_lowered("dopamine", "a jailbreak", "jail", "jailbreak", "all"));
    assert!(matches_lowered("dopamine", "a jailbreak", "dopa", "jailbreak", "jailbreak"));
    assert!(!matches_lowered("dopamine", "a jailbreak", "dopa", "jailbreak", "utility"));
    assert!(!matches_lowered("dopamine", "a jailbreak", "troll", "jailbreak", "all"));
    assert!(matches_lowered("x", "y", "", "utility", "utility"));
}

#[test]
fn entry_is_shown_ignores_case_of_entry() {
    let e = entry("Dopamine", "Semi-Untethered JAILBREAK", "jailbreak");
    assert!(entry_is_shown(&e, "jailbreak", "all"));
    assert!(entry_is_shown(&e, "dopamine", "jailbreak"));
    assert!(!entry_is_shown(&e, "Dopamine", "all"));
    let accented = entry("ÄÖ Tool", "", "utility");
    assert!(entry_is_shown(&accented, "äö", "utility"));
}

#[test]
fn filter_entries_keeps_order_and_matches() {
    let entries = sample();
    assert_eq!(
        titles(&filter_entries(&entries, "", "all")),
        vec!["LiveContainer", "Dopamine", "TrollInstallerX", "Lara"]
    );
    assert_eq!(
        titles(&filter_entries(&entries, "", "utility")),
        vec!["TrollInstallerX", "Lara"]
    );
    assert_eq!(titles(&filter_entries(&entries, "TROLL", "all")), vec!["TrollInstallerX"]);
    assert_eq!(
        titles(&filter_entries(&entries, "install", "all")),
        vec!["LiveContainer", "TrollInstallerX"]
    );
    assert!(filter_entries(&entries, "install", "jailbreak").is_empty());
    assert!(filter_entries(&entries, "", "games").is_empty());
}

#[test]
fn new_screen_waits_for_library() {
    let screen = IpaLibraryScreen::new();
    assert!(screen.is_loading);
    assert!(screen.entries.is_empty());
    assert!(screen.filtered_entries.is_empty());
    assert_eq!(screen.search_query, "");
    assert_eq!(screen.selected_category, "all");
    assert!(screen.downloading_entry.is_none());
    assert_eq!(screen.download_progress, DownloadProgress { downloaded: 0, total: 0 });
    assert!(screen.error.is_none());
    assert!(matches!(screen.layout(), ScreenLayout::Loading));
}

#[test]
fn fetch_then_list_everything() {
    let mut screen = IpaLibraryScreen::new();
    screen.error = Some("old".to_string());
    screen.is_loading = false;
    assert!(matches!(screen.update(Message::FetchLibrary), Effect::FetchLibrary));
    assert!(screen.is_loading);
    assert!(screen.error.is_none());
    screen.update(Message::LibraryFetched(sample()));
    assert!(!screen.is_loading);
    assert_eq!(titles(&screen.entries), titles(&sample()));
    assert_eq!(titles(&screen.filtered_entries), titles(&sample()));
}

#[test]
fn fetch_error_is_shown() {
    let mut screen = IpaLibraryScreen::new();
    let effect = screen.update(Message::LibraryFetchError("HTTP 404".to_string()));
    assert!(matches!(effect, Effect::Nothing));
    assert!(!screen.is_loading);
    assert_eq!(screen.error.as_deref(), Some("HTTP 404"));
    match screen.layout() {
        ScreenLayout::Failed { message } => assert_eq!(message, "Error: HTTP 404"),
        _ => panic!("expected the error view"),
    }
}

#[test]
fn search_and_category_refilter() {
    let mut screen = loaded_screen();
    screen.update(Message::SearchChanged("util".to_string()));
    assert_eq!(screen.search_query, "util");
    assert_eq!(titles(&screen.filtered_entries), vec!["Lara"]);
    screen.update(Message::SearchChanged(String::new()));
    screen.update(Message::CategoryChanged("jailbreak".to_string()));
    assert_eq!(screen.selected_category, "jailbreak");
    assert_eq!(titles(&screen.filtered_entries), vec!["Dopamine"]);
    screen.update(Message::CategoryChanged("all".to_string()));
    assert_eq!(titles(&screen.filtered_entries), titles(&sample()));
}

#[test]
fn category_change_is_undone() {
    let mut screen = loaded_screen();
    let before = titles(&screen.filtered_entries);
    screen.update(Message::CategoryChanged("utility".to_string()));
    assert_ne!(titles(&screen.filtered_entries), before);
    screen.update(Message::CategoryChanged("all".to_string()));
    assert_eq!(titles(&screen.filtered_entries), before);
}

#[test]
fn download_flow() {
    let mut screen = loaded_screen();
    let target = screen.filtered_entries[1].clone();
    match screen.update(Message::DownloadClicked(target.clone())) {
        Effect::Download { url, title } => {
            assert_eq!(url, target.download_url);
            assert_eq!(title, "Dopamine");
        }
        _ => panic!("expected a download"),
    }
    assert_eq!(screen.downloading_entry.as_deref(), Some("Dopamine"));
    assert_eq!(screen.download_progress, DownloadProgress { downloaded: 0, total: 0 });
    let p = DownloadProgress { downloaded: 10, total: 40 };
    assert!(matches!(screen.update(Message::DownloadProgress(p)), Effect::Nothing));
    assert_eq!(screen.download_progress, p);
    let stored = std::path::PathBuf::from("/tmp/Dopamine.ipa");
    match screen.update(Message::DownloadFinished(stored.clone())) {
        Effect::OpenPackage { path } => assert_eq!(path, stored),
        _ => panic!("expected the package to be opened"),
    }
    assert!(screen.downloading_entry.is_none());
}

#[test]
fn download_error_clears_marker() {
    let mut screen = loaded_screen();
    screen.update(Message::DownloadClicked(screen.entries[0].clone()));
    let effect = screen.update(Message::DownloadError("timed out".to_string()));
    assert!(matches!(effect, Effect::Nothing));
    assert!(screen.downloading_entry.is_none());
}

#[test]
fn navigate_and_back_change_nothing() {
    let mut screen = loaded_screen();
    assert!(matches!(screen.update(Message::NavigateToInstaller), Effect::Nothing));
    assert!(matches!(screen.update(Message::Back), Effect::Nothing));
    assert_eq!(titles(&screen.filtered_entries), titles(&sample()));
    assert!(!screen.is_loading);
}

#[test]
fn apply_filter_recomputes_listing() {
    let mut screen = loaded_screen();
    screen.search_query = "lara".to_string();
    screen.apply_filter();
    assert_eq!(titles(&screen.filtered_entries), vec!["Lara"]);
}

#[test]
fn layout_lists_rows_and_tabs() {
    let mut screen = loaded_screen();
    screen.entries[0].icon_path = Some("icons/livecontainer.png".to_string());
    screen.entries[1].icon_path = Some("unknown.png".to_string());
    screen.apply_filter();
    screen.update(Message::CategoryChanged("all".to_string()));
    screen.update(Message::DownloadClicked(screen.entries[2].clone()));
    match screen.layout() {
        ScreenLayout::Library { categories, nothing_found, rows, progress_started } => {
            let names: Vec<&str> = categories.iter().map(|c| c.category.as_str()).collect();
            assert_eq!(names, vec!["all", "jailbreak", "utility", "container"]);
            let keys: Vec<&str> = categories.iter().map(|c| c.label_key.as_str()).collect();
            assert_eq!(
                keys,
                vec!["category_all", "category_jailbreak", "category_utility", "category_container"]
            );
            let selected: Vec<bool> = categories.iter().map(|c| c.selected).collect();
            assert_eq!(selected, vec![true, false, false, false]);
            assert!(!nothing_found);
            assert_eq!(rows.len(), 4);
            assert_eq!(rows[0].icon, Some(BundledIcon::LiveContainer));
            assert_eq!(rows[1].icon, None);
            let downloading: Vec<bool> = rows.iter().map(|r| r.downloading).collect();
            assert_eq!(downloading, vec![false, false, true, false]);
            assert!(!progress_started);
        }
        _ => panic!("expected the list"),
    }
    screen.update(Message::DownloadProgress(DownloadProgress { downloaded: 1, total: 2 }));
    screen.update(Message::SearchChanged("nothing like this".to_string()));
    match screen.layout() {
        ScreenLayout::Library { nothing_found, rows, progress_started, .. } => {
            assert!(nothing_found);
            assert!(rows.is_empty());
            assert!(progress_started);
        }
        _ => panic!("expected the list"),
    }
}

#[test]
fn theme_labels_and_palettes() {
    assert_eq!(PlumeTheme::default(), PlumeTheme::PlumeDark);
    assert_eq!(
        PlumeTheme::all(),
        vec![PlumeTheme::PlumeDark, PlumeTheme::Mint, PlumeTheme::Blue, PlumeTheme::Red]
    );
    let labels: Vec<&str> = PlumeTheme::all().iter().map(|t| t.label()).collect();
    assert_eq!(labels, vec!["Plume Dark", "Mint", "Blue", "Red"]);
    for t in PlumeTheme::all() {
        assert_eq!(t.palette().name, t.label());
    }
    let dark = PlumeTheme::PlumeDark.palette().colors;
    assert_eq!(dark.background, 0x282021);
    assert_eq!(dark.text, 0xf2d5cf);
    assert_eq!(dark.primary, 0xd3869b);
    assert_eq!(dark.success, 0xd9a6b3);
    assert_eq!(dark.danger, 0xe78a8a);
    assert_eq!(dark.warning, 0xf4b8c4);
    assert_eq!(PlumeTheme::Mint.palette().colors.primary, 0x55b182);
    assert_eq!(PlumeTheme::Blue.palette().colors.background, 0x1a2130);
    assert_eq!(PlumeTheme::Red.palette().colors.warning, 0xe3b772);
}

#[test]
fn bundled_icons_by_path() {
    assert_eq!(bundled_icon("icons/livecontainer.png"), Some(BundledIcon::LiveContainer));
    assert_eq!(bundled_icon("livecontainer.png"), Some(BundledIcon::LiveContainer));
    assert_eq!(bundled_icon("icons/Dopamine.png"), Some(BundledIcon::Dopamine));
    assert_eq!(bundled_icon("Dopamine.png"), Some(BundledIcon::Dopamine));
    assert_eq!(bundled_icon("TrollInstallerX.png"), Some(BundledIcon::TrollInstallerX));
    assert_eq!(bundled_icon("icons/lara.png"), Some(BundledIcon::Lara));
    assert_eq!(bundled_icon("dopamine.png"), None);
    assert_eq!(bundled_icon("other/lara.png"), None);
    assert_eq!(bundled_icon(""), None);
    assert_eq!(BundledIcon::Lara.file_name(), "lara.png");
}

#[test]
fn decode_icon_reads_png() {
    let mut png = Vec::new();
    let picture = image::RgbaImage::from_pixel(3, 2, image::Rgba([10, 20, 30, 255]));
    picture
        .write_to(&mut std::io::Cursor::new(&mut png), image::ImageFormat::Png)
        .unwrap();
    let decoded = decode_icon(&png).expect("a valid PNG");
    assert_eq!(decoded.width, 3);
    assert_eq!(decoded.height, 2);
    assert_eq!(decoded.rgba.len(), 24);
    assert_eq!(&decoded.rgba[0..4], &[10, 20, 30, 255]);
    assert!(decode_icon(b"not an image").is_none());
}

#[test]
fn file_name_replaces_spaces() {
    assert_eq!(ipa_file_name("Live Container"), "Live_Container.ipa");
    assert_eq!(ipa_file_name("Dopamine"), "Dopamine.ipa");
    assert_eq!(ipa_file_name(" a  b "), "_a__b_.ipa");
    assert_eq!(ipa_file_name(""), ".ipa");
}

#[test]
fn download_steps() {
    assert!(matches!(download_step(100, 0, Some(500)), DownloadStep::Finished));
    match download_step(100, 50, Some(500)) {
        DownloadStep::Received { downloaded, report } => {
            assert_eq!(downloaded, 150);
            assert_eq!(report, Some(DownloadProgress { downloaded: 150, total: 500 }));
        }
        _ => panic!("expected a chunk"),
    }
    match download_step(0, 8192, None) {
        DownloadStep::Received { downloaded, report } => {
            assert_eq!(downloaded, 8192);
            assert_eq!(report, None);
        }
        _ => panic!("expected a chunk"),
    }
}

#[test]
fn progress_started_once_bytes_arrive() {
    assert!(!DownloadProgress::none().has_started());
    assert!(DownloadProgress { downloaded: 1, total: 0 }.has_started());
    assert!(!DownloadProgress { downloaded: 0, total: 10 }.has_started());
}

#[test]
fn search_ignores_letter_case() {
    let entries = sample();
    assert_eq!(
        titles(&filter_entries(&entries, "INSTALL", "all")),
        titles(&filter_entries(&entries, "install", "all"))
    );
    assert_eq!(titles(&filter_entries(&entries, "LiVeCoNtAiNeR", "all")), vec!["LiveContainer"]);
}

#[test]
fn narrower_query_lists_less() {
    let entries = sample();
    let broad = titles(&filter_entries(&entries, "in", "all"));
    let narrow = titles(&filter_entries(&entries, "install", "all"));
    assert_eq!(broad, vec!["LiveContainer", "Dopamine", "TrollInstallerX"]);
    assert_eq!(narrow, vec!["LiveContainer", "TrollInstallerX"]);
    assert!(narrow.iter().all(|t| broad.contains(t)));
}

#[test]
fn message_clone_carries_same_event() {
    let original = Message::LibraryFetched(sample());
    match original.clone() {
        Message::LibraryFetched(copy) => assert_eq!(titles(&copy), titles(&sample())),
        _ => panic!("expected the same event"),
    }
    let path = std::path::PathBuf::from("/tmp/x.ipa");
    match Message::DownloadFinished(path.clone()).clone() {
        Message::DownloadFinished(p) => assert_eq!(p, path),
        _ => panic!("expected the same event"),
    }
    let e = entry("Lara", "A small utility", "utility");
    let c = e.clone();
    assert_eq!(format!("{:?}", c), format!("{:?}", e));
}
