use torbox_client::output::{
    choose_destination, choose_output, looks_like_directory, report_download, resolve_output_path,
    OutputPath,
};
use torbox_client::settings::AppSettings;

fn shown(output: OutputPath) -> String {
    match output {
        OutputPath::File(path) => path,
        OutputPath::Inside { directory, file_name } => format!("{directory}|{file_name}"),
    }
}

fn settings(path: &str) -> AppSettings {
    AppSettings { bearer_token: String::new(), default_save_path: path.to_string() }
}

fn on_windows() -> bool {
    std::path::MAIN_SEPARATOR == '\\'
}

fn chosen(destination: &str, name: Option<&str>, is_directory: bool) -> String {
    shown(choose_output(destination, name, is_directory))
}

#[test]
fn plain_destination_is_the_file() {
    assert_eq!(chosen(" /d/f.zip ", Some("n"), false), "/d/f.zip");
    assert_eq!(resolve_output_path(" /d/f.zip ", Some("n"), false), "/d/f.zip");
}

#[test]
fn separator_makes_a_directory() {
    assert_eq!(chosen("/d/ ", Some("n"), false), "/d/|n");
    assert_eq!(chosen("C:\\d\\", Some(" n "), true), "C:\\d\\| n ");
    assert!(looks_like_directory("/d/\n"));
    assert!(looks_like_directory("d\\"));
    assert!(!looks_like_directory("/d"));
    assert!(!looks_like_directory(""));
}

#[test]
fn existing_directory_gets_a_file() {
    assert_eq!(chosen("/d", Some("n"), true), "/d|n");
}

#[test]
fn standard_name_stands_in() {
    assert_eq!(chosen("/d/", None, false), "/d/|torbox-download.zip");
    assert_eq!(chosen("/d", Some(" "), true), "/d|torbox-download.zip");
    assert_eq!(resolve_output_path("/d/", None, false), "/d/torbox-download.zip");
}

#[test]
fn slash_at_the_end_is_the_separator() {
    assert_eq!(resolve_output_path(" /d/ ", Some("n.mkv"), false), "/d/n.mkv");
    assert_eq!(resolve_output_path("C:/d/", Some("n"), true), "C:/d/n");
}

#[test]
fn system_separates_directory_and_name() {
    let separator = std::path::MAIN_SEPARATOR;
    assert_eq!(resolve_output_path("/d", Some("n.mkv"), true), format!("/d{separator}n.mkv"));
    let path = resolve_output_path("d\\", Some("n"), false);
    assert!(path == "d\\n" || path == "d\\/n");
}

#[test]
fn rooted_name_replaces_the_directory() {
    assert_eq!(resolve_output_path("/d/", Some("/e/n"), false), "/e/n");
}

#[test]
fn name_in_a_folder_goes_below_the_directory() {
    let separator = std::path::MAIN_SEPARATOR;
    assert_eq!(
        resolve_output_path("/downloads/", Some("sub/a.zip"), false),
        "/downloads/sub/a.zip"
    );
    assert_eq!(
        resolve_output_path("/d", Some("Season 1/ep1.mkv"), true),
        format!("/d{separator}Season 1/ep1.mkv")
    );
    assert_eq!(resolve_output_path("/d/", Some("../n"), false), "/d/../n");
    assert_eq!(resolve_output_path("/d/", Some("s\\n"), false), "/d/s\\n");
}

#[test]
fn name_with_a_colon_goes_into_the_directory() {
    assert_eq!(
        resolve_output_path("/d/", Some("Alien: Covenant.mkv"), false),
        "/d/Alien: Covenant.mkv"
    );
    assert_eq!(resolve_output_path("/d/", Some("1:2"), false), "/d/1:2");
}

#[test]
fn name_on_a_drive_is_the_path_where_there_are_drives() {
    let path = resolve_output_path("/d/", Some("C:n"), false);
    assert_eq!(path, if on_windows() { "C:n" } else { "/d/C:n" });
}

#[test]
fn backslash_is_a_root_where_it_is_a_separator() {
    let path = resolve_output_path("/d/", Some("\\n"), false);
    assert_eq!(path, if on_windows() { "\\n" } else { "/d/\\n" });
}

#[test]
fn network_share_keeps_its_place() {
    let path = resolve_output_path("\\\\nas\\films\\", Some("n.mkv"), false);
    assert_eq!(
        path,
        if on_windows() { "\\\\nas\\films\\n.mkv" } else { "\\\\nas\\films\\/n.mkv" }
    );
    let separator = std::path::MAIN_SEPARATOR;
    assert_eq!(
        resolve_output_path("\\\\nas\\films", Some("n.mkv"), true),
        format!("\\\\nas\\films{separator}n.mkv")
    );
}

#[test]
fn verbatim_directory_keeps_its_start_and_the_name() {
    let path = resolve_output_path("\\\\?\\C:\\d", Some("n.mkv"), true);
    assert!(path.starts_with("\\\\?\\"));
    assert!(path.ends_with("n.mkv"));
}

#[test]
fn drive_and_name_make_a_path() {
    let path = resolve_output_path("C:", Some("n"), true);
    assert_eq!(path, if on_windows() { "C:n" } else { "C:/n" });
}

#[test]
fn requested_destination_comes_first() {
    let chosen = choose_destination(Some(" /a ".to_string()), &settings("/b"));
    assert_eq!(chosen, Ok(" /a ".to_string()));
    assert_eq!(choose_destination(Some(" ".to_string()), &settings(" /b ")), Ok("/b".to_string()));
    assert_eq!(choose_destination(None, &settings("/b")), Ok("/b".to_string()));
}

#[test]
fn some_destination_is_needed() {
    assert_eq!(
        choose_destination(None, &settings("  ")),
        Err("Choose a destination path before downloading.".to_string())
    );
}

#[test]
fn report_tells_size_and_place() {
    let report = report_download("42".to_string(), "/d/f".to_string(), 2048, "2 KiB");
    assert_eq!(report.torrent_id, "42");
    assert_eq!(report.output_path, "/d/f");
    assert_eq!(report.bytes_written, 2048);
    assert_eq!(report.detail, "Saved 2 KiB to /d/f");
}

#[test]
fn white_space_around_a_destination_makes_no_difference() {
    for is_directory in [false, true] {
        assert_eq!(
            resolve_output_path(" \t/d \n", Some("n"), is_directory),
            resolve_output_path("/d", Some("n"), is_directory)
        );
    }
}
