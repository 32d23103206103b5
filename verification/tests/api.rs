use torbox_client::envelope::{torbox_error_message, TorboxEnvelope};
use torbox_client::json::{JsonNumber, JsonValue};
use torbox_client::status::HttpStatus;
use torbox_client::torrent::{
    build_torbox_client, create_torrent_url, fill_creation_form, link_broken_for,
    link_broken_message, read_created_id, read_created_id_plain, read_provided_link,
    rejection_for, rejection_message, report_link, request_link_query,
    request_link_url, FormPart, ResponseHead, StartDownloadRequest, StartLinkRequest,
};

fn request() -> StartLinkRequest {
    StartLinkRequest {
        magnet_link: None,
        torrent_file_name: None,
        torrent_file_bytes: None,
        suggested_file_name: None,
        allow_zip: None,
        as_queued: None,
    }
}

fn envelope(
    success: bool,
    error: Option<&str>,
    detail: Option<&str>,
    data: Option<JsonValue>,
) -> TorboxEnvelope<JsonValue> {
    TorboxEnvelope {
        success,
        error: error.map(|text| text.to_string()),
        detail: detail.map(|text| text.to_string()),
        data,
    }
}

fn status(code: u16) -> HttpStatus {
    HttpStatus::new(code).unwrap()
}

fn parts(request: StartLinkRequest) -> Vec<String> {
    fill_creation_form(request)
        .into_iter()
        .map(|part| match part {
            FormPart::Text { name, value } => format!("{name}={value}"),
            FormPart::File { name, file_name, mime, bytes } => {
                format!("{name}:{file_name}:{mime}:{bytes:?}")
            }
        })
        .collect()
}

#[test]
fn statuses_have_three_digits() {
    assert_eq!(HttpStatus::new(99), None);
    assert_eq!(HttpStatus::new(1000), None);
    assert_eq!(status(100).code(), 100);
    assert_eq!(status(999).code(), 999);
}

#[test]
fn statuses_are_printed_with_their_reason() {
    assert_eq!(status(200).to_text(), "200 OK");
    assert_eq!(status(404).to_text(), "404 Not Found");
    assert_eq!(status(799).to_text(), "799 <unknown status code>");
}

#[test]
fn success_is_the_two_hundreds() {
    assert!(!status(199).is_success());
    assert!(status(200).is_success());
    assert!(status(299).is_success());
    assert!(!status(300).is_success());
}

#[test]
fn detail_comes_before_error_and_fallback() {
    let full = envelope(false, Some("E"), Some("D"), None);
    assert_eq!(torbox_error_message(full, "F"), "D");
    let error_only = envelope(false, Some("E"), None, None);
    assert_eq!(torbox_error_message(error_only, "F"), "E");
    let neither = envelope(false, None, None, None);
    assert_eq!(torbox_error_message(neither, "F"), "F");
    let empty = envelope(false, Some("E"), Some(""), None);
    assert_eq!(torbox_error_message(empty, "F"), "");
}

#[test]
fn addresses_lie_below_the_api() {
    assert_eq!(create_torrent_url(), "https://api.torbox.app/v1/api/torrents/createtorrent");
    assert_eq!(request_link_url(), "https://api.torbox.app/v1/api/torrents/requestdl");
}

#[test]
fn client_needs_a_token() {
    assert_eq!(build_torbox_client("t"), Ok("TorboxClient/0.1.0"));
    assert_eq!(build_torbox_client(" "), Err("Bearer token is missing.".to_string()));
}

#[test]
fn smallest_form_has_three_switches() {
    assert_eq!(parts(request()), ["allow_zip=true", "as_queued=false", "add_only_if_cached=false"]);
}

#[test]
fn fullest_form_has_six_parts() {
    let mut full = request();
    full.magnet_link = Some(" magnet:?x ".to_string());
    full.torrent_file_name = Some(" a.torrent".to_string());
    full.torrent_file_bytes = Some(vec![1, 2, 3]);
    full.suggested_file_name = Some("\tname\n".to_string());
    full.allow_zip = Some(false);
    full.as_queued = Some(true);
    assert_eq!(
        parts(full),
        [
            "allow_zip=false",
            "as_queued=true",
            "add_only_if_cached=false",
            "name=name",
            "magnet=magnet:?x",
            "file: a.torrent:application/x-bittorrent:[1, 2, 3]",
        ]
    );
}

#[test]
fn torrent_file_has_a_standard_name() {
    let mut blank = request();
    blank.torrent_file_bytes = Some(vec![]);
    blank.torrent_file_name = Some("  ".to_string());
    blank.suggested_file_name = Some(" ".to_string());
    blank.magnet_link = Some(" ".to_string());
    assert_eq!(
        parts(blank),
        [
            "allow_zip=true",
            "as_queued=false",
            "add_only_if_cached=false",
            "file:upload.torrent:application/x-bittorrent:[]",
        ]
    );
}

#[test]
fn source_is_a_magnet_link_or_a_file() {
    assert!(!request().has_source());
    let mut blank = request();
    blank.magnet_link = Some(" ".to_string());
    assert!(!blank.has_source());
    let mut magnet = request();
    magnet.magnet_link = Some("m".to_string());
    assert!(magnet.has_source());
    let mut file = request();
    file.torrent_file_bytes = Some(vec![]);
    assert!(file.has_source());
}

#[test]
fn download_request_splits_into_torrent_and_destination() {
    let (torrent, destination) = StartDownloadRequest {
        magnet_link: Some("m".to_string()),
        torrent_file_name: Some("f".to_string()),
        torrent_file_bytes: Some(vec![7]),
        destination_path: Some("d".to_string()),
        suggested_file_name: Some("s".to_string()),
        allow_zip: Some(false),
        as_queued: Some(true),
    }
    .split();
    assert_eq!(destination, Some("d".to_string()));
    assert_eq!(torrent.magnet_link, Some("m".to_string()));
    assert_eq!(torrent.torrent_file_name, Some("f".to_string()));
    assert_eq!(torrent.torrent_file_bytes, Some(vec![7]));
    assert_eq!(torrent.suggested_file_name, Some("s".to_string()));
    assert!(!torrent.zip_allowed());
    assert_eq!(torrent.as_queued, Some(true));
}

#[test]
fn link_query_names_token_and_torrent() {
    let query: Vec<(&str, String)> = request_link_query("tok", "42", true)
        .into_iter()
        .map(|param| (param.name, param.value))
        .collect();
    assert_eq!(
        query,
        [
            ("token", "tok".to_string()),
            ("torrent_id", "42".to_string()),
            ("file_id", "0".to_string()),
            ("zip_link", "true".to_string()),
            ("redirect", "false".to_string()),
            ("append_name", "true".to_string()),
        ]
    );
    assert_eq!(request_link_query("tok", "42", false)[3].value, "false");
}

#[test]
fn json_is_known_by_its_content_type() {
    let head = |content_type: Option<&str>| ResponseHead {
        status: status(200),
        content_type: content_type.map(|text| text.to_string()),
        url: String::new(),
        content_length: None,
    };
    assert!(head(Some("application/json")).announces_json());
    assert!(head(Some("x application/json; charset=utf-8")).announces_json());
    assert!(!head(Some("Application/JSON")).announces_json());
    assert!(!head(Some("text/plain")).announces_json());
    assert!(!head(Some("")).announces_json());
    assert!(!head(None).announces_json());
}

#[test]
fn created_id_is_read_from_the_data() {
    let data = JsonValue::Number(JsonNumber::Unsigned(42));
    assert_eq!(read_created_id(envelope(true, None, None, Some(data)), status(200)), Ok("42".to_string()));
    let missing = "TorBox did not return a torrent id.".to_string();
    assert_eq!(read_created_id(envelope(true, None, None, None), status(200)), Err(missing.clone()));
    let empty = envelope(true, None, None, Some(JsonValue::Null));
    assert_eq!(read_created_id(empty, status(200)), Err(missing));
}

#[test]
fn refused_torrent_is_explained() {
    let data = JsonValue::Number(JsonNumber::Unsigned(42));
    let refused = envelope(false, Some("E"), None, Some(data));
    assert_eq!(read_created_id(refused, status(400)), Err("E".to_string()));
    let silent = envelope(false, None, None, None);
    assert_eq!(
        read_created_id(silent, status(503)),
        Err("TorBox rejected the torrent request (503 Service Unavailable).".to_string())
    );
    assert_eq!(
        rejection_message(status(418)),
        "TorBox rejected the torrent request (418 I'm a teapot)."
    );
}

#[test]
fn plain_id_is_trimmed() {
    assert_eq!(read_created_id_plain(" 42\n"), Ok("42".to_string()));
    assert_eq!(
        read_created_id_plain(" \n"),
        Err("TorBox did not return a torrent id.".to_string())
    );
}

#[test]
fn link_is_read_from_the_data() {
    let data = JsonValue::Text("https://x".to_string());
    assert_eq!(
        read_provided_link(envelope(true, None, None, Some(data))),
        Ok("https://x".to_string())
    );
    let missing = "TorBox did not provide a direct download link.".to_string();
    assert_eq!(read_provided_link(envelope(true, None, None, None)), Err(missing.clone()));
    let data = JsonValue::Text("https://x".to_string());
    assert_eq!(read_provided_link(envelope(false, None, None, Some(data))), Err(missing));
    assert_eq!(
        read_provided_link(envelope(false, Some("E"), Some("D"), None)),
        Err("D".to_string())
    );
}

#[test]
fn link_report_says_what_was_done() {
    let report = report_link("42".to_string(), "https://x".to_string());
    assert_eq!(report.torrent_id, "42");
    assert_eq!(report.download_url, "https://x");
    assert_eq!(report.detail, "Successfully created torrent and requested download URL.");
}

#[test]
fn printed_statuses_are_quoted() {
    assert_eq!(rejection_for("404 Gone"), "TorBox rejected the torrent request (404 Gone).");
    assert_eq!(
        link_broken_for("500 Oops"),
        "TorBox returned an error while opening the download link (500 Oops)"
    );
    assert_eq!(
        link_broken_message(status(404)),
        "TorBox returned an error while opening the download link (404 Not Found)"
    );
}
