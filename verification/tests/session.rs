use torbox_client::course::{start_download, start_link_request};
use torbox_client::envelope::TorboxEnvelope;
use torbox_client::json::{JsonMember, JsonNumber, JsonValue};
use torbox_client::session::{Next, Notice, Outcome, Reply, Session, Transfer, Work};
use torbox_client::settings::AppSettings;
use torbox_client::status::HttpStatus;
use torbox_client::torrent::{FormPart, ResponseHead, StartDownloadRequest, StartLinkRequest};

fn link_request(magnet: &str) -> StartLinkRequest {
    StartLinkRequest {
        magnet_link: Some(magnet.to_string()),
        torrent_file_name: None,
        torrent_file_bytes: None,
        suggested_file_name: None,
        allow_zip: None,
        as_queued: None,
    }
}

fn download_request(destination: Option<&str>) -> StartDownloadRequest {
    StartDownloadRequest {
        magnet_link: Some("magnet:?x".to_string()),
        torrent_file_name: None,
        torrent_file_bytes: None,
        destination_path: destination.map(|text| text.to_string()),
        suggested_file_name: Some("movie.mkv".to_string()),
        allow_zip: Some(false),
        as_queued: None,
    }
}

fn settings(token: &str, path: &str) -> Reply {
    Reply::Settings(Ok(AppSettings {
        bearer_token: token.to_string(),
        default_save_path: path.to_string(),
    }))
}

fn head(code: u16, content_type: Option<&str>) -> Reply {
    Reply::Response(Ok(ResponseHead {
        status: HttpStatus::new(code).unwrap(),
        content_type: content_type.map(|text| text.to_string()),
        url: "https://redirected".to_string(),
        content_length: Some(30),
    }))
}

fn json(code: u16) -> Reply {
    head(code, Some("application/json"))
}

fn answer(key: &str, value: JsonValue) -> Reply {
    Reply::Envelope(Ok(TorboxEnvelope {
        success: true,
        error: None,
        detail: None,
        data: Some(JsonValue::Object(vec![JsonMember { key: key.to_string(), value }])),
    }))
}

fn id_answer() -> Reply {
    answer("torrent_id", JsonValue::Number(JsonNumber::Unsigned(42)))
}

fn link_answer() -> Reply {
    answer("url", JsonValue::Text("https://link".to_string()))
}

fn chunk(length: usize) -> Reply {
    Reply::Chunk(Ok(Some(vec![7; length])))
}

fn failed(text: &str) -> Result<(), String> {
    Err(text.to_string())
}

fn step(next: Next, reply: Reply) -> Next {
    assert!(next.session.accepts(&reply));
    next.session.step(reply)
}

fn steps(next: Next, replies: Vec<Reply>) -> Next {
    let mut next = next;
    for reply in replies {
        next = step(next, reply);
    }
    next
}

fn shown(next: &Next) -> Vec<String> {
    next.notices
        .iter()
        .map(|notice| match notice {
            Notice::Status(text) => format!("{}: {}", notice.channel(), text),
            Notice::Progress(progress) => format!(
                "{}: {} of {:?}",
                notice.channel(),
                progress.bytes_downloaded,
                progress.total_bytes
            ),
        })
        .collect()
}

fn error(next: Next) -> String {
    assert!(matches!(next.session, Session::Finished));
    assert!(next.notices.is_empty());
    match next.work {
        Work::Finish(Err(message)) => message,
        other => panic!("{other:?}"),
    }
}

fn link_created() -> Next {
    steps(
        start_link_request(link_request("magnet:?x")),
        vec![settings("tok", ""), Reply::Client(Ok(())), json(200), id_answer()],
    )
}

fn download_created(destination: Option<&str>) -> Next {
    steps(
        start_download(download_request(destination)),
        vec![settings("tok", ""), Reply::Client(Ok(())), json(200), id_answer()],
    )
}

fn download_opened() -> Next {
    steps(
        download_created(Some("/d/")),
        vec![
            settings("other", ""),
            Reply::Folder(Ok(())),
            json(200),
            link_answer(),
        ],
    )
}

#[test]
fn every_request_begins_with_the_settings() {
    assert!(matches!(start_link_request(link_request("m")).work, Work::LoadSettings));
    assert!(matches!(start_download(download_request(None)).work, Work::LoadSettings));
}

#[test]
fn settings_that_cannot_be_loaded_end_the_request() {
    let next = step(start_link_request(link_request("m")), Reply::Settings(Err("bad".to_string())));
    assert_eq!(error(next), "bad");
}

#[test]
fn token_is_asked_for() {
    let next = step(start_link_request(link_request("m")), settings(" ", "/p"));
    assert_eq!(error(next), "Save a bearer token in settings before starting a link request.");
    let next = step(start_download(download_request(None)), settings("", ""));
    assert_eq!(error(next), "Save a bearer token in settings before starting a download.");
}

#[test]
fn source_is_asked_for() {
    let next = step(start_link_request(link_request(" ")), settings("t", ""));
    assert_eq!(error(next), "Provide either a magnet link or a torrent file.");
}

#[test]
fn client_is_built_with_its_user_agent() {
    let next = step(start_link_request(link_request("m")), settings("t", ""));
    assert!(matches!(next.work, Work::BuildClient { user_agent: "TorboxClient/0.1.0" }));
    let next = step(next, Reply::Client(failed("tls")));
    assert_eq!(error(next), "Failed to create HTTP client: tls");
}

#[test]
fn torrent_is_submitted_under_the_token() {
    let next = steps(
        start_link_request(link_request(" m ")),
        vec![settings("tok", ""), Reply::Client(Ok(()))],
    );
    assert_eq!(shown(&next), ["download-status: Submitting torrent to TorBox (createtorrent)"]);
    match next.work {
        Work::CreateTorrent { url, token, form } => {
            assert_eq!(url, "https://api.torbox.app/v1/api/torrents/createtorrent");
            assert_eq!(token, "tok");
            assert_eq!(form.len(), 4);
            assert!(matches!(&form[3], FormPart::Text { name: "magnet", value } if value == "m"));
        }
        other => panic!("{other:?}"),
    }
}

#[test]
fn failed_submissions_are_explained() {
    let submitted = || {
        steps(
            start_link_request(link_request("m")),
            vec![settings("tok", ""), Reply::Client(Ok(()))],
        )
    };
    assert_eq!(
        error(step(submitted(), Reply::UploadUnprepared("mime".to_string()))),
        "Failed to prepare torrent file upload: mime"
    );
    assert_eq!(
        error(step(submitted(), Reply::Response(Err("dns".to_string())))),
        "Failed to create torrent: dns"
    );
    assert_eq!(
        error(step(submitted(), head(404, Some("text/html")))),
        "TorBox rejected the torrent request (404 Not Found)."
    );
    assert_eq!(
        error(steps(submitted(), vec![json(500), Reply::Envelope(Err("eof".to_string()))])),
        "Failed to decode TorBox response: eof"
    );
    assert_eq!(
        error(steps(submitted(), vec![head(200, None), Reply::Text(Err("cut".to_string()))])),
        "Failed to read TorBox response: cut"
    );
    assert_eq!(
        error(steps(submitted(), vec![head(200, None), Reply::Text(Ok(" ".to_string()))])),
        "TorBox did not return a torrent id."
    );
}

#[test]
fn json_answer_counts_whatever_its_status() {
    let next = steps(
        start_link_request(link_request("m")),
        vec![settings("tok", ""), Reply::Client(Ok(())), json(500), id_answer()],
    );
    assert_eq!(shown(&next), ["download-status: TorBox created torrent id 42"]);
}

#[test]
fn plain_answer_gives_the_id() {
    let next = steps(
        start_link_request(link_request("m")),
        vec![
            settings("tok", ""),
            Reply::Client(Ok(())),
            head(201, None),
            Reply::Text(Ok(" 7 ".to_string())),
        ],
    );
    assert_eq!(shown(&next), ["download-status: TorBox created torrent id 7"]);
}

#[test]
fn link_is_requested_under_the_token() {
    match link_created().work {
        Work::RequestLink { url, token, query } => {
            assert_eq!(url, "https://api.torbox.app/v1/api/torrents/requestdl");
            assert_eq!(token, "tok");
            assert_eq!(query[0].value, "tok");
            assert_eq!(query[1].value, "42");
            assert_eq!(query[3].value, "true");
        }
        other => panic!("{other:?}"),
    }
}

#[test]
fn link_request_ends_with_the_link() {
    let next = steps(link_created(), vec![json(200), link_answer()]);
    assert_eq!(shown(&next), ["download-status: Received download URL from TorBox."]);
    match next.work {
        Work::Finish(Ok(Outcome::Link(report))) => {
            assert_eq!(report.torrent_id, "42");
            assert_eq!(report.download_url, "https://link");
        }
        other => panic!("{other:?}"),
    }
}

#[test]
fn answer_that_is_not_json_has_led_to_the_link() {
    let next = step(link_created(), head(404, Some("video/mp4")));
    assert!(next.notices.is_empty());
    match next.work {
        Work::Finish(Ok(Outcome::Link(report))) => {
            assert_eq!(report.download_url, "https://redirected");
        }
        other => panic!("{other:?}"),
    }
}

#[test]
fn failed_link_requests_are_explained() {
    assert_eq!(
        error(step(link_created(), Reply::Response(Err("dns".to_string())))),
        "Failed to request the direct download link: dns"
    );
    assert_eq!(
        error(steps(link_created(), vec![json(200), Reply::Envelope(Err("eof".to_string()))])),
        "Failed to decode TorBox response: eof"
    );
    let empty = answer("url", JsonValue::Null);
    assert_eq!(
        error(steps(link_created(), vec![json(200), empty])),
        "TorBox did not provide a direct download link."
    );
}

#[test]
fn download_looks_up_the_settings_again() {
    let next = download_created(None);
    assert_eq!(shown(&next), ["download-status: TorBox created torrent id 42"]);
    assert!(matches!(next.work, Work::LoadSettings));
    let next = step(next, settings("tok", " "));
    assert_eq!(error(next), "Choose a destination path before downloading.");
    let next = step(download_created(None), Reply::Settings(Err("gone".to_string())));
    assert_eq!(error(next), "gone");
}

#[test]
fn directory_by_its_spelling_is_not_probed() {
    let next = step(download_created(Some(" /d/ ")), settings("", ""));
    match next.work {
        Work::PrepareFolder { path } => assert_eq!(path, "/d/movie.mkv"),
        other => panic!("{other:?}"),
    }
}

#[test]
fn other_destinations_are_probed() {
    let probing = || step(download_created(None), settings("", " /d "));
    match probing().work {
        Work::ProbeDirectory { path } => assert_eq!(path, "/d"),
        other => panic!("{other:?}"),
    }
    match step(probing(), Reply::IsDirectory(true)).work {
        Work::PrepareFolder { path } => {
            assert_eq!(path, format!("/d{}movie.mkv", std::path::MAIN_SEPARATOR));
        }
        other => panic!("{other:?}"),
    }
    match step(probing(), Reply::IsDirectory(false)).work {
        Work::PrepareFolder { path } => assert_eq!(path, "/d"),
        other => panic!("{other:?}"),
    }
}

#[test]
fn folder_comes_before_the_link() {
    let prepared = || step(download_created(Some("/d/")), settings("other", ""));
    assert!(matches!(prepared().work, Work::PrepareFolder { path } if path == "/d/movie.mkv"));
    let next = step(prepared(), Reply::Folder(failed("full")));
    assert_eq!(error(next), "Failed to create destination folder: full");
    let next = step(prepared(), Reply::Folder(Ok(())));
    assert_eq!(shown(&next), ["download-status: Resolved output path: /d/movie.mkv"]);
    match next.work {
        Work::RequestLink { token, query, .. } => {
            assert_eq!(token, "tok");
            assert_eq!(query[3].value, "false");
        }
        other => panic!("{other:?}"),
    }
}

#[test]
fn download_opens_the_link() {
    let next = download_opened();
    assert_eq!(
        shown(&next),
        [
            "download-status: Received download URL from TorBox.",
            "download-status: Starting download from https://link",
        ]
    );
    match next.work {
        Work::OpenDownload { url } => assert_eq!(url, "https://link"),
        other => panic!("{other:?}"),
    }
}

#[test]
fn links_that_do_not_open_are_explained() {
    assert_eq!(
        error(step(download_opened(), Reply::Response(Err("dns".to_string())))),
        "Failed to fetch the direct download link: dns"
    );
    assert_eq!(
        error(step(download_opened(), head(403, None))),
        "TorBox returned an error while opening the download link (403 Forbidden)"
    );
}

#[test]
fn total_is_shown_before_the_first_chunk() {
    let next = step(download_opened(), head(200, None));
    assert_eq!(shown(&next), ["download-progress: 0 of Some(30)"]);
    assert!(matches!(next.work, Work::CreateFile { path } if path == "/d/movie.mkv"));
}

#[test]
fn every_chunk_counts() {
    let next = steps(
        download_opened(),
        vec![
            head(200, None),
            Reply::File(Ok(())),
            chunk(10),
            Reply::File(Ok(())),
        ],
    );
    assert_eq!(shown(&next), ["download-progress: 10 of Some(30)"]);
    let next = steps(next, vec![chunk(0), Reply::File(Ok(()))]);
    assert_eq!(shown(&next), ["download-progress: 10 of Some(30)"]);
    let next = steps(next, vec![chunk(20), Reply::File(Ok(()))]);
    assert_eq!(shown(&next), ["download-progress: 30 of Some(30)"]);
    let next = step(next, Reply::Chunk(Ok(None)));
    assert!(matches!(next.work, Work::FlushFile));
    let next = step(next, Reply::File(Ok(())));
    assert_eq!(shown(&next), ["download-status: Finished download!"]);
    assert!(matches!(next.work, Work::DescribeSize { bytes: 30 }));
    match step(next, Reply::Size("30 B".to_string())).work {
        Work::Finish(Ok(Outcome::Download(report))) => {
            assert_eq!(report.torrent_id, "42");
            assert_eq!(report.output_path, "/d/movie.mkv");
            assert_eq!(report.bytes_written, 30);
            assert_eq!(report.detail, "Saved 30 B to /d/movie.mkv");
        }
        other => panic!("{other:?}"),
    }
}

#[test]
fn failures_on_disk_are_explained() {
    let opened = || step(download_opened(), head(200, None));
    let reading = || step(opened(), Reply::File(Ok(())));
    assert_eq!(
        error(step(opened(), Reply::File(failed("denied")))),
        "Failed to create the output file: denied"
    );
    assert_eq!(
        error(step(reading(), Reply::Chunk(Err("reset".to_string())))),
        "Failed while streaming the download: reset"
    );
    assert_eq!(
        error(steps(reading(), vec![chunk(1), Reply::File(failed("full"))])),
        "Failed to write to disk: full"
    );
    assert_eq!(
        error(steps(reading(), vec![Reply::Chunk(Ok(None)), Reply::File(failed("io"))])),
        "Failed to finalize the download file: io"
    );
}

#[test]
fn only_fitting_replies_are_accepted() {
    let session = start_link_request(link_request("m")).session;
    assert!(session.accepts(&settings("t", "")));
    assert!(!session.accepts(&Reply::IsDirectory(true)));
    assert!(!Session::Finished.accepts(&settings("t", "")));
    assert!(!Session::Finished.accepts(&Reply::Size(String::new())));
}

#[test]
fn count_of_bytes_has_a_limit() {
    let writing = |written: u64| Session::WritingChunk {
        transfer: Transfer {
            torrent_id: "42".to_string(),
            output_path: "/d/f".to_string(),
            total_bytes: None,
            bytes_written: written,
        },
        chunk: 2,
    };
    assert!(writing(u64::MAX - 2).accepts(&Reply::File(Ok(()))));
    assert!(!writing(u64::MAX - 1).accepts(&Reply::File(Ok(()))));
    assert!(writing(u64::MAX - 1).accepts(&Reply::File(failed("full"))));
}

#[test]
fn refusals_are_passed_on() {
    let refusal = || {
        Reply::Envelope(Ok(TorboxEnvelope {
            success: false,
            error: Some("BAD_TOKEN".to_string()),
            detail: Some("The token has expired.".to_string()),
            data: Some(JsonValue::Text("https://ignored".to_string())),
        }))
    };
    let submitted = steps(
        start_link_request(link_request("m")),
        vec![settings("tok", ""), Reply::Client(Ok(())), json(403)],
    );
    assert_eq!(error(step(submitted, refusal())), "The token has expired.");
    let linking = step(link_created(), json(200));
    assert_eq!(error(step(linking, refusal())), "The token has expired.");
}

#[test]
fn both_goals_submit_the_same_form() {
    let form = |next: Next| match steps(next, vec![settings("t", ""), Reply::Client(Ok(()))]).work {
        Work::CreateTorrent { form, .. } => format!("{form:?}"),
        other => panic!("{other:?}"),
    };
    let (torrent, _) = download_request(Some("/d/")).split();
    assert_eq!(
        form(start_link_request(torrent)),
        form(start_download(download_request(Some("/d/"))))
    );
}

#[test]
fn saved_settings_are_enough() {
    let saved = torbox_client::settings::save_settings(AppSettings {
        bearer_token: " t ".to_string(),
        default_save_path: " /d/ ".to_string(),
    })
    .unwrap();
    let reply = || Reply::Settings(Ok(saved.clone()));
    let next = step(start_download(download_request(Some(" "))), reply());
    assert!(matches!(next.work, Work::BuildClient { .. }));
    let next = steps(next, vec![Reply::Client(Ok(())), json(200), id_answer(), reply()]);
    match next.work {
        Work::PrepareFolder { path } => assert_eq!(path, "/d/movie.mkv"),
        other => panic!("{other:?}"),
    }
}

#[test]
fn first_token_is_kept_throughout() {
    let next = steps(
        download_created(Some("/d/")),
        vec![settings("changed", ""), Reply::Folder(Ok(()))],
    );
    match next.work {
        Work::RequestLink { token, query, .. } => {
            assert_eq!(token, "tok");
            let sent: Vec<&str> = query
                .iter()
                .filter(|param| param.name == "token")
                .map(|param| param.value.as_str())
                .collect();
            assert_eq!(sent, ["tok"]);
        }
        other => panic!("{other:?}"),
    }
}

#[test]
fn bytes_are_written_as_they_are_read() {
    let mut next = steps(download_opened(), vec![head(200, None), Reply::File(Ok(()))]);
    let mut file: Vec<u8> = Vec::new();
    for piece in [vec![1, 2], vec![], vec![3]] {
        next = step(next, Reply::Chunk(Ok(Some(piece))));
        match &next.work {
            Work::WriteChunk { bytes } => file.extend(bytes),
            other => panic!("{other:?}"),
        }
        next = step(next, Reply::File(Ok(())));
        assert_eq!(shown(&next), [format!("download-progress: {} of Some(30)", file.len())]);
    }
    assert_eq!(file, [1, 2, 3]);
}

#[test]
fn resolved_file_is_the_one_that_is_saved() {
    let next = steps(
        download_created(Some(" /d/f.zip ")),
        vec![
            settings("", ""),
            Reply::IsDirectory(false),
            Reply::Folder(Ok(())),
            head(200, None),
            head(200, None),
        ],
    );
    assert!(matches!(&next.work, Work::CreateFile { path } if path == "/d/f.zip"));
    let next = steps(
        next,
        vec![
            Reply::File(Ok(())),
            Reply::Chunk(Ok(None)),
            Reply::File(Ok(())),
            Reply::Size("0 B".to_string()),
        ],
    );
    match next.work {
        Work::Finish(Ok(Outcome::Download(report))) => {
            assert_eq!(report.output_path, "/d/f.zip");
            assert_eq!(report.bytes_written, 0);
        }
        other => panic!("{other:?}"),
    }
}

#[test]
fn plain_answers_are_enough() {
    let next = steps(
        start_link_request(link_request("m")),
        vec![
            settings("tok", ""),
            Reply::Client(Ok(())),
            head(200, None),
            Reply::Text(Ok(" 9\n".to_string())),
            head(200, None),
        ],
    );
    match next.work {
        Work::Finish(Ok(Outcome::Link(report))) => {
            assert_eq!(report.torrent_id, "9");
            assert_eq!(report.download_url, "https://redirected");
        }
        other => panic!("{other:?}"),
    }
}
