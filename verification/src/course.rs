//! The course of a request: what follows from each reply.

use crate::envelope::{EnvelopeModel, TorboxEnvelope};
use crate::json::JsonValue;
use crate::output::{
    choose_destination, destination, download_report, looks_like_directory, names_directory,
    output_for, placed, report_download, resolve_output_path, OutputModel, ProgressPayload,
};
use crate::session::{
    notices_of, Goal, GoalModel, Job, JobModel, Lead, LeadModel, Next, NextModel, Notice,
    NoticeModel, Outcome, OutcomeModel, Reply, ReplyModel, Session, SessionModel, Transfer,
    TransferModel, Work, WorkModel,
};
use crate::settings::{AppSettings, SettingsModel};
use crate::status::successful;
use crate::text::{blank, is_blank, join, text_of, trimmed};
use crate::torrent::{
    announces_json, build_torbox_client, bytes_of, create_torrent_url, created_id, created_id_plain,
    creation_form, creation_url, fill_creation_form, has_source, link_broken, link_broken_message,
    link_query, link_report, link_url, outcome_of, provided_link, read_created_id,
    read_created_id_plain, read_provided_link, rejection, rejection_message, report_link,
    request_link_query, request_link_url, zip_allowed, HeadModel, ResponseHead,
    StartDownloadRequest, StartLinkRequest, TorrentModel, USER_AGENT,
};
use vstd::prelude::*;

verus! {

/// The session goes on with this work, and nothing is shown.
pub open spec fn proceed(session: SessionModel, work: WorkModel) -> NextModel {
    NextModel { session, notices: Seq::empty(), work }
}

/// The session is over, with this message for the user.
pub open spec fn failure(message: Seq<char>) -> NextModel {
    proceed(SessionModel::Finished, WorkModel::Finish(Err(message)))
}

/// The first step of a request.
pub open spec fn beginning(torrent: TorrentModel, goal: GoalModel) -> NextModel {
    proceed(SessionModel::LoadingSettings { torrent, goal }, WorkModel::LoadSettings)
}

/// The goal of a request for a download.
pub open spec fn download_goal(
    torrent: TorrentModel,
    destination_path: Option<Seq<char>>,
) -> GoalModel {
    GoalModel::Download { destination_path, suggested_file_name: torrent.suggested_name }
}

/// What the user is told who has not saved a token.
pub open spec fn token_missing(goal: GoalModel) -> Seq<char> {
    match goal {
        GoalModel::Link => "Save a bearer token in settings before starting a link request."@,
        GoalModel::Download { .. } => "Save a bearer token in settings before starting a download."@,
    }
}

/// With a token and a torrent, a client is built; without, the session is over.
pub open spec fn settings_loaded(
    torrent: TorrentModel,
    goal: GoalModel,
    settings: SettingsModel,
) -> NextModel {
    if blank(settings.bearer_token) {
        failure(token_missing(goal))
    } else if !has_source(torrent) {
        failure("Provide either a magnet link or a torrent file."@)
    } else {
        proceed(
            SessionModel::BuildingClient {
                torrent,
                job: JobModel {
                    token: settings.bearer_token,
                    allow_zip: zip_allowed(torrent),
                    goal,
                },
            },
            WorkModel::BuildClient { user_agent: USER_AGENT@ },
        )
    }
}

/// With a client, the torrent is submitted.
pub open spec fn client_built(torrent: TorrentModel, job: JobModel) -> NextModel {
    NextModel {
        session: SessionModel::CreatingTorrent { job },
        notices: seq![NoticeModel::Status("Submitting torrent to TorBox (createtorrent)"@)],
        work: WorkModel::CreateTorrent {
            url: creation_url(),
            token: job.token,
            form: creation_form(torrent),
        },
    }
}

/// A JSON answer is decoded whatever its status; any other must report success,
/// and is read as text.
pub open spec fn creation_answered(job: JobModel, head: HeadModel) -> NextModel {
    if announces_json(head) {
        proceed(
            SessionModel::ReadingCreated { job, status: head.status },
            WorkModel::ReadEnvelope,
        )
    } else if !successful(head.status) {
        failure(rejection(head.status))
    } else {
        proceed(SessionModel::ReadingCreatedPlain { job }, WorkModel::ReadText)
    }
}

/// The work that asks for the link of a torrent.
pub open spec fn link_work(lead: LeadModel) -> WorkModel {
    WorkModel::RequestLink {
        url: link_url(),
        token: lead.token,
        query: link_query(lead.token, lead.torrent_id, lead.allow_zip),
    }
}

/// With an id, a link is requested at once, or the settings are looked up again
/// for the destination of the download.
pub open spec fn torrent_created(job: JobModel, id: Result<Seq<char>, Seq<char>>) -> NextModel {
    match id {
        Err(message) => failure(message),
        Ok(torrent_id) => {
            let lead = LeadModel { token: job.token, allow_zip: job.allow_zip, torrent_id };
            let notices = seq![NoticeModel::Status("TorBox created torrent id "@ + torrent_id)];
            match job.goal {
                GoalModel::Link => NextModel {
                    session: SessionModel::RequestingLink { torrent_id, output_path: None },
                    notices,
                    work: link_work(lead),
                },
                GoalModel::Download { destination_path, suggested_file_name } => NextModel {
                    session: SessionModel::ReloadingSettings {
                        lead,
                        destination_path,
                        suggested_file_name,
                    },
                    notices,
                    work: WorkModel::LoadSettings,
                },
            }
        },
    }
}

/// With the path of the file, the folder is prepared.
pub open spec fn place_chosen(lead: LeadModel, path: Seq<char>) -> NextModel {
    proceed(
        SessionModel::PreparingFolder { lead, output_path: path },
        WorkModel::PrepareFolder { path },
    )
}

/// The output that the settings lead to without asking the disk: there is one where
/// the destination is written like a directory.
pub open spec fn output_at_once(
    destination_path: Option<Seq<char>>,
    suggested_file_name: Option<Seq<char>>,
    settings: SettingsModel,
) -> Option<OutputModel> {
    match destination(destination_path, settings) {
        Some(destination) if names_directory(trimmed(destination)) => Some(
            output_for(destination, suggested_file_name, false),
        ),
        _ => None,
    }
}

/// With a destination, the file is settled, at this path; the disk is asked first
/// where the destination does not look like a directory.
pub open spec fn settings_reloaded(
    lead: LeadModel,
    destination_path: Option<Seq<char>>,
    suggested_file_name: Option<Seq<char>>,
    settings: SettingsModel,
    path: Seq<char>,
) -> NextModel {
    match destination(destination_path, settings) {
        None => failure("Choose a destination path before downloading."@),
        Some(destination) => if names_directory(trimmed(destination)) {
            place_chosen(lead, path)
        } else {
            proceed(
                SessionModel::ProbingDestination { lead, destination, suggested_file_name },
                WorkModel::ProbeDirectory { path: trimmed(destination) },
            )
        },
    }
}

/// With the folder, the link of the torrent is requested.
pub open spec fn folder_prepared(lead: LeadModel, output_path: Seq<char>) -> NextModel {
    NextModel {
        session: SessionModel::RequestingLink {
            torrent_id: lead.torrent_id,
            output_path: Some(output_path),
        },
        notices: seq![NoticeModel::Status("Resolved output path: "@ + output_path)],
        work: link_work(lead),
    }
}

/// With the link, the session is over, or the download begins.
pub open spec fn link_obtained(
    torrent_id: Seq<char>,
    output_path: Option<Seq<char>>,
    link: Seq<char>,
    notices: Seq<NoticeModel>,
) -> NextModel {
    match output_path {
        None => NextModel {
            session: SessionModel::Finished,
            notices,
            work: WorkModel::Finish(Ok(OutcomeModel::Link(link_report(torrent_id, link)))),
        },
        Some(output_path) => NextModel {
            session: SessionModel::OpeningDownload { torrent_id, output_path },
            notices: notices.push(NoticeModel::Status("Starting download from "@ + link)),
            work: WorkModel::OpenDownload { url: link },
        },
    }
}

/// A JSON answer to a link request is decoded; any other has been led to the link.
pub open spec fn link_answered(
    torrent_id: Seq<char>,
    output_path: Option<Seq<char>>,
    head: HeadModel,
) -> NextModel {
    if announces_json(head) {
        proceed(SessionModel::ReadingLink { torrent_id, output_path }, WorkModel::ReadEnvelope)
    } else {
        link_obtained(torrent_id, output_path, head.url, Seq::empty())
    }
}

/// The link in a JSON answer is used, or the session is over.
pub open spec fn link_read(
    torrent_id: Seq<char>,
    output_path: Option<Seq<char>>,
    envelope: EnvelopeModel<JsonValue>,
) -> NextModel {
    match provided_link(envelope) {
        Err(message) => failure(message),
        Ok(link) => link_obtained(
            torrent_id,
            output_path,
            link,
            seq![NoticeModel::Status("Received download URL from TorBox."@)],
        ),
    }
}

/// The progress of a transfer.
pub open spec fn progress(transfer: TransferModel) -> NoticeModel {
    NoticeModel::Progress {
        bytes_downloaded: transfer.bytes_written,
        total_bytes: transfer.total_bytes,
    }
}

/// A link that opens is transferred to a file.
pub open spec fn download_opened(
    torrent_id: Seq<char>,
    output_path: Seq<char>,
    head: HeadModel,
) -> NextModel {
    if !successful(head.status) {
        failure(link_broken(head.status))
    } else {
        let transfer = TransferModel {
            torrent_id,
            output_path,
            total_bytes: head.content_length,
            bytes_written: 0,
        };
        NextModel {
            session: SessionModel::CreatingFile { transfer },
            notices: seq![progress(transfer)],
            work: WorkModel::CreateFile { path: output_path },
        }
    }
}

/// A chunk is written as it was read; at the end of the body the file is flushed.
pub open spec fn chunk_read(transfer: TransferModel, chunk: Option<Seq<u8>>) -> NextModel {
    match chunk {
        Some(bytes) => proceed(
            SessionModel::WritingChunk { transfer, chunk: bytes.len() },
            WorkModel::WriteChunk { bytes },
        ),
        None => proceed(SessionModel::FlushingFile { transfer }, WorkModel::FlushFile),
    }
}

/// The transfer with another chunk written.
pub open spec fn advanced(transfer: TransferModel, chunk: nat) -> TransferModel {
    TransferModel { bytes_written: (transfer.bytes_written + chunk) as u64, ..transfer }
}

/// A chunk that is written counts, and the next one is read.
pub open spec fn chunk_written(transfer: TransferModel, chunk: nat) -> NextModel {
    NextModel {
        session: SessionModel::ReadingChunk { transfer: advanced(transfer, chunk) },
        notices: seq![progress(advanced(transfer, chunk))],
        work: WorkModel::ReadChunk,
    }
}

/// A file that is flushed is finished.
pub open spec fn file_flushed(transfer: TransferModel) -> NextModel {
    NextModel {
        session: SessionModel::DescribingSize { transfer },
        notices: seq![NoticeModel::Status("Finished download!"@)],
        work: WorkModel::DescribeSize { bytes: transfer.bytes_written },
    }
}

/// A finished download is reported.
pub open spec fn size_described(transfer: TransferModel, size: Seq<char>) -> NextModel {
    proceed(
        SessionModel::Finished,
        WorkModel::Finish(
            Ok(
                OutcomeModel::Download(
                    download_report(
                        transfer.torrent_id,
                        transfer.output_path,
                        transfer.bytes_written,
                        size,
                    ),
                ),
            ),
        ),
    )
}

/// The reply is one to the work that the session waits for, and the bytes written
/// can still be counted.
pub open spec fn accepts(session: SessionModel, reply: ReplyModel) -> bool {
    match (session, reply) {
        (SessionModel::LoadingSettings { .. }, ReplyModel::Settings(_)) => true,
        (SessionModel::BuildingClient { .. }, ReplyModel::Client(_)) => true,
        (SessionModel::CreatingTorrent { .. }, ReplyModel::UploadUnprepared(_)) => true,
        (SessionModel::CreatingTorrent { .. }, ReplyModel::Response(_)) => true,
        (SessionModel::ReadingCreated { .. }, ReplyModel::Envelope(_)) => true,
        (SessionModel::ReadingCreatedPlain { .. }, ReplyModel::Text(_)) => true,
        (SessionModel::ReloadingSettings { .. }, ReplyModel::Settings(_)) => true,
        (SessionModel::ProbingDestination { .. }, ReplyModel::IsDirectory(_)) => true,
        (SessionModel::PreparingFolder { .. }, ReplyModel::Folder(_)) => true,
        (SessionModel::RequestingLink { .. }, ReplyModel::Response(_)) => true,
        (SessionModel::ReadingLink { .. }, ReplyModel::Envelope(_)) => true,
        (SessionModel::OpeningDownload { .. }, ReplyModel::Response(_)) => true,
        (SessionModel::CreatingFile { .. }, ReplyModel::File(_)) => true,
        (SessionModel::ReadingChunk { .. }, ReplyModel::Chunk(_)) => true,
        (SessionModel::WritingChunk { transfer, chunk }, ReplyModel::File(written)) => {
            written is Ok ==> transfer.bytes_written + chunk <= u64::MAX
        },
        (SessionModel::FlushingFile { .. }, ReplyModel::File(_)) => true,
        (SessionModel::DescribingSize { .. }, ReplyModel::Size(_)) => true,
        _ => false,
    }
}

/// The output that is settled by a reply, where it settles one.
pub open spec fn output_settled(session: SessionModel, reply: ReplyModel) -> Option<OutputModel> {
    match (session, reply) {
        (
            SessionModel::ReloadingSettings { destination_path, suggested_file_name, .. },
            ReplyModel::Settings(Ok(settings)),
        ) => output_at_once(destination_path, suggested_file_name, settings),
        (
            SessionModel::ProbingDestination { destination, suggested_file_name, .. },
            ReplyModel::IsDirectory(is_directory),
        ) => Some(output_for(destination, suggested_file_name, is_directory)),
        _ => None,
    }
}

/// Where the reply settles an output, the path may be that of it.
pub open spec fn resolves(session: SessionModel, reply: ReplyModel, path: Seq<char>) -> bool {
    output_settled(session, reply) matches Some(output) ==> placed(output, path)
}

/// What follows from a reply that the session accepts. Where the reply settles an
/// output, `path` is the path that the system gives it; otherwise it plays no part.
pub open spec fn following(session: SessionModel, reply: ReplyModel, path: Seq<char>) -> NextModel
    recommends
        accepts(session, reply),
        resolves(session, reply, path),
{
    match (session, reply) {
        (SessionModel::LoadingSettings { torrent, goal }, ReplyModel::Settings(settings)) =>
            match settings {
            Ok(settings) => settings_loaded(torrent, goal, settings),
            Err(error) => failure(error),
        },
        (SessionModel::BuildingClient { torrent, job }, ReplyModel::Client(client)) => match client {
            Ok(_) => client_built(torrent, job),
            Err(error) => failure("Failed to create HTTP client: "@ + error),
        },
        (SessionModel::CreatingTorrent { .. }, ReplyModel::UploadUnprepared(error)) => failure(
            "Failed to prepare torrent file upload: "@ + error,
        ),
        (SessionModel::CreatingTorrent { job }, ReplyModel::Response(response)) => match response {
            Ok(head) => creation_answered(job, head),
            Err(error) => failure("Failed to create torrent: "@ + error),
        },
        (SessionModel::ReadingCreated { job, status }, ReplyModel::Envelope(envelope)) =>
            match envelope {
            Ok(envelope) => torrent_created(job, created_id(envelope, status)),
            Err(error) => failure("Failed to decode TorBox response: "@ + error),
        },
        (SessionModel::ReadingCreatedPlain { job }, ReplyModel::Text(body)) => match body {
            Ok(body) => torrent_created(job, created_id_plain(body)),
            Err(error) => failure("Failed to read TorBox response: "@ + error),
        },
        (
            SessionModel::ReloadingSettings { lead, destination_path, suggested_file_name },
            ReplyModel::Settings(settings),
        ) => match settings {
            Ok(settings) => settings_reloaded(
                lead,
                destination_path,
                suggested_file_name,
                settings,
                path,
            ),
            Err(error) => failure(error),
        },
        (
            SessionModel::ProbingDestination { lead, .. },
            ReplyModel::IsDirectory(_),
        ) => place_chosen(lead, path),
        (
            SessionModel::PreparingFolder { lead, output_path },
            ReplyModel::Folder(folder),
        ) => match folder {
            Ok(_) => folder_prepared(lead, output_path),
            Err(error) => failure("Failed to create destination folder: "@ + error),
        },
        (
            SessionModel::RequestingLink { torrent_id, output_path },
            ReplyModel::Response(response),
        ) => match response {
            Ok(head) => link_answered(torrent_id, output_path, head),
            Err(error) => failure("Failed to request the direct download link: "@ + error),
        },
        (
            SessionModel::ReadingLink { torrent_id, output_path },
            ReplyModel::Envelope(envelope),
        ) => match envelope {
            Ok(envelope) => link_read(torrent_id, output_path, envelope),
            Err(error) => failure("Failed to decode TorBox response: "@ + error),
        },
        (
            SessionModel::OpeningDownload { torrent_id, output_path },
            ReplyModel::Response(response),
        ) => match response {
            Ok(head) => download_opened(torrent_id, output_path, head),
            Err(error) => failure("Failed to fetch the direct download link: "@ + error),
        },
        (SessionModel::CreatingFile { transfer }, ReplyModel::File(created)) => match created {
            Ok(_) => proceed(SessionModel::ReadingChunk { transfer }, WorkModel::ReadChunk),
            Err(error) => failure("Failed to create the output file: "@ + error),
        },
        (SessionModel::ReadingChunk { transfer }, ReplyModel::Chunk(chunk)) => match chunk {
            Ok(chunk) => chunk_read(transfer, chunk),
            Err(error) => failure("Failed while streaming the download: "@ + error),
        },
        (SessionModel::WritingChunk { transfer, chunk }, ReplyModel::File(written)) =>
            match written {
            Ok(_) => chunk_written(transfer, chunk),
            Err(error) => failure("Failed to write to disk: "@ + error),
        },
        (SessionModel::FlushingFile { transfer }, ReplyModel::File(flushed)) => match flushed {
            Ok(_) => file_flushed(transfer),
            Err(error) => failure("Failed to finalize the download file: "@ + error),
        },
        (SessionModel::DescribingSize { transfer }, ReplyModel::Size(size)) => size_described(
            transfer,
            size,
        ),
        _ => arbitrary(),
    }
}

/// Goes on with this work, with nothing to show.
fn go_on(session: Session, work: Work) -> (next: Next)
    ensures
        next@ == proceed(session@, work@),
{
    let notices: Vec<Notice> = Vec::new();
    assert(notices_of(notices@) =~= Seq::empty());
    Next { session, notices, work }
}

/// A single notice.
fn only(notice: Notice) -> (notices: Vec<Notice>)
    ensures
        notices_of(notices@) == seq![notice@],
{
    let mut notices: Vec<Notice> = Vec::new();
    notices.push(notice);
    assert(notices_of(notices@) =~= seq![notice@]);
    notices
}

/// The notice of the progress of a transfer.
fn progress_notice(transfer: &Transfer) -> (notice: Notice)
    ensures
        notice@ == progress(transfer@),
{
    Notice::Progress(
        ProgressPayload {
            bytes_downloaded: transfer.bytes_written,
            total_bytes: transfer.total_bytes,
        },
    )
}

/// Ends the session with a message for the user.
fn fail(message: String) -> (next: Next)
    ensures
        next@ == failure(message@),
{
    go_on(Session::Finished, Work::Finish(Err(message)))
}

/// Ends the session with an explained error.
fn fail_with(what: &str, error: String) -> (next: Next)
    ensures
        next@ == failure(what@ + error@),
{
    fail(join(what, error.as_str()))
}

/// Begins a request for a download.
pub fn start_download(request: StartDownloadRequest) -> (next: Next)
    ensures
        next@ == beginning(request@.0, download_goal(request@.0, request@.1)),
{
    let (request, destination_path) = request.split();
    let suggested_file_name = request.suggested_file_name.clone();
    go_on(
        Session::LoadingSettings {
            request,
            goal: Goal::Download { destination_path, suggested_file_name },
        },
        Work::LoadSettings,
    )
}

/// Begins a request for a download link.
pub fn start_link_request(request: StartLinkRequest) -> (next: Next)
    ensures
        next@ == beginning(request@, GoalModel::Link),
{
    go_on(Session::LoadingSettings { request, goal: Goal::Link }, Work::LoadSettings)
}

fn on_settings(request: StartLinkRequest, goal: Goal, settings: AppSettings) -> (next: Next)
    ensures
        next@ == settings_loaded(request@, goal@, settings@),
{
    if is_blank(settings.bearer_token.as_str()) {
        let message = match goal {
            Goal::Link => "Save a bearer token in settings before starting a link request.",
            Goal::Download { .. } => "Save a bearer token in settings before starting a download.",
        };
        return fail(message.to_owned());
    }
    if !request.has_source() {
        return fail("Provide either a magnet link or a torrent file.".to_owned());
    }
    let allow_zip = request.zip_allowed();
    match build_torbox_client(settings.bearer_token.as_str()) {
        Ok(user_agent) => go_on(
            Session::BuildingClient {
                request,
                job: Job { token: settings.bearer_token, allow_zip, goal },
            },
            Work::BuildClient { user_agent },
        ),
        Err(message) => fail(message),
    }
}

fn on_client(request: StartLinkRequest, job: Job) -> (next: Next)
    ensures
        next@ == client_built(request@, job@),
{
    let token = job.token.clone();
    Next {
        session: Session::CreatingTorrent { job },
        notices: only(Notice::Status("Submitting torrent to TorBox (createtorrent)".to_owned())),
        work: Work::CreateTorrent {
            url: create_torrent_url(),
            token,
            form: fill_creation_form(request),
        },
    }
}

fn on_creation_answer(job: Job, head: ResponseHead) -> (next: Next)
    ensures
        next@ == creation_answered(job@, head@),
{
    if head.announces_json() {
        go_on(Session::ReadingCreated { job, status: head.status }, Work::ReadEnvelope)
    } else if !head.status.is_success() {
        fail(rejection_message(head.status))
    } else {
        go_on(Session::ReadingCreatedPlain { job }, Work::ReadText)
    }
}

/// Asks for the link of a torrent.
pub fn request_download_url(lead: &Lead) -> (work: Work)
    ensures
        work@ == link_work(lead@),
{
    Work::RequestLink {
        url: request_link_url(),
        token: lead.token.clone(),
        query: request_link_query(lead.token.as_str(), lead.torrent_id.as_str(), lead.allow_zip),
    }
}

fn on_torrent_created(job: Job, id: Result<String, String>) -> (next: Next)
    ensures
        next@ == torrent_created(job@, outcome_of(id)),
{
    match id {
        Err(message) => fail(message),
        Ok(torrent_id) => {
            let status = join("TorBox created torrent id ", torrent_id.as_str());
            let notices = only(Notice::Status(status));
            let lead = Lead { token: job.token, allow_zip: job.allow_zip, torrent_id };
            match job.goal {
                Goal::Link => {
                    let work = request_download_url(&lead);
                    Next {
                        session: Session::RequestingLink {
                            torrent_id: lead.torrent_id,
                            output_path: None,
                        },
                        notices,
                        work,
                    }
                },
                Goal::Download { destination_path, suggested_file_name } => Next {
                    session: Session::ReloadingSettings {
                        lead,
                        destination_path,
                        suggested_file_name,
                    },
                    notices,
                    work: Work::LoadSettings,
                },
            }
        },
    }
}

/// The suggested name of a file as it is passed on.
fn as_name(name: &Option<String>) -> (borrowed: Option<&str>)
    ensures
        match borrowed {
            Some(text) => text_of(*name) == Some(text@),
            None => text_of(*name) is None,
        },
{
    match name {
        Some(text) => Some(text.as_str()),
        None => None,
    }
}

/// The path that a session has just been given.
spec fn path_settled(session: SessionModel) -> Seq<char> {
    match session {
        SessionModel::PreparingFolder { output_path, .. } => output_path,
        _ => Seq::empty(),
    }
}

fn on_place(lead: Lead, output_path: String) -> (next: Next)
    ensures
        next@ == place_chosen(lead@, output_path@),
{
    let path = output_path.clone();
    go_on(Session::PreparingFolder { lead, output_path }, Work::PrepareFolder { path })
}

fn on_settings_again(
    lead: Lead,
    destination_path: Option<String>,
    suggested_file_name: Option<String>,
    settings: AppSettings,
) -> (next: Next)
    ensures
        exists|path: Seq<char>|
            (output_at_once(
                text_of(destination_path),
                text_of(suggested_file_name),
                settings@,
            ) matches Some(output) ==> placed(output, path)) && next@
                == #[trigger] settings_reloaded(
                lead@,
                text_of(destination_path),
                text_of(suggested_file_name),
                settings@,
                path,
            ),
{
    let ghost requested = text_of(destination_path);
    let ghost suggested = text_of(suggested_file_name);
    let ghost lead_before = lead@;
    let next = match choose_destination(destination_path, &settings) {
        Err(message) => fail(message),
        Ok(destination) => if looks_like_directory(destination.as_str()) {
            let path = resolve_output_path(
                destination.as_str(),
                as_name(&suggested_file_name),
                false,
            );
            on_place(lead, path)
        } else {
            let path = destination.as_str().trim().to_owned();
            go_on(
                Session::ProbingDestination { lead, destination, suggested_file_name },
                Work::ProbeDirectory { path },
            )
        },
    };
    assert(next@ == settings_reloaded(
        lead_before,
        requested,
        suggested,
        settings@,
        path_settled(next@.session),
    ));
    next
}

fn on_folder(lead: Lead, output_path: String) -> (next: Next)
    ensures
        next@ == folder_prepared(lead@, output_path@),
{
    let status = join("Resolved output path: ", output_path.as_str());
    let work = request_download_url(&lead);
    Next {
        session: Session::RequestingLink {
            torrent_id: lead.torrent_id,
            output_path: Some(output_path),
        },
        notices: only(Notice::Status(status)),
        work,
    }
}

fn on_link(
    torrent_id: String,
    output_path: Option<String>,
    link: String,
    notices: Vec<Notice>,
) -> (next: Next)
    ensures
        next@ == link_obtained(
            torrent_id@,
            text_of(output_path),
            link@,
            notices_of(notices@),
        ),
{
    match output_path {
        None => Next {
            session: Session::Finished,
            notices,
            work: Work::Finish(Ok(Outcome::Link(report_link(torrent_id, link)))),
        },
        Some(output_path) => {
            let mut all = notices;
            let ghost before = all@;
            let status = join("Starting download from ", link.as_str());
            all.push(Notice::Status(status));
            assert(notices_of(all@) =~= notices_of(before).push(NoticeModel::Status(status@)));
            Next {
                session: Session::OpeningDownload { torrent_id, output_path },
                notices: all,
                work: Work::OpenDownload { url: link },
            }
        },
    }
}

fn on_link_answer(torrent_id: String, output_path: Option<String>, head: ResponseHead) -> (next:
    Next)
    ensures
        next@ == link_answered(torrent_id@, text_of(output_path), head@),
{
    if head.announces_json() {
        go_on(Session::ReadingLink { torrent_id, output_path }, Work::ReadEnvelope)
    } else {
        let notices: Vec<Notice> = Vec::new();
        assert(notices_of(notices@) =~= Seq::empty());
        on_link(torrent_id, output_path, head.url, notices)
    }
}

fn on_link_envelope(
    torrent_id: String,
    output_path: Option<String>,
    envelope: TorboxEnvelope<JsonValue>,
) -> (next: Next)
    ensures
        next@ == link_read(torrent_id@, text_of(output_path), envelope@),
{
    match read_provided_link(envelope) {
        Err(message) => fail(message),
        Ok(link) => {
            let notices = only(
                Notice::Status("Received download URL from TorBox.".to_owned()),
            );
            on_link(torrent_id, output_path, link, notices)
        },
    }
}

fn on_download_answer(torrent_id: String, output_path: String, head: ResponseHead) -> (next: Next)
    ensures
        next@ == download_opened(torrent_id@, output_path@, head@),
{
    if !head.status.is_success() {
        return fail(link_broken_message(head.status));
    }
    let path = output_path.clone();
    let transfer = Transfer {
        torrent_id,
        output_path,
        total_bytes: head.content_length,
        bytes_written: 0,
    };
    let notices = only(progress_notice(&transfer));
    Next { session: Session::CreatingFile { transfer }, notices, work: Work::CreateFile { path } }
}

fn on_chunk(transfer: Transfer, chunk: Option<Vec<u8>>) -> (next: Next)
    ensures
        next@ == chunk_read(transfer@, bytes_of(chunk)),
{
    match chunk {
        Some(bytes) => {
            let chunk: u64 = bytes.len() as u64;
            go_on(Session::WritingChunk { transfer, chunk }, Work::WriteChunk { bytes })
        },
        None => go_on(Session::FlushingFile { transfer }, Work::FlushFile),
    }
}

fn on_chunk_written(transfer: Transfer, chunk: u64) -> (next: Next)
    requires
        transfer.bytes_written + chunk <= u64::MAX,
    ensures
        next@ == chunk_written(transfer@, chunk as nat),
{
    let transfer = Transfer { bytes_written: transfer.bytes_written + chunk, ..transfer };
    let notices = only(progress_notice(&transfer));
    Next { session: Session::ReadingChunk { transfer }, notices, work: Work::ReadChunk }
}

fn on_flushed(transfer: Transfer) -> (next: Next)
    ensures
        next@ == file_flushed(transfer@),
{
    let bytes = transfer.bytes_written;
    Next {
        session: Session::DescribingSize { transfer },
        notices: only(Notice::Status("Finished download!".to_owned())),
        work: Work::DescribeSize { bytes },
    }
}

fn on_size(transfer: Transfer, size: String) -> (next: Next)
    ensures
        next@ == size_described(transfer@, size@),
{
    let report = report_download(
        transfer.torrent_id,
        transfer.output_path,
        transfer.bytes_written,
        size.as_str(),
    );
    go_on(Session::Finished, Work::Finish(Ok(Outcome::Download(report))))
}

impl Session {
    /// Tells whether the session can go on with this reply.
    pub fn accepts(&self, reply: &Reply) -> (accepted: bool)
        ensures
            accepted == accepts(self@, reply@),
    {
        match (self, reply) {
            (Session::LoadingSettings { .. }, Reply::Settings(_)) => true,
            (Session::BuildingClient { .. }, Reply::Client(_)) => true,
            (Session::CreatingTorrent { .. }, Reply::UploadUnprepared(_)) => true,
            (Session::CreatingTorrent { .. }, Reply::Response(_)) => true,
            (Session::ReadingCreated { .. }, Reply::Envelope(_)) => true,
            (Session::ReadingCreatedPlain { .. }, Reply::Text(_)) => true,
            (Session::ReloadingSettings { .. }, Reply::Settings(_)) => true,
            (Session::ProbingDestination { .. }, Reply::IsDirectory(_)) => true,
            (Session::PreparingFolder { .. }, Reply::Folder(_)) => true,
            (Session::RequestingLink { .. }, Reply::Response(_)) => true,
            (Session::ReadingLink { .. }, Reply::Envelope(_)) => true,
            (Session::OpeningDownload { .. }, Reply::Response(_)) => true,
            (Session::CreatingFile { .. }, Reply::File(_)) => true,
            (Session::ReadingChunk { .. }, Reply::Chunk(_)) => true,
            (Session::WritingChunk { transfer, chunk }, Reply::File(written)) => {
                written.is_err() || *chunk <= u64::MAX - transfer.bytes_written
            },
            (Session::FlushingFile { .. }, Reply::File(_)) => true,
            (Session::DescribingSize { .. }, Reply::Size(_)) => true,
            _ => false,
        }
    }

    /// Goes on with what came of the work that the session asked for. Where that
    /// settles the output, the path is one that the system may give it.
    pub fn step(self, reply: Reply) -> (next: Next)
        requires
            accepts(self@, reply@),
        ensures
            exists|path: Seq<char>|
                resolves(self@, reply@, path) && next@ == #[trigger] following(
                    self@,
                    reply@,
                    path,
                ),
    {
        let ghost session = self@;
        let ghost told = reply@;
        let next = match (self, reply) {
            (Session::LoadingSettings { request, goal }, Reply::Settings(settings)) =>
                match settings {
                Ok(settings) => on_settings(request, goal, settings),
                Err(error) => fail(error),
            },
            (Session::BuildingClient { request, job }, Reply::Client(client)) => match client {
                Ok(_) => on_client(request, job),
                Err(error) => fail_with("Failed to create HTTP client: ", error),
            },
            (Session::CreatingTorrent { .. }, Reply::UploadUnprepared(error)) => fail_with(
                "Failed to prepare torrent file upload: ",
                error,
            ),
            (Session::CreatingTorrent { job }, Reply::Response(response)) => match response {
                Ok(head) => on_creation_answer(job, head),
                Err(error) => fail_with("Failed to create torrent: ", error),
            },
            (Session::ReadingCreated { job, status }, Reply::Envelope(envelope)) => match envelope {
                Ok(envelope) => on_torrent_created(job, read_created_id(envelope, status)),
                Err(error) => fail_with("Failed to decode TorBox response: ", error),
            },
            (Session::ReadingCreatedPlain { job }, Reply::Text(body)) => match body {
                Ok(body) => on_torrent_created(job, read_created_id_plain(body.as_str())),
                Err(error) => fail_with("Failed to read TorBox response: ", error),
            },
            (
                Session::ReloadingSettings { lead, destination_path, suggested_file_name },
                Reply::Settings(settings),
            ) => match settings {
                Ok(settings) => on_settings_again(
                    lead,
                    destination_path,
                    suggested_file_name,
                    settings,
                ),
                Err(error) => fail(error),
            },
            (
                Session::ProbingDestination { lead, destination, suggested_file_name },
                Reply::IsDirectory(is_directory),
            ) => {
                let path = resolve_output_path(
                    destination.as_str(),
                    as_name(&suggested_file_name),
                    is_directory,
                );
                on_place(lead, path)
            },
            (
                Session::PreparingFolder { lead, output_path },
                Reply::Folder(folder),
            ) => match folder {
                Ok(_) => on_folder(lead, output_path),
                Err(error) => fail_with("Failed to create destination folder: ", error),
            },
            (
                Session::RequestingLink { torrent_id, output_path },
                Reply::Response(response),
            ) => match response {
                Ok(head) => on_link_answer(torrent_id, output_path, head),
                Err(error) => fail_with("Failed to request the direct download link: ", error),
            },
            (Session::ReadingLink { torrent_id, output_path }, Reply::Envelope(envelope)) =>
                match envelope {
                Ok(envelope) => on_link_envelope(torrent_id, output_path, envelope),
                Err(error) => fail_with("Failed to decode TorBox response: ", error),
            },
            (
                Session::OpeningDownload { torrent_id, output_path },
                Reply::Response(response),
            ) => match response {
                Ok(head) => on_download_answer(torrent_id, output_path, head),
                Err(error) => fail_with("Failed to fetch the direct download link: ", error),
            },
            (Session::CreatingFile { transfer }, Reply::File(created)) => match created {
                Ok(_) => go_on(Session::ReadingChunk { transfer }, Work::ReadChunk),
                Err(error) => fail_with("Failed to create the output file: ", error),
            },
            (Session::ReadingChunk { transfer }, Reply::Chunk(chunk)) => match chunk {
                Ok(chunk) => on_chunk(transfer, chunk),
                Err(error) => fail_with("Failed while streaming the download: ", error),
            },
            (Session::WritingChunk { transfer, chunk }, Reply::File(written)) => match written {
                Ok(_) => on_chunk_written(transfer, chunk),
                Err(error) => fail_with("Failed to write to disk: ", error),
            },
            (Session::FlushingFile { transfer }, Reply::File(flushed)) => match flushed {
                Ok(_) => on_flushed(transfer),
                Err(error) => fail_with("Failed to finalize the download file: ", error),
            },
            (Session::DescribingSize { transfer }, Reply::Size(size)) => on_size(transfer, size),
            _ => vstd::pervasive::unreached(),
        };
        assert(next@ == following(session, told, path_settled(next@.session)));
        next
    }
}

} // verus!
