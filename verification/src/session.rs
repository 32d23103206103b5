//! A request under way: its stages, the work that it asks for and the replies to it.
//!
//! A [`Session`] is told what came of the work it asked for and answers with the
//! next piece of work, with what the user is to be shown first, until it finishes.

use crate::envelope::{EnvelopeModel, TorboxEnvelope};
use crate::json::JsonValue;
use crate::output::{DownloadModel, DownloadResult, ProgressPayload};
use crate::settings::{AppSettings, SettingsModel};
use crate::status::HttpStatus;
use crate::text::text_of;
use crate::torrent::{
    bytes_of, params_of, parts_of, FormPart, HeadModel, LinkModel, LinkRequestResult, PartModel,
    QueryParam, ResponseHead, StartLinkRequest, TorrentModel,
};
use vstd::prelude::*;

verus! {

/// What a request is after.
#[derive(Debug)]
pub enum Goal {
    /// A download link.
    Link,
    /// A file on disk.
    Download { destination_path: Option<String>, suggested_file_name: Option<String> },
}

/// The content of a [`Goal`].
pub enum GoalModel {
    Link,
    Download { destination_path: Option<Seq<char>>, suggested_file_name: Option<Seq<char>> },
}

impl View for Goal {
    type V = GoalModel;

    open spec fn view(&self) -> GoalModel {
        match *self {
            Goal::Link => GoalModel::Link,
            Goal::Download { destination_path, suggested_file_name } => GoalModel::Download {
                destination_path: text_of(destination_path),
                suggested_file_name: text_of(suggested_file_name),
            },
        }
    }
}

/// A request that goes out under a token.
#[derive(Debug)]
pub struct Job {
    pub token: String,
    pub allow_zip: bool,
    pub goal: Goal,
}

/// The content of a [`Job`].
pub struct JobModel {
    pub token: Seq<char>,
    pub allow_zip: bool,
    pub goal: GoalModel,
}

impl View for Job {
    type V = JobModel;

    open spec fn view(&self) -> JobModel {
        JobModel { token: self.token@, allow_zip: self.allow_zip, goal: self.goal@ }
    }
}

/// A torrent that TorBox has accepted, and what it takes to ask for its link.
#[derive(Debug)]
pub struct Lead {
    pub token: String,
    pub allow_zip: bool,
    pub torrent_id: String,
}

/// The content of a [`Lead`].
pub struct LeadModel {
    pub token: Seq<char>,
    pub allow_zip: bool,
    pub torrent_id: Seq<char>,
}

impl View for Lead {
    type V = LeadModel;

    open spec fn view(&self) -> LeadModel {
        LeadModel { token: self.token@, allow_zip: self.allow_zip, torrent_id: self.torrent_id@ }
    }
}

/// A download that is being written to disk.
#[derive(Debug)]
pub struct Transfer {
    pub torrent_id: String,
    pub output_path: String,
    pub total_bytes: Option<u64>,
    pub bytes_written: u64,
}

/// The content of a [`Transfer`].
pub struct TransferModel {
    pub torrent_id: Seq<char>,
    pub output_path: Seq<char>,
    pub total_bytes: Option<u64>,
    pub bytes_written: u64,
}

impl View for Transfer {
    type V = TransferModel;

    open spec fn view(&self) -> TransferModel {
        TransferModel {
            torrent_id: self.torrent_id@,
            output_path: self.output_path@,
            total_bytes: self.total_bytes,
            bytes_written: self.bytes_written,
        }
    }
}

/// A request under way, named after the work that it waits for.
#[derive(Debug)]
#[allow(inconsistent_fields)]
pub enum Session {
    LoadingSettings { request: StartLinkRequest, goal: Goal },
    BuildingClient { request: StartLinkRequest, job: Job },
    CreatingTorrent { job: Job },
    ReadingCreated { job: Job, status: HttpStatus },
    ReadingCreatedPlain { job: Job },
    ReloadingSettings {
        lead: Lead,
        destination_path: Option<String>,
        suggested_file_name: Option<String>,
    },
    ProbingDestination { lead: Lead, destination: String, suggested_file_name: Option<String> },
    PreparingFolder { lead: Lead, output_path: String },
    RequestingLink { torrent_id: String, output_path: Option<String> },
    ReadingLink { torrent_id: String, output_path: Option<String> },
    OpeningDownload { torrent_id: String, output_path: String },
    CreatingFile { transfer: Transfer },
    ReadingChunk { transfer: Transfer },
    WritingChunk { transfer: Transfer, chunk: u64 },
    FlushingFile { transfer: Transfer },
    DescribingSize { transfer: Transfer },
    Finished,
}

/// The content of a [`Session`].
#[allow(inconsistent_fields)]
pub enum SessionModel {
    LoadingSettings { torrent: TorrentModel, goal: GoalModel },
    BuildingClient { torrent: TorrentModel, job: JobModel },
    CreatingTorrent { job: JobModel },
    ReadingCreated { job: JobModel, status: u16 },
    ReadingCreatedPlain { job: JobModel },
    ReloadingSettings {
        lead: LeadModel,
        destination_path: Option<Seq<char>>,
        suggested_file_name: Option<Seq<char>>,
    },
    ProbingDestination {
        lead: LeadModel,
        destination: Seq<char>,
        suggested_file_name: Option<Seq<char>>,
    },
    PreparingFolder { lead: LeadModel, output_path: Seq<char> },
    RequestingLink { torrent_id: Seq<char>, output_path: Option<Seq<char>> },
    ReadingLink { torrent_id: Seq<char>, output_path: Option<Seq<char>> },
    OpeningDownload { torrent_id: Seq<char>, output_path: Seq<char> },
    CreatingFile { transfer: TransferModel },
    ReadingChunk { transfer: TransferModel },
    WritingChunk { transfer: TransferModel, chunk: nat },
    FlushingFile { transfer: TransferModel },
    DescribingSize { transfer: TransferModel },
    Finished,
}

impl View for Session {
    type V = SessionModel;

    open spec fn view(&self) -> SessionModel {
        match *self {
            Session::LoadingSettings { request, goal } => SessionModel::LoadingSettings {
                torrent: request@,
                goal: goal@,
            },
            Session::BuildingClient { request, job } => SessionModel::BuildingClient {
                torrent: request@,
                job: job@,
            },
            Session::CreatingTorrent { job } => SessionModel::CreatingTorrent { job: job@ },
            Session::ReadingCreated { job, status } => SessionModel::ReadingCreated {
                job: job@,
                status: status@,
            },
            Session::ReadingCreatedPlain { job } => SessionModel::ReadingCreatedPlain {
                job: job@,
            },
            Session::ReloadingSettings { lead, destination_path, suggested_file_name } =>
                SessionModel::ReloadingSettings {
                lead: lead@,
                destination_path: text_of(destination_path),
                suggested_file_name: text_of(suggested_file_name),
            },
            Session::ProbingDestination { lead, destination, suggested_file_name } =>
                SessionModel::ProbingDestination {
                lead: lead@,
                destination: destination@,
                suggested_file_name: text_of(suggested_file_name),
            },
            Session::PreparingFolder { lead, output_path } => SessionModel::PreparingFolder {
                lead: lead@,
                output_path: output_path@,
            },
            Session::RequestingLink { torrent_id, output_path } => SessionModel::RequestingLink {
                torrent_id: torrent_id@,
                output_path: text_of(output_path),
            },
            Session::ReadingLink { torrent_id, output_path } => SessionModel::ReadingLink {
                torrent_id: torrent_id@,
                output_path: text_of(output_path),
            },
            Session::OpeningDownload { torrent_id, output_path } => SessionModel::OpeningDownload {
                torrent_id: torrent_id@,
                output_path: output_path@,
            },
            Session::CreatingFile { transfer } => SessionModel::CreatingFile {
                transfer: transfer@,
            },
            Session::ReadingChunk { transfer } => SessionModel::ReadingChunk {
                transfer: transfer@,
            },
            Session::WritingChunk { transfer, chunk } => SessionModel::WritingChunk {
                transfer: transfer@,
                chunk: chunk as nat,
            },
            Session::FlushingFile { transfer } => SessionModel::FlushingFile {
                transfer: transfer@,
            },
            Session::DescribingSize { transfer } => SessionModel::DescribingSize {
                transfer: transfer@,
            },
            Session::Finished => SessionModel::Finished,
        }
    }
}

/// What the user is shown while a session runs.
#[derive(Debug)]
pub enum Notice {
    Status(String),
    Progress(ProgressPayload),
}

/// The content of a [`Notice`].
pub enum NoticeModel {
    Status(Seq<char>),
    Progress { bytes_downloaded: u64, total_bytes: Option<u64> },
}

impl View for Notice {
    type V = NoticeModel;

    open spec fn view(&self) -> NoticeModel {
        match *self {
            Notice::Status(text) => NoticeModel::Status(text@),
            Notice::Progress(payload) => NoticeModel::Progress {
                bytes_downloaded: payload.bytes_downloaded,
                total_bytes: payload.total_bytes,
            },
        }
    }
}

/// The name of the event that carries a notice.
pub open spec fn channel_of(notice: Notice) -> Seq<char> {
    match notice {
        Notice::Status(_) => "download-status"@,
        Notice::Progress(_) => "download-progress"@,
    }
}

impl Notice {
    /// The name of the event that carries the notice.
    pub fn channel(&self) -> (name: &'static str)
        ensures
            name@ == match *self {
                Notice::Status(_) => "download-status"@,
                Notice::Progress(_) => "download-progress"@,
            },
            name@ == channel_of(*self),
    {
        match self {
            Notice::Status(_) => "download-status",
            Notice::Progress(_) => "download-progress",
        }
    }
}

/// The contents of a list of notices.
pub open spec fn notices_of(notices: Seq<Notice>) -> Seq<NoticeModel> {
    Seq::new(notices.len(), |i: int| notices[i]@)
}

/// What a session comes to when it succeeds.
#[derive(Debug)]
pub enum Outcome {
    Download(DownloadResult),
    Link(LinkRequestResult),
}

/// The content of an [`Outcome`].
pub enum OutcomeModel {
    Download(DownloadModel),
    Link(LinkModel),
}

impl View for Outcome {
    type V = OutcomeModel;

    open spec fn view(&self) -> OutcomeModel {
        match *self {
            Outcome::Download(result) => OutcomeModel::Download(result@),
            Outcome::Link(result) => OutcomeModel::Link(result@),
        }
    }
}

/// What is to be done next for a session.
#[derive(Debug)]
pub enum Work {
    /// Load the saved settings.
    LoadSettings,
    /// Build an HTTP client with this user agent.
    BuildClient { user_agent: &'static str },
    /// Post this form under this token.
    CreateTorrent { url: String, token: String, form: Vec<FormPart> },
    /// Decode the body of the last response as a JSON answer.
    ReadEnvelope,
    /// Read the body of the last response as text.
    ReadText,
    /// Find out whether there is a directory at this path.
    ProbeDirectory { path: String },
    /// Create the directories that lead to the file with this path.
    PrepareFolder { path: String },
    /// Get this address with this query under this token.
    RequestLink { url: String, token: String, query: Vec<QueryParam> },
    /// Get this address.
    OpenDownload { url: String },
    /// Create the file with this path.
    CreateFile { path: String },
    /// Read the next chunk of the last response.
    ReadChunk,
    /// Append these bytes to the file.
    WriteChunk { bytes: Vec<u8> },
    /// Flush the file.
    FlushFile,
    /// Put this number of bytes into words.
    DescribeSize { bytes: u64 },
    /// Nothing: the session is over.
    Finish(Result<Outcome, String>),
}

/// The content of [`Work`].
pub enum WorkModel {
    LoadSettings,
    BuildClient { user_agent: Seq<char> },
    CreateTorrent { url: Seq<char>, token: Seq<char>, form: Seq<PartModel> },
    ReadEnvelope,
    ReadText,
    ProbeDirectory { path: Seq<char> },
    PrepareFolder { path: Seq<char> },
    RequestLink { url: Seq<char>, token: Seq<char>, query: Seq<(Seq<char>, Seq<char>)> },
    OpenDownload { url: Seq<char> },
    CreateFile { path: Seq<char> },
    ReadChunk,
    WriteChunk { bytes: Seq<u8> },
    FlushFile,
    DescribeSize { bytes: u64 },
    Finish(Result<OutcomeModel, Seq<char>>),
}

impl View for Work {
    type V = WorkModel;

    open spec fn view(&self) -> WorkModel {
        match *self {
            Work::LoadSettings => WorkModel::LoadSettings,
            Work::BuildClient { user_agent } => WorkModel::BuildClient { user_agent: user_agent@ },
            Work::CreateTorrent { url, token, form } => WorkModel::CreateTorrent {
                url: url@,
                token: token@,
                form: parts_of(form@),
            },
            Work::ReadEnvelope => WorkModel::ReadEnvelope,
            Work::ReadText => WorkModel::ReadText,
            Work::ProbeDirectory { path } => WorkModel::ProbeDirectory { path: path@ },
            Work::PrepareFolder { path } => WorkModel::PrepareFolder { path: path@ },
            Work::RequestLink { url, token, query } => WorkModel::RequestLink {
                url: url@,
                token: token@,
                query: params_of(query@),
            },
            Work::OpenDownload { url } => WorkModel::OpenDownload { url: url@ },
            Work::CreateFile { path } => WorkModel::CreateFile { path: path@ },
            Work::ReadChunk => WorkModel::ReadChunk,
            Work::WriteChunk { bytes } => WorkModel::WriteChunk { bytes: bytes@ },
            Work::FlushFile => WorkModel::FlushFile,
            Work::DescribeSize { bytes } => WorkModel::DescribeSize { bytes },
            Work::Finish(Ok(outcome)) => WorkModel::Finish(Ok(outcome@)),
            Work::Finish(Err(message)) => WorkModel::Finish(Err(message@)),
        }
    }
}

/// What came of the work that a session asked for. An error comes with its explanation.
#[derive(Debug)]
pub enum Reply {
    Settings(Result<AppSettings, String>),
    Client(Result<(), String>),
    /// The torrent file could not be made part of a form.
    UploadUnprepared(String),
    Response(Result<ResponseHead, String>),
    Envelope(Result<TorboxEnvelope<JsonValue>, String>),
    Text(Result<String, String>),
    IsDirectory(bool),
    /// The directories that lead to the file were created.
    Folder(Result<(), String>),
    /// The file was created, written to or flushed.
    File(Result<(), String>),
    /// The bytes of the chunk, or nothing at the end of the body.
    Chunk(Result<Option<Vec<u8>>, String>),
    Size(String),
}

/// The content of a [`Reply`].
pub enum ReplyModel {
    Settings(Result<SettingsModel, Seq<char>>),
    Client(Result<(), Seq<char>>),
    UploadUnprepared(Seq<char>),
    Response(Result<HeadModel, Seq<char>>),
    Envelope(Result<EnvelopeModel<JsonValue>, Seq<char>>),
    Text(Result<Seq<char>, Seq<char>>),
    IsDirectory(bool),
    Folder(Result<(), Seq<char>>),
    File(Result<(), Seq<char>>),
    Chunk(Result<Option<Seq<u8>>, Seq<char>>),
    Size(Seq<char>),
}

impl View for Reply {
    type V = ReplyModel;

    open spec fn view(&self) -> ReplyModel {
        match *self {
            Reply::Settings(Ok(settings)) => ReplyModel::Settings(Ok(settings@)),
            Reply::Settings(Err(error)) => ReplyModel::Settings(Err(error@)),
            Reply::Client(Ok(_)) => ReplyModel::Client(Ok(())),
            Reply::Client(Err(error)) => ReplyModel::Client(Err(error@)),
            Reply::UploadUnprepared(error) => ReplyModel::UploadUnprepared(error@),
            Reply::Response(Ok(head)) => ReplyModel::Response(Ok(head@)),
            Reply::Response(Err(error)) => ReplyModel::Response(Err(error@)),
            Reply::Envelope(Ok(envelope)) => ReplyModel::Envelope(Ok(envelope@)),
            Reply::Envelope(Err(error)) => ReplyModel::Envelope(Err(error@)),
            Reply::Text(Ok(text)) => ReplyModel::Text(Ok(text@)),
            Reply::Text(Err(error)) => ReplyModel::Text(Err(error@)),
            Reply::IsDirectory(is_directory) => ReplyModel::IsDirectory(is_directory),
            Reply::Folder(Ok(_)) => ReplyModel::Folder(Ok(())),
            Reply::Folder(Err(error)) => ReplyModel::Folder(Err(error@)),
            Reply::File(Ok(_)) => ReplyModel::File(Ok(())),
            Reply::File(Err(error)) => ReplyModel::File(Err(error@)),
            Reply::Chunk(Ok(bytes)) => ReplyModel::Chunk(Ok(bytes_of(bytes))),
            Reply::Chunk(Err(error)) => ReplyModel::Chunk(Err(error@)),
            Reply::Size(words) => ReplyModel::Size(words@),
        }
    }
}

/// A session with what is to be shown and then to be done for it.
#[derive(Debug)]
pub struct Next {
    pub session: Session,
    pub notices: Vec<Notice>,
    pub work: Work,
}

/// The content of [`Next`].
pub struct NextModel {
    pub session: SessionModel,
    pub notices: Seq<NoticeModel>,
    pub work: WorkModel,
}

impl View for Next {
    type V = NextModel;

    open spec fn view(&self) -> NextModel {
        NextModel {
            session: self.session@,
            notices: notices_of(self.notices@),
            work: self.work@,
        }
    }
}

/// What is to be done for a session is seen as it is.
pub proof fn law_work_is_seen_as_it_is(work: Work)
    ensures
        match work {
            Work::LoadSettings => work@ is LoadSettings,
            Work::BuildClient { user_agent } => work@ == (WorkModel::BuildClient {
                user_agent: user_agent@,
            }),
            Work::CreateTorrent { url, token, form } => work@ == (WorkModel::CreateTorrent {
                url: url@,
                token: token@,
                form: parts_of(form@),
            }),
            Work::ReadEnvelope => work@ is ReadEnvelope,
            Work::ReadText => work@ is ReadText,
            Work::ProbeDirectory { path } => work@ == (WorkModel::ProbeDirectory { path: path@ }),
            Work::PrepareFolder { path } => work@ == (WorkModel::PrepareFolder { path: path@ }),
            Work::RequestLink { url, token, query } => work@ == (WorkModel::RequestLink {
                url: url@,
                token: token@,
                query: params_of(query@),
            }),
            Work::OpenDownload { url } => work@ == (WorkModel::OpenDownload { url: url@ }),
            Work::CreateFile { path } => work@ == (WorkModel::CreateFile { path: path@ }),
            Work::ReadChunk => work@ is ReadChunk,
            Work::WriteChunk { bytes } => work@ == (WorkModel::WriteChunk { bytes: bytes@ }),
            Work::FlushFile => work@ is FlushFile,
            Work::DescribeSize { bytes } => work@ == (WorkModel::DescribeSize { bytes }),
            Work::Finish(Ok(Outcome::Download(report))) => work@ == WorkModel::Finish(
                Ok(OutcomeModel::Download(report@)),
            ),
            Work::Finish(Ok(Outcome::Link(report))) => work@ == WorkModel::Finish(
                Ok(OutcomeModel::Link(report@)),
            ),
            Work::Finish(Err(message)) => work@ == WorkModel::Finish(Err(message@)),
        },
{
}

/// A session is told what came of its work as it is.
pub proof fn law_replies_are_heard_as_they_are(reply: Reply)
    ensures
        match reply {
            Reply::Settings(Ok(settings)) => reply@ == ReplyModel::Settings(Ok(settings@)),
            Reply::Settings(Err(error)) => reply@ == ReplyModel::Settings(Err(error@)),
            Reply::Client(Ok(_)) => reply@ == ReplyModel::Client(Ok(())),
            Reply::Client(Err(error)) => reply@ == ReplyModel::Client(Err(error@)),
            Reply::UploadUnprepared(error) => reply@ == ReplyModel::UploadUnprepared(error@),
            Reply::Response(Ok(head)) => reply@ == ReplyModel::Response(Ok(head@)),
            Reply::Response(Err(error)) => reply@ == ReplyModel::Response(Err(error@)),
            Reply::Envelope(Ok(envelope)) => reply@ == ReplyModel::Envelope(Ok(envelope@)),
            Reply::Envelope(Err(error)) => reply@ == ReplyModel::Envelope(Err(error@)),
            Reply::Text(Ok(text)) => reply@ == ReplyModel::Text(Ok(text@)),
            Reply::Text(Err(error)) => reply@ == ReplyModel::Text(Err(error@)),
            Reply::IsDirectory(is_directory) => reply@ == ReplyModel::IsDirectory(is_directory),
            Reply::Folder(Ok(_)) => reply@ == ReplyModel::Folder(Ok(())),
            Reply::Folder(Err(error)) => reply@ == ReplyModel::Folder(Err(error@)),
            Reply::File(Ok(_)) => reply@ == ReplyModel::File(Ok(())),
            Reply::File(Err(error)) => reply@ == ReplyModel::File(Err(error@)),
            Reply::Chunk(Ok(Some(bytes))) => reply@ == ReplyModel::Chunk(Ok(Some(bytes@))),
            Reply::Chunk(Ok(None)) => reply@ == ReplyModel::Chunk(Ok(None)),
            Reply::Chunk(Err(error)) => reply@ == ReplyModel::Chunk(Err(error@)),
            Reply::Size(words) => reply@ == ReplyModel::Size(words@),
        },
{
}

/// Notices are seen as they are, all of them and in their order, and so is what comes
/// next.
pub proof fn law_notices_are_seen_as_they_are(next: Next, at: int)
    ensures
        next@.work == next.work@,
        next@.session == next.session@,
        next@.notices.len() == next.notices@.len(),
        0 <= at < next.notices@.len() ==> match next.notices@[at] {
            Notice::Status(text) => next@.notices[at] == NoticeModel::Status(text@),
            Notice::Progress(payload) => next@.notices[at] == (NoticeModel::Progress {
                bytes_downloaded: payload.bytes_downloaded,
                total_bytes: payload.total_bytes,
            }),
        },
{
}

/// Lines of text and progress go out under these two names.
pub proof fn law_notices_have_their_channels(text: String, payload: ProgressPayload)
    ensures
        channel_of(Notice::Status(text)) == "download-status"@,
        channel_of(Notice::Progress(payload)) == "download-progress"@,
{
}

} // verus!
