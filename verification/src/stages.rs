//! What each stage of a request does with the reply to its work.

use crate::course::{beginning, download_goal, following};
use crate::envelope::EnvelopeModel;
use crate::json::JsonValue;
use crate::output::destination;
use crate::session::{
    GoalModel, JobModel, LeadModel, NextModel, NoticeModel, OutcomeModel, ReplyModel,
    SessionModel, TransferModel, WorkModel,
};
use crate::settings::SettingsModel;
use crate::status::{law_success_is_in_the_two_hundreds, status_text};
use crate::text::{
    law_blank_text_shows_nothing, law_occurring_text_is_surrounded,
    law_text_occurs_where_it_is_surrounded, occurs_in, trimmed, visible,
};
use crate::torrent::{
    asks_once, created_id, created_id_plain, creation_form, law_calls_go_to_torbox,
    law_only_a_no_forbids_archives, law_query_asks_for_the_torrent,
    law_source_is_a_link_or_a_file, provided_link, HeadModel, TorrentModel,
};
use vstd::prelude::*;

verus! {

/// The request is over, with this message and nothing else to show.
pub open spec fn ended(next: NextModel, message: Seq<char>) -> bool {
    &&& next.session is Finished
    &&& next.notices.len() == 0
    &&& next.work == WorkModel::Finish(Err(message))
}

/// The request goes on with nothing to show.
pub open spec fn quiet(next: NextModel) -> bool {
    next.notices.len() == 0 && !(next.session is Finished)
}

/// One line is shown, and nothing else.
pub open spec fn tells(next: NextModel, line: Seq<char>) -> bool {
    next.notices.len() == 1 && next.notices[0] == NoticeModel::Status(line)
}

/// One progress is shown, and nothing else.
pub open spec fn counts(next: NextModel, bytes: int, total_bytes: Option<u64>) -> bool {
    next.notices.len() == 1 && (next.notices[0] matches NoticeModel::Progress {
        bytes_downloaded,
        total_bytes: shown,
    } && bytes_downloaded == bytes && shown == total_bytes)
}

/// The work asks for the link of this torrent, under this token.
pub open spec fn asks_for_link(
    work: WorkModel,
    token: Seq<char>,
    torrent_id: Seq<char>,
    allow_zip: bool,
) -> bool {
    work matches WorkModel::RequestLink { url, token: sent, query } && {
        &&& url == "https://api.torbox.app/v1/api/torrents/requestdl"@
        &&& sent == token
        &&& query.len() == 6
        &&& asks_once(query, "token"@, token)
        &&& asks_once(query, "torrent_id"@, torrent_id)
        &&& asks_once(query, "file_id"@, "0"@)
        &&& asks_once(
            query,
            "zip_link"@,
            if allow_zip {
                "true"@
            } else {
                "false"@
            },
        )
        &&& asks_once(query, "redirect"@, "false"@)
        &&& asks_once(query, "append_name"@, "true"@)
    }
}

/// The response names JSON in its content type.
pub open spec fn names_json(head: HeadModel) -> bool {
    head.content_type matches Some(content_type) && exists|lead: Seq<char>, tail: Seq<char>|
        content_type == #[trigger] (lead + "application/json"@ + tail)
}

proof fn lemma_names_json(head: HeadModel)
    ensures
        names_json(head) <==> (head.content_type matches Some(content_type) && occurs_in(
            "application/json"@,
            content_type,
        )),
{
    if let Some(content_type) = head.content_type {
        if occurs_in("application/json"@, content_type) {
            law_occurring_text_is_surrounded("application/json"@, content_type);
        }
        if names_json(head) {
            let (lead, tail) = choose|lead: Seq<char>, tail: Seq<char>|
                content_type == #[trigger] (lead + "application/json"@ + tail);
            law_text_occurs_where_it_is_surrounded(lead, "application/json"@, tail);
        }
    }
}

/// A request begins by having the settings loaded. One for a download keeps in mind
/// where the file shall go and what name was suggested for it.
pub proof fn law_request_begins_with_the_settings(
    torrent: TorrentModel,
    goal: GoalModel,
    requested: Option<Seq<char>>,
)
    ensures
        beginning(torrent, goal).session == (SessionModel::LoadingSettings { torrent, goal }),
        beginning(torrent, goal).work is LoadSettings,
        beginning(torrent, goal).notices.len() == 0,
        download_goal(torrent, requested) == (GoalModel::Download {
            destination_path: requested,
            suggested_file_name: torrent.suggested_name,
        }),
{
}

/// Without a token that shows a character the request is over, and else without a
/// magnet link that does or a file. With both, a client is built, and the request goes
/// on under the token as it was saved.
pub proof fn law_token_and_source_are_needed(
    torrent: TorrentModel,
    goal: GoalModel,
    settings: SettingsModel,
    path: Seq<char>,
)
    ensures
        ({
            let next = following(
                SessionModel::LoadingSettings { torrent, goal },
                ReplyModel::Settings(Ok(settings)),
                path,
            );
            let sourced = torrent.file_bytes is Some || (torrent.magnet_link matches Some(link)
                && visible(link));
            if !visible(settings.bearer_token) {
                match goal {
                    GoalModel::Link => ended(
                        next,
                        "Save a bearer token in settings before starting a link request."@,
                    ),
                    GoalModel::Download { .. } => ended(
                        next,
                        "Save a bearer token in settings before starting a download."@,
                    ),
                }
            } else if !sourced {
                ended(next, "Provide either a magnet link or a torrent file."@)
            } else {
                &&& quiet(next)
                &&& next.session == (SessionModel::BuildingClient {
                    torrent,
                    job: JobModel {
                        token: settings.bearer_token,
                        allow_zip: torrent.allow_zip != Some(false),
                        goal,
                    },
                })
                &&& next.work == (WorkModel::BuildClient { user_agent: "TorboxClient/0.1.0"@ })
            }
        }),
{
    law_blank_text_shows_nothing(settings.bearer_token);
    law_source_is_a_link_or_a_file(torrent);
    law_only_a_no_forbids_archives(torrent);
    law_calls_go_to_torbox();
}

/// With a client the torrent is submitted, in the form for it and under the token.
pub proof fn law_torrent_is_submitted(torrent: TorrentModel, job: JobModel, path: Seq<char>)
    ensures
        ({
            let next = following(
                SessionModel::BuildingClient { torrent, job },
                ReplyModel::Client(Ok(())),
                path,
            );
            &&& tells(next, "Submitting torrent to TorBox (createtorrent)"@)
            &&& next.session == (SessionModel::CreatingTorrent { job })
            &&& next.work == (WorkModel::CreateTorrent {
                url: "https://api.torbox.app/v1/api/torrents/createtorrent"@,
                token: job.token,
                form: creation_form(torrent),
            })
        }),
{
    law_calls_go_to_torbox();
}

/// A JSON answer to a submission is decoded whatever its status. Any other is read as
/// text if its status is one of the two hundreds, and ends the request if not.
pub proof fn law_submission_is_answered(job: JobModel, head: HeadModel, path: Seq<char>)
    ensures
        ({
            let next = following(
                SessionModel::CreatingTorrent { job },
                ReplyModel::Response(Ok(head)),
                path,
            );
            if names_json(head) {
                &&& quiet(next)
                &&& next.work is ReadEnvelope
                &&& next.session == (SessionModel::ReadingCreated { job, status: head.status })
            } else if head.status / 100 == 2 {
                &&& quiet(next)
                &&& next.work is ReadText
                &&& next.session == (SessionModel::ReadingCreatedPlain { job })
            } else {
                ended(
                    next,
                    "TorBox rejected the torrent request ("@ + status_text(head.status) + ")."@,
                )
            }
        }),
{
    lemma_names_json(head);
    law_success_is_in_the_two_hundreds(head.status);
}

/// The id that TorBox gives is told to the user, and the link of exactly that torrent
/// is asked for, at once or after the settings are looked up for the destination.
/// Without an id the request is over.
pub proof fn law_id_leads_to_its_link(
    job: JobModel,
    status: u16,
    envelope: EnvelopeModel<JsonValue>,
    body: Seq<char>,
    path: Seq<char>,
)
    ensures
        id_used(
            following(
                SessionModel::ReadingCreated { job, status },
                ReplyModel::Envelope(Ok(envelope)),
                path,
            ),
            job,
            created_id(envelope, status),
        ),
        id_used(
            following(
                SessionModel::ReadingCreatedPlain { job },
                ReplyModel::Text(Ok(body)),
                path,
            ),
            job,
            created_id_plain(body),
        ),
{
    law_calls_go_to_torbox();
    if let Ok(id) = created_id(envelope, status) {
        law_query_asks_for_the_torrent(job.token, id, job.allow_zip);
    }
    if let Ok(id) = created_id_plain(body) {
        law_query_asks_for_the_torrent(job.token, id, job.allow_zip);
    }
}

/// What becomes of the id of a torrent, or of the message in its place.
pub open spec fn id_used(
    next: NextModel,
    job: JobModel,
    id: Result<Seq<char>, Seq<char>>,
) -> bool {
    match id {
        Err(message) => ended(next, message),
        Ok(torrent_id) => {
            &&& tells(next, "TorBox created torrent id "@ + torrent_id)
            &&& match job.goal {
                GoalModel::Link => {
                    &&& next.session == (SessionModel::RequestingLink {
                        torrent_id,
                        output_path: None,
                    })
                    &&& asks_for_link(next.work, job.token, torrent_id, job.allow_zip)
                },
                GoalModel::Download { destination_path, suggested_file_name } => {
                    &&& next.session == (SessionModel::ReloadingSettings {
                        lead: LeadModel {
                            token: job.token,
                            allow_zip: job.allow_zip,
                            torrent_id,
                        },
                        destination_path,
                        suggested_file_name,
                    })
                    &&& next.work is LoadSettings
                },
            }
        },
    }
}

/// Without a destination the request is over. One that ends in a slash or a backslash
/// is taken for a directory; of any other the disk is asked whether it is one. The file
/// is settled with the answer, and its folder prepared.
pub proof fn law_destination_is_settled(
    lead: LeadModel,
    requested: Option<Seq<char>>,
    suggested: Option<Seq<char>>,
    settings: SettingsModel,
    is_directory: bool,
    path: Seq<char>,
)
    ensures
        ({
            let next = following(
                SessionModel::ReloadingSettings {
                    lead,
                    destination_path: requested,
                    suggested_file_name: suggested,
                },
                ReplyModel::Settings(Ok(settings)),
                path,
            );
            match destination(requested, settings) {
                None => ended(next, "Choose a destination path before downloading."@),
                Some(chosen) => if trimmed(chosen).len() > 0 && (trimmed(chosen).last() == '/'
                    || trimmed(chosen).last() == '\\') {
                    folder_wanted(next, lead, path)
                } else {
                    &&& quiet(next)
                    &&& next.session == (SessionModel::ProbingDestination {
                        lead,
                        destination: chosen,
                        suggested_file_name: suggested,
                    })
                    &&& next.work == (WorkModel::ProbeDirectory { path: trimmed(chosen) })
                },
            }
        }),
        forall|chosen: Seq<char>|
            folder_wanted(
                #[trigger] following(
                    SessionModel::ProbingDestination {
                        lead,
                        destination: chosen,
                        suggested_file_name: suggested,
                    },
                    ReplyModel::IsDirectory(is_directory),
                    path,
                ),
                lead,
                path,
            ),
{
}

/// The folder of this file is to be prepared.
pub open spec fn folder_wanted(next: NextModel, lead: LeadModel, path: Seq<char>) -> bool {
    &&& quiet(next)
    &&& next.session == (SessionModel::PreparingFolder { lead, output_path: path })
    &&& next.work == (WorkModel::PrepareFolder { path })
}

/// With the folder, the file is told to the user and the link of the torrent is asked
/// for.
pub proof fn law_link_is_asked_for_once_the_folder_stands(
    lead: LeadModel,
    output_path: Seq<char>,
    path: Seq<char>,
)
    ensures
        ({
            let next = following(
                SessionModel::PreparingFolder { lead, output_path },
                ReplyModel::Folder(Ok(())),
                path,
            );
            &&& tells(next, "Resolved output path: "@ + output_path)
            &&& next.session == (SessionModel::RequestingLink {
                torrent_id: lead.torrent_id,
                output_path: Some(output_path),
            })
            &&& asks_for_link(next.work, lead.token, lead.torrent_id, lead.allow_zip)
        }),
{
    law_calls_go_to_torbox();
    law_query_asks_for_the_torrent(lead.token, lead.torrent_id, lead.allow_zip);
}

/// A JSON answer to a link request is decoded; any other has come from the link itself.
/// A link is reported, or opened for a download.
pub proof fn law_link_is_used(
    torrent_id: Seq<char>,
    output_path: Option<Seq<char>>,
    head: HeadModel,
    envelope: EnvelopeModel<JsonValue>,
    path: Seq<char>,
)
    ensures
        ({
            let next = following(
                SessionModel::RequestingLink { torrent_id, output_path },
                ReplyModel::Response(Ok(head)),
                path,
            );
            if names_json(head) {
                &&& quiet(next)
                &&& next.work is ReadEnvelope
                &&& next.session == (SessionModel::ReadingLink { torrent_id, output_path })
            } else {
                link_used(next, torrent_id, output_path, head.url, seq![])
            }
        }),
        ({
            let next = following(
                SessionModel::ReadingLink { torrent_id, output_path },
                ReplyModel::Envelope(Ok(envelope)),
                path,
            );
            match provided_link(envelope) {
                Err(message) => ended(next, message),
                Ok(link) => link_used(
                    next,
                    torrent_id,
                    output_path,
                    link,
                    seq![NoticeModel::Status("Received download URL from TorBox."@)],
                ),
            }
        }),
{
    lemma_names_json(head);
}

/// What becomes of a link, after these notices.
pub open spec fn link_used(
    next: NextModel,
    torrent_id: Seq<char>,
    output_path: Option<Seq<char>>,
    link: Seq<char>,
    notices: Seq<NoticeModel>,
) -> bool {
    match output_path {
        None => {
            &&& next.session is Finished
            &&& next.notices =~= notices
            &&& next.work matches WorkModel::Finish(Ok(OutcomeModel::Link(report)))
            &&& report.torrent_id == torrent_id
            &&& report.download_url == link
            &&& report.detail == "Successfully created torrent and requested download URL."@
        },
        Some(output_path) => {
            &&& next.session == (SessionModel::OpeningDownload { torrent_id, output_path })
            &&& next.notices =~= notices.push(
                NoticeModel::Status("Starting download from "@ + link),
            )
            &&& next.work == (WorkModel::OpenDownload { url: link })
        },
    }
}

/// A link that opens with a status of the two hundreds is saved to the file, counted
/// from zero against the length that the response gives. Any other ends the request.
pub proof fn law_opened_link_is_saved(
    torrent_id: Seq<char>,
    output_path: Seq<char>,
    head: HeadModel,
    path: Seq<char>,
)
    ensures
        ({
            let next = following(
                SessionModel::OpeningDownload { torrent_id, output_path },
                ReplyModel::Response(Ok(head)),
                path,
            );
            if head.status / 100 == 2 {
                &&& counts(next, 0, head.content_length)
                &&& next.session == (SessionModel::CreatingFile {
                    transfer: TransferModel {
                        torrent_id,
                        output_path,
                        total_bytes: head.content_length,
                        bytes_written: 0,
                    },
                })
                &&& next.work == (WorkModel::CreateFile { path: output_path })
            } else {
                ended(
                    next,
                    "TorBox returned an error while opening the download link ("@ + status_text(
                        head.status,
                    ) + ")"@,
                )
            }
        }),
{
    law_success_is_in_the_two_hundreds(head.status);
}

/// A created file is filled chunk by chunk. Each chunk is written as it was read, then
/// counted and shown, and the next one read; at the end the file is flushed, the user is
/// told, and the download reported with the bytes counted.
pub proof fn law_body_is_saved_chunk_by_chunk(
    transfer: TransferModel,
    bytes: Seq<u8>,
    size: Seq<char>,
    path: Seq<char>,
)
    requires
        transfer.bytes_written + bytes.len() <= u64::MAX,
    ensures
        ({
            let next = following(
                SessionModel::CreatingFile { transfer },
                ReplyModel::File(Ok(())),
                path,
            );
            &&& quiet(next)
            &&& next.work is ReadChunk
            &&& next.session == (SessionModel::ReadingChunk { transfer })
        }),
        ({
            let next = following(
                SessionModel::ReadingChunk { transfer },
                ReplyModel::Chunk(Ok(Some(bytes))),
                path,
            );
            &&& quiet(next)
            &&& next.work == (WorkModel::WriteChunk { bytes })
            &&& next.session == (SessionModel::WritingChunk { transfer, chunk: bytes.len() })
        }),
        ({
            let next = following(
                SessionModel::WritingChunk { transfer, chunk: bytes.len() },
                ReplyModel::File(Ok(())),
                path,
            );
            &&& counts(next, transfer.bytes_written + bytes.len(), transfer.total_bytes)
            &&& next.work is ReadChunk
            &&& next.session matches SessionModel::ReadingChunk { transfer: after }
            &&& after.bytes_written == transfer.bytes_written + bytes.len()
            &&& after.torrent_id == transfer.torrent_id
            &&& after.output_path == transfer.output_path
            &&& after.total_bytes == transfer.total_bytes
        }),
        ({
            let next = following(
                SessionModel::ReadingChunk { transfer },
                ReplyModel::Chunk(Ok(None)),
                path,
            );
            &&& quiet(next)
            &&& next.work is FlushFile
            &&& next.session == (SessionModel::FlushingFile { transfer })
        }),
        ({
            let next = following(
                SessionModel::FlushingFile { transfer },
                ReplyModel::File(Ok(())),
                path,
            );
            &&& tells(next, "Finished download!"@)
            &&& next.work == (WorkModel::DescribeSize { bytes: transfer.bytes_written })
            &&& next.session == (SessionModel::DescribingSize { transfer })
        }),
        ({
            let next = following(
                SessionModel::DescribingSize { transfer },
                ReplyModel::Size(size),
                path,
            );
            &&& next.session is Finished
            &&& next.notices.len() == 0
            &&& next.work matches WorkModel::Finish(Ok(OutcomeModel::Download(report)))
            &&& report.torrent_id == transfer.torrent_id
            &&& report.output_path == transfer.output_path
            &&& report.bytes_written == transfer.bytes_written
            &&& report.detail == "Saved "@ + size + " to "@ + transfer.output_path
        }),
{
}

/// Whatever fails, the request is over, and the user is told at which step and why.
pub proof fn law_failures_are_explained(session: SessionModel, error: Seq<char>, path: Seq<char>)
    ensures
        match session {
            SessionModel::LoadingSettings { .. } => ended(
                following(session, ReplyModel::Settings(Err(error)), path),
                error,
            ),
            SessionModel::BuildingClient { .. } => ended(
                following(session, ReplyModel::Client(Err(error)), path),
                "Failed to create HTTP client: "@ + error,
            ),
            SessionModel::CreatingTorrent { .. } => {
                &&& ended(
                    following(session, ReplyModel::UploadUnprepared(error), path),
                    "Failed to prepare torrent file upload: "@ + error,
                )
                &&& ended(
                    following(session, ReplyModel::Response(Err(error)), path),
                    "Failed to create torrent: "@ + error,
                )
            },
            SessionModel::ReadingCreated { .. } => ended(
                following(session, ReplyModel::Envelope(Err(error)), path),
                "Failed to decode TorBox response: "@ + error,
            ),
            SessionModel::ReadingCreatedPlain { .. } => ended(
                following(session, ReplyModel::Text(Err(error)), path),
                "Failed to read TorBox response: "@ + error,
            ),
            SessionModel::ReloadingSettings { .. } => ended(
                following(session, ReplyModel::Settings(Err(error)), path),
                error,
            ),
            SessionModel::ProbingDestination { .. } => true,
            SessionModel::PreparingFolder { .. } => ended(
                following(session, ReplyModel::Folder(Err(error)), path),
                "Failed to create destination folder: "@ + error,
            ),
            SessionModel::RequestingLink { .. } => ended(
                following(session, ReplyModel::Response(Err(error)), path),
                "Failed to request the direct download link: "@ + error,
            ),
            SessionModel::ReadingLink { .. } => ended(
                following(session, ReplyModel::Envelope(Err(error)), path),
                "Failed to decode TorBox response: "@ + error,
            ),
            SessionModel::OpeningDownload { .. } => ended(
                following(session, ReplyModel::Response(Err(error)), path),
                "Failed to fetch the direct download link: "@ + error,
            ),
            SessionModel::CreatingFile { .. } => ended(
                following(session, ReplyModel::File(Err(error)), path),
                "Failed to create the output file: "@ + error,
            ),
            SessionModel::ReadingChunk { .. } => ended(
                following(session, ReplyModel::Chunk(Err(error)), path),
                "Failed while streaming the download: "@ + error,
            ),
            SessionModel::WritingChunk { .. } => ended(
                following(session, ReplyModel::File(Err(error)), path),
                "Failed to write to disk: "@ + error,
            ),
            SessionModel::FlushingFile { .. } => ended(
                following(session, ReplyModel::File(Err(error)), path),
                "Failed to finalize the download file: "@ + error,
            ),
            SessionModel::DescribingSize { .. } => true,
            SessionModel::Finished => true,
        },
{
}

} // verus!
