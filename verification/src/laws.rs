//! What holds of a request from its beginning to its end.

use crate::course::{
    accepts, advanced, beginning, download_goal, failure, folder_prepared, following, link_work,
    output_settled, progress, resolves, settings_loaded, settings_reloaded, token_missing,
    torrent_created,
};
use crate::envelope::EnvelopeModel;
use crate::json::JsonValue;
use crate::output::{
    destination, download_report, names_directory, output_for, placed, OutputModel,
};
use crate::session::{
    GoalModel, JobModel, LeadModel, NextModel, NoticeModel, OutcomeModel, ReplyModel, SessionModel,
    TransferModel, WorkModel,
};
use crate::settings::{empty_settings, settings_fault, SettingsModel};
use crate::stages::asks_for_link;
use crate::status::successful;
use crate::text::{blank, trimmed};
use crate::torrent::{
    announces_json, asks_once, carries_source, created_id, created_id_plain, creation_form,
    has_source, law_calls_go_to_torbox, law_created_id_is_not_blank, law_form_carries_the_source,
    law_only_a_no_forbids_archives, law_query_asks_for_the_torrent, link_query, link_report,
    provided_link, zip_allowed, HeadModel, TorrentModel,
};
use vstd::prelude::*;

verus! {

/// Where a session stands after a series of replies. A request settles its output once
/// at most; `path` is the path that the system then gives it.
pub open spec fn run(next: NextModel, replies: Seq<ReplyModel>, path: Seq<char>) -> NextModel
    decreases replies.len(),
{
    if replies.len() == 0 {
        next
    } else {
        run(following(next.session, replies[0], path), replies.drop_first(), path)
    }
}

/// The session accepts the reply, and the path may be that of the output that the
/// reply settles.
pub open spec fn possible(session: SessionModel, reply: ReplyModel, path: Seq<char>) -> bool {
    accepts(session, reply) && resolves(session, reply, path)
}

/// Each reply of the series is accepted in its turn, and the path may be that of the
/// output that is settled on the way.
pub open spec fn follows(session: SessionModel, replies: Seq<ReplyModel>, path: Seq<char>) -> bool
    decreases replies.len(),
{
    replies.len() == 0 || (possible(session, replies[0], path) && follows(
        following(session, replies[0], path).session,
        replies.drop_first(),
        path,
    ))
}

/// The token that a session works under, once it has one and while it needs it.
pub open spec fn token_of(session: SessionModel) -> Option<Seq<char>> {
    match session {
        SessionModel::BuildingClient { job, .. } => Some(job.token),
        SessionModel::CreatingTorrent { job } => Some(job.token),
        SessionModel::ReadingCreated { job, .. } => Some(job.token),
        SessionModel::ReadingCreatedPlain { job } => Some(job.token),
        SessionModel::ReloadingSettings { lead, .. } => Some(lead.token),
        SessionModel::ProbingDestination { lead, .. } => Some(lead.token),
        SessionModel::PreparingFolder { lead, .. } => Some(lead.token),
        _ => None,
    }
}

/// The work calls TorBox.
pub open spec fn calls_torbox(work: WorkModel) -> bool {
    work is CreateTorrent || work is RequestLink
}

/// Wherever the work gives TorBox a token, it is this one: in the header of either
/// call, and in the query for a link, whose one `token` entry is the first.
pub open spec fn sent_under(work: WorkModel, token: Seq<char>) -> bool {
    match work {
        WorkModel::CreateTorrent { token: sent, .. } => sent == token,
        WorkModel::RequestLink { token: sent, query, .. } => {
            &&& sent == token
            &&& query.len() > 0 && query[0] == ("token"@, token)
            &&& forall|i: int| 0 < i < query.len() ==> (#[trigger] query[i]).0 != "token"@
        },
        _ => true,
    }
}

/// TorBox is only ever called under the token of the settings that a request
/// started from, and never under a blank one. The query for a link gives the same
/// token as its header.
pub proof fn law_calls_carry_the_saved_token(
    torrent: TorrentModel,
    goal: GoalModel,
    settings: SettingsModel,
    replies: Seq<ReplyModel>,
    path: Seq<char>,
)
    requires
        follows(settings_loaded(torrent, goal, settings).session, replies, path),
    ensures
        ({
            let work = run(settings_loaded(torrent, goal, settings), replies, path).work;
            &&& sent_under(work, settings.bearer_token)
            &&& calls_torbox(work) ==> !blank(settings.bearer_token)
        }),
{
    let next = settings_loaded(torrent, goal, settings);
    if !blank(settings.bearer_token) {
        lemma_token_is_kept(next, settings.bearer_token, replies, path);
    } else {
        lemma_finished_takes_no_reply(replies, path);
    }
}

proof fn lemma_link_work_is_sent_under()
    ensures
        forall|lead: LeadModel| sent_under(#[trigger] link_work(lead), lead.token),
{
    reveal_strlit("token");
    reveal_strlit("torrent_id");
    reveal_strlit("file_id");
    reveal_strlit("zip_link");
    reveal_strlit("redirect");
    reveal_strlit("append_name");
    assert forall|lead: LeadModel| sent_under(#[trigger] link_work(lead), lead.token) by {
        let query = link_query(lead.token, lead.torrent_id, lead.allow_zip);
        assert forall|i: int| 0 < i < query.len() implies (#[trigger] query[i]).0 != "token"@ by {
            assert(query[i].0.len() != "token"@.len());
        }
    }
}

proof fn lemma_finished_takes_no_reply(replies: Seq<ReplyModel>, path: Seq<char>)
    ensures
        follows(SessionModel::Finished, replies, path) ==> replies.len() == 0,
{
}

proof fn lemma_token_is_kept(
    next: NextModel,
    token: Seq<char>,
    replies: Seq<ReplyModel>,
    path: Seq<char>,
)
    requires
        !(next.session is LoadingSettings),
        token_of(next.session) matches Some(held) ==> held == token,
        sent_under(next.work, token),
        follows(next.session, replies, path),
    ensures
        sent_under(run(next, replies, path).work, token),
    decreases replies.len(),
{
    if replies.len() > 0 {
        lemma_link_work_is_sent_under();
        lemma_token_is_kept(
            following(next.session, replies[0], path),
            token,
            replies.drop_first(),
            path,
        );
    }
}

/// The torrent that a session is about, once TorBox has accepted it.
pub open spec fn torrent_of(session: SessionModel) -> Option<Seq<char>> {
    match session {
        SessionModel::ReloadingSettings { lead, .. } => Some(lead.torrent_id),
        SessionModel::ProbingDestination { lead, .. } => Some(lead.torrent_id),
        SessionModel::PreparingFolder { lead, .. } => Some(lead.torrent_id),
        SessionModel::RequestingLink { torrent_id, .. } => Some(torrent_id),
        SessionModel::ReadingLink { torrent_id, .. } => Some(torrent_id),
        SessionModel::OpeningDownload { torrent_id, .. } => Some(torrent_id),
        SessionModel::CreatingFile { transfer } => Some(transfer.torrent_id),
        SessionModel::ReadingChunk { transfer } => Some(transfer.torrent_id),
        SessionModel::WritingChunk { transfer, .. } => Some(transfer.torrent_id),
        SessionModel::FlushingFile { transfer } => Some(transfer.torrent_id),
        SessionModel::DescribingSize { transfer } => Some(transfer.torrent_id),
        _ => None,
    }
}

/// The torrent that a finished session reports.
pub open spec fn torrent_reported(work: WorkModel) -> Option<Seq<char>> {
    match work {
        WorkModel::Finish(Ok(OutcomeModel::Download(report))) => Some(report.torrent_id),
        WorkModel::Finish(Ok(OutcomeModel::Link(report))) => Some(report.torrent_id),
        _ => None,
    }
}

/// The id that TorBox gives in the course of these replies, if it gives one.
pub open spec fn id_given(
    session: SessionModel,
    replies: Seq<ReplyModel>,
    path: Seq<char>,
) -> Option<Seq<char>>
    decreases replies.len(),
{
    if replies.len() == 0 {
        None
    } else {
        match (session, replies[0]) {
            (SessionModel::ReadingCreated { status, .. }, ReplyModel::Envelope(Ok(envelope))) =>
                match created_id(envelope, status) {
                Ok(id) => Some(id),
                Err(_) => None,
            },
            (SessionModel::ReadingCreatedPlain { .. }, ReplyModel::Text(Ok(body))) =>
                match created_id_plain(body) {
                Ok(id) => Some(id),
                Err(_) => None,
            },
            _ => id_given(following(session, replies[0], path).session, replies.drop_first(), path),
        }
    }
}

/// The id that a request reports in the end is the one that TorBox gave for the
/// torrent, and it is not blank.
pub proof fn law_reported_id_is_the_one_given(
    torrent: TorrentModel,
    goal: GoalModel,
    replies: Seq<ReplyModel>,
    path: Seq<char>,
)
    requires
        follows(beginning(torrent, goal).session, replies, path),
    ensures
        torrent_reported(run(beginning(torrent, goal), replies, path).work) matches Some(id)
            ==> id_given(beginning(torrent, goal).session, replies, path) == Some(id) && !blank(
            id,
        ),
{
    lemma_id_is_given(beginning(torrent, goal), replies, path);
}

proof fn lemma_id_is_given(next: NextModel, replies: Seq<ReplyModel>, path: Seq<char>)
    requires
        torrent_of(next.session) is None,
        torrent_reported(next.work) is None,
        follows(next.session, replies, path),
    ensures
        torrent_reported(run(next, replies, path).work) matches Some(id) ==> id_given(
            next.session,
            replies,
            path,
        ) == Some(id) && !blank(id),
    decreases replies.len(),
{
    if replies.len() > 0 {
        let after = following(next.session, replies[0], path);
        let rest = replies.drop_first();
        lemma_finished_takes_no_reply(rest, path);
        let nothing = EnvelopeModel::<JsonValue> {
            success: false,
            error: None,
            detail: None,
            data: None,
        };
        match (next.session, replies[0]) {
            (SessionModel::ReadingCreated { status, .. }, ReplyModel::Envelope(Ok(envelope))) => {
                law_created_id_is_not_blank(envelope, status, Seq::empty());
                if let Ok(id) = created_id(envelope, status) {
                    lemma_id_is_kept(after, id, rest, path);
                }
            },
            (SessionModel::ReadingCreatedPlain { .. }, ReplyModel::Text(Ok(body))) => {
                law_created_id_is_not_blank(nothing, 0, body);
                if let Ok(id) = created_id_plain(body) {
                    lemma_id_is_kept(after, id, rest, path);
                }
            },
            _ => {
                lemma_id_is_given(after, rest, path);
            },
        }
    }
}

proof fn lemma_id_is_kept(next: NextModel, id: Seq<char>, replies: Seq<ReplyModel>, path: Seq<char>)
    requires
        next.session is Finished || torrent_of(next.session) == Some(id),
        torrent_reported(next.work) matches Some(reported) ==> reported == id,
        follows(next.session, replies, path),
    ensures
        torrent_reported(run(next, replies, path).work) matches Some(reported) ==> reported == id,
    decreases replies.len(),
{
    if replies.len() > 0 {
        lemma_id_is_kept(following(next.session, replies[0], path), id, replies.drop_first(), path);
    }
}

/// The torrent is one that can be submitted, and so is any that is being submitted.
pub open spec fn sourced(next: NextModel) -> bool {
    &&& next.session matches SessionModel::BuildingClient { torrent, .. } ==> has_source(torrent)
    &&& next.work matches WorkModel::CreateTorrent { form, .. } ==> carries_source(form)
}

/// Nothing is submitted to TorBox that holds neither a magnet link nor a torrent file.
pub proof fn law_submissions_carry_a_source(
    torrent: TorrentModel,
    goal: GoalModel,
    replies: Seq<ReplyModel>,
    path: Seq<char>,
)
    requires
        follows(beginning(torrent, goal).session, replies, path),
    ensures
        run(beginning(torrent, goal), replies, path).work matches WorkModel::CreateTorrent {
            form,
            ..
        } ==> carries_source(form),
{
    lemma_source_is_kept(beginning(torrent, goal), replies, path);
}

proof fn lemma_source_is_kept(next: NextModel, replies: Seq<ReplyModel>, path: Seq<char>)
    requires
        sourced(next),
        follows(next.session, replies, path),
    ensures
        sourced(run(next, replies, path)),
    decreases replies.len(),
{
    if replies.len() > 0 {
        if let SessionModel::BuildingClient { torrent, .. } = next.session {
            law_form_carries_the_source(torrent);
        }
        lemma_source_is_kept(following(next.session, replies[0], path), replies.drop_first(), path);
    }
}

/// What TorBox says of a refusal is what the user is told, for a torrent and for a
/// link alike, and the request is over.
pub proof fn law_refusals_are_passed_on(
    creating: SessionModel,
    linking: SessionModel,
    envelope: EnvelopeModel<JsonValue>,
    explanation: Seq<char>,
    path: Seq<char>,
)
    requires
        creating is ReadingCreated,
        linking is ReadingLink,
        !envelope.success,
        envelope.detail == Some(explanation) || (envelope.detail is None && envelope.error == Some(
            explanation,
        )),
    ensures
        following(creating, ReplyModel::Envelope(Ok(envelope)), path) == failure(explanation),
        following(linking, ReplyModel::Envelope(Ok(envelope)), path) == failure(explanation),
{
}

/// The reply says that the work failed.
pub open spec fn failed(reply: ReplyModel) -> bool {
    match reply {
        ReplyModel::Settings(result) => result is Err,
        ReplyModel::Client(result) => result is Err,
        ReplyModel::UploadUnprepared(_) => true,
        ReplyModel::Response(result) => result is Err,
        ReplyModel::Envelope(result) => result is Err,
        ReplyModel::Text(result) => result is Err,
        ReplyModel::IsDirectory(_) => false,
        ReplyModel::Folder(result) => result is Err,
        ReplyModel::File(result) => result is Err,
        ReplyModel::Chunk(result) => result is Err,
        ReplyModel::Size(_) => false,
    }
}

/// Work that fails ends the request at once, with a message and nothing else.
pub proof fn law_failed_work_ends_the_request(
    session: SessionModel,
    reply: ReplyModel,
    path: Seq<char>,
)
    requires
        accepts(session, reply),
        failed(reply),
    ensures
        exists|message: Seq<char>| following(session, reply, path) == failure(message),
{
    let next = following(session, reply, path);
    if let WorkModel::Finish(Err(message)) = next.work {
        assert(next == failure(message));
    }
}

/// A request is over exactly when there is nothing left to do for it, and then it
/// takes no more replies.
pub proof fn law_finished_is_final(session: SessionModel, reply: ReplyModel, path: Seq<char>)
    ensures
        !accepts(SessionModel::Finished, reply),
        accepts(session, reply) ==> {
            let next = following(session, reply, path);
            next.session is Finished <==> next.work is Finish
        },
{
}

/// The session serves this kind of goal.
pub open spec fn serves(session: SessionModel, download: bool) -> bool {
    match session {
        SessionModel::LoadingSettings { goal, .. } => download == (goal is Download),
        SessionModel::BuildingClient { job, .. } => download == (job.goal is Download),
        SessionModel::CreatingTorrent { job } => download == (job.goal is Download),
        SessionModel::ReadingCreated { job, .. } => download == (job.goal is Download),
        SessionModel::ReadingCreatedPlain { job } => download == (job.goal is Download),
        SessionModel::RequestingLink { output_path, .. } => download == (output_path is Some),
        SessionModel::ReadingLink { output_path, .. } => download == (output_path is Some),
        SessionModel::Finished => true,
        _ => download,
    }
}

/// The work probes, creates or writes something on the disk, or fetches the file.
pub open spec fn works_on_file(work: WorkModel) -> bool {
    match work {
        WorkModel::ProbeDirectory { .. } => true,
        WorkModel::PrepareFolder { .. } => true,
        WorkModel::OpenDownload { .. } => true,
        WorkModel::CreateFile { .. } => true,
        WorkModel::ReadChunk => true,
        WorkModel::WriteChunk { .. } => true,
        WorkModel::FlushFile => true,
        WorkModel::DescribeSize { .. } => true,
        _ => false,
    }
}

/// The work fits the goal: only a download looks for a directory, makes folders and
/// files and fetches a body, and a success is a report of the kind that was asked for.
pub open spec fn fits(work: WorkModel, download: bool) -> bool {
    &&& works_on_file(work) ==> download
    &&& work matches WorkModel::Finish(Ok(outcome)) ==> download == (outcome is Download)
}

/// A request for a link creates, writes and probes nothing on the disk, where it only
/// has the settings loaded, and ends with a link; a request for a download ends with a
/// download. Either may fail.
pub proof fn law_outcome_fits_the_goal(
    torrent: TorrentModel,
    goal: GoalModel,
    replies: Seq<ReplyModel>,
    path: Seq<char>,
)
    requires
        follows(beginning(torrent, goal).session, replies, path),
    ensures
        fits(run(beginning(torrent, goal), replies, path).work, goal is Download),
{
    lemma_goal_is_kept(beginning(torrent, goal), goal is Download, replies, path);
}

proof fn lemma_goal_is_kept(
    next: NextModel,
    download: bool,
    replies: Seq<ReplyModel>,
    path: Seq<char>,
)
    requires
        serves(next.session, download),
        fits(next.work, download),
        follows(next.session, replies, path),
    ensures
        fits(run(next, replies, path).work, download),
    decreases replies.len(),
{
    if replies.len() > 0 {
        lemma_goal_is_kept(
            following(next.session, replies[0], path),
            download,
            replies.drop_first(),
            path,
        );
    }
}

/// Whatever a request is after, the torrent is submitted in the same way, and
/// refused for the same reasons; only the call for a token is worded differently.
pub proof fn law_goals_submit_alike(
    torrent: TorrentModel,
    settings: SettingsModel,
    one: GoalModel,
    other: GoalModel,
    client: Result<(), Seq<char>>,
    path: Seq<char>,
)
    ensures
        ({
            let first = settings_loaded(torrent, one, settings);
            let second = settings_loaded(torrent, other, settings);
            if blank(settings.bearer_token) {
                first == failure(token_missing(one)) && second == failure(token_missing(other))
            } else if !has_source(torrent) {
                first == second
            } else {
                let replies = seq![ReplyModel::Client(client)];
                &&& first.work == second.work
                &&& follows(first.session, replies, path) && follows(second.session, replies, path)
                &&& run(first, replies, path).work == run(second, replies, path).work
                &&& run(first, replies, path).notices == run(second, replies, path).notices
            }
        }),
{
    let replies = seq![ReplyModel::Client(client)];
    assert(replies.drop_first() =~= Seq::empty());
    reveal_with_fuel(run, 2);
    reveal_with_fuel(follows, 2);
}

/// Settings that were fit to be saved are fit to be used: no request lacks a token
/// under them, and no download lacks a destination.
pub proof fn law_saved_settings_suffice(
    settings: SettingsModel,
    torrent: TorrentModel,
    goal: GoalModel,
    requested: Option<Seq<char>>,
    lead: LeadModel,
    suggested: Option<Seq<char>>,
    path: Seq<char>,
)
    requires
        settings_fault(settings) is None,
    ensures
        has_source(torrent) ==> settings_loaded(torrent, goal, settings).session is BuildingClient,
        destination(requested, settings) is Some,
        !(settings_reloaded(lead, requested, suggested, settings, path).session is Finished),
{
}

/// Before any settings are saved, every request asks for a token.
pub proof fn law_first_use_asks_for_a_token(torrent: TorrentModel, goal: GoalModel)
    ensures
        settings_loaded(torrent, goal, empty_settings()) == failure(token_missing(goal)),
{
}

/// The transfer that a session is engaged in.
pub open spec fn transfer_of(session: SessionModel) -> Option<TransferModel> {
    match session {
        SessionModel::CreatingFile { transfer } => Some(transfer),
        SessionModel::ReadingChunk { transfer } => Some(transfer),
        SessionModel::WritingChunk { transfer, .. } => Some(transfer),
        SessionModel::FlushingFile { transfer } => Some(transfer),
        SessionModel::DescribingSize { transfer } => Some(transfer),
        _ => None,
    }
}

/// From step to step a transfer keeps its torrent, its file and its total, its
/// count of bytes never falls, and any progress that is shown is that count.
pub proof fn law_progress_never_falls(session: SessionModel, reply: ReplyModel, path: Seq<char>)
    requires
        accepts(session, reply),
    ensures
        ({
            let next = following(session, reply, path);
            &&& (transfer_of(session), transfer_of(next.session)) matches (
                Some(before),
                Some(after),
            ) ==> {
                &&& after.torrent_id == before.torrent_id
                &&& after.output_path == before.output_path
                &&& after.total_bytes == before.total_bytes
                &&& after.bytes_written >= before.bytes_written
            }
            &&& forall|i: int|
                0 <= i < next.notices.len() ==> (#[trigger] next.notices[i] is Progress ==> (
                transfer_of(next.session) matches Some(after) && next.notices[i] == progress(
                    after,
                )))
        }),
{
}

/// The path of the file that a session is about, once it is settled.
pub open spec fn path_of(session: SessionModel) -> Option<Seq<char>> {
    match session {
        SessionModel::PreparingFolder { output_path, .. } => Some(output_path),
        SessionModel::RequestingLink { output_path, .. } => output_path,
        SessionModel::ReadingLink { output_path, .. } => output_path,
        SessionModel::OpeningDownload { output_path, .. } => Some(output_path),
        _ => match transfer_of(session) {
            Some(transfer) => Some(transfer.output_path),
            None => None,
        },
    }
}

/// The path that a piece of work creates or reports.
pub open spec fn path_used(work: WorkModel) -> Option<Seq<char>> {
    match work {
        WorkModel::PrepareFolder { path } => Some(path),
        WorkModel::CreateFile { path } => Some(path),
        WorkModel::Finish(Ok(OutcomeModel::Download(report))) => Some(report.output_path),
        _ => None,
    }
}

/// The output that is settled in the course of these replies, if one is.
pub open spec fn output_given(
    session: SessionModel,
    replies: Seq<ReplyModel>,
    path: Seq<char>,
) -> Option<OutputModel>
    decreases replies.len(),
{
    if replies.len() == 0 {
        None
    } else {
        match output_settled(session, replies[0]) {
            Some(output) => Some(output),
            None => output_given(
                following(session, replies[0], path).session,
                replies.drop_first(),
                path,
            ),
        }
    }
}

/// The file whose folder is prepared is the file that is created and reported, and its
/// path is that of the output that the destination came to.
pub proof fn law_one_file_throughout(
    torrent: TorrentModel,
    goal: GoalModel,
    replies: Seq<ReplyModel>,
    path: Seq<char>,
)
    requires
        follows(beginning(torrent, goal).session, replies, path),
    ensures
        path_used(run(beginning(torrent, goal), replies, path).work) matches Some(used) ==> {
            &&& used == path
            &&& output_given(beginning(torrent, goal).session, replies, path) matches Some(output)
            &&& placed(output, path)
        },
{
    lemma_path_is_given(beginning(torrent, goal), replies, path);
}

proof fn lemma_path_is_given(next: NextModel, replies: Seq<ReplyModel>, path: Seq<char>)
    requires
        path_of(next.session) is None,
        path_used(next.work) is None,
        follows(next.session, replies, path),
    ensures
        path_used(run(next, replies, path).work) matches Some(used) ==> {
            &&& used == path
            &&& output_given(next.session, replies, path) matches Some(output)
            &&& placed(output, path)
        },
    decreases replies.len(),
{
    if replies.len() > 0 {
        let after = following(next.session, replies[0], path);
        if output_settled(next.session, replies[0]) is Some {
            lemma_path_is_kept(after, replies.drop_first(), path);
        } else {
            lemma_path_is_given(after, replies.drop_first(), path);
        }
    }
}

proof fn lemma_path_is_kept(next: NextModel, replies: Seq<ReplyModel>, path: Seq<char>)
    requires
        next.session is Finished || path_of(next.session) == Some(path),
        path_used(next.work) matches Some(used) ==> used == path,
        follows(next.session, replies, path),
    ensures
        path_used(run(next, replies, path).work) matches Some(used) ==> used == path,
    decreases replies.len(),
{
    if replies.len() > 0 {
        lemma_path_is_kept(
            following(next.session, replies[0], path),
            replies.drop_first(),
            path,
        );
    }
}

/// The bytes of a chunk that is read.
pub open spec fn chunk_of(reply: ReplyModel) -> Seq<u8> {
    match reply {
        ReplyModel::Chunk(Ok(Some(bytes))) => bytes,
        _ => Seq::empty(),
    }
}

/// The bytes of all chunks that are read, in order.
pub open spec fn received(replies: Seq<ReplyModel>) -> Seq<u8>
    decreases replies.len(),
{
    if replies.len() == 0 {
        Seq::empty()
    } else {
        chunk_of(replies[0]) + received(replies.drop_first())
    }
}

/// The bytes that a piece of work writes.
pub open spec fn bytes_written_by(work: WorkModel) -> Seq<u8> {
    match work {
        WorkModel::WriteChunk { bytes } => bytes,
        _ => Seq::empty(),
    }
}

/// The bytes that a session has written in the course of these replies, in order.
pub open spec fn written(
    session: SessionModel,
    replies: Seq<ReplyModel>,
    path: Seq<char>,
) -> Seq<u8>
    decreases replies.len(),
{
    if replies.len() == 0 {
        Seq::empty()
    } else {
        let next = following(session, replies[0], path);
        bytes_written_by(next.work) + written(next.session, replies.drop_first(), path)
    }
}

/// What is written to the file is what was read of the body: every byte, in order,
/// and nothing else.
pub proof fn law_body_is_written_as_it_is_read(
    session: SessionModel,
    replies: Seq<ReplyModel>,
    path: Seq<char>,
)
    requires
        follows(session, replies, path),
    ensures
        written(session, replies, path) == received(replies),
    decreases replies.len(),
{
    if replies.len() > 0 {
        law_body_is_written_as_it_is_read(
            following(session, replies[0], path).session,
            replies.drop_first(),
            path,
        );
    }
}

/// The number of bytes that a session has read.
pub open spec fn bytes_read(session: SessionModel) -> nat {
    match session {
        SessionModel::WritingChunk { transfer, chunk } => transfer.bytes_written as nat + chunk,
        _ => match transfer_of(session) {
            Some(transfer) => transfer.bytes_written as nat,
            None => 0,
        },
    }
}

/// The report of a download gives this number of bytes, if there is one.
pub open spec fn reports(work: WorkModel, count: nat) -> bool {
    work matches WorkModel::Finish(Ok(OutcomeModel::Download(report))) ==> report.bytes_written
        == count
}

/// Any progress among the notices gives this number of bytes.
pub open spec fn shows(notices: Seq<NoticeModel>, count: nat) -> bool {
    forall|i: int|
        0 <= i < notices.len() ==> (#[trigger] notices[i] matches NoticeModel::Progress {
            bytes_downloaded,
            ..
        } ==> bytes_downloaded == count)
}

/// After whatever replies, any progress that is shown is the number of all bytes
/// read so far, and so is the number that is reported in the end.
pub proof fn law_progress_is_the_running_sum(
    torrent: TorrentModel,
    goal: GoalModel,
    replies: Seq<ReplyModel>,
    path: Seq<char>,
)
    requires
        follows(beginning(torrent, goal).session, replies, path),
    ensures
        shows(run(beginning(torrent, goal), replies, path).notices, received(replies).len()),
        reports(run(beginning(torrent, goal), replies, path).work, received(replies).len()),
{
    lemma_bytes_are_counted(beginning(torrent, goal), 0, replies, path);
}

proof fn lemma_bytes_are_counted(
    next: NextModel,
    count: nat,
    replies: Seq<ReplyModel>,
    path: Seq<char>,
)
    requires
        next.session is Finished || bytes_read(next.session) == count,
        shows(next.notices, count),
        reports(next.work, count),
        follows(next.session, replies, path),
    ensures
        shows(run(next, replies, path).notices, count + received(replies).len()),
        reports(run(next, replies, path).work, count + received(replies).len()),
        run(next, replies, path).session is Finished || bytes_read(
            run(next, replies, path).session,
        ) == count + received(replies).len(),
    decreases replies.len(),
{
    if replies.len() > 0 {
        lemma_bytes_are_counted(
            following(next.session, replies[0], path),
            count + chunk_of(replies[0]).len(),
            replies.drop_first(),
            path,
        );
    }
}

/// The replies to a body that comes in these chunks.
pub open spec fn chunks(pieces: Seq<Seq<u8>>) -> Seq<ReplyModel>
    decreases pieces.len(),
{
    if pieces.len() == 0 {
        Seq::empty()
    } else {
        seq![ReplyModel::Chunk(Ok(Some(pieces[0]))), ReplyModel::File(Ok(()))] + chunks(
            pieces.drop_first(),
        )
    }
}

/// The length of a body that comes in these chunks.
pub open spec fn total(pieces: Seq<Seq<u8>>) -> nat
    decreases pieces.len(),
{
    if pieces.len() == 0 {
        0
    } else {
        pieces[0].len() + total(pieces.drop_first())
    }
}

/// Two series of replies, one after the other.
proof fn lemma_run_continues(
    next: NextModel,
    first: Seq<ReplyModel>,
    second: Seq<ReplyModel>,
    path: Seq<char>,
)
    ensures
        run(next, first + second, path) == run(run(next, first, path), second, path),
        follows(next.session, first, path) && follows(
            run(next, first, path).session,
            second,
            path,
        ) ==> follows(next.session, first + second, path),
    decreases first.len(),
{
    if first.len() == 0 {
        assert(first + second =~= second);
    } else {
        assert((first + second).drop_first() =~= first.drop_first() + second);
        lemma_run_continues(
            following(next.session, first[0], path),
            first.drop_first(),
            second,
            path,
        );
    }
}

/// However a body is cut, it is taken to its end and every byte of it counts once.
pub proof fn law_transfer_counts_every_byte(next: NextModel, pieces: Seq<Seq<u8>>, path: Seq<char>)
    requires
        next.session matches SessionModel::ReadingChunk { transfer } && transfer.bytes_written
            + total(pieces) <= u64::MAX,
    ensures
        follows(next.session, chunks(pieces), path),
        run(next, chunks(pieces), path).session == (SessionModel::ReadingChunk {
            transfer: advanced(transfer_of(next.session)->Some_0, total(pieces)),
        }),
    decreases pieces.len(),
{
    if pieces.len() > 0 {
        let rest = pieces.drop_first();
        let pair = seq![ReplyModel::Chunk(Ok(Some(pieces[0]))), ReplyModel::File(Ok(()))];
        reveal_with_fuel(run, 3);
        reveal_with_fuel(follows, 3);
        assert(pair.drop_first() =~= seq![ReplyModel::File(Ok(()))]);
        assert(pair.drop_first().drop_first() =~= Seq::empty());
        law_transfer_counts_every_byte(run(next, pair, path), rest, path);
        lemma_run_continues(next, pair, chunks(rest), path);
        assert(total(pieces) == pieces[0].len() + total(rest));
    }
}

/// The replies to a download that goes well, from the opening of the link on.
pub open spec fn good_transfer(head: HeadModel, pieces: Seq<Seq<u8>>, size: Seq<char>) -> Seq<
    ReplyModel,
> {
    seq![ReplyModel::Response(Ok(head)), ReplyModel::File(Ok(()))] + chunks(pieces) + seq![
        ReplyModel::Chunk(Ok(None)),
        ReplyModel::File(Ok(())),
        ReplyModel::Size(size),
    ]
}

/// A download that goes well reports the length of the body that was fetched,
/// however it was cut, and the file that it is in.
pub proof fn law_download_reports_what_was_saved(
    next: NextModel,
    head: HeadModel,
    pieces: Seq<Seq<u8>>,
    size: Seq<char>,
    path: Seq<char>,
)
    requires
        next.session is OpeningDownload,
        successful(head.status),
        total(pieces) <= u64::MAX,
    ensures
        next.session matches SessionModel::OpeningDownload { torrent_id, output_path } ==> {
            &&& follows(next.session, good_transfer(head, pieces, size), path)
            &&& run(next, good_transfer(head, pieces, size), path).work == WorkModel::Finish(
                Ok(
                    OutcomeModel::Download(
                        download_report(torrent_id, output_path, total(pieces) as u64, size),
                    ),
                ),
            )
        },
{
    let opening = seq![ReplyModel::Response(Ok(head)), ReplyModel::File(Ok(()))];
    let closing = seq![
        ReplyModel::Chunk(Ok(None)),
        ReplyModel::File(Ok(())),
        ReplyModel::Size(size),
    ];
    reveal_with_fuel(run, 4);
    reveal_with_fuel(follows, 4);
    assert(opening.drop_first() =~= seq![ReplyModel::File(Ok(()))]);
    assert(opening.drop_first().drop_first() =~= Seq::empty());
    assert(closing.drop_first() =~= seq![ReplyModel::File(Ok(())), ReplyModel::Size(size)]);
    assert(closing.drop_first().drop_first() =~= seq![ReplyModel::Size(size)]);
    assert(closing.drop_first().drop_first().drop_first() =~= Seq::empty());
    let opened = run(next, opening, path);
    law_transfer_counts_every_byte(opened, pieces, path);
    lemma_run_continues(next, opening, chunks(pieces), path);
    lemma_run_continues(next, opening + chunks(pieces), closing, path);
}

/// The ways in which TorBox answers a submission: in JSON, or with a plain body.
pub enum CreationAnswer {
    Json { head: HeadModel, envelope: EnvelopeModel<JsonValue> },
    Plain { head: HeadModel, body: Seq<char> },
}

/// The id in the answer to a submission, where it is a good one.
pub open spec fn id_in(answer: CreationAnswer) -> Option<Seq<char>> {
    match answer {
        CreationAnswer::Json { head, envelope } => match created_id(envelope, head.status) {
            Ok(id) if announces_json(head) => Some(id),
            _ => None,
        },
        CreationAnswer::Plain { head, body } => if !announces_json(head) && successful(head.status)
            && !blank(body) {
            Some(trimmed(body))
        } else {
            None
        },
    }
}

/// The ways in which TorBox answers a link request: in JSON, or by leading there.
pub enum LinkAnswer {
    Json { head: HeadModel, envelope: EnvelopeModel<JsonValue> },
    Led { head: HeadModel },
}

/// The link in the answer to a link request, where it is a good one.
pub open spec fn link_in(answer: LinkAnswer) -> Option<Seq<char>> {
    match answer {
        LinkAnswer::Json { head, envelope } => match provided_link(envelope) {
            Ok(link) if announces_json(head) => Some(link),
            _ => None,
        },
        LinkAnswer::Led { head } => if announces_json(head) {
            None
        } else {
            Some(head.url)
        },
    }
}

/// The replies that an answer to a submission consists of.
pub open spec fn answer_replies(answer: CreationAnswer) -> Seq<ReplyModel> {
    match answer {
        CreationAnswer::Json { head, envelope } => seq![
            ReplyModel::Response(Ok(head)),
            ReplyModel::Envelope(Ok(envelope)),
        ],
        CreationAnswer::Plain { head, body } => seq![
            ReplyModel::Response(Ok(head)),
            ReplyModel::Text(Ok(body)),
        ],
    }
}

/// The replies to a submission up to its answer.
pub open spec fn creation_replies(settings: SettingsModel, answer: CreationAnswer) -> Seq<
    ReplyModel,
> {
    seq![ReplyModel::Settings(Ok(settings)), ReplyModel::Client(Ok(()))] + answer_replies(answer)
}

/// The replies to a link request.
pub open spec fn link_replies(answer: LinkAnswer) -> Seq<ReplyModel> {
    match answer {
        LinkAnswer::Json { head, envelope } => seq![
            ReplyModel::Response(Ok(head)),
            ReplyModel::Envelope(Ok(envelope)),
        ],
        LinkAnswer::Led { head } => seq![ReplyModel::Response(Ok(head))],
    }
}

proof fn lemma_two_replies(next: NextModel, first: ReplyModel, second: ReplyModel, path: Seq<char>)
    ensures
        run(next, seq![first, second], path) == following(
            following(next.session, first, path).session,
            second,
            path,
        ),
        follows(next.session, seq![first, second], path) <==> possible(
            next.session,
            first,
            path,
        ) && possible(following(next.session, first, path).session, second, path),
{
    reveal_with_fuel(run, 3);
    reveal_with_fuel(follows, 3);
    assert(seq![first, second].drop_first() =~= seq![second]);
    assert(seq![second].drop_first() =~= Seq::empty());
}

proof fn lemma_one_reply(next: NextModel, reply: ReplyModel, path: Seq<char>)
    ensures
        run(next, seq![reply], path) == following(next.session, reply, path),
        follows(next.session, seq![reply], path) <==> possible(next.session, reply, path),
{
    reveal_with_fuel(run, 2);
    reveal_with_fuel(follows, 2);
    assert(seq![reply].drop_first() =~= Seq::empty());
}

proof fn lemma_good_creation(
    torrent: TorrentModel,
    goal: GoalModel,
    settings: SettingsModel,
    answer: CreationAnswer,
    path: Seq<char>,
)
    requires
        !blank(settings.bearer_token),
        has_source(torrent),
        id_in(answer) is Some,
    ensures
        ({
            let begun = beginning(torrent, goal);
            let replies = creation_replies(settings, answer);
            let job = JobModel {
                token: settings.bearer_token,
                allow_zip: zip_allowed(torrent),
                goal,
            };
            &&& follows(begun.session, replies, path)
            &&& run(begun, replies, path) == torrent_created(job, Ok(id_in(answer)->Some_0))
        }),
{
    let begun = beginning(torrent, goal);
    let job = JobModel { token: settings.bearer_token, allow_zip: zip_allowed(torrent), goal };
    let first = seq![ReplyModel::Settings(Ok(settings)), ReplyModel::Client(Ok(()))];
    lemma_two_replies(begun, ReplyModel::Settings(Ok(settings)), ReplyModel::Client(Ok(())), path);
    let submitted = run(begun, first, path);
    assert(submitted.session == (SessionModel::CreatingTorrent { job }));
    lemma_good_answer(submitted, job, answer, path);
    lemma_run_continues(begun, first, answer_replies(answer), path);
}

proof fn lemma_good_answer(next: NextModel, job: JobModel, answer: CreationAnswer, path: Seq<char>)
    requires
        next.session == (SessionModel::CreatingTorrent { job }),
        id_in(answer) is Some,
    ensures
        follows(next.session, answer_replies(answer), path),
        run(next, answer_replies(answer), path) == torrent_created(job, Ok(id_in(answer)->Some_0)),
{
    match answer {
        CreationAnswer::Json { head, envelope } => lemma_two_replies(
            next,
            ReplyModel::Response(Ok(head)),
            ReplyModel::Envelope(Ok(envelope)),
            path,
        ),
        CreationAnswer::Plain { head, body } => lemma_two_replies(
            next,
            ReplyModel::Response(Ok(head)),
            ReplyModel::Text(Ok(body)),
            path,
        ),
    }
}

proof fn lemma_good_link(next: NextModel, answer: LinkAnswer, path: Seq<char>)
    requires
        next.session is RequestingLink,
        link_in(answer) is Some,
    ensures
        follows(next.session, link_replies(answer), path),
        next.session matches SessionModel::RequestingLink { torrent_id, output_path } ==> {
            let after = run(next, link_replies(answer), path);
            let link = link_in(answer)->Some_0;
            match output_path {
                None => after.work == WorkModel::Finish(
                    Ok(OutcomeModel::Link(link_report(torrent_id, link))),
                ),
                Some(output_path) => after.session == (SessionModel::OpeningDownload {
                    torrent_id,
                    output_path,
                }) && after.work == (WorkModel::OpenDownload { url: link }),
            }
        },
{
    match answer {
        LinkAnswer::Json { head, envelope } => lemma_two_replies(
            next,
            ReplyModel::Response(Ok(head)),
            ReplyModel::Envelope(Ok(envelope)),
            path,
        ),
        LinkAnswer::Led { head } => lemma_one_reply(next, ReplyModel::Response(Ok(head)), path),
    }
}

/// Where there is a token and a torrent, and TorBox answers with an id and then
/// with a link, in whatever form, a request for a link ends with exactly that id
/// and that link.
pub proof fn law_link_request_succeeds(
    torrent: TorrentModel,
    settings: SettingsModel,
    creation: CreationAnswer,
    link: LinkAnswer,
    path: Seq<char>,
)
    requires
        !blank(settings.bearer_token),
        has_source(torrent),
        id_in(creation) is Some,
        link_in(link) is Some,
    ensures
        ({
            let begun = beginning(torrent, GoalModel::Link);
            let replies = creation_replies(settings, creation) + link_replies(link);
            &&& follows(begun.session, replies, path)
            &&& run(begun, replies, path).work == WorkModel::Finish(
                Ok(
                    OutcomeModel::Link(
                        link_report(id_in(creation)->Some_0, link_in(link)->Some_0),
                    ),
                ),
            )
        }),
{
    let begun = beginning(torrent, GoalModel::Link);
    let first = creation_replies(settings, creation);
    lemma_good_creation(torrent, GoalModel::Link, settings, creation, path);
    lemma_good_link(run(begun, first, path), link, path);
    lemma_run_continues(begun, first, link_replies(link), path);
}

/// A plain body gives its trimmed content as the id, and an answer that is not
/// JSON the address that it came from as the link.
pub proof fn law_plain_answers_suffice(
    torrent: TorrentModel,
    settings: SettingsModel,
    creation_head: HeadModel,
    body: Seq<char>,
    link_head: HeadModel,
    path: Seq<char>,
)
    requires
        !blank(settings.bearer_token),
        has_source(torrent),
        !announces_json(creation_head),
        successful(creation_head.status),
        !blank(body),
        !announces_json(link_head),
    ensures
        ({
            let begun = beginning(torrent, GoalModel::Link);
            let replies = seq![
                ReplyModel::Settings(Ok(settings)),
                ReplyModel::Client(Ok(())),
                ReplyModel::Response(Ok(creation_head)),
                ReplyModel::Text(Ok(body)),
                ReplyModel::Response(Ok(link_head)),
            ];
            &&& follows(begun.session, replies, path)
            &&& run(begun, replies, path).work == WorkModel::Finish(
                Ok(OutcomeModel::Link(link_report(trimmed(body), link_head.url))),
            )
        }),
{
    let creation = CreationAnswer::Plain { head: creation_head, body };
    let link = LinkAnswer::Led { head: link_head };
    law_link_request_succeeds(torrent, settings, creation, link, path);
    assert(creation_replies(settings, creation) + link_replies(link) =~= seq![
        ReplyModel::Settings(Ok(settings)),
        ReplyModel::Client(Ok(())),
        ReplyModel::Response(Ok(creation_head)),
        ReplyModel::Text(Ok(body)),
        ReplyModel::Response(Ok(link_head)),
    ]);
}

/// The place that a request and the settings come to.
pub open spec fn place(
    torrent: TorrentModel,
    requested: Option<Seq<char>>,
    settings: SettingsModel,
    is_directory: bool,
) -> OutputModel {
    output_for(destination(requested, settings)->Some_0, torrent.suggested_name, is_directory)
}

/// The replies to the choice of a destination that goes well.
pub open spec fn place_replies(
    requested: Option<Seq<char>>,
    settings: SettingsModel,
    is_directory: bool,
) -> Seq<ReplyModel> {
    let probe = if names_directory(trimmed(destination(requested, settings)->Some_0)) {
        Seq::empty()
    } else {
        seq![ReplyModel::IsDirectory(is_directory)]
    };
    seq![ReplyModel::Settings(Ok(settings))] + probe + seq![ReplyModel::Folder(Ok(()))]
}

proof fn lemma_good_place(
    next: NextModel,
    torrent: TorrentModel,
    requested: Option<Seq<char>>,
    settings: SettingsModel,
    is_directory: bool,
    path: Seq<char>,
)
    requires
        next.session matches SessionModel::ReloadingSettings {
            destination_path,
            suggested_file_name,
            ..
        } && destination_path == requested && suggested_file_name == torrent.suggested_name,
        destination(requested, settings) is Some,
        placed(place(torrent, requested, settings, is_directory), path),
    ensures
        next.session matches SessionModel::ReloadingSettings { lead, .. } ==> {
            let replies = place_replies(requested, settings, is_directory);
            &&& follows(next.session, replies, path)
            &&& run(next, replies, path) == folder_prepared(lead, path)
        },
{
    if let SessionModel::ReloadingSettings { lead, .. } = next.session {
        let first = seq![ReplyModel::Settings(Ok(settings))];
        let probe = if names_directory(trimmed(destination(requested, settings)->Some_0)) {
            Seq::empty()
        } else {
            seq![ReplyModel::IsDirectory(is_directory)]
        };
        let last = seq![ReplyModel::Folder(Ok(()))];
        lemma_one_reply(next, first[0], path);
        let second = run(next, first, path);
        if probe.len() > 0 {
            lemma_one_reply(second, probe[0], path);
        }
        lemma_run_continues(next, first, probe, path);
        let third = run(next, first + probe, path);
        assert(third.session == (SessionModel::PreparingFolder { lead, output_path: path }));
        lemma_one_reply(third, last[0], path);
        lemma_run_continues(next, first + probe, last, path);
    }
}

/// Where there is a token, a torrent and a destination, and TorBox answers with an
/// id, with a link and then with a body, in whatever form, a request for a download
/// ends with a report of that id, of the file and of every byte of the body. The
/// path of the file is one that the resolved destination may have.
pub proof fn law_download_succeeds(
    torrent: TorrentModel,
    requested: Option<Seq<char>>,
    settings: SettingsModel,
    creation: CreationAnswer,
    settings_again: SettingsModel,
    is_directory: bool,
    path: Seq<char>,
    link: LinkAnswer,
    body_head: HeadModel,
    pieces: Seq<Seq<u8>>,
    size: Seq<char>,
)
    requires
        !blank(settings.bearer_token),
        has_source(torrent),
        id_in(creation) is Some,
        destination(requested, settings_again) is Some,
        placed(place(torrent, requested, settings_again, is_directory), path),
        link_in(link) is Some,
        successful(body_head.status),
        total(pieces) <= u64::MAX,
    ensures
        ({
            let begun = beginning(torrent, download_goal(torrent, requested));
            let replies = creation_replies(settings, creation) + place_replies(
                requested,
                settings_again,
                is_directory,
            ) + link_replies(link) + good_transfer(body_head, pieces, size);
            &&& follows(begun.session, replies, path)
            &&& run(begun, replies, path).work == WorkModel::Finish(
                Ok(
                    OutcomeModel::Download(
                        download_report(
                            id_in(creation)->Some_0,
                            path,
                            total(pieces) as u64,
                            size,
                        ),
                    ),
                ),
            )
        }),
{
    let goal = download_goal(torrent, requested);
    let begun = beginning(torrent, goal);
    let first = creation_replies(settings, creation);
    let second = place_replies(requested, settings_again, is_directory);
    let third = link_replies(link);
    let fourth = good_transfer(body_head, pieces, size);
    lemma_good_creation(torrent, goal, settings, creation, path);
    lemma_good_place(
        run(begun, first, path),
        torrent,
        requested,
        settings_again,
        is_directory,
        path,
    );
    lemma_run_continues(begun, first, second, path);
    lemma_good_link(run(begun, first + second, path), link, path);
    lemma_run_continues(begun, first + second, third, path);
    law_download_reports_what_was_saved(
        run(begun, first + second + third, path),
        body_head,
        pieces,
        size,
        path,
    );
    lemma_run_continues(begun, first + second + third, fourth, path);
}

/// The work is about this torrent: it submits this and nothing else, and asks for an
/// archive exactly where the request does not forbid one.
pub open spec fn about(work: WorkModel, torrent: TorrentModel) -> bool {
    match work {
        WorkModel::CreateTorrent { url, form, .. } => {
            &&& url == "https://api.torbox.app/v1/api/torrents/createtorrent"@
            &&& form == creation_form(torrent)
        },
        WorkModel::RequestLink { url, query, .. } => {
            &&& url == "https://api.torbox.app/v1/api/torrents/requestdl"@
            &&& asks_once(
                query,
                "zip_link"@,
                if torrent.allow_zip == Some(false) {
                    "false"@
                } else {
                    "true"@
                },
            )
        },
        _ => true,
    }
}

/// The session is about this torrent.
spec fn concerns(session: SessionModel, torrent: TorrentModel) -> bool {
    let allow_zip = torrent.allow_zip != Some(false);
    match session {
        SessionModel::LoadingSettings { torrent: held, .. } => held == torrent,
        SessionModel::BuildingClient { torrent: held, job } => held == torrent && job.allow_zip
            == allow_zip,
        SessionModel::CreatingTorrent { job } => job.allow_zip == allow_zip,
        SessionModel::ReadingCreated { job, .. } => job.allow_zip == allow_zip,
        SessionModel::ReadingCreatedPlain { job } => job.allow_zip == allow_zip,
        SessionModel::ReloadingSettings { lead, .. } => lead.allow_zip == allow_zip,
        SessionModel::ProbingDestination { lead, .. } => lead.allow_zip == allow_zip,
        SessionModel::PreparingFolder { lead, .. } => lead.allow_zip == allow_zip,
        _ => true,
    }
}

/// Every call that a request makes is about the torrent that it was made for.
pub proof fn law_calls_are_about_the_torrent(
    torrent: TorrentModel,
    goal: GoalModel,
    replies: Seq<ReplyModel>,
    path: Seq<char>,
)
    requires
        follows(beginning(torrent, goal).session, replies, path),
    ensures
        about(run(beginning(torrent, goal), replies, path).work, torrent),
{
    lemma_torrent_is_kept(beginning(torrent, goal), torrent, replies, path);
}

proof fn lemma_link_work_asks_for_the_lead()
    ensures
        forall|lead: LeadModel|
            asks_for_link(
                #[trigger] link_work(lead),
                lead.token,
                lead.torrent_id,
                lead.allow_zip,
            ),
{
    law_calls_go_to_torbox();
    assert forall|lead: LeadModel|
        asks_for_link(
            #[trigger] link_work(lead),
            lead.token,
            lead.torrent_id,
            lead.allow_zip,
        ) by {
        law_query_asks_for_the_torrent(lead.token, lead.torrent_id, lead.allow_zip);
    }
}

proof fn lemma_torrent_is_kept(
    next: NextModel,
    torrent: TorrentModel,
    replies: Seq<ReplyModel>,
    path: Seq<char>,
)
    requires
        concerns(next.session, torrent),
        about(next.work, torrent),
        follows(next.session, replies, path),
    ensures
        about(run(next, replies, path).work, torrent),
    decreases replies.len(),
{
    if replies.len() > 0 {
        law_calls_go_to_torbox();
        law_only_a_no_forbids_archives(torrent);
        lemma_link_work_asks_for_the_lead();
        lemma_torrent_is_kept(
            following(next.session, replies[0], path),
            torrent,
            replies.drop_first(),
            path,
        );
    }
}

/// Where the work asks for a link, it asks for the torrent with this id.
pub open spec fn asks_for(work: WorkModel, id: Seq<char>) -> bool {
    work matches WorkModel::RequestLink { query, .. } ==> asks_once(query, "torrent_id"@, id)
}

/// A link is only ever asked for of the torrent whose id TorBox gave, and that is the
/// torrent which the request reports in the end.
pub proof fn law_link_is_asked_of_the_reported_torrent(
    torrent: TorrentModel,
    goal: GoalModel,
    replies: Seq<ReplyModel>,
    rest: Seq<ReplyModel>,
    path: Seq<char>,
)
    requires
        follows(beginning(torrent, goal).session, replies, path),
        follows(beginning(torrent, goal).session, replies + rest, path),
        run(beginning(torrent, goal), replies, path).work is RequestLink,
    ensures
        id_given(beginning(torrent, goal).session, replies, path) matches Some(id) && asks_for(
            run(beginning(torrent, goal), replies, path).work,
            id,
        ) && (torrent_reported(
            run(beginning(torrent, goal), replies + rest, path).work,
        ) matches Some(reported) ==> reported == id),
{
    let begun = beginning(torrent, goal);
    lemma_given_id_is_asked_for(begun, replies, path);
    lemma_given_id_stays(begun.session, replies, rest, path);
    law_reported_id_is_the_one_given(torrent, goal, replies + rest, path);
}

proof fn lemma_given_id_stays(
    session: SessionModel,
    replies: Seq<ReplyModel>,
    rest: Seq<ReplyModel>,
    path: Seq<char>,
)
    requires
        id_given(session, replies, path) is Some,
    ensures
        id_given(session, replies + rest, path) == id_given(session, replies, path),
    decreases replies.len(),
{
    let after = following(session, replies[0], path).session;
    assert((replies + rest).drop_first() =~= replies.drop_first() + rest);
    if id_given(after, replies.drop_first(), path) is Some {
        lemma_given_id_stays(after, replies.drop_first(), rest, path);
    }
}

proof fn lemma_given_id_is_asked_for(next: NextModel, replies: Seq<ReplyModel>, path: Seq<char>)
    requires
        torrent_of(next.session) is None,
        !(next.work is RequestLink),
        follows(next.session, replies, path),
    ensures
        run(next, replies, path).work is RequestLink ==> (id_given(
            next.session,
            replies,
            path,
        ) matches Some(id) && asks_for(run(next, replies, path).work, id)),
    decreases replies.len(),
{
    if replies.len() > 0 {
        let after = following(next.session, replies[0], path);
        let rest = replies.drop_first();
        lemma_finished_takes_no_reply(rest, path);
        lemma_link_work_asks_for_the_lead();
        reveal_with_fuel(run, 2);
        match (next.session, replies[0]) {
            (SessionModel::ReadingCreated { status, .. }, ReplyModel::Envelope(Ok(envelope))) => {
                if let Ok(id) = created_id(envelope, status) {
                    lemma_asked_id_is_kept(after, id, rest, path);
                }
            },
            (SessionModel::ReadingCreatedPlain { .. }, ReplyModel::Text(Ok(body))) => {
                if let Ok(id) = created_id_plain(body) {
                    lemma_asked_id_is_kept(after, id, rest, path);
                }
            },
            _ => {
                lemma_given_id_is_asked_for(after, rest, path);
            },
        }
    }
}

proof fn lemma_asked_id_is_kept(
    next: NextModel,
    id: Seq<char>,
    replies: Seq<ReplyModel>,
    path: Seq<char>,
)
    requires
        next.session is Finished || torrent_of(next.session) == Some(id),
        asks_for(next.work, id),
        follows(next.session, replies, path),
    ensures
        asks_for(run(next, replies, path).work, id),
    decreases replies.len(),
{
    if replies.len() > 0 {
        lemma_link_work_asks_for_the_lead();
        lemma_asked_id_is_kept(
            following(next.session, replies[0], path),
            id,
            replies.drop_first(),
            path,
        );
    }
}

/// The reply is one to this work.
pub open spec fn answers(work: WorkModel, reply: ReplyModel) -> bool {
    match work {
        WorkModel::LoadSettings => reply is Settings,
        WorkModel::BuildClient { .. } => reply is Client,
        WorkModel::CreateTorrent { .. } => reply is UploadUnprepared || reply is Response,
        WorkModel::ReadEnvelope => reply is Envelope,
        WorkModel::ReadText => reply is Text,
        WorkModel::ProbeDirectory { .. } => reply is IsDirectory,
        WorkModel::PrepareFolder { .. } => reply is Folder,
        WorkModel::RequestLink { .. } => reply is Response,
        WorkModel::OpenDownload { .. } => reply is Response,
        WorkModel::CreateFile { .. } => reply is File,
        WorkModel::ReadChunk => reply is Chunk,
        WorkModel::WriteChunk { .. } => reply is File,
        WorkModel::FlushFile => reply is File,
        WorkModel::DescribeSize { .. } => reply is Size,
        WorkModel::Finish(_) => false,
    }
}

/// The session waits for this work.
spec fn awaits(session: SessionModel, work: WorkModel) -> bool {
    match session {
        SessionModel::LoadingSettings { .. } => work is LoadSettings,
        SessionModel::BuildingClient { .. } => work is BuildClient,
        SessionModel::CreatingTorrent { .. } => work is CreateTorrent,
        SessionModel::ReadingCreated { .. } => work is ReadEnvelope,
        SessionModel::ReadingCreatedPlain { .. } => work is ReadText,
        SessionModel::ReloadingSettings { .. } => work is LoadSettings,
        SessionModel::ProbingDestination { .. } => work is ProbeDirectory,
        SessionModel::PreparingFolder { .. } => work is PrepareFolder,
        SessionModel::RequestingLink { .. } => work is RequestLink,
        SessionModel::ReadingLink { .. } => work is ReadEnvelope,
        SessionModel::OpeningDownload { .. } => work is OpenDownload,
        SessionModel::CreatingFile { .. } => work is CreateFile,
        SessionModel::ReadingChunk { .. } => work is ReadChunk,
        SessionModel::WritingChunk { .. } => work is WriteChunk,
        SessionModel::FlushingFile { .. } => work is FlushFile,
        SessionModel::DescribingSize { .. } => work is DescribeSize,
        SessionModel::Finished => work is Finish,
    }
}

/// Whatever a request asks for, it takes every reply to that and no other. Only a body
/// too long to be counted is not taken to its end.
pub proof fn law_every_answer_is_accepted(
    torrent: TorrentModel,
    goal: GoalModel,
    replies: Seq<ReplyModel>,
    reply: ReplyModel,
    path: Seq<char>,
)
    requires
        follows(beginning(torrent, goal).session, replies, path),
    ensures
        ({
            let next = run(beginning(torrent, goal), replies, path);
            let too_long = next.work is WriteChunk && (reply matches ReplyModel::File(written)
                && written is Ok) && received(replies).len() > u64::MAX;
            accepts(next.session, reply) <==> answers(next.work, reply) && !too_long
        }),
{
    lemma_work_is_awaited(beginning(torrent, goal), replies, path);
    lemma_bytes_are_counted(beginning(torrent, goal), 0, replies, path);
}

proof fn lemma_work_is_awaited(next: NextModel, replies: Seq<ReplyModel>, path: Seq<char>)
    requires
        awaits(next.session, next.work),
        follows(next.session, replies, path),
    ensures
        awaits(run(next, replies, path).session, run(next, replies, path).work),
    decreases replies.len(),
{
    if replies.len() > 0 {
        lemma_work_is_awaited(
            following(next.session, replies[0], path),
            replies.drop_first(),
            path,
        );
    }
}

/// The output of a download is that of the chosen destination and the suggested name:
/// at once where the destination ends in a slash or a backslash, and else once the disk
/// has said whether there is a directory. Nothing else settles an output.
pub proof fn law_output_comes_from_destination_and_name(
    lead: LeadModel,
    requested: Option<Seq<char>>,
    suggested: Option<Seq<char>>,
    settings: SettingsModel,
    chosen: Seq<char>,
    is_directory: bool,
    path: Seq<char>,
)
    ensures
        ({
            let session = SessionModel::ReloadingSettings {
                lead,
                destination_path: requested,
                suggested_file_name: suggested,
            };
            let reply = ReplyModel::Settings(Ok(settings));
            destination(requested, settings) == Some(chosen) && trimmed(chosen).len() > 0 && (
            trimmed(chosen).last() == '/' || trimmed(chosen).last() == '\\') ==> {
                &&& output_settled(session, reply) == Some(output_for(chosen, suggested, false))
                &&& resolves(session, reply, path) <==> placed(
                    output_for(chosen, suggested, false),
                    path,
                )
            }
        }),
        ({
            let session = SessionModel::ProbingDestination {
                lead,
                destination: chosen,
                suggested_file_name: suggested,
            };
            let reply = ReplyModel::IsDirectory(is_directory);
            &&& output_settled(session, reply) == Some(
                output_for(chosen, suggested, is_directory),
            )
            &&& resolves(session, reply, path) <==> placed(
                output_for(chosen, suggested, is_directory),
                path,
            )
        }),
{
}

} // verus!
