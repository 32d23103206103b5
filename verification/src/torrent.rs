//! The calls of the TorBox API: what is sent, and what is made of the answers.

use crate::envelope::{refusal, torbox_error_message, EnvelopeModel, TorboxEnvelope};
use crate::json::{
    extract_download_link, extract_torrent_id, id_wanted, law_found_text_is_not_blank, link_wanted,
    search, JsonValue,
};
use crate::status::{status_text, HttpStatus};
use crate::text::{
    blank, contains_text, filled, filled_trimmed, is_blank, join, keep_filled, keep_trimmed,
    law_blank_text_shows_nothing, law_occurring_text_is_surrounded,
    law_text_occurs_where_it_is_surrounded, law_trim_empties_blank_text, law_trim_is_idempotent,
    law_visible_text_is_kept, occurs_in, text_of, trimmed, truth_text, truth_word, visible,
};
use vstd::prelude::*;

verus! {

/// The address of the TorBox API.
pub const TORBOX_BASE_URL: &'static str = "https://api.torbox.app";

/// The name under which the client introduces itself to the API.
pub const USER_AGENT: &'static str = "TorboxClient/0.1.0";

/// A torrent that is to be downloaded to disk.
#[derive(Debug, Clone)]
pub struct StartDownloadRequest {
    pub magnet_link: Option<String>,
    pub torrent_file_name: Option<String>,
    pub torrent_file_bytes: Option<Vec<u8>>,
    pub destination_path: Option<String>,
    pub suggested_file_name: Option<String>,
    pub allow_zip: Option<bool>,
    pub as_queued: Option<bool>,
}

/// A torrent that a download link is wanted for.
#[derive(Debug, Clone)]
pub struct StartLinkRequest {
    pub magnet_link: Option<String>,
    pub torrent_file_name: Option<String>,
    pub torrent_file_bytes: Option<Vec<u8>>,
    pub suggested_file_name: Option<String>,
    pub allow_zip: Option<bool>,
    pub as_queued: Option<bool>,
}

/// What a request says of its torrent.
pub struct TorrentModel {
    pub magnet_link: Option<Seq<char>>,
    pub file_name: Option<Seq<char>>,
    pub file_bytes: Option<Seq<u8>>,
    pub suggested_name: Option<Seq<char>>,
    pub allow_zip: Option<bool>,
    pub as_queued: Option<bool>,
}

/// The view of optional bytes.
pub open spec fn bytes_of(bytes: Option<Vec<u8>>) -> Option<Seq<u8>> {
    match bytes {
        Some(content) => Some(content@),
        None => None,
    }
}

impl View for StartLinkRequest {
    type V = TorrentModel;

    open spec fn view(&self) -> TorrentModel {
        TorrentModel {
            magnet_link: text_of(self.magnet_link),
            file_name: text_of(self.torrent_file_name),
            file_bytes: bytes_of(self.torrent_file_bytes),
            suggested_name: text_of(self.suggested_file_name),
            allow_zip: self.allow_zip,
            as_queued: self.as_queued,
        }
    }
}

impl View for StartDownloadRequest {
    type V = (TorrentModel, Option<Seq<char>>);

    /// The torrent and its destination.
    open spec fn view(&self) -> (TorrentModel, Option<Seq<char>>) {
        (
            TorrentModel {
                magnet_link: text_of(self.magnet_link),
                file_name: text_of(self.torrent_file_name),
                file_bytes: bytes_of(self.torrent_file_bytes),
                suggested_name: text_of(self.suggested_file_name),
                allow_zip: self.allow_zip,
                as_queued: self.as_queued,
            },
            text_of(self.destination_path),
        )
    }
}

impl StartDownloadRequest {
    /// Parts the destination from the rest of the request.
    pub fn split(self) -> (parts: (StartLinkRequest, Option<String>))
        ensures
            parts.0@ == self@.0,
            text_of(parts.1) == self@.1,
    {
        (
            StartLinkRequest {
                magnet_link: self.magnet_link,
                torrent_file_name: self.torrent_file_name,
                torrent_file_bytes: self.torrent_file_bytes,
                suggested_file_name: self.suggested_file_name,
                allow_zip: self.allow_zip,
                as_queued: self.as_queued,
            },
            self.destination_path,
        )
    }
}

/// There is a torrent to submit: a magnet link that is not blank, or a file.
pub open spec fn has_source(torrent: TorrentModel) -> bool {
    filled_trimmed(torrent.magnet_link) is Some || torrent.file_bytes is Some
}

/// An archive is allowed unless the request forbids it.
pub open spec fn zip_allowed(torrent: TorrentModel) -> bool {
    torrent.allow_zip.unwrap_or(true)
}

impl StartLinkRequest {
    /// Tells whether there is a torrent to submit.
    pub fn has_source(&self) -> (source: bool)
        ensures
            source == has_source(self@),
    {
        keep_trimmed(&self.magnet_link).is_some() || self.torrent_file_bytes.is_some()
    }

    /// Tells whether the download may come as an archive.
    pub fn zip_allowed(&self) -> (allowed: bool)
        ensures
            allowed == zip_allowed(self@),
    {
        self.allow_zip.unwrap_or(true)
    }
}

/// A part of a multipart form.
#[derive(Debug)]
pub enum FormPart {
    Text { name: &'static str, value: String },
    File { name: &'static str, file_name: String, mime: &'static str, bytes: Vec<u8> },
}

/// The content of a [`FormPart`].
pub enum PartModel {
    Text { name: Seq<char>, value: Seq<char> },
    File { name: Seq<char>, file_name: Seq<char>, mime: Seq<char>, bytes: Seq<u8> },
}

impl View for FormPart {
    type V = PartModel;

    open spec fn view(&self) -> PartModel {
        match *self {
            FormPart::Text { name, value } => PartModel::Text { name: name@, value: value@ },
            FormPart::File { name, file_name, mime, bytes } => PartModel::File {
                name: name@,
                file_name: file_name@,
                mime: mime@,
                bytes: bytes@,
            },
        }
    }
}

/// The contents of the parts of a form.
pub open spec fn parts_of(form: Seq<FormPart>) -> Seq<PartModel> {
    Seq::new(form.len(), |i: int| form[i]@)
}

/// A text part.
pub open spec fn text_part(name: Seq<char>, value: Seq<char>) -> PartModel {
    PartModel::Text { name, value }
}

/// A text part, where there is a value.
pub open spec fn optional_part(name: Seq<char>, value: Option<Seq<char>>) -> Seq<PartModel> {
    match value {
        Some(value) => seq![text_part(name, value)],
        None => seq![],
    }
}

/// The part with the torrent file, where there is one.
pub open spec fn file_part(torrent: TorrentModel) -> Seq<PartModel> {
    match torrent.file_bytes {
        Some(bytes) => seq![
            PartModel::File {
                name: "file"@,
                file_name: match filled(torrent.file_name) {
                    Some(name) => name,
                    None => "upload.torrent"@,
                },
                mime: "application/x-bittorrent"@,
                bytes,
            },
        ],
        None => seq![],
    }
}

/// The form that submits a torrent: three switches, then the name, the magnet link
/// and the torrent file, each where it is given.
pub open spec fn creation_form(torrent: TorrentModel) -> Seq<PartModel> {
    seq![
        text_part("allow_zip"@, truth_text(zip_allowed(torrent))),
        text_part("as_queued"@, truth_text(torrent.as_queued.unwrap_or(false))),
        text_part("add_only_if_cached"@, truth_text(false)),
    ] + optional_part("name"@, filled_trimmed(torrent.suggested_name)) + optional_part(
        "magnet"@,
        filled_trimmed(torrent.magnet_link),
    ) + file_part(torrent)
}

/// Fills in the form that submits a torrent.
pub fn fill_creation_form(request: StartLinkRequest) -> (form: Vec<FormPart>)
    ensures
        parts_of(form@) == creation_form(request@),
{
    let mut form: Vec<FormPart> = Vec::new();
    form.push(FormPart::Text { name: "allow_zip", value: truth_word(request.zip_allowed()) });
    form.push(
        FormPart::Text {
            name: "as_queued",
            value: truth_word(request.as_queued.unwrap_or(false)),
        },
    );
    form.push(FormPart::Text { name: "add_only_if_cached", value: truth_word(false) });
    if let Some(value) = keep_trimmed(&request.suggested_file_name) {
        form.push(FormPart::Text { name: "name", value });
    }
    if let Some(value) = keep_trimmed(&request.magnet_link) {
        form.push(FormPart::Text { name: "magnet", value });
    }
    let ghost torrent = request@;
    if let Some(bytes) = request.torrent_file_bytes {
        let file_name = match keep_filled(request.torrent_file_name) {
            Some(name) => name,
            None => "upload.torrent".to_owned(),
        };
        form.push(
            FormPart::File { name: "file", file_name, mime: "application/x-bittorrent", bytes },
        );
    }
    assert(parts_of(form@) =~= creation_form(torrent));
    form
}

/// The address that torrents are submitted to.
pub open spec fn creation_url() -> Seq<char> {
    TORBOX_BASE_URL@ + "/v1/api/torrents/createtorrent"@
}

/// The address that download links are requested from.
pub open spec fn link_url() -> Seq<char> {
    TORBOX_BASE_URL@ + "/v1/api/torrents/requestdl"@
}

/// The address that torrents are submitted to.
pub fn create_torrent_url() -> (url: String)
    ensures
        url@ == creation_url(),
{
    join(TORBOX_BASE_URL, "/v1/api/torrents/createtorrent")
}

/// The address that download links are requested from.
pub fn request_link_url() -> (url: String)
    ensures
        url@ == link_url(),
{
    join(TORBOX_BASE_URL, "/v1/api/torrents/requestdl")
}

/// A parameter of a query.
#[derive(Debug)]
pub struct QueryParam {
    pub name: &'static str,
    pub value: String,
}

/// The names and values of the parameters of a query.
pub open spec fn params_of(query: Seq<QueryParam>) -> Seq<(Seq<char>, Seq<char>)> {
    Seq::new(query.len(), |i: int| (query[i].name@, query[i].value@))
}

/// The query for the download link of a torrent.
pub open spec fn link_query(token: Seq<char>, torrent_id: Seq<char>, allow_zip: bool) -> Seq<
    (Seq<char>, Seq<char>),
> {
    seq![
        ("token"@, token),
        ("torrent_id"@, torrent_id),
        ("file_id"@, "0"@),
        ("zip_link"@, truth_text(allow_zip)),
        ("redirect"@, "false"@),
        ("append_name"@, "true"@),
    ]
}

/// Puts together the query for the download link of a torrent.
pub fn request_link_query(token: &str, torrent_id: &str, allow_zip: bool) -> (query: Vec<
    QueryParam,
>)
    ensures
        params_of(query@) == link_query(token@, torrent_id@, allow_zip),
{
    let mut query: Vec<QueryParam> = Vec::new();
    query.push(QueryParam { name: "token", value: token.to_owned() });
    query.push(QueryParam { name: "torrent_id", value: torrent_id.to_owned() });
    query.push(QueryParam { name: "file_id", value: "0".to_owned() });
    query.push(QueryParam { name: "zip_link", value: truth_word(allow_zip) });
    query.push(QueryParam { name: "redirect", value: "false".to_owned() });
    query.push(QueryParam { name: "append_name", value: "true".to_owned() });
    assert(params_of(query@) =~= link_query(token@, torrent_id@, allow_zip));
    query
}

/// The user agent for a token, or what the user is told instead.
pub open spec fn client_for(token: Seq<char>) -> Result<Seq<char>, Seq<char>> {
    if blank(token) {
        Err("Bearer token is missing."@)
    } else {
        Ok(USER_AGENT@)
    }
}

/// The user agent of the HTTP client for a token, unless the token is blank.
pub fn build_torbox_client(token: &str) -> (user_agent: Result<&'static str, String>)
    ensures
        if blank(token@) {
            user_agent matches Err(message) && message@ == "Bearer token is missing."@
        } else {
            user_agent matches Ok(name) && name@ == USER_AGENT@
        },
        match client_for(token@) {
            Ok(name) => user_agent matches Ok(agent) && agent@ == name,
            Err(told) => user_agent matches Err(message) && message@ == told,
        },
{
    if is_blank(token) {
        return Err("Bearer token is missing.".to_owned());
    }
    Ok(USER_AGENT)
}

/// The head of an HTTP response.
#[derive(Debug)]
pub struct ResponseHead {
    pub status: HttpStatus,
    /// The content type, if the response gives one in readable form.
    pub content_type: Option<String>,
    /// The address that the response finally came from.
    pub url: String,
    /// The length of the body, if it is known.
    pub content_length: Option<u64>,
}

/// The content of a [`ResponseHead`].
pub struct HeadModel {
    pub status: u16,
    pub content_type: Option<Seq<char>>,
    pub url: Seq<char>,
    pub content_length: Option<u64>,
}

impl View for ResponseHead {
    type V = HeadModel;

    open spec fn view(&self) -> HeadModel {
        HeadModel {
            status: self.status@,
            content_type: text_of(self.content_type),
            url: self.url@,
            content_length: self.content_length,
        }
    }
}

/// The response announces a JSON body.
pub open spec fn announces_json(head: HeadModel) -> bool {
    match head.content_type {
        Some(content_type) => occurs_in("application/json"@, content_type),
        None => false,
    }
}

impl ResponseHead {
    /// Tells whether the response announces a JSON body.
    pub fn announces_json(&self) -> (json: bool)
        ensures
            json == announces_json(self@),
    {
        match &self.content_type {
            Some(content_type) => contains_text(content_type.as_str(), "application/json"),
            None => false,
        }
    }
}

/// What the user is told of a torrent that TorBox rejects with a status.
pub open spec fn rejection(status: u16) -> Seq<char> {
    "TorBox rejected the torrent request ("@ + status_text(status) + ")."@
}

/// Tells the user of a torrent that TorBox rejects with a status, printed like this.
pub fn rejection_for(printed: &str) -> (message: String)
    ensures
        message@ == "TorBox rejected the torrent request ("@ + printed@ + ")."@,
{
    join("TorBox rejected the torrent request (", printed).concat(").")
}

/// Tells the user of a torrent that TorBox rejects.
pub fn rejection_message(status: HttpStatus) -> (message: String)
    ensures
        message@ == rejection(status@),
{
    rejection_for(status.to_text().as_str())
}

/// What the user is told of a link that leads to an error.
pub open spec fn link_broken(status: u16) -> Seq<char> {
    "TorBox returned an error while opening the download link ("@ + status_text(status) + ")"@
}

/// Tells the user of a link that leads to an error with a status, printed like this.
pub fn link_broken_for(printed: &str) -> (message: String)
    ensures
        message@ == "TorBox returned an error while opening the download link ("@ + printed@ + ")"@,
{
    join("TorBox returned an error while opening the download link (", printed).concat(")")
}

/// Tells the user of a link that leads to an error.
pub fn link_broken_message(status: HttpStatus) -> (message: String)
    ensures
        message@ == link_broken(status@),
{
    link_broken_for(status.to_text().as_str())
}

/// The torrent id in a JSON answer to a submission, or what the user is told instead.
pub open spec fn created_id(envelope: EnvelopeModel<JsonValue>, status: u16) -> Result<
    Seq<char>,
    Seq<char>,
> {
    if !envelope.success {
        Err(refusal(envelope, rejection(status)))
    } else {
        match envelope.data {
            Some(data) => match search(data, id_wanted()) {
                Some(id) => Ok(id),
                None => Err("TorBox did not return a torrent id."@),
            },
            None => Err("TorBox did not return a torrent id."@),
        }
    }
}

/// The view of a string or an error message.
pub open spec fn outcome_of(outcome: Result<String, String>) -> Result<Seq<char>, Seq<char>> {
    match outcome {
        Ok(text) => Ok(text@),
        Err(message) => Err(message@),
    }
}

/// Reads the torrent id from a JSON answer to a submission.
pub fn read_created_id(envelope: TorboxEnvelope<JsonValue>, status: HttpStatus) -> (id: Result<
    String,
    String,
>)
    ensures
        outcome_of(id) == created_id(envelope@, status@),
{
    if !envelope.success {
        return Err(torbox_error_message(envelope, rejection_message(status).as_str()));
    }
    let id = match &envelope.data {
        Some(data) => extract_torrent_id(data),
        None => None,
    };
    match id {
        Some(id) => Ok(id),
        None => Err("TorBox did not return a torrent id.".to_owned()),
    }
}

/// The torrent id in a plain answer to a submission, or what the user is told instead.
pub open spec fn created_id_plain(body: Seq<char>) -> Result<Seq<char>, Seq<char>> {
    if blank(body) {
        Err("TorBox did not return a torrent id."@)
    } else {
        Ok(trimmed(body))
    }
}

/// Reads the torrent id from a plain answer to a submission.
pub fn read_created_id_plain(body: &str) -> (id: Result<String, String>)
    ensures
        outcome_of(id) == created_id_plain(body@),
{
    if is_blank(body) {
        return Err("TorBox did not return a torrent id.".to_owned());
    }
    Ok(body.trim().to_owned())
}

/// The link in a JSON answer to a link request, or what the user is told instead.
pub open spec fn provided_link(envelope: EnvelopeModel<JsonValue>) -> Result<Seq<char>, Seq<char>> {
    if !envelope.success {
        Err(refusal(envelope, "TorBox did not provide a direct download link."@))
    } else {
        match envelope.data {
            Some(data) => match search(data, link_wanted()) {
                Some(link) => Ok(link),
                None => Err("TorBox did not provide a direct download link."@),
            },
            None => Err("TorBox did not provide a direct download link."@),
        }
    }
}

/// Reads the link from a JSON answer to a link request.
pub fn read_provided_link(envelope: TorboxEnvelope<JsonValue>) -> (link: Result<String, String>)
    ensures
        outcome_of(link) == provided_link(envelope@),
{
    if !envelope.success {
        return Err(
            torbox_error_message(envelope, "TorBox did not provide a direct download link."),
        );
    }
    match extract_download_link(envelope.data.as_ref()) {
        Some(link) => Ok(link),
        None => Err("TorBox did not provide a direct download link.".to_owned()),
    }
}

/// The report of a link that was obtained.
#[derive(Debug, Clone)]
pub struct LinkRequestResult {
    pub torrent_id: String,
    pub download_url: String,
    pub detail: String,
}

/// The content of a [`LinkRequestResult`].
pub struct LinkModel {
    pub torrent_id: Seq<char>,
    pub download_url: Seq<char>,
    pub detail: Seq<char>,
}

impl View for LinkRequestResult {
    type V = LinkModel;

    open spec fn view(&self) -> LinkModel {
        LinkModel {
            torrent_id: self.torrent_id@,
            download_url: self.download_url@,
            detail: self.detail@,
        }
    }
}

/// The report of a link that was obtained for a torrent.
pub open spec fn link_report(torrent_id: Seq<char>, download_url: Seq<char>) -> LinkModel {
    LinkModel {
        torrent_id,
        download_url,
        detail: "Successfully created torrent and requested download URL."@,
    }
}

/// Reports a link that was obtained for a torrent.
pub fn report_link(torrent_id: String, download_url: String) -> (report: LinkRequestResult)
    ensures
        report@ == link_report(torrent_id@, download_url@),
{
    LinkRequestResult {
        torrent_id,
        download_url,
        detail: "Successfully created torrent and requested download URL.".to_owned(),
    }
}

/// A torrent id is never blank, however the answer is written.
pub proof fn law_created_id_is_not_blank(
    envelope: EnvelopeModel<JsonValue>,
    status: u16,
    body: Seq<char>,
)
    ensures
        created_id(envelope, status) matches Ok(id) ==> !blank(id),
        created_id_plain(body) matches Ok(id) ==> !blank(id),
{
    if let Some(data) = envelope.data {
        law_found_text_is_not_blank(data, id_wanted());
    }
    law_trim_empties_blank_text(body);
    law_trim_is_idempotent(body);
    law_trim_empties_blank_text(trimmed(body));
}

/// A link that is read from an answer is never blank.
pub proof fn law_provided_link_is_not_blank(envelope: EnvelopeModel<JsonValue>)
    ensures
        provided_link(envelope) matches Ok(link) ==> !blank(link),
{
    if let Some(data) = envelope.data {
        law_found_text_is_not_blank(data, link_wanted());
    }
}

/// An answer that reports a failure gives neither an id nor a link, whatever data
/// it carries.
pub proof fn law_refusal_yields_nothing(envelope: EnvelopeModel<JsonValue>, status: u16)
    requires
        !envelope.success,
    ensures
        created_id(envelope, status) is Err,
        provided_link(envelope) is Err,
{
}

/// Some part of the form is a magnet link or a file.
pub open spec fn carries_source(form: Seq<PartModel>) -> bool {
    exists|i: int|
        0 <= i < form.len() && match #[trigger] form[i] {
            PartModel::Text { name, .. } => name == "magnet"@,
            PartModel::File { .. } => true,
        }
}

/// A form carries a magnet link or a file exactly if the request has a source.
pub proof fn law_form_carries_the_source(torrent: TorrentModel)
    ensures
        has_source(torrent) <==> carries_source(creation_form(torrent)),
{
    reveal_strlit("magnet");
    reveal_strlit("name");
    reveal_strlit("allow_zip");
    reveal_strlit("as_queued");
    reveal_strlit("add_only_if_cached");
    let form = creation_form(torrent);
    let name = optional_part("name"@, filled_trimmed(torrent.suggested_name));
    let magnet = optional_part("magnet"@, filled_trimmed(torrent.magnet_link));
    let file = file_part(torrent);
    if has_source(torrent) {
        let at = 3 + name.len() as int;
        if magnet.len() > 0 {
            assert(form[at] == magnet[0]);
        } else {
            assert(form[at] == file[0]);
        }
    } else {
        assert("magnet"@.len() == 6 && "name"@.len() == 4);
        assert("allow_zip"@.len() == 9 && "as_queued"@.len() == 9);
        assert("add_only_if_cached"@.len() == 18);
        assert(form =~= form.take(3) + name);
        assert forall|i: int| 0 <= i < form.len() implies match #[trigger] form[i] {
            PartModel::Text { name, .. } => name.len() != 6,
            PartModel::File { .. } => false,
        } by {}
    }
}

/// There is something to submit exactly if the magnet link shows a character or there
/// are the bytes of a file, however few.
pub proof fn law_source_is_a_link_or_a_file(torrent: TorrentModel)
    ensures
        has_source(torrent) <==> torrent.file_bytes is Some || (torrent.magnet_link matches Some(
            link,
        ) && visible(link)),
{
    if let Some(link) = torrent.magnet_link {
        law_visible_text_is_kept(link);
    }
}

/// An archive is allowed in every case but one: that the request says no.
pub proof fn law_only_a_no_forbids_archives(torrent: TorrentModel)
    ensures
        zip_allowed(torrent) <==> torrent.allow_zip != Some(false),
{
}

/// The part goes by this name.
pub open spec fn titled(part: PartModel, title: Seq<char>) -> bool {
    match part {
        PartModel::Text { name, .. } => name == title,
        PartModel::File { name, .. } => name == title,
    }
}

/// The form has one part with this name, and it is a text with this value.
pub open spec fn says_once(form: Seq<PartModel>, name: Seq<char>, value: Seq<char>) -> bool {
    exists|i: int|
        0 <= i < form.len() && #[trigger] form[i] == (PartModel::Text { name, value })
            && only_at(form, name, i)
}

/// No part but the one at `at` goes by this name.
pub open spec fn only_at(form: Seq<PartModel>, name: Seq<char>, at: int) -> bool {
    forall|j: int| 0 <= j < form.len() && j != at ==> !titled(#[trigger] form[j], name)
}

/// The form has no part with this name.
pub open spec fn never_says(form: Seq<PartModel>, name: Seq<char>) -> bool {
    forall|j: int| 0 <= j < form.len() ==> !titled(#[trigger] form[j], name)
}

/// The form has one file, with these bytes, under the name `file`.
pub open spec fn uploads_once(
    form: Seq<PartModel>,
    file_name: Seq<char>,
    bytes: Seq<u8>,
) -> bool {
    exists|i: int|
        0 <= i < form.len() && #[trigger] form[i] == (PartModel::File {
            name: "file"@,
            file_name,
            mime: "application/x-bittorrent"@,
            bytes,
        }) && only_at(form, "file"@, i) && only_file(form, i)
}

/// No part but the one at `at` is a file.
pub open spec fn only_file(form: Seq<PartModel>, at: int) -> bool {
    forall|j: int| 0 <= j < form.len() && j != at ==> !(#[trigger] form[j] is File)
}

proof fn lemma_part_names_differ()
    ensures
        "allow_zip"@ != "as_queued"@,
        "allow_zip"@ != "add_only_if_cached"@,
        "allow_zip"@ != "name"@,
        "allow_zip"@ != "magnet"@,
        "allow_zip"@ != "file"@,
        "as_queued"@ != "add_only_if_cached"@,
        "as_queued"@ != "name"@,
        "as_queued"@ != "magnet"@,
        "as_queued"@ != "file"@,
        "add_only_if_cached"@ != "name"@,
        "add_only_if_cached"@ != "magnet"@,
        "add_only_if_cached"@ != "file"@,
        "name"@ != "magnet"@,
        "name"@ != "file"@,
        "magnet"@ != "file"@,
{
    reveal_strlit("allow_zip");
    reveal_strlit("as_queued");
    reveal_strlit("add_only_if_cached");
    reveal_strlit("name");
    reveal_strlit("magnet");
    reveal_strlit("file");
    assert("allow_zip"@[1] == 'l' && "as_queued"@[1] == 's');
    assert("name"@[0] == 'n' && "file"@[0] == 'f');
    assert("allow_zip"@.len() == 9 && "as_queued"@.len() == 9 && "add_only_if_cached"@.len() == 18);
    assert("name"@.len() == 4 && "magnet"@.len() == 6 && "file"@.len() == 4);
}

/// The switches of a form say what the request says: archives are allowed unless it
/// says no, queueing is off unless it says yes, and torrents that are not cached are
/// never left out.
pub proof fn law_form_switches_follow_the_request(torrent: TorrentModel)
    ensures
        says_once(
            creation_form(torrent),
            "allow_zip"@,
            if torrent.allow_zip == Some(false) {
                "false"@
            } else {
                "true"@
            },
        ),
        says_once(
            creation_form(torrent),
            "as_queued"@,
            if torrent.as_queued == Some(true) {
                "true"@
            } else {
                "false"@
            },
        ),
        says_once(creation_form(torrent), "add_only_if_cached"@, "false"@),
{
    lemma_part_names_differ();
    let form = creation_form(torrent);
    assert(form[0] is Text && form[1] is Text && form[2] is Text);
    assert(only_at(form, "allow_zip"@, 0));
    assert(only_at(form, "as_queued"@, 1));
    assert(only_at(form, "add_only_if_cached"@, 2));
}

/// A magnet link that shows a character is submitted trimmed, and so is a name that
/// does; others are not submitted at all.
pub proof fn law_form_texts_are_trimmed(torrent: TorrentModel)
    ensures
        match torrent.magnet_link {
            Some(link) => if visible(link) {
                says_once(creation_form(torrent), "magnet"@, trimmed(link))
            } else {
                never_says(creation_form(torrent), "magnet"@)
            },
            None => never_says(creation_form(torrent), "magnet"@),
        },
        match torrent.suggested_name {
            Some(name) => if visible(name) {
                says_once(creation_form(torrent), "name"@, trimmed(name))
            } else {
                never_says(creation_form(torrent), "name"@)
            },
            None => never_says(creation_form(torrent), "name"@),
        },
{
    lemma_part_names_differ();
    let form = creation_form(torrent);
    let mut at: int = 3;
    if let Some(name) = torrent.suggested_name {
        law_visible_text_is_kept(name);
        if visible(name) {
            assert(form[3] == (PartModel::Text { name: "name"@, value: trimmed(name) }));
            assert(only_at(form, "name"@, 3));
            at = 4;
        }
    }
    if let Some(link) = torrent.magnet_link {
        law_visible_text_is_kept(link);
        if visible(link) {
            assert(form[at] == (PartModel::Text { name: "magnet"@, value: trimmed(link) }));
            assert(only_at(form, "magnet"@, at));
        }
    }
}

/// Where the request has the bytes of a torrent file, with or without a magnet link,
/// the form has exactly one file and its bytes are those of the request. The file goes
/// by its own name where that shows a character. Without bytes there is no file.
pub proof fn law_form_uploads_the_file(torrent: TorrentModel)
    ensures
        match torrent.file_bytes {
            Some(bytes) => uploads_once(
                creation_form(torrent),
                match torrent.file_name {
                    Some(name) => if visible(name) {
                        name
                    } else {
                        "upload.torrent"@
                    },
                    None => "upload.torrent"@,
                },
                bytes,
            ),
            None => only_file(creation_form(torrent), -1) && never_says(
                creation_form(torrent),
                "file"@,
            ),
        },
{
    lemma_part_names_differ();
    let form = creation_form(torrent);
    if let Some(name) = torrent.file_name {
        law_visible_text_is_kept(name);
    }
    if let Some(bytes) = torrent.file_bytes {
        let at = form.len() - 1;
        assert(form[at] == file_part(torrent)[0]);
        assert(only_at(form, "file"@, at));
        assert(only_file(form, at));
    }
}

/// A form says nothing but what it is said to say.
pub proof fn law_form_has_no_other_parts(torrent: TorrentModel, at: int)
    requires
        0 <= at < creation_form(torrent).len(),
    ensures
        ({
            let part = creation_form(torrent)[at];
            titled(part, "allow_zip"@) || titled(part, "as_queued"@) || titled(
                part,
                "add_only_if_cached"@,
            ) || titled(part, "name"@) || titled(part, "magnet"@) || titled(part, "file"@)
        }),
{
}

/// The query has one parameter with this name, and it has this value.
pub open spec fn asks_once(
    query: Seq<(Seq<char>, Seq<char>)>,
    name: Seq<char>,
    value: Seq<char>,
) -> bool {
    exists|i: int|
        0 <= i < query.len() && #[trigger] query[i] == (name, value) && (forall|j: int|
            0 <= j < query.len() && j != i ==> (#[trigger] query[j]).0 != name)
}

proof fn lemma_parameter_names_differ()
    ensures
        "token"@ != "torrent_id"@,
        "token"@ != "file_id"@,
        "token"@ != "zip_link"@,
        "token"@ != "redirect"@,
        "token"@ != "append_name"@,
        "torrent_id"@ != "file_id"@,
        "torrent_id"@ != "zip_link"@,
        "torrent_id"@ != "redirect"@,
        "torrent_id"@ != "append_name"@,
        "file_id"@ != "zip_link"@,
        "file_id"@ != "redirect"@,
        "file_id"@ != "append_name"@,
        "zip_link"@ != "redirect"@,
        "zip_link"@ != "append_name"@,
        "redirect"@ != "append_name"@,
{
    reveal_strlit("token");
    reveal_strlit("torrent_id");
    reveal_strlit("file_id");
    reveal_strlit("zip_link");
    reveal_strlit("redirect");
    reveal_strlit("append_name");
    assert("zip_link"@[0] == 'z' && "redirect"@[0] == 'r');
    assert("token"@.len() == 5 && "torrent_id"@.len() == 10 && "file_id"@.len() == 7);
    assert("zip_link"@.len() == 8 && "redirect"@.len() == 8 && "append_name"@.len() == 11);
}

/// The query for a link gives the token and asks for exactly the torrent with this id,
/// whether or not an archive is allowed, for its first file, without a redirection,
/// and with its name; nothing else is asked.
pub proof fn law_query_asks_for_the_torrent(
    token: Seq<char>,
    torrent_id: Seq<char>,
    allow_zip: bool,
)
    ensures
        ({
            let query = link_query(token, torrent_id, allow_zip);
            &&& query.len() == 6
            &&& asks_once(query, "token"@, token)
            &&& asks_once(query, "torrent_id"@, torrent_id)
            &&& asks_once(query, "file_id"@, "0"@)
            &&& asks_once(
                query,
                "zip_link"@,
                if allow_zip {
                    "true"@
                } else {
                    "false"@
                },
            )
            &&& asks_once(query, "redirect"@, "false"@)
            &&& asks_once(query, "append_name"@, "true"@)
        }),
{
    lemma_parameter_names_differ();
    let query = link_query(token, torrent_id, allow_zip);
    assert(query[0] == ("token"@, token));
    assert(query[1] == ("torrent_id"@, torrent_id));
    assert(query[2] == ("file_id"@, "0"@));
    assert(query[3].0 == "zip_link"@);
    assert(query[4] == ("redirect"@, "false"@));
    assert(query[5] == ("append_name"@, "true"@));
}

/// The calls go to these addresses, and the client introduces itself by this name.
pub proof fn law_calls_go_to_torbox()
    ensures
        creation_url() == "https://api.torbox.app/v1/api/torrents/createtorrent"@,
        link_url() == "https://api.torbox.app/v1/api/torrents/requestdl"@,
        USER_AGENT@ == "TorboxClient/0.1.0"@,
{
    reveal_strlit("https://api.torbox.app");
    reveal_strlit("/v1/api/torrents/createtorrent");
    reveal_strlit("/v1/api/torrents/requestdl");
    reveal_strlit("https://api.torbox.app/v1/api/torrents/createtorrent");
    reveal_strlit("https://api.torbox.app/v1/api/torrents/requestdl");
    assert(creation_url() =~= "https://api.torbox.app/v1/api/torrents/createtorrent"@);
    assert(link_url() =~= "https://api.torbox.app/v1/api/torrents/requestdl"@);
}

/// A response is taken for JSON exactly if its content type names it somewhere, so
/// with parameters around it too, and never without a content type.
pub proof fn law_json_is_announced_by_its_type(
    head: HeadModel,
    before: Seq<char>,
    after: Seq<char>,
)
    ensures
        head.content_type == Some(before + "application/json"@ + after) ==> announces_json(head),
        announces_json(head) ==> (head.content_type matches Some(content_type) && exists|
            lead: Seq<char>,
            tail: Seq<char>,
        | content_type == #[trigger] (lead + "application/json"@ + tail)),
{
    law_text_occurs_where_it_is_surrounded(before, "application/json"@, after);
    if announces_json(head) {
        law_occurring_text_is_surrounded("application/json"@, head.content_type->Some_0);
    }
}

/// A status that ends a request is quoted in what the user is told.
pub proof fn law_status_is_quoted(status: u16)
    ensures
        rejection(status) == "TorBox rejected the torrent request ("@ + status_text(status)
            + ")."@,
        link_broken(status) == "TorBox returned an error while opening the download link ("@
            + status_text(status) + ")"@,
{
}

/// A JSON answer that reports success gives the id that its data holds, and the link;
/// without one the user is told so. An answer that reports failure is told as a refusal,
/// with the status where TorBox says nothing of a submission itself.
pub proof fn law_answers_are_read(
    envelope: EnvelopeModel<JsonValue>,
    data: JsonValue,
    status: u16,
)
    ensures
        envelope.success && envelope.data == Some(data) ==> match search(data, id_wanted()) {
            Some(id) => created_id(envelope, status) == Ok::<Seq<char>, Seq<char>>(id),
            None => created_id(envelope, status) == Err::<Seq<char>, Seq<char>>(
                "TorBox did not return a torrent id."@,
            ),
        },
        envelope.success && envelope.data == Some(data) ==> match search(data, link_wanted()) {
            Some(link) => provided_link(envelope) == Ok::<Seq<char>, Seq<char>>(link),
            None => provided_link(envelope) == Err::<Seq<char>, Seq<char>>(
                "TorBox did not provide a direct download link."@,
            ),
        },
        envelope.success && envelope.data is None ==> created_id(envelope, status) == Err::<
            Seq<char>,
            Seq<char>,
        >("TorBox did not return a torrent id."@) && provided_link(envelope) == Err::<
            Seq<char>,
            Seq<char>,
        >("TorBox did not provide a direct download link."@),
        !envelope.success ==> created_id(envelope, status) == Err::<Seq<char>, Seq<char>>(
            refusal(
                envelope,
                "TorBox rejected the torrent request ("@ + status_text(status) + ")."@,
            ),
        ) && provided_link(envelope) == Err::<Seq<char>, Seq<char>>(
            refusal(envelope, "TorBox did not provide a direct download link."@),
        ),
{
}

/// A plain body that shows a character is the id, trimmed; without one the user is told
/// so.
pub proof fn law_plain_body_is_the_id(body: Seq<char>)
    ensures
        visible(body) ==> created_id_plain(body) == Ok::<Seq<char>, Seq<char>>(trimmed(body)),
        !visible(body) ==> created_id_plain(body) == Err::<Seq<char>, Seq<char>>(
            "TorBox did not return a torrent id."@,
        ),
{
    law_blank_text_shows_nothing(body);
}

/// The report of a link gives the torrent and the link.
pub proof fn law_report_gives_the_link(torrent_id: Seq<char>, download_url: Seq<char>)
    ensures
        link_report(torrent_id, download_url).torrent_id == torrent_id,
        link_report(torrent_id, download_url).download_url == download_url,
        link_report(torrent_id, download_url).detail
            == "Successfully created torrent and requested download URL."@,
{
}

/// Requests are seen as they are.
pub proof fn law_requests_are_seen_as_they_are(
    link: StartLinkRequest,
    download: StartDownloadRequest,
)
    ensures
        link@.magnet_link == text_of(link.magnet_link),
        link@.file_name == text_of(link.torrent_file_name),
        link@.file_bytes == bytes_of(link.torrent_file_bytes),
        link@.suggested_name == text_of(link.suggested_file_name),
        link@.allow_zip == link.allow_zip,
        link@.as_queued == link.as_queued,
        download@.0.magnet_link == text_of(download.magnet_link),
        download@.0.file_name == text_of(download.torrent_file_name),
        download@.0.file_bytes == bytes_of(download.torrent_file_bytes),
        download@.0.suggested_name == text_of(download.suggested_file_name),
        download@.0.allow_zip == download.allow_zip,
        download@.0.as_queued == download.as_queued,
        download@.1 == text_of(download.destination_path),
{
}

/// Optional text and bytes, forms, queries, heads and reports are seen as they are.
pub proof fn law_what_is_sent_is_seen_as_it_is(
    text: String,
    bytes: Vec<u8>,
    form: Seq<FormPart>,
    query: Seq<QueryParam>,
    head: ResponseHead,
    report: LinkRequestResult,
    at: int,
)
    ensures
        text_of(Some(text)) == Some(text@),
        text_of(None) is None,
        bytes_of(Some(bytes)) == Some(bytes@),
        bytes_of(None) is None,
        parts_of(form).len() == form.len(),
        0 <= at < form.len() ==> match form[at] {
            FormPart::Text { name, value } => parts_of(form)[at] == (PartModel::Text {
                name: name@,
                value: value@,
            }),
            FormPart::File { name, file_name, mime, bytes } => parts_of(form)[at]
                == (PartModel::File {
                name: name@,
                file_name: file_name@,
                mime: mime@,
                bytes: bytes@,
            }),
        },
        params_of(query).len() == query.len(),
        0 <= at < query.len() ==> params_of(query)[at] == (query[at].name@, query[at].value@),
        head@.status == head.status@,
        head@.content_type == text_of(head.content_type),
        head@.url == head.url@,
        head@.content_length == head.content_length,
        report@.torrent_id == report.torrent_id@,
        report@.download_url == report.download_url@,
        report@.detail == report.detail@,
        outcome_of(Ok(text)) == Ok::<Seq<char>, Seq<char>>(text@),
        outcome_of(Err(text)) == Err::<Seq<char>, Seq<char>>(text@),
{
}

/// A token that shows a character is enough for a client, under the name of this
/// program; without one there is none.
pub proof fn law_client_needs_a_token(token: Seq<char>)
    ensures
        visible(token) ==> client_for(token) == Ok::<Seq<char>, Seq<char>>(
            "TorboxClient/0.1.0"@,
        ),
        !visible(token) ==> client_for(token) == Err::<Seq<char>, Seq<char>>(
            "Bearer token is missing."@,
        ),
{
    law_blank_text_shows_nothing(token);
}

} // verus!
