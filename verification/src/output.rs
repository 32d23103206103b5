//! Where a download goes on disk, and what is reported of it.

use crate::settings::{AppSettings, SettingsModel};
use crate::text::{
    blank, ends_in, ends_with, filled, is_blank, join, law_blank_text_shows_nothing,
    law_trim_empties_blank_text, law_trim_is_idempotent, law_visible_text_is_kept, text_of,
    trimmed, visible,
};
use vstd::prelude::*;

verus! {

/// Where a download is to be written.
#[derive(Debug)]
pub enum OutputPath {
    /// To the file with exactly this path.
    File(String),
    /// To the path that this file name gives when it is joined to this directory. A
    /// name that is itself an absolute path may replace the directory.
    Inside { directory: String, file_name: String },
}

/// The content of an [`OutputPath`].
pub enum OutputModel {
    File(Seq<char>),
    Inside { directory: Seq<char>, file_name: Seq<char> },
}

impl View for OutputPath {
    type V = OutputModel;

    open spec fn view(&self) -> OutputModel {
        match *self {
            OutputPath::File(path) => OutputModel::File(path@),
            OutputPath::Inside { directory, file_name } => OutputModel::Inside {
                directory: directory@,
                file_name: file_name@,
            },
        }
    }
}

/// The last character is a separator of path components, on whatever system.
pub open spec fn names_directory(path: Seq<char>) -> bool {
    ends_in(path, '\\') || ends_in(path, '/')
}

/// The output for a destination: to a destination that is written like a directory,
/// or is one, the suggested name is joined, or else the standard one; any other
/// destination is itself the file.
pub open spec fn output_for(
    destination: Seq<char>,
    suggested: Option<Seq<char>>,
    is_directory: bool,
) -> OutputModel {
    let path = trimmed(destination);
    if names_directory(path) || is_directory {
        OutputModel::Inside {
            directory: path,
            file_name: match filled(suggested) {
                Some(name) => name,
                None => "torbox-download.zip"@,
            },
        }
    } else {
        OutputModel::File(path)
    }
}

/// Tells whether a destination is written like a directory.
pub fn looks_like_directory(destination_path: &str) -> (directory: bool)
    ensures
        directory == names_directory(trimmed(destination_path@)),
{
    let path = destination_path.trim();
    ends_with(path, '\\') || ends_with(path, '/')
}

/// The text starts like a path on a drive of Windows: with a letter and a colon.
pub open spec fn names_drive(text: Seq<char>) -> bool {
    text.len() >= 2 && ('a' <= text[0] <= 'z' || 'A' <= text[0] <= 'Z') && text[1] == ':'
}

/// The text starts like a verbatim path of Windows.
pub open spec fn names_verbatim(text: Seq<char>) -> bool {
    seq!['\\', '\\', '?', '\\'].is_prefix_of(text)
}

/// The name is relative on whatever system: it starts neither with a separator nor
/// with a drive.
pub open spec fn relative_name(name: Seq<char>) -> bool {
    name.len() > 0 && name[0] != '/' && name[0] != '\\' && !names_drive(name)
}

/// The name is a single component of a path on whatever system, and not one that
/// stands for a directory itself or for the one above it.
pub open spec fn single_component(name: Seq<char>) -> bool {
    &&& forall|i: int| 0 <= i < name.len() ==> #[trigger] name[i] != '/' && name[i] != '\\'
    &&& name != seq!['.'] && name != seq!['.', '.']
}

/// The path is the directory with the name behind it and one separator between the
/// two. A slash that ends the directory is that separator, a backslash may be;
/// otherwise it is the one of the system. Behind a bare drive, and where there is no
/// directory, there may be none.
pub open spec fn appended(directory: Seq<char>, file_name: Seq<char>, path: Seq<char>) -> bool {
    let direct = directory + file_name;
    let with_slash = directory.push('/') + file_name;
    let with_backslash = directory.push('\\') + file_name;
    if directory.len() == 0 || ends_in(directory, '/') {
        path == direct
    } else if ends_in(directory, '\\') {
        path == direct || path == with_slash
    } else if names_drive(directory) && directory.len() == 2 {
        path == direct || path == with_slash || path == with_backslash
    } else {
        path == with_slash || path == with_backslash
    }
}

/// The path is the name, behind a leading part of the directory or behind nothing.
pub open spec fn replaced(directory: Seq<char>, file_name: Seq<char>, path: Seq<char>) -> bool {
    exists|kept: int|
        0 <= kept <= directory.len() && path == #[trigger] directory.take(kept) + file_name
}

/// The path may be what a system makes of this name in this directory. A relative name
/// is put behind the directory. A name that starts with a slash replaces the directory
/// but for a leading part, such as a drive. A name that starts with a backslash or with
/// a drive is relative on one system and replaces the directory on another.
///
/// A directory that starts like a verbatim path is normalised on one system. It keeps
/// that start, and a name that is a single component ends the path.
pub open spec fn joins(directory: Seq<char>, file_name: Seq<char>, path: Seq<char>) -> bool
    recommends
        file_name.len() > 0,
{
    if names_verbatim(directory) {
        relative_name(file_name) ==> names_verbatim(path) && (single_component(file_name)
            ==> file_name.is_suffix_of(path))
    } else if file_name[0] == '/' {
        replaced(directory, file_name, path)
    } else if file_name[0] == '\\' {
        appended(directory, file_name, path) || replaced(directory, file_name, path)
    } else if names_drive(file_name) {
        appended(directory, file_name, path) || path == file_name
    } else {
        appended(directory, file_name, path)
    }
}

/// The path may be that of this output.
pub open spec fn placed(output: OutputModel, path: Seq<char>) -> bool {
    match output {
        OutputModel::File(file) => path == file,
        OutputModel::Inside { directory, file_name } => joins(directory, file_name, path),
    }
}

/// Joins a file name to a directory by `std::path::Path::join`, on Unix or on Windows.
///
/// A name without a root and without a prefix is put behind the directory, with a
/// separator between the two where the directory does not end in one. On Windows that
/// separator is a backslash, a backslash at the end of the directory counts as one too,
/// and a bare drive takes none. A name with a root replaces the directory, on Windows
/// all of it but its prefix, and a name with a prefix replaces all of it. A root is a
/// slash, and on Windows also a backslash; a prefix, on Windows only, starts with two
/// separators or is a letter and a colon.
///
/// On Windows a directory with a verbatim prefix is normalised: `.` and `..` are taken
/// out of the path. Of such directories only this is claimed: a relative name leaves
/// the start of the prefix, and ends the path if it is a single component. How the rest
/// is normalised, and what comes of other names there, is left unsaid. So is which of
/// the two systems it is.
#[verifier::external_body]
fn join_path(directory: &str, file_name: &str) -> (joined: String)
    requires
        file_name@.len() > 0,
    ensures
        joins(directory@, file_name@, joined@),
{
    std::path::Path::new(directory).join(file_name).to_string_lossy().into_owned()
}

/// Chooses where a download to `destination_path` is to be written. `is_directory`
/// says whether the trimmed destination is a directory that exists.
pub fn choose_output(
    destination_path: &str,
    suggested_file_name: Option<&str>,
    is_directory: bool,
) -> (output: OutputPath)
    ensures
        output@ == output_for(
            destination_path@,
            match suggested_file_name {
                Some(name) => Some(name@),
                None => None,
            },
            is_directory,
        ),
{
    let path = destination_path.trim();
    if looks_like_directory(destination_path) || is_directory {
        let file_name = match suggested_file_name {
            Some(name) => if is_blank(name) {
                "torbox-download.zip"
            } else {
                name
            },
            None => "torbox-download.zip",
        };
        return OutputPath::Inside { directory: path.to_owned(), file_name: file_name.to_owned() };
    }
    OutputPath::File(path.to_owned())
}

/// The path of the file that a download to `destination_path` is written to.
/// `is_directory` says whether the trimmed destination is a directory that exists.
pub fn resolve_output_path(
    destination_path: &str,
    suggested_file_name: Option<&str>,
    is_directory: bool,
) -> (path: String)
    ensures
        placed(
            output_for(
                destination_path@,
                match suggested_file_name {
                    Some(name) => Some(name@),
                    None => None,
                },
                is_directory,
            ),
            path@,
        ),
{
    match choose_output(destination_path, suggested_file_name, is_directory) {
        OutputPath::File(path) => path,
        OutputPath::Inside { directory, file_name } => {
            proof {
                let suggested = match suggested_file_name {
                    Some(name) => Some(name@),
                    None => None,
                };
                law_file_name_is_not_blank(destination_path@, suggested, is_directory);
            }
            join_path(directory.as_str(), file_name.as_str())
        },
    }
}

/// The destination of a download: the requested one unless it is absent or blank,
/// else the trimmed default of the settings unless that is empty.
pub open spec fn destination(
    requested: Option<Seq<char>>,
    settings: SettingsModel,
) -> Option<Seq<char>> {
    match filled(requested) {
        Some(path) => Some(path),
        None => if blank(settings.default_save_path) {
            None
        } else {
            Some(trimmed(settings.default_save_path))
        },
    }
}

/// Chooses the destination of a download.
pub fn choose_destination(requested: Option<String>, settings: &AppSettings) -> (chosen: Result<
    String,
    String,
>)
    ensures
        match destination(text_of(requested), settings@) {
            Some(path) => chosen matches Ok(chosen) && chosen@ == path,
            None => chosen matches Err(message) && message@
                == "Choose a destination path before downloading."@,
        },
{
    if let Some(path) = requested {
        if !is_blank(path.as_str()) {
            return Ok(path);
        }
    }
    if is_blank(settings.default_save_path.as_str()) {
        return Err("Choose a destination path before downloading.".to_owned());
    }
    Ok(settings.default_save_path.as_str().trim().to_owned())
}

/// The report of a finished download.
#[derive(Debug, Clone)]
pub struct DownloadResult {
    pub torrent_id: String,
    pub output_path: String,
    pub bytes_written: u64,
    pub detail: String,
}

/// The content of a [`DownloadResult`].
pub struct DownloadModel {
    pub torrent_id: Seq<char>,
    pub output_path: Seq<char>,
    pub bytes_written: u64,
    pub detail: Seq<char>,
}

impl View for DownloadResult {
    type V = DownloadModel;

    open spec fn view(&self) -> DownloadModel {
        DownloadModel {
            torrent_id: self.torrent_id@,
            output_path: self.output_path@,
            bytes_written: self.bytes_written,
            detail: self.detail@,
        }
    }
}

/// The report on `bytes_written` bytes, `size` in words, saved under `output_path`.
pub open spec fn download_report(
    torrent_id: Seq<char>,
    output_path: Seq<char>,
    bytes_written: u64,
    size: Seq<char>,
) -> DownloadModel {
    DownloadModel {
        torrent_id,
        output_path,
        bytes_written,
        detail: "Saved "@ + size + " to "@ + output_path,
    }
}

/// Reports a finished download.
pub fn report_download(torrent_id: String, output_path: String, bytes_written: u64, size: &str) -> (
    report: DownloadResult)
    ensures
        report@ == download_report(torrent_id@, output_path@, bytes_written, size@),
{
    let detail = join("Saved ", size).concat(" to ").concat(output_path.as_str());
    DownloadResult { torrent_id, output_path, bytes_written, detail }
}

/// The progress of a running download.
#[derive(Debug, Clone)]
pub struct ProgressPayload {
    pub bytes_downloaded: u64,
    pub total_bytes: Option<u64>,
}

/// A destination that is written like a directory is treated as one, whether or
/// not it exists yet.
pub proof fn law_separator_means_directory(
    path: Seq<char>,
    suggested: Option<Seq<char>>,
    is_directory: bool,
)
    requires
        names_directory(trimmed(path)),
    ensures
        output_for(path, suggested, is_directory) == output_for(path, suggested, true),
        output_for(path, suggested, is_directory) is Inside,
{
}

/// White space around a destination makes no difference.
pub proof fn law_destination_is_trimmed(
    path: Seq<char>,
    suggested: Option<Seq<char>>,
    is_directory: bool,
)
    ensures
        output_for(trimmed(path), suggested, is_directory) == output_for(
            path,
            suggested,
            is_directory,
        ),
{
    law_trim_is_idempotent(path);
}

/// A file in a directory always gets a name that is not blank.
pub proof fn law_file_name_is_not_blank(
    path: Seq<char>,
    suggested: Option<Seq<char>>,
    is_directory: bool,
)
    ensures
        output_for(path, suggested, is_directory) matches OutputModel::Inside { file_name, .. }
            ==> !blank(file_name),
{
    reveal_strlit("torbox-download.zip");
    assert("torbox-download.zip"@[0] == 't');
}

/// A destination that ends in a slash and takes a relative name gives one path on every
/// system: the trimmed destination with the name behind it.
pub proof fn law_slash_settles_the_path(
    destination: Seq<char>,
    suggested: Option<Seq<char>>,
    is_directory: bool,
    path: Seq<char>,
)
    requires
        ends_in(trimmed(destination), '/'),
        !names_verbatim(trimmed(destination)),
        filled(suggested) matches Some(name) ==> relative_name(name),
        placed(output_for(destination, suggested, is_directory), path),
    ensures
        path == trimmed(destination) + match filled(suggested) {
            Some(name) => name,
            None => "torbox-download.zip"@,
        },
{
    reveal_strlit("torbox-download.zip");
}

/// The path of a relative name in a directory starts with the directory and ends in the
/// name, with one character between the two at most.
pub proof fn law_path_holds_directory_and_name(
    directory: Seq<char>,
    file_name: Seq<char>,
    path: Seq<char>,
)
    requires
        !names_verbatim(directory),
        relative_name(file_name),
        joins(directory, file_name, path),
    ensures
        directory.is_prefix_of(path),
        file_name.is_suffix_of(path),
        directory.len() + file_name.len() <= path.len() <= directory.len() + 1 + file_name.len(),
{
}

/// Whatever the name, the path of a file in a directory ends in it.
pub proof fn law_path_ends_in_the_name(
    directory: Seq<char>,
    file_name: Seq<char>,
    path: Seq<char>,
)
    requires
        !names_verbatim(directory),
        joins(directory, file_name, path),
    ensures
        file_name.is_suffix_of(path),
{
}

/// A chosen destination is never blank, so the path made from it is never empty.
pub proof fn law_destination_is_not_blank(requested: Option<Seq<char>>, settings: SettingsModel)
    ensures
        destination(requested, settings) matches Some(path) ==> !blank(path) && trimmed(path).len()
            > 0,
{
    law_trim_empties_blank_text(settings.default_save_path);
    law_trim_is_idempotent(settings.default_save_path);
    law_trim_empties_blank_text(trimmed(settings.default_save_path));
    if let Some(path) = requested {
        law_trim_empties_blank_text(path);
    }
}

/// A destination that ends neither in a slash nor in a backslash, and at which there is
/// no directory, is the file itself, whatever name is suggested and also without one.
pub proof fn law_other_destinations_are_the_file(
    destination: Seq<char>,
    suggested: Option<Seq<char>>,
    path: Seq<char>,
)
    requires
        trimmed(destination).len() > 0 ==> trimmed(destination).last() != '/' && trimmed(
            destination,
        ).last() != '\\',
    ensures
        output_for(destination, suggested, false) == OutputModel::File(trimmed(destination)),
        placed(output_for(destination, suggested, false), path) <==> path == trimmed(destination),
{
}

/// A destination that ends in a slash or in a backslash, or at which there is a
/// directory, gets a file in it: under the suggested name, character by character, where
/// that shows one, and else under the standard name.
pub proof fn law_directories_get_a_named_file(
    destination: Seq<char>,
    suggested: Option<Seq<char>>,
    is_directory: bool,
)
    requires
        is_directory || (trimmed(destination).len() > 0 && (trimmed(destination).last() == '/'
            || trimmed(destination).last() == '\\')),
    ensures
        output_for(destination, suggested, is_directory) == (OutputModel::Inside {
            directory: trimmed(destination),
            file_name: match suggested {
                Some(name) => if visible(name) {
                    name
                } else {
                    "torbox-download.zip"@
                },
                None => "torbox-download.zip"@,
            },
        }),
{
    if let Some(name) = suggested {
        law_visible_text_is_kept(name);
    }
}

/// A path is written like a directory exactly if its last character is a slash or a
/// backslash.
pub proof fn law_directories_end_in_a_separator(path: Seq<char>, last: char)
    ensures
        names_directory(path.push(last)) <==> last == '/' || last == '\\',
        !names_directory(Seq::empty()),
{
}

/// The requested destination is taken as it is where it shows a character; else the
/// default of the settings, trimmed, where that shows one; else there is none.
pub proof fn law_requested_destination_comes_first(
    requested: Seq<char>,
    settings: SettingsModel,
)
    ensures
        visible(requested) ==> destination(Some(requested), settings) == Some(requested),
        !visible(requested) ==> destination(Some(requested), settings) == destination(
            None,
            settings,
        ),
        visible(settings.default_save_path) ==> destination(None, settings) == Some(
            trimmed(settings.default_save_path),
        ),
        !visible(settings.default_save_path) ==> destination(None, settings) is None,
{
    law_visible_text_is_kept(requested);
    law_blank_text_shows_nothing(settings.default_save_path);
}

/// The report of a download gives its torrent, its file and its bytes, and tells the
/// size and the file in words.
pub proof fn law_report_says_what_was_saved(
    torrent_id: Seq<char>,
    output_path: Seq<char>,
    bytes_written: u64,
    size: Seq<char>,
)
    ensures
        ({
            let report = download_report(torrent_id, output_path, bytes_written, size);
            &&& report.torrent_id == torrent_id
            &&& report.output_path == output_path
            &&& report.bytes_written == bytes_written
            &&& report.detail == "Saved "@ + size + " to "@ + output_path
        }),
{
}

/// Reports and outputs are seen as they are.
pub proof fn law_reports_are_seen_as_they_are(
    report: DownloadResult,
    path: String,
    file_name: String,
)
    ensures
        report@.torrent_id == report.torrent_id@,
        report@.output_path == report.output_path@,
        report@.bytes_written == report.bytes_written,
        report@.detail == report.detail@,
        OutputPath::File(path)@ == OutputModel::File(path@),
        (OutputPath::Inside { directory: path, file_name })@ == (OutputModel::Inside {
            directory: path@,
            file_name: file_name@,
        }),
{
}

/// On every system a name that starts neither with a separator nor with a drive goes
/// behind a directory that does not start with a backslash: directly where the
/// directory ends in a slash, with one separator where it ends in no separator and no
/// colon, and always so that the path starts with the directory and ends in the name.
pub proof fn law_ordinary_names_go_behind_the_directory(
    directory: Seq<char>,
    file_name: Seq<char>,
    path: Seq<char>,
)
    requires
        placed(OutputModel::Inside { directory, file_name }, path),
        directory.len() > 0,
        directory[0] != '\\',
        file_name.len() > 0,
        file_name[0] != '/',
        file_name[0] != '\\',
        file_name.len() > 1 ==> file_name[1] != ':',
    ensures
        directory.is_prefix_of(path),
        file_name.is_suffix_of(path),
        directory.last() == '/' ==> path == directory + file_name,
        directory.last() != '/' && directory.last() != '\\' && directory.last() != ':' ==> path
            == directory + seq!['/'] + file_name || path == directory + seq!['\\'] + file_name,
{
    assert(directory + seq!['/'] =~= directory.push('/'));
    assert(directory + seq!['\\'] =~= directory.push('\\'));
}

} // verus!
