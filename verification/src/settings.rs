//! The settings of the client: where they are kept, how they are read and when
//! they are fit to be saved.

use crate::text::{blank, is_blank, join, law_blank_text_shows_nothing, visible};
use vstd::prelude::*;

verus! {

/// The directory that holds the settings file.
pub const SETTINGS_DIRECTORY: &'static str = "TorboxClient";

/// The name of the settings file.
pub const SETTINGS_FILE: &'static str = "settings.json";

/// What the user has entered once and for all.
#[derive(Debug, Clone)]
pub struct AppSettings {
    pub bearer_token: String,
    pub default_save_path: String,
}

/// The content of [`AppSettings`].
pub struct SettingsModel {
    pub bearer_token: Seq<char>,
    pub default_save_path: Seq<char>,
}

impl View for AppSettings {
    type V = SettingsModel;

    open spec fn view(&self) -> SettingsModel {
        SettingsModel {
            bearer_token: self.bearer_token@,
            default_save_path: self.default_save_path@,
        }
    }
}

/// Settings in which nothing has been entered yet.
pub open spec fn empty_settings() -> SettingsModel {
    SettingsModel { bearer_token: Seq::empty(), default_save_path: Seq::empty() }
}

impl Default for AppSettings {
    fn default() -> (settings: AppSettings)
        ensures
            settings@ == empty_settings(),
    {
        AppSettings { bearer_token: String::new(), default_save_path: String::new() }
    }
}

/// The operating systems that keep settings in different places.
#[derive(Debug, Clone, Copy, PartialEq, Eq, Structural)]
pub enum Platform {
    Windows,
    MacOs,
    Other,
}

/// The user directories that settings can be kept under.
#[derive(Debug, Clone, Copy, PartialEq, Eq, Structural)]
pub enum BaseDirectory {
    LocalData,
    Data,
    Config,
}

/// The user directory that settings are kept under on a system.
pub open spec fn base_for(platform: Platform) -> BaseDirectory {
    match platform {
        Platform::Windows => BaseDirectory::LocalData,
        Platform::MacOs => BaseDirectory::Data,
        Platform::Other => BaseDirectory::Config,
    }
}

/// The user directory that the settings are kept under: the local data directory
/// on Windows, the data directory on macOS, the configuration directory elsewhere.
pub fn base_directory(platform: Platform) -> (base: BaseDirectory)
    ensures
        base == match platform {
            Platform::Windows => BaseDirectory::LocalData,
            Platform::MacOs => BaseDirectory::Data,
            Platform::Other => BaseDirectory::Config,
        },
        base == base_for(platform),
{
    match platform {
        Platform::Windows => BaseDirectory::LocalData,
        Platform::MacOs => BaseDirectory::Data,
        Platform::Other => BaseDirectory::Config,
    }
}

/// The settings file, as a directory and a file name below a base directory.
#[derive(Debug)]
pub struct SettingsPath<P> {
    pub base: P,
    pub directory: &'static str,
    pub file: &'static str,
}

/// The place of the settings file, given the base directory of this machine.
pub fn settings_path<P>(base_dir: Option<P>) -> (path: Result<SettingsPath<P>, String>)
    ensures
        match base_dir {
            Some(base) => path matches Ok(path) && path.base == base && path.directory@
                == "TorboxClient"@ && path.file@ == "settings.json"@,
            None => path matches Err(message) && message@
                == "Unable to resolve a local app config directory."@,
        },
        path matches Ok(path) ==> path.directory@ == SETTINGS_DIRECTORY@ && path.file@
            == SETTINGS_FILE@,
{
    match base_dir {
        Some(base) => Ok(
            SettingsPath { base, directory: SETTINGS_DIRECTORY, file: SETTINGS_FILE },
        ),
        None => Err("Unable to resolve a local app config directory.".to_owned()),
    }
}

/// What an attempt to read the settings file came to.
#[derive(Debug)]
pub enum SettingsFile {
    /// The file holds these settings.
    Parsed(AppSettings),
    /// The file holds something else; the parser explains.
    Malformed(String),
    /// There is no such file.
    Missing,
    /// The file could not be read; the system explains.
    Unreadable(String),
    /// There is no place for the file; the message says so.
    Nowhere(String),
}

/// The content of a [`SettingsFile`].
pub enum FileModel {
    Parsed(SettingsModel),
    Malformed(Seq<char>),
    Missing,
    Unreadable(Seq<char>),
    Nowhere(Seq<char>),
}

impl View for SettingsFile {
    type V = FileModel;

    open spec fn view(&self) -> FileModel {
        match *self {
            SettingsFile::Parsed(settings) => FileModel::Parsed(settings@),
            SettingsFile::Malformed(error) => FileModel::Malformed(error@),
            SettingsFile::Missing => FileModel::Missing,
            SettingsFile::Unreadable(error) => FileModel::Unreadable(error@),
            SettingsFile::Nowhere(message) => FileModel::Nowhere(message@),
        }
    }
}

/// The view of settings or an error message.
pub open spec fn settings_of(settings: Result<AppSettings, String>) -> Result<
    SettingsModel,
    Seq<char>,
> {
    match settings {
        Ok(settings) => Ok(settings@),
        Err(message) => Err(message@),
    }
}

/// The settings that a file gives. A missing file stands for empty settings.
pub open spec fn loaded(file: FileModel) -> Result<SettingsModel, Seq<char>> {
    match file {
        FileModel::Parsed(settings) => Ok(settings),
        FileModel::Malformed(error) => Err("Failed to parse settings file: "@ + error),
        FileModel::Missing => Ok(empty_settings()),
        FileModel::Unreadable(error) => Err("Failed to read settings file: "@ + error),
        FileModel::Nowhere(message) => Err(message),
    }
}

/// Takes the settings from the file.
pub fn load_settings_from_disk(file: SettingsFile) -> (settings: Result<AppSettings, String>)
    ensures
        settings_of(settings) == loaded(file@),
{
    match file {
        SettingsFile::Parsed(found) => Ok(found),
        SettingsFile::Malformed(error) => Err(
            join("Failed to parse settings file: ", error.as_str()),
        ),
        SettingsFile::Missing => Ok(AppSettings::default()),
        SettingsFile::Unreadable(error) => Err(
            join("Failed to read settings file: ", error.as_str()),
        ),
        SettingsFile::Nowhere(message) => Err(message),
    }
}

/// What is wrong with settings that are to be saved, if anything.
pub open spec fn settings_fault(settings: SettingsModel) -> Option<Seq<char>> {
    if blank(settings.bearer_token) {
        Some("Bearer token is required."@)
    } else if blank(settings.default_save_path) {
        Some("Default save path is required."@)
    } else {
        None
    }
}

/// Hands the settings back where they are fit to be written to disk.
pub fn save_settings(settings: AppSettings) -> (accepted: Result<AppSettings, String>)
    ensures
        match settings_fault(settings@) {
            Some(fault) => accepted matches Err(message) && message@ == fault,
            None => accepted == Ok::<AppSettings, String>(settings),
        },
{
    if is_blank(settings.bearer_token.as_str()) {
        return Err("Bearer token is required.".to_owned());
    }
    if is_blank(settings.default_save_path.as_str()) {
        return Err("Default save path is required.".to_owned());
    }
    Ok(settings)
}

/// The step at which writing the settings file failed, with the explanation.
#[derive(Debug)]
pub enum SaveFailure {
    Place(String),
    Directory(String),
    Serialization(String),
    Writing(String),
}

impl View for SaveFailure {
    type V = Seq<char>;

    /// What the user is told of the failure.
    open spec fn view(&self) -> Seq<char> {
        match *self {
            SaveFailure::Place(message) => message@,
            SaveFailure::Directory(error) => "Failed to create settings directory: "@ + error@,
            SaveFailure::Serialization(error) => "Failed to serialize settings: "@ + error@,
            SaveFailure::Writing(error) => "Failed to write settings file: "@ + error@,
        }
    }
}

/// What the user is told of an attempt to write the settings file.
pub open spec fn written_of(written: Result<(), SaveFailure>) -> Result<(), Seq<char>> {
    match written {
        Ok(_) => Ok(()),
        Err(failure) => Err(failure@),
    }
}

/// Explains to the user why the settings file could not be written.
pub fn save_settings_to_disk(written: Result<(), SaveFailure>) -> (saved: Result<(), String>)
    ensures
        match written_of(written) {
            Ok(_) => saved is Ok,
            Err(told) => saved matches Err(message) && message@ == told,
        },
{
    match written {
        Ok(_) => Ok(()),
        Err(SaveFailure::Place(message)) => Err(message),
        Err(SaveFailure::Directory(error)) => Err(
            join("Failed to create settings directory: ", error.as_str()),
        ),
        Err(SaveFailure::Serialization(error)) => Err(
            join("Failed to serialize settings: ", error.as_str()),
        ),
        Err(SaveFailure::Writing(error)) => Err(
            join("Failed to write settings file: ", error.as_str()),
        ),
    }
}

/// The answer to a request to save settings: a fault of theirs, else what went
/// wrong in writing them, else the settings themselves.
pub open spec fn save_answer(
    settings: SettingsModel,
    written: Result<(), Seq<char>>,
) -> Result<SettingsModel, Seq<char>> {
    match (settings_fault(settings), written) {
        (Some(fault), _) => Err(fault),
        (None, Err(told)) => Err(told),
        (None, Ok(_)) => Ok(settings),
    }
}

/// Answers a request to save settings, once it is known what came of writing them.
pub fn finish_saving(settings: AppSettings, written: Result<(), SaveFailure>) -> (answer: Result<
    AppSettings,
    String,
>)
    ensures
        settings_of(answer) == save_answer(settings@, written_of(written)),
{
    match save_settings(settings) {
        Err(fault) => Err(fault),
        Ok(accepted) => match save_settings_to_disk(written) {
            Ok(_) => Ok(accepted),
            Err(message) => Err(message),
        },
    }
}

/// An assumption that the shell has to meet, with the disk and with the encoding of the
/// file: settings that were written are what the file then holds and decodes to,
/// whatever it held before. An attempt that fails may leave anything behind. Nothing in
/// this library reads or writes the file, so nothing here proves it.
pub open spec fn file_written(
    settings: SettingsModel,
    written: Result<(), Seq<char>>,
    after: FileModel,
) -> bool {
    written is Ok ==> after == FileModel::Parsed(settings)
}

/// An assumption that the shell has to meet when it saves settings: it leaves the file
/// alone where they have a fault, and otherwise writes them, as in [`file_written`].
pub open spec fn file_after(
    before: FileModel,
    settings: SettingsModel,
    written: Result<(), Seq<char>>,
    after: FileModel,
) -> bool {
    if settings_fault(settings) is Some {
        after == before
    } else {
        file_written(settings, written, after)
    }
}

/// Settings that were written are loaded as they were written, blank ones too, given
/// that the file keeps what is written to it.
pub proof fn law_written_settings_are_loaded(
    settings: SettingsModel,
    written: Result<(), Seq<char>>,
    after: FileModel,
)
    requires
        file_written(settings, written, after),
        written is Ok,
    ensures
        loaded(after) == Ok::<SettingsModel, Seq<char>>(settings),
{
}

/// Settings that were saved are answered and afterwards loaded as they were given,
/// whatever the file held before, given that the file keeps what is written to it.
pub proof fn law_saved_settings_are_loaded(
    before: FileModel,
    settings: SettingsModel,
    written: Result<(), Seq<char>>,
    after: FileModel,
)
    requires
        file_after(before, settings, written, after),
        save_answer(settings, written) is Ok,
    ensures
        save_answer(settings, written) == Ok::<SettingsModel, Seq<char>>(settings),
        loaded(after) == Ok::<SettingsModel, Seq<char>>(settings),
{
}

/// Settings with a blank field are refused, and what is loaded stays the same, given
/// that the shell then leaves the file alone.
pub proof fn law_refused_settings_change_nothing(
    before: FileModel,
    settings: SettingsModel,
    written: Result<(), Seq<char>>,
    after: FileModel,
)
    requires
        file_after(before, settings, written, after),
        blank(settings.bearer_token) || blank(settings.default_save_path),
    ensures
        save_answer(settings, written) is Err,
        loaded(after) == loaded(before),
{
}

/// Settings are accepted exactly if the token and the path both show a character,
/// whatever else they hold, and are then answered as given unless writing them fails.
pub proof fn law_settings_need_a_token_and_a_path(
    settings: SettingsModel,
    written: Result<(), Seq<char>>,
)
    ensures
        settings_fault(settings) is None <==> visible(settings.bearer_token) && visible(
            settings.default_save_path,
        ),
        visible(settings.bearer_token) && visible(settings.default_save_path) ==> match written {
            Ok(_) => save_answer(settings, written) == Ok::<SettingsModel, Seq<char>>(settings),
            Err(told) => save_answer(settings, written) == Err::<SettingsModel, Seq<char>>(told),
        },
        !(visible(settings.bearer_token) && visible(settings.default_save_path)) ==> save_answer(
            settings,
            written,
        ) is Err,
{
    law_blank_text_shows_nothing(settings.bearer_token);
    law_blank_text_shows_nothing(settings.default_save_path);
}

/// Of settings that are refused, the user is told what is missing, the token first.
pub proof fn law_refusal_names_what_is_missing(
    settings: SettingsModel,
    written: Result<(), Seq<char>>,
)
    ensures
        !visible(settings.bearer_token) ==> settings_fault(settings) == Some(
            "Bearer token is required."@,
        ) && save_answer(settings, written) == Err::<SettingsModel, Seq<char>>(
            "Bearer token is required."@,
        ),
        visible(settings.bearer_token) && !visible(settings.default_save_path) ==> settings_fault(
            settings,
        ) == Some("Default save path is required."@) && save_answer(settings, written) == Err::<
            SettingsModel,
            Seq<char>,
        >("Default save path is required."@),
{
    law_blank_text_shows_nothing(settings.bearer_token);
    law_blank_text_shows_nothing(settings.default_save_path);
}

/// What a file holds is loaded as it is, and nothing is made up but empty settings
/// where there is no file yet. What cannot be read or understood is an error that
/// ends with the explanation.
pub proof fn law_file_is_loaded_as_it_is(settings: SettingsModel, explanation: Seq<char>)
    ensures
        loaded(FileModel::Parsed(settings)) == Ok::<SettingsModel, Seq<char>>(settings),
        loaded(FileModel::Missing) matches Ok(empty) && empty.bearer_token.len() == 0
            && empty.default_save_path.len() == 0,
        loaded(FileModel::Malformed(explanation)) == Err::<SettingsModel, Seq<char>>(
            "Failed to parse settings file: "@ + explanation,
        ),
        loaded(FileModel::Unreadable(explanation)) == Err::<SettingsModel, Seq<char>>(
            "Failed to read settings file: "@ + explanation,
        ),
        loaded(FileModel::Nowhere(explanation)) == Err::<SettingsModel, Seq<char>>(explanation),
{
}

/// The user is told at which step writing the settings failed, and why.
pub proof fn law_failed_writing_is_explained(error: String)
    ensures
        written_of(Ok(())) == Ok::<(), Seq<char>>(()),
        written_of(Err(SaveFailure::Place(error))) == Err::<(), Seq<char>>(error@),
        written_of(Err(SaveFailure::Directory(error))) == Err::<(), Seq<char>>(
            "Failed to create settings directory: "@ + error@,
        ),
        written_of(Err(SaveFailure::Serialization(error))) == Err::<(), Seq<char>>(
            "Failed to serialize settings: "@ + error@,
        ),
        written_of(Err(SaveFailure::Writing(error))) == Err::<(), Seq<char>>(
            "Failed to write settings file: "@ + error@,
        ),
{
}

/// Settings and their file are seen as they are.
pub proof fn law_settings_are_seen_as_they_are(settings: AppSettings, text: String)
    ensures
        settings@.bearer_token == settings.bearer_token@,
        settings@.default_save_path == settings.default_save_path@,
        settings_of(Ok(settings)) == Ok::<SettingsModel, Seq<char>>(settings@),
        settings_of(Err(text)) == Err::<SettingsModel, Seq<char>>(text@),
        SettingsFile::Parsed(settings)@ == FileModel::Parsed(settings@),
        SettingsFile::Malformed(text)@ == FileModel::Malformed(text@),
        SettingsFile::Missing@ == FileModel::Missing,
        SettingsFile::Unreadable(text)@ == FileModel::Unreadable(text@),
        SettingsFile::Nowhere(text)@ == FileModel::Nowhere(text@),
{
}

/// Settings are kept where each system keeps them: with the local data on Windows, with
/// the data on macOS and with the configuration elsewhere, and everywhere under the same
/// directory and file name.
pub proof fn law_settings_have_their_place(platform: Platform)
    ensures
        platform is Windows <==> base_for(platform) is LocalData,
        platform is MacOs <==> base_for(platform) is Data,
        platform is Other <==> base_for(platform) is Config,
        SETTINGS_DIRECTORY@ == "TorboxClient"@,
        SETTINGS_FILE@ == "settings.json"@,
{
}

} // verus!
