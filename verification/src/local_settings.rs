//! Where the host keeps its settings, and what has to be there before it can
//! run: the settings folder, the plugins folder in it, and the file that
//! lists the installed plugins.
//!
//! The library names the paths and decides, probe by probe, what has to be
//! created. The host looks at the disk and writes to it.

use std::path::PathBuf;
use vstd::prelude::*;

verus! {

/// The environment variable that names the settings folder.
pub const ENV_SETTING_DEFAULT_FOLDER_VAR: &'static str = "LAGRAPPE_SETTINGS_DIR";

/// The settings folder under the user's home, where the variable is not set.
pub const SETTING_FOLDER_NAME: &'static str = ".lagrappe";

/// The folder, inside the settings folder, that holds the installed plugins.
pub const PLUGINS_FOLDER_NAME: &'static str = "plugins";

/// The file, inside the settings folder, that lists the installed plugins.
pub const PLUGINS_DESCRIPTORS_FILE_NAME: &'static str = "plugins.json";

/// `std::path::PathBuf`. The library hands such values on and asks std to
/// extend them; it claims nothing about what one holds.
#[verifier::external_type_specification]
#[verifier::external_body]
pub struct ExPathBuf(std::path::PathBuf);

/// `serde_json::Error`, the reason why a value could not be written as JSON.
#[verifier::external_type_specification]
#[verifier::external_body]
pub struct ExJsonError(serde_json::Error);

/// `Path::join`: `base` extended by `leaf`, as the platform writes paths.
#[verifier::external_body]
fn path_join(base: &PathBuf, leaf: &str) -> (joined: PathBuf) {
    base.join(leaf)
}

/// `Path::to_str`: the path as text, where it is valid Unicode.
#[verifier::external_body]
fn path_to_str<'a>(path: &'a PathBuf) -> (text: Option<&'a str>) {
    path.to_str()
}

/// `serde_json::to_string` on a list without elements. Where it succeeds, the
/// text is an empty JSON array.
#[verifier::external_body]
fn empty_list_json() -> (json: Result<String, serde_json::Error>)
    ensures
        json matches Ok(text) ==> text@ == "[]"@,
{
    serde_json::to_string(&Vec::<serde_json::Value>::new())
}

#[derive(Clone, Copy, Debug, PartialEq, Eq, Structural)]
pub enum LocalSettingsError {
    /// Neither the environment nor the home folder names a settings folder.
    UnableToLocateSettingsDir,
    /// A folder or the plugin list could not be created.
    UnableToCreateSettingsDir,
    /// The empty plugin list could not be written as JSON.
    UnableToSerializeData,
}

/// What the host knows of an installed plugin.
#[derive(Clone, Debug, PartialEq, Eq)]
pub struct PluginSettings {
    pub name: String,
    pub is_enabled: bool,
    /// The shared object that the extension manager is to load.
    pub path_to_shared_lib: String,
}

#[derive(Debug)]
pub struct LocalSettingsProviderImpl {
    pub user_settings_dir: String,
    pub plugins_dir: String,
    pub plugins_descriptors_file: String,
}

/// `name` inside the folder `dir`.
pub open spec fn path_in(dir: Seq<char>, name: Seq<char>) -> Seq<char> {
    dir + "/"@ + name
}

/// The settings folder, given what the environment variable holds and what
/// the settings folder under the user's home would be: the variable wins.
pub open spec fn settings_dir_spec(env_value: Option<Seq<char>>, home_settings: Option<Seq<char>>)
    -> Result<Seq<char>, LocalSettingsError> {
    match env_value {
        Some(dir) => Ok(dir),
        None => match home_settings {
            Some(dir) => Ok(dir),
            None => Err(LocalSettingsError::UnableToLocateSettingsDir),
        },
    }
}

/// An optional text as plain values.
pub open spec fn text_view(text: Option<String>) -> Option<Seq<char>> {
    match text {
        Some(s) => Some(s@),
        None => None,
    }
}

/// A located folder, or the reason why there is none, as plain values.
pub open spec fn located_view(located: Result<String, LocalSettingsError>) -> Result<
    Seq<char>,
    LocalSettingsError,
> {
    match located {
        Ok(dir) => Ok(dir@),
        Err(e) => Err(e),
    }
}

fn join_in(dir: &str, name: &str) -> (path: String)
    ensures
        path@ == path_in(dir@, name@),
{
    let mut path = String::from_str(dir);
    path.append("/");
    path.append(name);
    path
}

impl LocalSettingsProviderImpl {
    /// What every provider holds: the two inner paths lie in the settings
    /// folder, under their fixed names.
    pub open spec fn well_formed(&self) -> bool {
        &&& self.plugins_dir@ == path_in(self.user_settings_dir@, PLUGINS_FOLDER_NAME@)
        &&& self.plugins_descriptors_file@ == path_in(
            self.user_settings_dir@,
            PLUGINS_DESCRIPTORS_FILE_NAME@,
        )
    }

    /// Chooses the settings folder from what the environment variable holds
    /// and from the settings folder under the user's home, where there is one.
    pub fn choose_settings_dir(env_value: Option<String>, home_settings: Option<String>) -> (located:
        Result<String, LocalSettingsError>)
        ensures
            located_view(located) == settings_dir_spec(
                text_view(env_value),
                text_view(home_settings),
            ),
    {
        match env_value {
            Some(dir) => Ok(dir),
            None => match home_settings {
                Some(dir) => Ok(dir),
                None => Err(LocalSettingsError::UnableToLocateSettingsDir),
            },
        }
    }

    /// Locates the settings folder: what the environment variable holds, or
    /// else the folder `.lagrappe` under the user's home. How the home path is
    /// extended is the platform's matter, so of that case only this is known:
    /// the folder is found, or it is missing because the path is no text.
    pub fn locate_user_settings_dir(env_value: Option<String>, home: Option<PathBuf>) -> (located:
        Result<String, LocalSettingsError>)
        ensures
            env_value matches Some(dir) ==> located_view(located) == Ok::<
                Seq<char>,
                LocalSettingsError,
            >(dir@),
            env_value is None && home is None ==> located is Err,
            located matches Err(e) ==> e == LocalSettingsError::UnableToLocateSettingsDir,
    {
        let home_settings = match env_value {
            Some(_) => None,
            None => match home {
                Some(home) => {
                    let settings = path_join(&home, SETTING_FOLDER_NAME);
                    match path_to_str(&settings) {
                        Some(text) => Some(String::from_str(text)),
                        None => None,
                    }
                },
                None => None,
            },
        };
        Self::choose_settings_dir(env_value, home_settings)
    }

    /// The provider for the settings folder `user_settings_dir`.
    pub fn at(user_settings_dir: String) -> (provider: Self)
        ensures
            provider.user_settings_dir == user_settings_dir,
            provider.well_formed(),
    {
        let plugins_dir = join_in(user_settings_dir.as_str(), PLUGINS_FOLDER_NAME);
        let plugins_descriptors_file = join_in(
            user_settings_dir.as_str(),
            PLUGINS_DESCRIPTORS_FILE_NAME,
        );
        LocalSettingsProviderImpl { user_settings_dir, plugins_dir, plugins_descriptors_file }
    }

    /// Locates the settings folder and names the paths in it. Nothing is
    /// created: see `init_user_settings_if_not_exists`.
    pub fn new(env_value: Option<String>, home: Option<PathBuf>) -> (provider: Result<
        Self,
        LocalSettingsError,
    >)
        ensures
            match provider {
                Ok(p) => p.well_formed() && (env_value matches Some(dir) ==> p.user_settings_dir@
                    == dir@) && !(env_value is None && home is None),
                Err(e) => e == LocalSettingsError::UnableToLocateSettingsDir && env_value is None,
            },
    {
        match Self::locate_user_settings_dir(env_value, home) {
            Ok(dir) => Ok(Self::at(dir)),
            Err(e) => Err(e),
        }
    }
}

/// Where the preparation of the settings folder stands: what the host was
/// last asked to do.
#[derive(Clone, Copy, Debug, PartialEq, Eq)]
pub enum InitPhase {
    ProbeSettingsDir,
    CreateSettingsDir,
    ProbePluginsDir,
    CreatePluginsDir,
    ProbeDescriptors,
    WriteDescriptors,
    Finished(Result<(), LocalSettingsError>),
}

/// What the host is to do next.
#[derive(Debug, PartialEq, Eq)]
pub enum InitAction {
    /// Tell whether anything exists at this path.
    Probe(String),
    /// Create this folder, and tell whether that worked.
    CreateDir(String),
    /// Write this text to this file, and tell whether that worked.
    WriteFile { path: String, content: String },
    /// Nothing: the preparation has ended, with this result.
    Done(Result<(), LocalSettingsError>),
}

/// An action as plain values.
pub enum InitActionView {
    Probe(Seq<char>),
    CreateDir(Seq<char>),
    WriteFile { path: Seq<char>, content: Seq<char> },
    Done(Result<(), LocalSettingsError>),
}

impl View for InitAction {
    type V = InitActionView;

    open spec fn view(&self) -> InitActionView {
        match self {
            InitAction::Probe(path) => InitActionView::Probe(path@),
            InitAction::CreateDir(path) => InitActionView::CreateDir(path@),
            InitAction::WriteFile { path, content } => InitActionView::WriteFile {
                path: path@,
                content: content@,
            },
            InitAction::Done(result) => InitActionView::Done(*result),
        }
    }
}

/// The preparation of a settings folder, between two reports of the host.
#[derive(Debug)]
pub struct SettingsInit {
    phase: InitPhase,
    user_settings_dir: String,
    plugins_dir: String,
    plugins_descriptors_file: String,
}

/// A preparation as plain values.
pub struct SettingsInitView {
    pub phase: InitPhase,
    pub user_settings_dir: Seq<char>,
    pub plugins_dir: Seq<char>,
    pub plugins_descriptors_file: Seq<char>,
}

impl View for SettingsInit {
    type V = SettingsInitView;

    closed spec fn view(&self) -> SettingsInitView {
        SettingsInitView {
            phase: self.phase,
            user_settings_dir: self.user_settings_dir@,
            plugins_dir: self.plugins_dir@,
            plugins_descriptors_file: self.plugins_descriptors_file@,
        }
    }
}

/// The preparation in the given phase, and the action that the phase asks
/// for.
pub open spec fn enter(state: SettingsInitView, phase: InitPhase, action: InitActionView) -> (
    SettingsInitView,
    InitActionView,
) {
    (SettingsInitView { phase, ..state }, action)
}

/// The end of the preparation.
pub open spec fn finish(state: SettingsInitView, result: Result<(), LocalSettingsError>) -> (
    SettingsInitView,
    InitActionView,
) {
    enter(state, InitPhase::Finished(result), InitActionView::Done(result))
}

/// How a preparation begins: with the question whether the settings folder
/// exists.
pub open spec fn begin_spec(
    user_settings_dir: Seq<char>,
    plugins_dir: Seq<char>,
    plugins_descriptors_file: Seq<char>,
) -> (SettingsInitView, InitActionView) {
    (
        SettingsInitView {
            phase: InitPhase::ProbeSettingsDir,
            user_settings_dir,
            plugins_dir,
            plugins_descriptors_file,
        },
        InitActionView::Probe(user_settings_dir),
    )
}

/// How a preparation goes on after the host's report. `reply` answers the
/// last action: whether the path exists, or whether the creation worked.
/// `serialized` is the empty plugin list as JSON, or `None` where it could
/// not be written; it counts only when the list is found missing.
///
/// Each of the three paths is probed in turn, settings folder first, and
/// created where it is missing. A creation that fails ends the preparation,
/// as does a list that cannot be serialized.
pub open spec fn advance_spec(state: SettingsInitView, reply: bool, serialized: Option<Seq<char>>)
    -> (SettingsInitView, InitActionView) {
    let probe_plugins = enter(
        state,
        InitPhase::ProbePluginsDir,
        InitActionView::Probe(state.plugins_dir),
    );
    let probe_descriptors = enter(
        state,
        InitPhase::ProbeDescriptors,
        InitActionView::Probe(state.plugins_descriptors_file),
    );
    let not_created = finish(state, Err(LocalSettingsError::UnableToCreateSettingsDir));
    match state.phase {
        InitPhase::ProbeSettingsDir => if reply {
            probe_plugins
        } else {
            enter(
                state,
                InitPhase::CreateSettingsDir,
                InitActionView::CreateDir(state.user_settings_dir),
            )
        },
        InitPhase::CreateSettingsDir => if reply {
            probe_plugins
        } else {
            not_created
        },
        InitPhase::ProbePluginsDir => if reply {
            probe_descriptors
        } else {
            enter(state, InitPhase::CreatePluginsDir, InitActionView::CreateDir(state.plugins_dir))
        },
        InitPhase::CreatePluginsDir => if reply {
            probe_descriptors
        } else {
            not_created
        },
        InitPhase::ProbeDescriptors => if reply {
            finish(state, Ok(()))
        } else {
            match serialized {
                Some(content) => enter(
                    state,
                    InitPhase::WriteDescriptors,
                    InitActionView::WriteFile { path: state.plugins_descriptors_file, content },
                ),
                None => finish(state, Err(LocalSettingsError::UnableToSerializeData)),
            }
        },
        InitPhase::WriteDescriptors => if reply {
            finish(state, Ok(()))
        } else {
            not_created
        },
        InitPhase::Finished(result) => finish(state, result),
    }
}

/// How many more reports a preparation can take before it has ended.
pub open spec fn reports_left(phase: InitPhase) -> nat {
    match phase {
        InitPhase::ProbeSettingsDir => 6,
        InitPhase::CreateSettingsDir => 5,
        InitPhase::ProbePluginsDir => 4,
        InitPhase::CreatePluginsDir => 3,
        InitPhase::ProbeDescriptors => 2,
        InitPhase::WriteDescriptors => 1,
        InitPhase::Finished(_) => 0,
    }
}

/// Every preparation ends: each report brings it closer to its end, whatever
/// the host reports, and once ended it stays as it is. So a host that goes
/// on until it is told `Done` is told so after six reports at most.
pub proof fn preparation_ends(state: SettingsInitView, reply: bool, serialized: Option<Seq<char>>)
    ensures
        !(state.phase is Finished) ==> reports_left(advance_spec(state, reply, serialized).0.phase)
            < reports_left(state.phase),
        state.phase is Finished ==> advance_spec(state, reply, serialized).0 == state,
        advance_spec(state, reply, serialized).1 is Done <==> advance_spec(
            state,
            reply,
            serialized,
        ).0.phase is Finished,
        advance_spec(state, reply, serialized).0.user_settings_dir == state.user_settings_dir,
        advance_spec(state, reply, serialized).0.plugins_dir == state.plugins_dir,
        advance_spec(state, reply, serialized).0.plugins_descriptors_file
            == state.plugins_descriptors_file,
{
}

/// Where the settings folder, the plugins folder and the plugin list all
/// exist, the preparation asks three questions, creates nothing and succeeds.
pub proof fn nothing_is_created_where_all_exists(
    user_settings_dir: Seq<char>,
    plugins_dir: Seq<char>,
    plugins_descriptors_file: Seq<char>,
    serialized: Option<Seq<char>>,
)
    ensures
        ({
            let begun = begin_spec(user_settings_dir, plugins_dir, plugins_descriptors_file);
            let second = advance_spec(begun.0, true, serialized);
            let third = advance_spec(second.0, true, serialized);
            let last = advance_spec(third.0, true, serialized);
            &&& begun.1 == InitActionView::Probe(user_settings_dir)
            &&& second.1 == InitActionView::Probe(plugins_dir)
            &&& third.1 == InitActionView::Probe(plugins_descriptors_file)
            &&& last.1 == InitActionView::Done(Ok(()))
        }),
{
}

impl LocalSettingsProviderImpl {
    /// Begins the preparation of the settings folder: whatever is missing of
    /// the folder, the plugins folder and the plugin list will be created.
    pub fn init_user_settings_if_not_exists(&self) -> (begun: (SettingsInit, InitAction))
        ensures
            (begun.0@, begun.1@) == begin_spec(
                self.user_settings_dir@,
                self.plugins_dir@,
                self.plugins_descriptors_file@,
            ),
    {
        let init = SettingsInit {
            phase: InitPhase::ProbeSettingsDir,
            user_settings_dir: self.user_settings_dir.clone(),
            plugins_dir: self.plugins_dir.clone(),
            plugins_descriptors_file: self.plugins_descriptors_file.clone(),
        };
        (init, InitAction::Probe(self.user_settings_dir.clone()))
    }
}

impl SettingsInit {
    fn enter(self, phase: InitPhase, action: InitAction) -> (next: (SettingsInit, InitAction))
        ensures
            (next.0@, next.1@) == enter(self@, phase, action@),
    {
        (
            SettingsInit {
                phase,
                user_settings_dir: self.user_settings_dir,
                plugins_dir: self.plugins_dir,
                plugins_descriptors_file: self.plugins_descriptors_file,
            },
            action,
        )
    }

    fn finish(self, result: Result<(), LocalSettingsError>) -> (next: (SettingsInit, InitAction))
        ensures
            (next.0@, next.1@) == finish(self@, result),
    {
        self.enter(InitPhase::Finished(result), InitAction::Done(result))
    }

    /// Whether the preparation has ended.
    pub fn is_finished(&self) -> (finished: bool)
        ensures
            finished == (self@.phase is Finished),
    {
        match self.phase {
            InitPhase::Finished(_) => true,
            _ => false,
        }
    }

    /// Goes on after the host's report, with the empty plugin list already
    /// serialized (or found impossible to serialize).
    pub fn advance_with(self, reply: bool, serialized: Option<String>) -> (next: (
        SettingsInit,
        InitAction,
    ))
        ensures
            (next.0@, next.1@) == advance_spec(self@, reply, text_view(serialized)),
    {
        match self.phase {
            InitPhase::ProbeSettingsDir => if reply {
                let action = InitAction::Probe(self.plugins_dir.clone());
                self.enter(InitPhase::ProbePluginsDir, action)
            } else {
                let action = InitAction::CreateDir(self.user_settings_dir.clone());
                self.enter(InitPhase::CreateSettingsDir, action)
            },
            InitPhase::CreateSettingsDir => if reply {
                let action = InitAction::Probe(self.plugins_dir.clone());
                self.enter(InitPhase::ProbePluginsDir, action)
            } else {
                self.finish(Err(LocalSettingsError::UnableToCreateSettingsDir))
            },
            InitPhase::ProbePluginsDir => if reply {
                let action = InitAction::Probe(self.plugins_descriptors_file.clone());
                self.enter(InitPhase::ProbeDescriptors, action)
            } else {
                let action = InitAction::CreateDir(self.plugins_dir.clone());
                self.enter(InitPhase::CreatePluginsDir, action)
            },
            InitPhase::CreatePluginsDir => if reply {
                let action = InitAction::Probe(self.plugins_descriptors_file.clone());
                self.enter(InitPhase::ProbeDescriptors, action)
            } else {
                self.finish(Err(LocalSettingsError::UnableToCreateSettingsDir))
            },
            InitPhase::ProbeDescriptors => if reply {
                self.finish(Ok(()))
            } else {
                match serialized {
                    Some(content) => {
                        let action = InitAction::WriteFile {
                            path: self.plugins_descriptors_file.clone(),
                            content,
                        };
                        self.enter(InitPhase::WriteDescriptors, action)
                    },
                    None => self.finish(Err(LocalSettingsError::UnableToSerializeData)),
                }
            },
            InitPhase::WriteDescriptors => if reply {
                self.finish(Ok(()))
            } else {
                self.finish(Err(LocalSettingsError::UnableToCreateSettingsDir))
            },
            InitPhase::Finished(result) => self.finish(result),
        }
    }

    /// Goes on after the host's report. Where the plugin list is found
    /// missing, an empty list is serialized for it; the list is then written
    /// as `[]`, unless that serialization fails, which ends the preparation.
    pub fn advance(self, reply: bool) -> (next: (SettingsInit, InitAction))
        ensures
            (next.0@, next.1@) == advance_spec(self@, reply, Some("[]"@)) || (next.0@, next.1@)
                == advance_spec(self@, reply, None),
            !(self@.phase is ProbeDescriptors) || reply ==> (next.0@, next.1@) == advance_spec(
                self@,
                reply,
                None,
            ),
    {
        let missing = match self.phase {
            InitPhase::ProbeDescriptors => !reply,
            _ => false,
        };
        let serialized = if missing {
            match empty_list_json() {
                Ok(text) => Some(text),
                Err(_) => None,
            }
        } else {
            None
        };
        self.advance_with(reply, serialized)
    }
}

} // verus!
