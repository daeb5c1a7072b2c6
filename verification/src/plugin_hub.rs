//! The plugin hub: the list of installable plugins, and the protocol by which
//! one is installed.
//!
//! An installation is clone, then validate, then keep or roll back. The hub
//! decides each step; the host carries it out and reports back. Each step is a
//! value that is used up by its report, so the steps cannot be taken out of
//! order:
//!
//! 1. [`PluginHubServiceImpl::install`] gives a [`CloneStep`]: clone
//!    `source_url` into `target`.
//! 2. [`CloneStep::cloned`] ends the installation if the clone failed, and
//!    else gives a [`ManifestStep`]: read the file at `manifest_path`.
//! 3. [`ManifestStep::manifest_read`] accepts the plugin if the file holds a
//!    manifest, and else gives a [`RollbackStep`]: delete `target`.
//! 4. [`RollbackStep::rolled_back`] ends the installation with the error,
//!    whether or not the deletion worked.

use crate::manifest::{
    manifest_of_text, parse_manifest, Manifest, ManifestError, ManifestView,
};
use vstd::prelude::*;

verus! {

/// A plugin that can be installed. Its name identifies it.
#[derive(Debug, PartialEq, Eq)]
pub struct Plugin {
    pub name: String,
    pub source_url: String,
    pub description: String,
}

/// A plugin descriptor as plain values.
pub struct PluginView {
    pub name: Seq<char>,
    pub source_url: Seq<char>,
    pub description: Seq<char>,
}

impl View for Plugin {
    type V = PluginView;

    open spec fn view(&self) -> PluginView {
        PluginView {
            name: self.name@,
            source_url: self.source_url@,
            description: self.description@,
        }
    }
}

impl Clone for Plugin {
    fn clone(&self) -> (copy: Self)
        ensures
            copy@ == self@,
    {
        Plugin {
            name: self.name.clone(),
            source_url: self.source_url.clone(),
            description: self.description.clone(),
        }
    }
}

#[derive(Clone, Copy, Debug, PartialEq, Eq, Structural)]
pub enum PluginHubError {
    /// The plugin could not be installed: its repository could not be cloned,
    /// or the clone holds no valid manifest.
    InstallationError,
}

/// The descriptors of a list of plugins.
pub open spec fn descriptors_of(plugins: Seq<Plugin>) -> Seq<PluginView> {
    plugins.map_values(|p: Plugin| p@)
}

/// The one plugin that the hub knows of until a real catalogue exists.
pub open spec fn known_plugin() -> PluginView {
    PluginView {
        name: "rust_plugin_example "@,
        source_url: "https://github.com/lagrappe42/rust_plugin_example"@,
        description: "my awesome plugin"@,
    }
}

/// Whether each descriptor has a name of its own.
pub open spec fn unique_names(descriptors: Seq<PluginView>) -> bool {
    forall|i: int, j: int|
        0 <= i < j < descriptors.len() ==> (#[trigger] descriptors[i]).name != (
        #[trigger] descriptors[j]).name
}

/// Where a plugin of the given name is installed under `plugins_dir`.
pub open spec fn install_target(plugins_dir: Seq<char>, name: Seq<char>) -> Seq<char> {
    plugins_dir + "/"@ + name
}

/// Where the manifest of a plugin installed at `target` lies.
pub open spec fn manifest_path_of(target: Seq<char>) -> Seq<char> {
    target + "/Cargo.toml"@
}

#[derive(Debug)]
pub struct PluginHubServiceImpl {
    plugins: Vec<Plugin>,
}

impl View for PluginHubServiceImpl {
    type V = Seq<PluginView>;

    /// The descriptors that the hub lists, in order.
    closed spec fn view(&self) -> Seq<PluginView> {
        descriptors_of(self.plugins@)
    }
}

/// First step of an installation: clone `source_url` into `target`.
#[derive(Debug)]
pub struct CloneStep {
    source_url: String,
    target: String,
}

/// What a clone step asks for.
pub struct CloneStepView {
    pub source_url: Seq<char>,
    pub target: Seq<char>,
}

/// Second step: read the manifest of the clone at `target`.
#[derive(Debug)]
pub struct ManifestStep {
    target: String,
}

/// Last step of an installation that failed after the clone: delete `target`.
#[derive(Debug)]
pub struct RollbackStep {
    target: String,
    reason: ManifestFailure,
}

/// Why a clone was not accepted.
#[derive(Clone, Copy, Debug, PartialEq, Eq, Structural)]
pub enum ManifestFailure {
    /// The manifest file could not be read.
    Unreadable,
    /// The manifest file was read and is not a manifest.
    Invalid(ManifestError),
}

/// What follows a clone.
#[derive(Debug)]
pub enum AfterClone {
    /// The clone is there: read its manifest.
    ReadManifest(ManifestStep),
    /// The clone failed. Nothing is rolled back: what a failed clone leaves
    /// behind is not known.
    Failed(PluginHubError),
}

/// What follows a clone, as plain values.
pub enum AfterCloneView {
    ReadManifest { target: Seq<char> },
    Failed(PluginHubError),
}

/// What follows the reading of the manifest.
#[derive(Debug)]
pub enum AfterManifest {
    /// The plugin is installed; the clone stays where it is.
    Installed(Manifest),
    /// The clone is not a plugin: delete it.
    Rollback(RollbackStep),
}

/// What follows the reading of the manifest, as plain values.
pub enum AfterManifestView {
    Installed(ManifestView),
    Rollback { target: Seq<char>, reason: ManifestFailure },
}

/// The first step of installing `plugin` under `plugins_dir`.
pub open spec fn install_spec(plugins_dir: Seq<char>, plugin: PluginView) -> CloneStepView {
    CloneStepView {
        source_url: plugin.source_url,
        target: install_target(plugins_dir, plugin.name),
    }
}

/// The step after a clone that succeeded (`cloned`) or failed.
pub open spec fn cloned_spec(step: CloneStepView, cloned: bool) -> AfterCloneView {
    if cloned {
        AfterCloneView::ReadManifest { target: step.target }
    } else {
        AfterCloneView::Failed(PluginHubError::InstallationError)
    }
}

/// The step after the manifest file of the clone at `target` was read, with
/// its text, or could not be read.
pub open spec fn manifest_read_spec(target: Seq<char>, content: Option<Seq<char>>)
    -> AfterManifestView {
    match content {
        None => AfterManifestView::Rollback { target, reason: ManifestFailure::Unreadable },
        Some(text) => match manifest_of_text(text) {
            Ok(manifest) => AfterManifestView::Installed(manifest),
            Err(e) => AfterManifestView::Rollback { target, reason: ManifestFailure::Invalid(e) },
        },
    }
}

/// How an installation ends when its steps meet with the given outcomes:
/// whether the clone worked, what the manifest file held if it could be read,
/// and whether a rollback, where one was called for, worked.
pub open spec fn install_result(
    plugins_dir: Seq<char>,
    plugin: PluginView,
    cloned: bool,
    content: Option<Seq<char>>,
    rolled_back: bool,
) -> Result<(), PluginHubError> {
    match cloned_spec(install_spec(plugins_dir, plugin), cloned) {
        AfterCloneView::Failed(e) => Err(e),
        AfterCloneView::ReadManifest { target } => match manifest_read_spec(target, content) {
            AfterManifestView::Installed(_) => Ok(()),
            AfterManifestView::Rollback { .. } => Err(PluginHubError::InstallationError),
        },
    }
}

/// The directory that such an installation asks the host to delete, if any.
pub open spec fn install_rollback(
    plugins_dir: Seq<char>,
    plugin: PluginView,
    cloned: bool,
    content: Option<Seq<char>>,
) -> Option<Seq<char>> {
    match cloned_spec(install_spec(plugins_dir, plugin), cloned) {
        AfterCloneView::Failed(_) => None,
        AfterCloneView::ReadManifest { target } => match manifest_read_spec(target, content) {
            AfterManifestView::Installed(_) => None,
            AfterManifestView::Rollback { target, .. } => Some(target),
        },
    }
}

impl PluginHubServiceImpl {
    pub fn new() -> (hub: Self)
        ensures
            hub@ == seq![known_plugin()],
            unique_names(hub@),
    {
        let plugin = Plugin {
            name: String::from_str("rust_plugin_example "),
            source_url: String::from_str("https://github.com/lagrappe42/rust_plugin_example"),
            description: String::from_str("my awesome plugin"),
        };
        let mut plugins: Vec<Plugin> = Vec::new();
        plugins.push(plugin);
        assert(descriptors_of(plugins@) =~= seq![known_plugin()]);
        PluginHubServiceImpl { plugins }
    }

    /// The plugins that can be installed.
    pub fn get_all(&self) -> (plugins: &Vec<Plugin>)
        ensures
            descriptors_of(plugins@) == self@,
    {
        &self.plugins
    }

    /// Begins the installation of `plugin` under `plugins_dir`.
    pub fn install(&self, plugins_dir: &str, plugin: &Plugin) -> (step: CloneStep)
        ensures
            step@ == install_spec(plugins_dir@, plugin@),
    {
        let mut target = String::from_str(plugins_dir);
        target.append("/");
        target.append(plugin.name.as_str());
        CloneStep { source_url: plugin.source_url.clone(), target }
    }
}

impl View for CloneStep {
    type V = CloneStepView;

    closed spec fn view(&self) -> CloneStepView {
        CloneStepView { source_url: self.source_url@, target: self.target@ }
    }
}

impl CloneStep {
    /// The repository to clone.
    pub fn source_url(&self) -> (url: &str)
        ensures
            url@ == self@.source_url,
    {
        self.source_url.as_str()
    }

    /// The directory to clone into.
    pub fn target(&self) -> (target: &str)
        ensures
            target@ == self@.target,
    {
        self.target.as_str()
    }

    /// Reports whether the clone succeeded.
    pub fn cloned(self, cloned: bool) -> (next: AfterClone)
        ensures
            next@ == cloned_spec(self@, cloned),
    {
        if cloned {
            AfterClone::ReadManifest(ManifestStep { target: self.target })
        } else {
            AfterClone::Failed(PluginHubError::InstallationError)
        }
    }
}

impl ManifestStep {
    /// The directory that holds the clone.
    pub closed spec fn target_spec(&self) -> Seq<char> {
        self.target@
    }

    /// The directory that holds the clone.
    pub fn target(&self) -> (target: &str)
        ensures
            target@ == self.target_spec(),
    {
        self.target.as_str()
    }

    /// The file to read.
    pub fn manifest_path(&self) -> (path: String)
        ensures
            path@ == manifest_path_of(self.target_spec()),
    {
        let mut path = self.target.clone();
        path.append("/Cargo.toml");
        path
    }

    /// Reports what the manifest file holds, or that it could not be read.
    pub fn manifest_read(self, content: Option<String>) -> (next: AfterManifest)
        ensures
            next@ == manifest_read_spec(
                self.target_spec(),
                match content {
                    Some(text) => Some(text@),
                    None => None,
                },
            ),
    {
        match content {
            None => AfterManifest::Rollback(
                RollbackStep { target: self.target, reason: ManifestFailure::Unreadable },
            ),
            Some(text) => match parse_manifest(text.as_str()) {
                Ok(manifest) => AfterManifest::Installed(manifest),
                Err(e) => AfterManifest::Rollback(
                    RollbackStep { target: self.target, reason: ManifestFailure::Invalid(e) },
                ),
            },
        }
    }
}

impl View for AfterClone {
    type V = AfterCloneView;

    open spec fn view(&self) -> AfterCloneView {
        match self {
            AfterClone::ReadManifest(step) => AfterCloneView::ReadManifest {
                target: step.target_spec(),
            },
            AfterClone::Failed(e) => AfterCloneView::Failed(*e),
        }
    }
}

impl RollbackStep {
    /// The directory to delete.
    pub closed spec fn target_spec(&self) -> Seq<char> {
        self.target@
    }

    /// Why the clone was not accepted.
    pub closed spec fn reason_spec(&self) -> ManifestFailure {
        self.reason
    }

    /// The directory to delete.
    pub fn target(&self) -> (target: &str)
        ensures
            target@ == self.target_spec(),
    {
        self.target.as_str()
    }

    /// Why the clone was not accepted.
    pub fn reason(&self) -> (reason: ManifestFailure)
        ensures
            reason == self.reason_spec(),
    {
        self.reason
    }

    /// Reports whether the deletion succeeded, and ends the installation.
    /// The error is that of the manifest either way: a deletion that failed
    /// does not stand in for it.
    pub fn rolled_back(self, removed: bool) -> (error: PluginHubError)
        ensures
            error == PluginHubError::InstallationError,
    {
        PluginHubError::InstallationError
    }
}

impl View for AfterManifest {
    type V = AfterManifestView;

    open spec fn view(&self) -> AfterManifestView {
        match self {
            AfterManifest::Installed(manifest) => AfterManifestView::Installed(manifest@),
            AfterManifest::Rollback(step) => AfterManifestView::Rollback {
                target: step.target_spec(),
                reason: step.reason_spec(),
            },
        }
    }
}

/// A plugin whose repository could be cloned, and whose clone holds a valid
/// manifest, is installed: the installation succeeds, and the host is never
/// asked to delete the clone.
pub proof fn valid_plugin_is_installed(
    plugins_dir: Seq<char>,
    plugin: PluginView,
    manifest_text: Seq<char>,
    rolled_back: bool,
)
    requires
        manifest_of_text(manifest_text) is Ok,
    ensures
        install_result(plugins_dir, plugin, true, Some(manifest_text), rolled_back) == Ok::<
            (),
            PluginHubError,
        >(()),
        install_rollback(plugins_dir, plugin, true, Some(manifest_text)) is None,
        cloned_spec(install_spec(plugins_dir, plugin), true) == (AfterCloneView::ReadManifest {
            target: install_target(plugins_dir, plugin.name),
        }),
        manifest_read_spec(install_target(plugins_dir, plugin.name), Some(manifest_text))
            == AfterManifestView::Installed(manifest_of_text(manifest_text)->Ok_0),
{
}

/// A clone without a readable manifest is rolled back: the installation
/// fails with `InstallationError`, and the host is asked to delete the very
/// folder that the plugin was cloned into. The error is the same whether or
/// not the deletion works.
pub proof fn missing_manifest_is_rolled_back(
    plugins_dir: Seq<char>,
    plugin: PluginView,
    rolled_back: bool,
)
    ensures
        install_result(plugins_dir, plugin, true, None, rolled_back) == Err::<(), PluginHubError>(
            PluginHubError::InstallationError,
        ),
        install_rollback(plugins_dir, plugin, true, None) == Some(
            install_target(plugins_dir, plugin.name),
        ),
        install_spec(plugins_dir, plugin).target == install_target(plugins_dir, plugin.name),
        manifest_read_spec(install_target(plugins_dir, plugin.name), None) == (
        AfterManifestView::Rollback {
            target: install_target(plugins_dir, plugin.name),
            reason: ManifestFailure::Unreadable,
        }),
{
}

/// A clone whose manifest file is not a manifest is rolled back in the same
/// way.
pub proof fn invalid_manifest_is_rolled_back(
    plugins_dir: Seq<char>,
    plugin: PluginView,
    manifest_text: Seq<char>,
    rolled_back: bool,
)
    requires
        manifest_of_text(manifest_text) is Err,
    ensures
        install_result(plugins_dir, plugin, true, Some(manifest_text), rolled_back) == Err::<
            (),
            PluginHubError,
        >(PluginHubError::InstallationError),
        install_rollback(plugins_dir, plugin, true, Some(manifest_text)) == Some(
            install_target(plugins_dir, plugin.name),
        ),
        manifest_read_spec(install_target(plugins_dir, plugin.name), Some(manifest_text)) == (
        AfterManifestView::Rollback {
            target: install_target(plugins_dir, plugin.name),
            reason: ManifestFailure::Invalid(manifest_of_text(manifest_text)->Err_0),
        }),
{
}

/// A clone that failed ends the installation at once: nothing is read, and
/// nothing is deleted.
pub proof fn failed_clone_is_not_rolled_back(
    plugins_dir: Seq<char>,
    plugin: PluginView,
    content: Option<Seq<char>>,
    rolled_back: bool,
)
    ensures
        install_result(plugins_dir, plugin, false, content, rolled_back) == Err::<
            (),
            PluginHubError,
        >(PluginHubError::InstallationError),
        install_rollback(plugins_dir, plugin, false, content) is None,
        cloned_spec(install_spec(plugins_dir, plugin), false) == AfterCloneView::Failed(
            PluginHubError::InstallationError,
        ),
{
}

/// Listing the plugins changes nothing: two listings of the same hub name
/// the same descriptors, in the same order.
pub proof fn get_all_is_stable(hub: PluginHubServiceImpl, first: Seq<Plugin>, second: Seq<Plugin>)
    requires
        descriptors_of(first) == hub@,
        descriptors_of(second) == hub@,
    ensures
        descriptors_of(first) == descriptors_of(second),
        descriptors_of(first).to_set() == descriptors_of(second).to_set(),
{
}

} // verus!
