//! The interactive session as a finite-state machine, and the fixed
//! addresses and paths the session works with. The runner performs one
//! step's prompt, transfer or file operation, and `next_step` names the
//! step that its outcome leads to.

use vstd::prelude::*;
use vstd::string::StringExecFns;

verus! {

/// The stations of one installer session, in the order they are visited.
#[derive(Clone, Copy, Debug, PartialEq, Eq, Structural)]
pub enum Step {
    /// Nothing has happened yet.
    Start,
    /// The metadata endpoint is queried and the latest release resolved.
    ResolveVersion,
    /// The user is asked whether they use the standard launcher setup.
    AskLauncherType,
    /// The mods directory is checked for the resolved release file.
    CheckModInstalled,
    /// The user is asked whether to install the resolved release.
    AskInstallMod,
    /// The move-aside step runs and the release is downloaded and written.
    DoInstall,
    /// The mods directory is checked for the companion plugin file.
    CheckPluginInstalled,
    /// The user is asked whether to install the companion plugin.
    AskInstallPlugin,
    /// The plugin page is opened and the download poll runs to completion.
    DoInstallPlugin,
    /// The versions directory is checked for the engine loader.
    CheckEngineInstalled,
    /// The engine loader's download page is opened.
    OpenEnginePage,
    /// The session is over but for the final exit prompt.
    End,
}

/// What the runner reports back to the machine after acting on a step.
#[derive(Clone, Copy, Debug, PartialEq, Eq, Structural)]
pub enum Event {
    /// The session begins.
    Begin,
    /// The metadata query and resolution succeeded, or failed.
    Resolved { ok: bool },
    /// A yes/no prompt was answered; `yes` is its interpretation.
    Answer { yes: bool },
    /// A presence check found the thing there, or not.
    Found { present: bool },
    /// The step's action was carried out.
    ActionDone,
}

/// The session's one-way flow. A negative answer to the launcher question
/// ends the session early; a presence check that succeeds skips the
/// install block it guards; an event that does not belong to the current
/// step changes nothing.
pub open spec fn next_step_spec(s: Step, e: Event) -> Step {
    match (s, e) {
        (Step::Start, Event::Begin) => Step::ResolveVersion,
        (Step::ResolveVersion, Event::Resolved { ok }) => if ok {
            Step::AskLauncherType
        } else {
            Step::End
        },
        (Step::AskLauncherType, Event::Answer { yes }) => if yes {
            Step::CheckModInstalled
        } else {
            Step::End
        },
        (Step::CheckModInstalled, Event::Found { present }) => if present {
            Step::CheckPluginInstalled
        } else {
            Step::AskInstallMod
        },
        (Step::AskInstallMod, Event::Answer { yes }) => if yes {
            Step::DoInstall
        } else {
            Step::CheckPluginInstalled
        },
        (Step::DoInstall, Event::ActionDone) => Step::CheckPluginInstalled,
        (Step::CheckPluginInstalled, Event::Found { present }) => if present {
            Step::CheckEngineInstalled
        } else {
            Step::AskInstallPlugin
        },
        (Step::AskInstallPlugin, Event::Answer { yes }) => if yes {
            Step::DoInstallPlugin
        } else {
            Step::CheckEngineInstalled
        },
        (Step::DoInstallPlugin, Event::ActionDone) => Step::CheckEngineInstalled,
        (Step::CheckEngineInstalled, Event::Found { present }) => if present {
            Step::End
        } else {
            Step::OpenEnginePage
        },
        (Step::OpenEnginePage, Event::ActionDone) => Step::End,
        _ => s,
    }
}

/// Advances the session by one event.
pub fn next_step(s: Step, e: Event) -> (r: Step)
    ensures
        r == next_step_spec(s, e),
{
    match (s, e) {
        (Step::Start, Event::Begin) => Step::ResolveVersion,
        (Step::ResolveVersion, Event::Resolved { ok }) => if ok {
            Step::AskLauncherType
        } else {
            Step::End
        },
        (Step::AskLauncherType, Event::Answer { yes }) => if yes {
            Step::CheckModInstalled
        } else {
            Step::End
        },
        (Step::CheckModInstalled, Event::Found { present }) => if present {
            Step::CheckPluginInstalled
        } else {
            Step::AskInstallMod
        },
        (Step::AskInstallMod, Event::Answer { yes }) => if yes {
            Step::DoInstall
        } else {
            Step::CheckPluginInstalled
        },
        (Step::DoInstall, Event::ActionDone) => Step::CheckPluginInstalled,
        (Step::CheckPluginInstalled, Event::Found { present }) => if present {
            Step::CheckEngineInstalled
        } else {
            Step::AskInstallPlugin
        },
        (Step::AskInstallPlugin, Event::Answer { yes }) => if yes {
            Step::DoInstallPlugin
        } else {
            Step::CheckEngineInstalled
        },
        (Step::DoInstallPlugin, Event::ActionDone) => Step::CheckEngineInstalled,
        (Step::CheckEngineInstalled, Event::Found { present }) => if present {
            Step::End
        } else {
            Step::OpenEnginePage
        },
        (Step::OpenEnginePage, Event::ActionDone) => Step::End,
        (_, _) => s,
    }
}

/// A finished session stays finished: no event leads out of `End`.
pub proof fn lemma_end_absorbing(e: Event)
    ensures
        next_step_spec(Step::End, e) == Step::End,
{
}

/// When the presence check finds the companion plugin already installed,
/// the session skips the plugin assistant entirely and moves straight on
/// to the engine check: no page is opened and no poll runs.
pub proof fn lemma_present_plugin_skips_assistant()
    ensures
        next_step_spec(Step::CheckPluginInstalled, Event::Found { present: true })
            == Step::CheckEngineInstalled,
{
}

/// Address of the metadata endpoint naming the latest release.
pub open spec fn metadata_url_spec() -> Seq<char> {
    "https://cs-studios.net/skywars/download/get_latest_version.php"@
}

/// Returns the metadata endpoint's address.
pub fn metadata_url() -> (r: String)
    ensures
        r@ == metadata_url_spec(),
{
    "https://cs-studios.net/skywars/download/get_latest_version.php".to_owned()
}

/// Base of the per-file download endpoint.
pub open spec fn download_base() -> Seq<char> {
    "https://cs-studios.net/skywars/download/"@
}

/// Address a release file is downloaded from: the download base with the
/// file name appended.
pub fn download_url(file_name: &str) -> (r: String)
    ensures
        r@ == download_base() + file_name@,
{
    let mut r = "https://cs-studios.net/skywars/download/".to_owned();
    r.append(file_name);
    r
}

/// Address of the companion plugin's download page.
pub fn plugin_page_url() -> (r: String)
    ensures
        r@ == "https://optifine.net/downloads"@,
{
    "https://optifine.net/downloads".to_owned()
}

/// Address of the engine loader's download page.
pub fn engine_page_url() -> (r: String)
    ensures
        r@ == "https://files.minecraftforge.net/net/minecraftforge/forge/index_1.19.4.html"@,
{
    "https://files.minecraftforge.net/net/minecraftforge/forge/index_1.19.4.html".to_owned()
}

/// Path of the mods directory, relative to the platform data directory.
pub fn mods_dir_rel() -> (r: String)
    ensures
        r@ == ".minecraft/mods"@,
{
    ".minecraft/mods".to_owned()
}

/// Path of the versions directory, relative to the platform data directory.
pub fn versions_dir_rel() -> (r: String)
    ensures
        r@ == ".minecraft/versions"@,
{
    ".minecraft/versions".to_owned()
}

/// Name of the sibling directory that unrelated mods are moved into.
pub fn unused_mods_dir_name() -> (r: String)
    ensures
        r@ == "mods_unused"@,
{
    "mods_unused".to_owned()
}

} // verus!
