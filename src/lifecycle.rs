//! The installation lifecycle as a state machine: each step takes the current stage
//! and what just happened, and gives the next stage and what to do next.
use vstd::prelude::*;
use crate::version::{self, Version, VersionView, encode};

verus! {

/// How an installation ended.
#[derive(PartialEq, Eq, Structural, Clone, Copy, Debug)]
pub enum InstallOutcome {
    /// No release or no download fits the query.
    NotFound,
    /// The resolved version is installed already; nothing was written.
    AlreadyInstalled,
    /// The user declined the installation; nothing was written.
    Aborted,
    /// The version is installed; `removed_standard` tells whether the standard build
    /// of the same tag was removed afterwards.
    Installed { removed_standard: bool },
}

/// Where an installation stands.
/// `standard_installed` records, for a mono version, that the standard build of the
/// same tag was installed when the query was resolved.
pub enum InstallStage {
    /// Waiting for the query to be resolved.
    Searching,
    /// Waiting for the user to confirm installing `version` from `url`.
    Confirming { version: Version, url: String, standard_installed: bool },
    Downloading { version: Version, standard_installed: bool },
    Extracting { version: Version, standard_installed: bool },
    CleaningUp { version: Version, standard_installed: bool },
    /// Waiting for the user to accept or decline removing the standard build.
    OfferingRemoval { standard: Version },
    Removing { standard: Version },
    Finished { outcome: InstallOutcome },
}

/// What happened since the last step.
pub enum InstallEvent {
    /// The remote query was resolved (to a version and its download address, or to
    /// nothing), and the installed versions were listed.
    Resolved { found: Option<(Version, String)>, installed: Vec<Version> },
    /// The user answered the last question.
    Confirmed { yes: bool },
    Downloaded,
    Extracted,
    Cleaned,
    Removed,
}

/// What to do next.
pub enum InstallAction {
    /// Ask whether to install this version.
    AskInstall { version: Version },
    /// Download the archive from `url` and store it under `file_name`.
    Download { file_name: String, url: String },
    /// Unpack the downloaded archive.
    Extract,
    /// Delete the downloaded archive.
    DeleteArchive,
    /// Ask whether to remove this standard build, which the mono build just installed covers.
    AskRemoval { standard: Version },
    /// Delete the installation directory of this version.
    Remove { standard: Version },
    /// Report the outcome and stop.
    Finish { outcome: InstallOutcome },
    /// The event does not belong to this stage: nothing to do.
    Ignore,
}

/// What an `InstallStage` denotes.
pub enum StageView {
    Searching,
    Confirming { version: VersionView, url: Seq<char>, standard_installed: bool },
    Downloading { version: VersionView, standard_installed: bool },
    Extracting { version: VersionView, standard_installed: bool },
    CleaningUp { version: VersionView, standard_installed: bool },
    OfferingRemoval { standard: VersionView },
    Removing { standard: VersionView },
    Finished { outcome: InstallOutcome },
}

/// What an `InstallEvent` denotes.
pub enum EventView {
    Resolved { found: Option<(VersionView, Seq<char>)>, installed: Seq<VersionView> },
    Confirmed { yes: bool },
    Downloaded,
    Extracted,
    Cleaned,
    Removed,
}

/// What an `InstallAction` denotes.
pub enum ActionView {
    AskInstall { version: VersionView },
    Download { file_name: Seq<char>, url: Seq<char> },
    Extract,
    DeleteArchive,
    AskRemoval { standard: VersionView },
    Remove { standard: VersionView },
    Finish { outcome: InstallOutcome },
    Ignore,
}

/// The views of a sequence of versions.
pub open spec fn version_views(s: Seq<Version>) -> Seq<VersionView> {
    s.map_values(|v: Version| v@)
}

impl View for InstallStage {
    type V = StageView;

    open spec fn view(&self) -> StageView {
        match self {
            InstallStage::Searching => StageView::Searching,
            InstallStage::Confirming { version, url, standard_installed } => StageView::Confirming {
                version: version@,
                url: url@,
                standard_installed: *standard_installed,
            },
            InstallStage::Downloading { version, standard_installed } => StageView::Downloading {
                version: version@,
                standard_installed: *standard_installed,
            },
            InstallStage::Extracting { version, standard_installed } => StageView::Extracting {
                version: version@,
                standard_installed: *standard_installed,
            },
            InstallStage::CleaningUp { version, standard_installed } => StageView::CleaningUp {
                version: version@,
                standard_installed: *standard_installed,
            },
            InstallStage::OfferingRemoval { standard } => StageView::OfferingRemoval { standard: standard@ },
            InstallStage::Removing { standard } => StageView::Removing { standard: standard@ },
            InstallStage::Finished { outcome } => StageView::Finished { outcome: *outcome },
        }
    }
}

impl View for InstallEvent {
    type V = EventView;

    open spec fn view(&self) -> EventView {
        match self {
            InstallEvent::Resolved { found, installed } => EventView::Resolved {
                found: match found {
                    Some((v, url)) => Some((v@, url@)),
                    None => None,
                },
                installed: version_views(installed@),
            },
            InstallEvent::Confirmed { yes } => EventView::Confirmed { yes: *yes },
            InstallEvent::Downloaded => EventView::Downloaded,
            InstallEvent::Extracted => EventView::Extracted,
            InstallEvent::Cleaned => EventView::Cleaned,
            InstallEvent::Removed => EventView::Removed,
        }
    }
}

impl View for InstallAction {
    type V = ActionView;

    open spec fn view(&self) -> ActionView {
        match self {
            InstallAction::AskInstall { version } => ActionView::AskInstall { version: version@ },
            InstallAction::Download { file_name, url } => ActionView::Download { file_name: file_name@, url: url@ },
            InstallAction::Extract => ActionView::Extract,
            InstallAction::DeleteArchive => ActionView::DeleteArchive,
            InstallAction::AskRemoval { standard } => ActionView::AskRemoval { standard: standard@ },
            InstallAction::Remove { standard } => ActionView::Remove { standard: standard@ },
            InstallAction::Finish { outcome } => ActionView::Finish { outcome: *outcome },
            InstallAction::Ignore => ActionView::Ignore,
        }
    }
}

/// The standard build of the same tag.
pub open spec fn standard_of(v: VersionView) -> VersionView {
    VersionView { tag: v.tag, mono: false }
}

/// Ends the installation with `outcome`.
pub open spec fn finish(outcome: InstallOutcome) -> (StageView, ActionView) {
    (StageView::Finished { outcome }, ActionView::Finish { outcome })
}

/// One step of the installation: resolve, stop if already installed, confirm,
/// download, extract, delete the archive, then, after a mono install whose standard
/// build is installed too, offer to remove that standard build.
pub open spec fn install_transition(s: StageView, e: EventView) -> (StageView, ActionView) {
    match (s, e) {
        (StageView::Searching, EventView::Resolved { found, installed }) => match found {
            None => finish(InstallOutcome::NotFound),
            Some((v, url)) => if installed.contains(v) {
                finish(InstallOutcome::AlreadyInstalled)
            } else {
                (
                    StageView::Confirming {
                        version: v,
                        url,
                        standard_installed: v.mono && installed.contains(standard_of(v)),
                    },
                    ActionView::AskInstall { version: v },
                )
            },
        },
        (StageView::Confirming { version, url, standard_installed }, EventView::Confirmed { yes }) => if yes {
            (StageView::Downloading { version, standard_installed }, ActionView::Download { file_name: encode(version), url })
        } else {
            finish(InstallOutcome::Aborted)
        },
        (StageView::Downloading { version, standard_installed }, EventView::Downloaded) => (
            StageView::Extracting { version, standard_installed },
            ActionView::Extract,
        ),
        (StageView::Extracting { version, standard_installed }, EventView::Extracted) => (
            StageView::CleaningUp { version, standard_installed },
            ActionView::DeleteArchive,
        ),
        (StageView::CleaningUp { version, standard_installed }, EventView::Cleaned) => if standard_installed {
            (
                StageView::OfferingRemoval { standard: standard_of(version) },
                ActionView::AskRemoval { standard: standard_of(version) },
            )
        } else {
            finish(InstallOutcome::Installed { removed_standard: false })
        },
        (StageView::OfferingRemoval { standard }, EventView::Confirmed { yes }) => if yes {
            (StageView::Removing { standard }, ActionView::Remove { standard })
        } else {
            finish(InstallOutcome::Installed { removed_standard: false })
        },
        (StageView::Removing { standard }, EventView::Removed) => finish(InstallOutcome::Installed { removed_standard: true }),
        _ => (s, ActionView::Ignore),
    }
}

/// An action that changes the file system.
pub open spec fn writes(a: ActionView) -> bool {
    a is Download || a is Extract || a is DeleteArchive || a is Remove
}

/// The actions that a sequence of events draws from stage `s`, in order.
pub open spec fn install_run(s: StageView, events: Seq<EventView>) -> Seq<ActionView>
    decreases events.len(),
{
    if events.len() == 0 {
        Seq::empty()
    } else {
        let (next, a) = install_transition(s, events[0]);
        seq![a] + install_run(next, events.drop_first())
    }
}

proof fn lemma_finished_is_inert(outcome: InstallOutcome, events: Seq<EventView>)
    ensures
        forall|i: int| 0 <= i < events.len() ==> #[trigger] install_run(StageView::Finished { outcome }, events)[i]
            == ActionView::Ignore,
        install_run(StageView::Finished { outcome }, events).len() == events.len(),
    decreases events.len(),
{
    if events.len() > 0 {
        lemma_finished_is_inert(outcome, events.drop_first());
        let rest = install_run(StageView::Finished { outcome }, events.drop_first());
        assert forall|i: int| 0 <= i < events.len() implies #[trigger] install_run(StageView::Finished { outcome }, events)[i]
            == ActionView::Ignore by {
            if i > 0 {
                assert(install_run(StageView::Finished { outcome }, events)[i] == rest[i - 1]);
            }
        }
    }
}

/// Installing a version that is installed already ends at once with the outcome
/// "already installed", and nothing that follows changes the file system.
pub proof fn lemma_already_installed_writes_nothing(
    v: VersionView,
    url: Seq<char>,
    installed: Seq<VersionView>,
    later: Seq<EventView>,
)
    requires
        installed.contains(v),
    ensures
        ({
            let actions = install_run(
                StageView::Searching,
                seq![EventView::Resolved { found: Some((v, url)), installed }] + later,
            );
            &&& actions[0] == ActionView::Finish { outcome: InstallOutcome::AlreadyInstalled }
            &&& forall|i: int| 0 <= i < actions.len() ==> !writes(#[trigger] actions[i])
        }),
{
    let events = seq![EventView::Resolved { found: Some((v, url)), installed }] + later;
    assert(events.drop_first() =~= later);
    lemma_finished_is_inert(InstallOutcome::AlreadyInstalled, later);
    let actions = install_run(StageView::Searching, events);
    let rest = install_run(StageView::Finished { outcome: InstallOutcome::AlreadyInstalled }, later);
    assert(actions == seq![ActionView::Finish { outcome: InstallOutcome::AlreadyInstalled }] + rest);
    assert forall|i: int| 0 <= i < actions.len() implies !writes(#[trigger] actions[i]) by {
        if i > 0 {
            assert(actions[i] == rest[i - 1]);
        }
    }
}

/// Whether `installed` holds the version with this tag and variant.
fn is_installed(installed: &Vec<Version>, tag: &String, mono: bool) -> (r: bool)
    ensures
        r == version_views(installed@).contains(VersionView { tag: tag@, mono }),
{
    let ghost target = VersionView { tag: tag@, mono };
    let mut i: usize = 0;
    while i < installed.len()
        invariant
            i <= installed.len(),
            target == (VersionView { tag: tag@, mono }),
            forall|j: int| 0 <= j < i ==> installed@[j]@ != target,
        decreases installed.len() - i,
    {
        let same_mono = installed[i].mono() == mono;
        let t = installed[i].tag();
        if same_mono && t == *tag {
            assert(version_views(installed@)[i as int] == target);
            return true;
        }
        i = i + 1;
    }
    assert forall|j: int| 0 <= j < installed@.len() implies version_views(installed@)[j] != target by {}
    false
}

/// Takes one step of the installation.
pub fn install_step(stage: InstallStage, event: InstallEvent) -> (r: (InstallStage, InstallAction))
    ensures
        (r.0@, r.1@) == install_transition(stage@, event@),
{
    proof {
        reveal_strlit("_mono");
    }
    match (stage, event) {
        (InstallStage::Searching, InstallEvent::Resolved { found, installed }) => match found {
            None => (
                InstallStage::Finished { outcome: InstallOutcome::NotFound },
                InstallAction::Finish { outcome: InstallOutcome::NotFound },
            ),
            Some((v, url)) => {
                let tag = v.tag();
                if is_installed(&installed, &tag, v.mono()) {
                    (
                        InstallStage::Finished { outcome: InstallOutcome::AlreadyInstalled },
                        InstallAction::Finish { outcome: InstallOutcome::AlreadyInstalled },
                    )
                } else {
                    let standard_installed = v.mono() && is_installed(&installed, &tag, false);
                    let ask = version::new(tag, v.mono());
                    (InstallStage::Confirming { version: v, url, standard_installed }, InstallAction::AskInstall { version: ask })
                }
            },
        },
        (InstallStage::Confirming { version, url, standard_installed }, InstallEvent::Confirmed { yes }) => {
            if yes {
                let file_name = version.dir_name();
                (InstallStage::Downloading { version, standard_installed }, InstallAction::Download { file_name, url })
            } else {
                (
                    InstallStage::Finished { outcome: InstallOutcome::Aborted },
                    InstallAction::Finish { outcome: InstallOutcome::Aborted },
                )
            }
        },
        (InstallStage::Downloading { version, standard_installed }, InstallEvent::Downloaded) => (
            InstallStage::Extracting { version, standard_installed },
            InstallAction::Extract,
        ),
        (InstallStage::Extracting { version, standard_installed }, InstallEvent::Extracted) => (
            InstallStage::CleaningUp { version, standard_installed },
            InstallAction::DeleteArchive,
        ),
        (InstallStage::CleaningUp { version, standard_installed }, InstallEvent::Cleaned) => {
            if standard_installed {
                let standard = version::new(version.tag(), false);
                let ask = version::new(version.tag(), false);
                (InstallStage::OfferingRemoval { standard }, InstallAction::AskRemoval { standard: ask })
            } else {
                let outcome = InstallOutcome::Installed { removed_standard: false };
                (InstallStage::Finished { outcome }, InstallAction::Finish { outcome })
            }
        },
        (InstallStage::OfferingRemoval { standard }, InstallEvent::Confirmed { yes }) => {
            if yes {
                let target = version::new(standard.tag(), standard.mono());
                (InstallStage::Removing { standard }, InstallAction::Remove { standard: target })
            } else {
                let outcome = InstallOutcome::Installed { removed_standard: false };
                (InstallStage::Finished { outcome }, InstallAction::Finish { outcome })
            }
        },
        (InstallStage::Removing { standard: _ }, InstallEvent::Removed) => {
            let outcome = InstallOutcome::Installed { removed_standard: true };
            (InstallStage::Finished { outcome }, InstallAction::Finish { outcome })
        },
        (stage, _) => (stage, InstallAction::Ignore),
    }
}

/// How an uninstallation ended.
#[derive(PartialEq, Eq, Structural, Clone, Copy, Debug)]
pub enum UninstallOutcome {
    /// No installed version fits the query.
    NotFound,
    /// The user declined; nothing was deleted.
    Aborted,
    /// The installation directory was deleted.
    Uninstalled,
}

/// Where an uninstallation stands.
pub enum UninstallStage {
    Searching,
    Confirming { version: Version },
    Removing,
    Finished { outcome: UninstallOutcome },
}

/// What happened since the last step of an uninstallation.
pub enum UninstallEvent {
    /// The query was resolved against the installed versions.
    Resolved { found: Option<Version> },
    /// The user answered the question.
    Confirmed { yes: bool },
    Removed,
}

/// What to do next in an uninstallation.
pub enum UninstallAction {
    /// Ask whether to uninstall this version.
    AskUninstall { version: Version },
    /// Delete the installation directory of this version.
    Remove { version: Version },
    /// Report the outcome and stop.
    Finish { outcome: UninstallOutcome },
    /// The event does not belong to this stage: nothing to do.
    Ignore,
}

/// What an `UninstallStage` denotes.
pub enum UninstallStageView {
    Searching,
    Confirming { version: VersionView },
    Removing,
    Finished { outcome: UninstallOutcome },
}

/// What an `UninstallEvent` denotes.
pub enum UninstallEventView {
    Resolved { found: Option<VersionView> },
    Confirmed { yes: bool },
    Removed,
}

/// What an `UninstallAction` denotes.
pub enum UninstallActionView {
    AskUninstall { version: VersionView },
    Remove { version: VersionView },
    Finish { outcome: UninstallOutcome },
    Ignore,
}

impl View for UninstallStage {
    type V = UninstallStageView;

    open spec fn view(&self) -> UninstallStageView {
        match self {
            UninstallStage::Searching => UninstallStageView::Searching,
            UninstallStage::Confirming { version } => UninstallStageView::Confirming { version: version@ },
            UninstallStage::Removing => UninstallStageView::Removing,
            UninstallStage::Finished { outcome } => UninstallStageView::Finished { outcome: *outcome },
        }
    }
}

impl View for UninstallEvent {
    type V = UninstallEventView;

    open spec fn view(&self) -> UninstallEventView {
        match self {
            UninstallEvent::Resolved { found } => UninstallEventView::Resolved {
                found: match found {
                    Some(v) => Some(v@),
                    None => None,
                },
            },
            UninstallEvent::Confirmed { yes } => UninstallEventView::Confirmed { yes: *yes },
            UninstallEvent::Removed => UninstallEventView::Removed,
        }
    }
}

impl View for UninstallAction {
    type V = UninstallActionView;

    open spec fn view(&self) -> UninstallActionView {
        match self {
            UninstallAction::AskUninstall { version } => UninstallActionView::AskUninstall { version: version@ },
            UninstallAction::Remove { version } => UninstallActionView::Remove { version: version@ },
            UninstallAction::Finish { outcome } => UninstallActionView::Finish { outcome: *outcome },
            UninstallAction::Ignore => UninstallActionView::Ignore,
        }
    }
}

/// One step of an uninstallation: resolve against the installed versions, confirm,
/// then delete.
pub open spec fn uninstall_transition(s: UninstallStageView, e: UninstallEventView) -> (UninstallStageView, UninstallActionView) {
    match (s, e) {
        (UninstallStageView::Searching, UninstallEventView::Resolved { found }) => match found {
            None => (
                UninstallStageView::Finished { outcome: UninstallOutcome::NotFound },
                UninstallActionView::Finish { outcome: UninstallOutcome::NotFound },
            ),
            Some(v) => (UninstallStageView::Confirming { version: v }, UninstallActionView::AskUninstall { version: v }),
        },
        (UninstallStageView::Confirming { version }, UninstallEventView::Confirmed { yes }) => if yes {
            (UninstallStageView::Removing, UninstallActionView::Remove { version })
        } else {
            (
                UninstallStageView::Finished { outcome: UninstallOutcome::Aborted },
                UninstallActionView::Finish { outcome: UninstallOutcome::Aborted },
            )
        },
        (UninstallStageView::Removing, UninstallEventView::Removed) => (
            UninstallStageView::Finished { outcome: UninstallOutcome::Uninstalled },
            UninstallActionView::Finish { outcome: UninstallOutcome::Uninstalled },
        ),
        _ => (s, UninstallActionView::Ignore),
    }
}

/// Takes one step of an uninstallation.
pub fn uninstall_step(stage: UninstallStage, event: UninstallEvent) -> (r: (UninstallStage, UninstallAction))
    ensures
        (r.0@, r.1@) == uninstall_transition(stage@, event@),
{
    match (stage, event) {
        (UninstallStage::Searching, UninstallEvent::Resolved { found }) => match found {
            None => (
                UninstallStage::Finished { outcome: UninstallOutcome::NotFound },
                UninstallAction::Finish { outcome: UninstallOutcome::NotFound },
            ),
            Some(v) => {
                let ask = version::new(v.tag(), v.mono());
                (UninstallStage::Confirming { version: v }, UninstallAction::AskUninstall { version: ask })
            },
        },
        (UninstallStage::Confirming { version }, UninstallEvent::Confirmed { yes }) => {
            if yes {
                (UninstallStage::Removing, UninstallAction::Remove { version })
            } else {
                (
                    UninstallStage::Finished { outcome: UninstallOutcome::Aborted },
                    UninstallAction::Finish { outcome: UninstallOutcome::Aborted },
                )
            }
        },
        (UninstallStage::Removing, UninstallEvent::Removed) => (
            UninstallStage::Finished { outcome: UninstallOutcome::Uninstalled },
            UninstallAction::Finish { outcome: UninstallOutcome::Uninstalled },
        ),
        (stage, _) => (stage, UninstallAction::Ignore),
    }
}

} // verus!
