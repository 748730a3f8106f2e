//! Acquisition and update of the external downloader executable.
//!
//! The provisioner is a state machine over plain values. Each non-terminal
//! phase carries exactly one pending side effect (an [`Action`]); the caller
//! performs it and reports the outcome as a [`ProvisionEvent`], which drives
//! the machine to its next phase. All decisions — when to update, when to
//! delete a stale copy, which URL to fetch, when to mark the file executable —
//! are made here and verified; the caller only executes them.

use vstd::prelude::*;

verus! {

/// The host platform, as far as acquisition cares about it.
///
/// Exactly three platforms have a download source; every other identifier is
/// `Unrecognized` and makes acquisition fail without any network request.
#[derive(Clone, Copy, Debug, PartialEq, Eq, Structural)]
pub enum OsKind {
    Windows,
    Linux,
    Macos,
    Unrecognized,
}

/// Fatal provisioning failures. An update failure is not among them: it is
/// silently downgraded to a fresh download.
#[derive(Clone, Copy, Debug, PartialEq, Eq, Structural)]
pub enum ProvisionError {
    /// The platform cache directory could not be located or created.
    CacheDirUnavailable,
    /// No download source is mapped for the host platform.
    UnsupportedPlatform,
    /// The network fetch of the binary, or reading its bytes, failed.
    NetworkFailure,
    /// Writing the fetched bytes to the cache path, or setting its
    /// permissions, failed.
    SaveFailure,
}

/// Whether a download source exists for this platform.
pub open spec fn supported(os: OsKind) -> bool {
    os is Windows || os is Linux || os is Macos
}

/// The fixed download URL for a supported platform.
pub open spec fn url_chars(os: OsKind) -> Seq<char>
    recommends
        supported(os),
{
    match os {
        OsKind::Windows => "https://github.com/yt-dlp/yt-dlp/releases/latest/download/yt-dlp.exe"@,
        OsKind::Linux => "https://github.com/yt-dlp/yt-dlp/releases/latest/download/yt-dlp"@,
        OsKind::Macos => "https://github.com/yt-dlp/yt-dlp/releases/latest/download/yt-dlp_macos"@,
        OsKind::Unrecognized => Seq::<char>::empty(),
    }
}

/// The platform-specific file name of the cached executable.
pub open spec fn exe_name_chars(os: OsKind) -> Seq<char> {
    if os is Windows {
        "yt-dlp.exe"@
    } else {
        "yt-dlp"@
    }
}

/// Classifies a platform identifier string (as `std::env::consts::OS` spells
/// it) into the kinds acquisition distinguishes.
pub open spec fn os_kind_of(s: Seq<char>) -> OsKind {
    if s == "windows"@ {
        OsKind::Windows
    } else if s == "linux"@ {
        OsKind::Linux
    } else if s == "macos"@ {
        OsKind::Macos
    } else {
        OsKind::Unrecognized
    }
}

/// Executable classification of a platform identifier string.
pub fn os_kind(s: &String) -> (r: OsKind)
    ensures
        r == os_kind_of(s@),
{
    if *s == String::from_str("windows") {
        OsKind::Windows
    } else if *s == String::from_str("linux") {
        OsKind::Linux
    } else if *s == String::from_str("macos") {
        OsKind::Macos
    } else {
        OsKind::Unrecognized
    }
}

/// The download URL for a platform: `Some` exactly on the supported ones,
/// and then precisely the fixed URL for that platform.
pub fn download_url(os: OsKind) -> (r: Option<String>)
    ensures
        r is Some <==> supported(os),
        r matches Some(u) ==> u@ == url_chars(os),
{
    match os {
        OsKind::Windows => Some(String::from_str(
            "https://github.com/yt-dlp/yt-dlp/releases/latest/download/yt-dlp.exe",
        )),
        OsKind::Linux => Some(String::from_str(
            "https://github.com/yt-dlp/yt-dlp/releases/latest/download/yt-dlp",
        )),
        OsKind::Macos => Some(String::from_str(
            "https://github.com/yt-dlp/yt-dlp/releases/latest/download/yt-dlp_macos",
        )),
        OsKind::Unrecognized => None,
    }
}

/// The platform-specific file name of the cached executable.
pub fn executable_name(os: OsKind) -> (r: String)
    ensures
        r@ == exe_name_chars(os),
{
    if os == OsKind::Windows {
        String::from_str("yt-dlp.exe")
    } else {
        String::from_str("yt-dlp")
    }
}

/// The namespace directory under the platform cache root that holds the
/// cached executable.
pub fn cache_namespace() -> (r: String)
    ensures
        r@ == "yt-dlp-cli"@,
{
    String::from_str("yt-dlp-cli")
}

/// One phase of a provisioning run. Each non-terminal phase has exactly one
/// pending side effect; `Complete` and `Failed` are terminal.
#[derive(Clone, Copy, Debug, PartialEq, Eq, Structural)]
pub enum Phase {
    /// Locate and create the platform cache directory.
    ResolvingCache,
    /// Check whether the executable already sits at the cache path.
    Probing,
    /// Run the cached executable with its update flag.
    Updating,
    /// Delete the cached copy whose update failed.
    RemovingStale,
    /// Fetch the binary from the platform's fixed URL.
    Fetching,
    /// Write the fetched bytes to the cache path.
    Saving,
    /// Set the owner-execute bit on the saved file (POSIX hosts only).
    SettingMode,
    /// Provisioning succeeded; `refreshed` says whether a fresh download
    /// happened (as opposed to a successful in-place update).
    Complete { refreshed: bool },
    /// Provisioning failed fatally.
    Failed { error: ProvisionError },
}

/// The outcome of performing a pending action, reported back to the machine.
#[derive(Clone, Copy, Debug, PartialEq, Eq, Structural)]
pub enum ProvisionEvent {
    CacheDirReady,
    CacheDirDenied,
    /// Probing found an executable at the cache path.
    FoundExisting,
    /// Probing found nothing at the cache path.
    NothingCached,
    UpdateSucceeded,
    /// The update run exited non-zero or could not be spawned.
    UpdateFailed,
    StaleRemoved,
    FetchSucceeded,
    FetchFailed,
    SaveSucceeded,
    SaveFailed,
    ModeSet,
    ModeDenied,
}

/// The side effect the caller must perform next.
#[derive(Debug)]
pub enum Action {
    /// Locate the platform cache directory and create the namespace under it.
    EnsureCacheDir,
    /// Report whether a file exists at the cache path.
    ProbeExecutable,
    /// Invoke the cached executable with its update flag and await its exit.
    RunUpdate,
    /// Remove the file at the cache path.
    DeleteStale,
    /// Fetch the binary at this URL over the network.
    FetchBinary(String),
    /// Write the fetched bytes to the cache path, overwriting any content.
    SaveBinary,
    /// Set the owner-execute permission bit on the cache path.
    MarkExecutable,
    /// Provisioning is over and succeeded; use the cache path.
    Finish,
    /// Provisioning is over and failed.
    Fail(ProvisionError),
}

/// The mathematical model of an [`Action`]: the URL is a character sequence.
pub enum ActionModel {
    EnsureCacheDir,
    ProbeExecutable,
    RunUpdate,
    DeleteStale,
    FetchBinary(Seq<char>),
    SaveBinary,
    MarkExecutable,
    Finish,
    Fail(ProvisionError),
}

impl View for Action {
    type V = ActionModel;

    open spec fn view(&self) -> ActionModel {
        match self {
            Action::EnsureCacheDir => ActionModel::EnsureCacheDir,
            Action::ProbeExecutable => ActionModel::ProbeExecutable,
            Action::RunUpdate => ActionModel::RunUpdate,
            Action::DeleteStale => ActionModel::DeleteStale,
            Action::FetchBinary(u) => ActionModel::FetchBinary(u@),
            Action::SaveBinary => ActionModel::SaveBinary,
            Action::MarkExecutable => ActionModel::MarkExecutable,
            Action::Finish => ActionModel::Finish,
            Action::Fail(e) => ActionModel::Fail(*e),
        }
    }
}

/// The provisioning state machine, together with a model of the cache path:
/// `cached_present` says whether a file sits at the path, `exec_bit` whether
/// that file carries the owner-execute permission bit.
pub struct Provisioner {
    pub os: OsKind,
    /// Whether the host applies POSIX permission bits.
    pub posix: bool,
    pub phase: Phase,
    /// Model of the cache path: a file is present there.
    pub cached_present: bool,
    /// Model of the cache path: the file there carries owner-execute.
    pub exec_bit: bool,
}

/// Terminal phases admit no further events.
pub open spec fn terminal(p: Phase) -> bool {
    p is Complete || p is Failed
}

/// Which events can answer the pending action of a phase.
pub open spec fn event_fits(p: Phase, e: ProvisionEvent) -> bool {
    match p {
        Phase::ResolvingCache => e is CacheDirReady || e is CacheDirDenied,
        Phase::Probing => e is FoundExisting || e is NothingCached,
        Phase::Updating => e is UpdateSucceeded || e is UpdateFailed,
        Phase::RemovingStale => e is StaleRemoved,
        Phase::Fetching => e is FetchSucceeded || e is FetchFailed,
        Phase::Saving => e is SaveSucceeded || e is SaveFailed,
        Phase::SettingMode => e is ModeSet || e is ModeDenied,
        Phase::Complete { .. } => false,
        Phase::Failed { .. } => false,
    }
}

/// The phase acquisition starts in: fetching on a supported platform, an
/// `UnsupportedPlatform` failure on any other — before any network request.
pub open spec fn acquisition_phase(os: OsKind) -> Phase {
    if supported(os) {
        Phase::Fetching
    } else {
        Phase::Failed { error: ProvisionError::UnsupportedPlatform }
    }
}

/// The transition function: the machine after event `e` answers the pending
/// action of `m`.
pub open spec fn next(m: Provisioner, e: ProvisionEvent) -> Provisioner
    recommends
        event_fits(m.phase, e),
{
    match m.phase {
        Phase::ResolvingCache => if e is CacheDirReady {
            Provisioner { phase: Phase::Probing, ..m }
        } else {
            Provisioner { phase: Phase::Failed { error: ProvisionError::CacheDirUnavailable }, ..m }
        },
        Phase::Probing => if e is FoundExisting {
            Provisioner { phase: Phase::Updating, cached_present: true, ..m }
        } else {
            Provisioner {
                phase: acquisition_phase(m.os),
                cached_present: false,
                exec_bit: false,
                ..m
            }
        },
        Phase::Updating => if e is UpdateSucceeded {
            Provisioner { phase: Phase::Complete { refreshed: false }, ..m }
        } else {
            Provisioner { phase: Phase::RemovingStale, ..m }
        },
        Phase::RemovingStale => Provisioner {
            phase: acquisition_phase(m.os),
            cached_present: false,
            exec_bit: false,
            ..m
        },
        Phase::Fetching => if e is FetchSucceeded {
            Provisioner { phase: Phase::Saving, ..m }
        } else {
            Provisioner { phase: Phase::Failed { error: ProvisionError::NetworkFailure }, ..m }
        },
        Phase::Saving => if e is SaveSucceeded {
            if m.posix {
                Provisioner {
                    phase: Phase::SettingMode,
                    cached_present: true,
                    exec_bit: false,
                    ..m
                }
            } else {
                Provisioner {
                    phase: Phase::Complete { refreshed: true },
                    cached_present: true,
                    exec_bit: false,
                    ..m
                }
            }
        } else {
            Provisioner { phase: Phase::Failed { error: ProvisionError::SaveFailure }, ..m }
        },
        Phase::SettingMode => if e is ModeSet {
            Provisioner { phase: Phase::Complete { refreshed: true }, exec_bit: true, ..m }
        } else {
            Provisioner { phase: Phase::Failed { error: ProvisionError::SaveFailure }, ..m }
        },
        Phase::Complete { .. } => m,
        Phase::Failed { .. } => m,
    }
}

/// The single pending side effect of each phase.
pub open spec fn pending_action(m: Provisioner) -> ActionModel {
    match m.phase {
        Phase::ResolvingCache => ActionModel::EnsureCacheDir,
        Phase::Probing => ActionModel::ProbeExecutable,
        Phase::Updating => ActionModel::RunUpdate,
        Phase::RemovingStale => ActionModel::DeleteStale,
        Phase::Fetching => ActionModel::FetchBinary(url_chars(m.os)),
        Phase::Saving => ActionModel::SaveBinary,
        Phase::SettingMode => ActionModel::MarkExecutable,
        Phase::Complete { .. } => ActionModel::Finish,
        Phase::Failed { error } => ActionModel::Fail(error),
    }
}

/// The machine a provisioning run starts in.
pub open spec fn initial(os: OsKind, posix: bool) -> Provisioner {
    Provisioner { os, posix, phase: Phase::ResolvingCache, cached_present: false, exec_bit: false }
}

/// The machine only ever fetches on a supported platform.
pub open spec fn wf(m: Provisioner) -> bool {
    m.phase is Fetching ==> supported(m.os)
}

impl Provisioner {
    /// Start a provisioning run for this platform.
    pub fn new(os: OsKind, posix: bool) -> (m: Provisioner)
        ensures
            m == initial(os, posix),
            wf(m),
    {
        Provisioner { os, posix, phase: Phase::ResolvingCache, cached_present: false, exec_bit: false }
    }

    /// The side effect the caller must perform next.
    pub fn action(&self) -> (a: Action)
        requires
            wf(*self),
        ensures
            a@ == pending_action(*self),
    {
        match self.phase {
            Phase::ResolvingCache => Action::EnsureCacheDir,
            Phase::Probing => Action::ProbeExecutable,
            Phase::Updating => Action::RunUpdate,
            Phase::RemovingStale => Action::DeleteStale,
            Phase::Fetching => match download_url(self.os) {
                Some(url) => Action::FetchBinary(url),
                None => unreached(),
            },
            Phase::Saving => Action::SaveBinary,
            Phase::SettingMode => Action::MarkExecutable,
            Phase::Complete { .. } => Action::Finish,
            Phase::Failed { error } => Action::Fail(error),
        }
    }

    /// Drive the machine by the outcome of its pending action.
    pub fn step(&mut self, event: ProvisionEvent)
        requires
            event_fits(old(self).phase, event),
            wf(*old(self)),
        ensures
            *final(self) == next(*old(self), event),
            wf(*final(self)),
    {
        match (self.phase, event) {
            (Phase::ResolvingCache, ProvisionEvent::CacheDirReady) => {
                self.phase = Phase::Probing;
            },
            (Phase::ResolvingCache, ProvisionEvent::CacheDirDenied) => {
                self.phase = Phase::Failed { error: ProvisionError::CacheDirUnavailable };
            },
            (Phase::Probing, ProvisionEvent::FoundExisting) => {
                self.phase = Phase::Updating;
                self.cached_present = true;
            },
            (Phase::Probing, ProvisionEvent::NothingCached) => {
                self.enter_acquisition();
            },
            (Phase::Updating, ProvisionEvent::UpdateSucceeded) => {
                self.phase = Phase::Complete { refreshed: false };
            },
            (Phase::Updating, ProvisionEvent::UpdateFailed) => {
                self.phase = Phase::RemovingStale;
            },
            (Phase::RemovingStale, ProvisionEvent::StaleRemoved) => {
                self.enter_acquisition();
            },
            (Phase::Fetching, ProvisionEvent::FetchSucceeded) => {
                self.phase = Phase::Saving;
            },
            (Phase::Fetching, ProvisionEvent::FetchFailed) => {
                self.phase = Phase::Failed { error: ProvisionError::NetworkFailure };
            },
            (Phase::Saving, ProvisionEvent::SaveSucceeded) => {
                self.cached_present = true;
                self.exec_bit = false;
                if self.posix {
                    self.phase = Phase::SettingMode;
                } else {
                    self.phase = Phase::Complete { refreshed: true };
                }
            },
            (Phase::Saving, ProvisionEvent::SaveFailed) => {
                self.phase = Phase::Failed { error: ProvisionError::SaveFailure };
            },
            (Phase::SettingMode, ProvisionEvent::ModeSet) => {
                self.exec_bit = true;
                self.phase = Phase::Complete { refreshed: true };
            },
            (Phase::SettingMode, ProvisionEvent::ModeDenied) => {
                self.phase = Phase::Failed { error: ProvisionError::SaveFailure };
            },
            _ => unreached(),
        }
    }

    /// Move into acquisition: fetch on a supported platform, fail otherwise.
    fn enter_acquisition(&mut self)
        ensures
            final(self).phase == acquisition_phase(old(self).os),
            final(self).cached_present == false,
            final(self).exec_bit == false,
            final(self).os == old(self).os,
            final(self).posix == old(self).posix,
            wf(*final(self)),
    {
        self.cached_present = false;
        self.exec_bit = false;
        if supported_exec(self.os) {
            self.phase = Phase::Fetching;
        } else {
            self.phase = Phase::Failed { error: ProvisionError::UnsupportedPlatform };
        }
    }

    /// Whether the run is over, successfully or not.
    pub fn done(&self) -> (r: bool)
        ensures
            r == terminal(self.phase),
    {
        match self.phase {
            Phase::Complete { .. } => true,
            Phase::Failed { .. } => true,
            _ => false,
        }
    }

    /// The fatal error the run ended in, if it failed.
    pub fn failure(&self) -> (r: Option<ProvisionError>)
        ensures
            r == (match self.phase {
                Phase::Failed { error } => Some(error),
                _ => None::<ProvisionError>,
            }),
    {
        match self.phase {
            Phase::Failed { error } => Some(error),
            _ => None,
        }
    }
}

/// Acquisition requests exactly the fixed URL for the platform, and no
/// other: whenever a transition leaves a fetch pending, the platform is
/// supported and the URL is its fixed one; and on a supported platform,
/// entering acquisition — whether because nothing was cached or because the
/// stale copy was just removed — does leave exactly that fetch pending.
pub proof fn lemma_acquisition_requests_fixed_url(m: Provisioner, e: ProvisionEvent)
    requires
        event_fits(m.phase, e),
    ensures
        pending_action(next(m, e)) matches ActionModel::FetchBinary(u) ==> supported(m.os)
            && u == url_chars(m.os),
        supported(m.os) && m.phase is Probing && e is NothingCached ==> pending_action(
            next(m, e),
        ) == ActionModel::FetchBinary(url_chars(m.os)),
        supported(m.os) && m.phase is RemovingStale ==> pending_action(next(m, e))
            == ActionModel::FetchBinary(url_chars(m.os)),
{
}

/// On a platform with no download source, provisioning never requests a
/// network fetch: a machine that is not already fetching never transitions
/// into the fetching phase, so no fetch action is ever pending, and entering
/// acquisition fails with `UnsupportedPlatform` instead. A fresh machine
/// starts outside the fetching phase, so no run on such a platform ever
/// fetches.
pub proof fn lemma_unsupported_never_fetches(m: Provisioner, e: ProvisionEvent)
    requires
        event_fits(m.phase, e),
        !supported(m.os),
        !(m.phase is Fetching),
    ensures
        !(next(m, e).phase is Fetching),
        !(pending_action(next(m, e)) is FetchBinary),
        !(initial(m.os, m.posix).phase is Fetching),
        (m.phase is Probing && e is NothingCached) || m.phase is RemovingStale ==> next(m, e).phase
            == (Phase::Failed { error: ProvisionError::UnsupportedPlatform }),
{
}

/// With a cached executable present, the update invocation is attempted
/// before any download: probing that finds a copy moves to the updating
/// phase, whose pending action is the update run; and if that run succeeds
/// the machine completes at once in a terminal phase that admits no further
/// event, so no download ever occurs.
pub proof fn lemma_update_precedes_download(m: Provisioner)
    requires
        m.phase is Probing,
    ensures
        next(m, ProvisionEvent::FoundExisting).phase is Updating,
        pending_action(next(m, ProvisionEvent::FoundExisting)) == ActionModel::RunUpdate,
        next(next(m, ProvisionEvent::FoundExisting), ProvisionEvent::UpdateSucceeded).phase == (
        Phase::Complete { refreshed: false }),
        forall|e: ProvisionEvent|
            !event_fits(
                next(next(m, ProvisionEvent::FoundExisting), ProvisionEvent::UpdateSucceeded).phase,
                e,
            ),
{
}

/// A failed update deletes the stale copy before any download: the machine
/// first leaves a deletion pending, after which the cache path is empty, then
/// requests the fresh download; once the downloaded bytes are saved, the
/// cache path holds a file again — exactly one, since the stale copy was
/// removed first.
pub proof fn lemma_failed_update_redownloads(m: Provisioner)
    requires
        m.phase is Updating,
        supported(m.os),
    ensures
        ({
            let removing = next(m, ProvisionEvent::UpdateFailed);
            let fetching = next(removing, ProvisionEvent::StaleRemoved);
            let saving = next(fetching, ProvisionEvent::FetchSucceeded);
            let saved = next(saving, ProvisionEvent::SaveSucceeded);
            &&& pending_action(removing) == ActionModel::DeleteStale
            &&& fetching.phase is Fetching
            &&& !fetching.cached_present
            &&& pending_action(fetching) == ActionModel::FetchBinary(url_chars(m.os))
            &&& saved.cached_present
        }),
{
}

/// The completion invariant: a completed run leaves a file at the cache
/// path, and a run completed by a fresh download on a POSIX host leaves its
/// owner-execute bit set.
pub open spec fn completion_inv(m: Provisioner) -> bool {
    &&& m.phase is Updating ==> m.cached_present
    &&& m.phase is SettingMode ==> m.cached_present
    &&& m.phase is Complete ==> m.cached_present
    &&& (m.phase == (Phase::Complete { refreshed: true }) && m.posix) ==> m.exec_bit
}

/// A fresh machine satisfies the completion invariant.
pub proof fn lemma_completion_inv_initial(os: OsKind, posix: bool)
    ensures
        completion_inv(initial(os, posix)),
{
}

/// Every transition preserves the completion invariant. Together with the
/// initial-state lemma this shows that on POSIX hosts, any run that completes
/// through a fresh download leaves the cached file present with its
/// owner-execute bit set.
pub proof fn lemma_completion_inv_preserved(m: Provisioner, e: ProvisionEvent)
    requires
        completion_inv(m),
        event_fits(m.phase, e),
    ensures
        completion_inv(next(m, e)),
{
}

/// Corollary: a POSIX run that completed by a fresh download has the
/// owner-execute bit set on the file at the cache path.
pub proof fn lemma_acquired_file_is_executable(m: Provisioner)
    requires
        completion_inv(m),
        m.phase == (Phase::Complete { refreshed: true }),
        m.posix,
    ensures
        m.cached_present,
        m.exec_bit,
{
}

/// Whether a download source exists for this platform (runtime form).
pub fn supported_exec(os: OsKind) -> (r: bool)
    ensures
        r == supported(os),
{
    match os {
        OsKind::Windows => true,
        OsKind::Linux => true,
        OsKind::Macos => true,
        OsKind::Unrecognized => false,
    }
}

} // verus!
