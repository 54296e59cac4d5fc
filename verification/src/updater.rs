//! The update controller: one check-download-install cycle per launch.
//!
//! The controller is a state machine. The host does the outside work (it asks
//! the update source for its manifest, streams the artifact, installs it and
//! restarts the application) and reports each outcome as an [`UpdateEvent`].
//! [`UpdateSession::step`] answers with the next [`UpdateAction`].
//!
//! ```text
//! Idle -> Checking -> NotAvailable
//!                  -> Downloading -> Installed
//!         Checking, Downloading -> Failed
//! ```

use vstd::prelude::*;

verus! {

/// Where an update cycle stands.
#[derive(Clone, Copy, Debug, PartialEq, Eq, Structural)]
pub enum UpdateState {
    /// Nothing has been asked of the update source yet.
    Idle,
    /// The manifest of the latest release has been asked for.
    Checking,
    /// A newer release exists; its artifact is being streamed or installed.
    Downloading,
    /// The artifact is installed and the restart has been requested.
    Installed,
    /// The running build is the latest one.
    NotAvailable,
    /// The check, the download or the installation failed.
    Failed,
}

impl UpdateState {
    /// A cycle that has reached a terminal state does nothing more.
    pub open spec fn terminal(self) -> bool {
        self == UpdateState::Installed || self == UpdateState::NotAvailable || self
            == UpdateState::Failed
    }

    /// Tells whether the cycle has ended.
    #[verifier::when_used_as_spec(terminal)]
    pub fn is_terminal(self) -> (ended: bool)
        ensures
            ended == self.terminal(),
    {
        match self {
            UpdateState::Installed | UpdateState::NotAvailable | UpdateState::Failed => true,
            UpdateState::Idle | UpdateState::Checking | UpdateState::Downloading => false,
        }
    }
}

/// What the host reports to the controller.
#[derive(Clone, Debug, PartialEq, Eq)]
pub enum UpdateEvent {
    /// The application has started.
    Launched,
    /// The manifest names the running build as the latest.
    ManifestCurrent,
    /// The manifest names a newer release.
    ManifestNewer { version: String },
    /// A chunk of the artifact has arrived; `length` is its size in bytes.
    Chunk { length: usize },
    /// The whole artifact has arrived.
    DownloadCompleted,
    /// The artifact has been installed.
    InstallSucceeded,
    /// The step under way (check, download or installation) has failed.
    Failure,
}

/// The mathematical content of an [`UpdateEvent`].
pub enum EventView {
    Launched,
    ManifestCurrent,
    ManifestNewer { version: Seq<char> },
    Chunk { length: nat },
    DownloadCompleted,
    InstallSucceeded,
    Failure,
}

impl View for UpdateEvent {
    type V = EventView;

    open spec fn view(&self) -> EventView {
        match *self {
            UpdateEvent::Launched => EventView::Launched,
            UpdateEvent::ManifestCurrent => EventView::ManifestCurrent,
            UpdateEvent::ManifestNewer { version } => EventView::ManifestNewer { version: version@ },
            UpdateEvent::Chunk { length } => EventView::Chunk { length: length as nat },
            UpdateEvent::DownloadCompleted => EventView::DownloadCompleted,
            UpdateEvent::InstallSucceeded => EventView::InstallSucceeded,
            UpdateEvent::Failure => EventView::Failure,
        }
    }
}

/// What the controller asks of the host in answer to an event.
#[derive(Clone, Copy, Debug, PartialEq, Eq, Structural)]
pub enum UpdateAction {
    /// Ask the update source for the manifest of the latest release.
    CheckManifest,
    /// Start streaming the artifact of the release found.
    Download,
    /// Install the artifact that has arrived.
    Install,
    /// Ask the application shell to restart. Nothing follows a restart.
    Restart,
    /// Nothing new: go on with the work under way.
    Continue,
    /// The cycle is over: do nothing more.
    Stop,
}

/// The state of one update cycle.
///
/// A session is created when the application starts, is advanced by
/// [`UpdateSession::step`] and is dropped when the cycle has ended.
#[derive(Clone, Debug, PartialEq, Eq)]
pub struct UpdateSession {
    remote_version: String,
    bytes_downloaded: usize,
    state: UpdateState,
}

/// The mathematical content of an [`UpdateSession`].
pub struct SessionView {
    /// The version that the manifest announced; empty until one is known.
    pub remote_version: Seq<char>,
    /// The sum of the lengths of the chunks received.
    pub bytes_downloaded: nat,
    pub state: UpdateState,
}

impl View for UpdateSession {
    type V = SessionView;

    closed spec fn view(&self) -> SessionView {
        SessionView {
            remote_version: self.remote_version@,
            bytes_downloaded: self.bytes_downloaded as nat,
            state: self.state,
        }
    }
}

impl SessionView {
    /// The session of a cycle that has not begun.
    pub open spec fn initial() -> SessionView {
        SessionView {
            remote_version: Seq::<char>::empty(),
            bytes_downloaded: 0,
            state: UpdateState::Idle,
        }
    }

    /// Before a newer release is found, no version is known and nothing has
    /// been counted.
    pub open spec fn well_formed(self) -> bool {
        (self.state == UpdateState::Idle || self.state == UpdateState::Checking || self.state
            == UpdateState::NotAvailable) ==> self.remote_version == Seq::<char>::empty()
            && self.bytes_downloaded == 0
    }
}

/// The session that follows `s` when the host reports `e`.
///
/// An event that the state does not expect leaves the session as it is, and
/// so does every event once the cycle has ended.
pub open spec fn next_session(s: SessionView, e: EventView) -> SessionView {
    match (s.state, e) {
        (UpdateState::Idle, EventView::Launched) => SessionView {
            state: UpdateState::Checking,
            ..s
        },
        (UpdateState::Checking, EventView::ManifestCurrent) => SessionView {
            state: UpdateState::NotAvailable,
            ..s
        },
        (UpdateState::Checking, EventView::ManifestNewer { version }) => SessionView {
            remote_version: version,
            bytes_downloaded: 0,
            state: UpdateState::Downloading,
        },
        (UpdateState::Checking, EventView::Failure) => SessionView {
            state: UpdateState::Failed,
            ..s
        },
        (UpdateState::Downloading, EventView::Chunk { length }) => SessionView {
            bytes_downloaded: s.bytes_downloaded + length,
            ..s
        },
        (UpdateState::Downloading, EventView::InstallSucceeded) => SessionView {
            state: UpdateState::Installed,
            ..s
        },
        (UpdateState::Downloading, EventView::Failure) => SessionView {
            state: UpdateState::Failed,
            ..s
        },
        _ => s,
    }
}

/// The action with which the controller answers `e` in the session `s`.
pub open spec fn next_action(s: SessionView, e: EventView) -> UpdateAction {
    match (s.state, e) {
        (UpdateState::Idle, EventView::Launched) => UpdateAction::CheckManifest,
        (UpdateState::Checking, EventView::ManifestCurrent) => UpdateAction::Stop,
        (UpdateState::Checking, EventView::ManifestNewer { version }) => UpdateAction::Download,
        (UpdateState::Checking, EventView::Failure) => UpdateAction::Stop,
        (UpdateState::Downloading, EventView::DownloadCompleted) => UpdateAction::Install,
        (UpdateState::Downloading, EventView::InstallSucceeded) => UpdateAction::Restart,
        (UpdateState::Downloading, EventView::Failure) => UpdateAction::Stop,
        _ => if s.state.terminal() {
            UpdateAction::Stop
        } else {
            UpdateAction::Continue
        },
    }
}

/// The byte counter is a machine integer: the session can take the event `e`
/// if counting it does not overflow the counter.
pub open spec fn event_fits(s: SessionView, e: EventView) -> bool {
    s.state == UpdateState::Downloading ==> (e matches EventView::Chunk { length }
        ==> s.bytes_downloaded + length <= usize::MAX)
}

impl UpdateSession {
    /// The session of a cycle that has not begun.
    pub fn new() -> (session: UpdateSession)
        ensures
            session@ == SessionView::initial(),
    {
        UpdateSession {
            remote_version: String::new(),
            bytes_downloaded: 0,
            state: UpdateState::Idle,
        }
    }

    /// Where the cycle stands.
    pub fn state(&self) -> (state: UpdateState)
        ensures
            state == self@.state,
    {
        self.state
    }

    /// The version that the manifest announced; empty until one is known.
    pub fn remote_version(&self) -> (version: &String)
        ensures
            version@ == self@.remote_version,
    {
        &self.remote_version
    }

    /// The number of bytes of the artifact received so far.
    pub fn bytes_downloaded(&self) -> (count: usize)
        ensures
            count == self@.bytes_downloaded,
    {
        self.bytes_downloaded
    }

    /// Tells whether the session can take `event`, that is whether counting
    /// it keeps the byte counter within its range.
    pub fn accepts(&self, event: &UpdateEvent) -> (fits: bool)
        ensures
            fits == event_fits(self@, event@),
    {
        match event {
            UpdateEvent::Chunk { length } => {
                self.state != UpdateState::Downloading || *length <= usize::MAX
                    - self.bytes_downloaded
            },
            _ => true,
        }
    }

    /// Advances the session by one event and returns what the host must do
    /// next.
    pub fn step(&mut self, event: &UpdateEvent) -> (action: UpdateAction)
        requires
            event_fits(old(self)@, event@),
        ensures
            final(self)@ == next_session(old(self)@, event@),
            action == next_action(old(self)@, event@),
    {
        match self.state {
            UpdateState::Idle => match event {
                UpdateEvent::Launched => {
                    self.state = UpdateState::Checking;
                    UpdateAction::CheckManifest
                },
                _ => UpdateAction::Continue,
            },
            UpdateState::Checking => match event {
                UpdateEvent::ManifestCurrent => {
                    self.state = UpdateState::NotAvailable;
                    UpdateAction::Stop
                },
                UpdateEvent::ManifestNewer { version } => {
                    self.remote_version = version.clone();
                    self.bytes_downloaded = 0;
                    self.state = UpdateState::Downloading;
                    UpdateAction::Download
                },
                UpdateEvent::Failure => {
                    self.state = UpdateState::Failed;
                    UpdateAction::Stop
                },
                _ => UpdateAction::Continue,
            },
            UpdateState::Downloading => match event {
                UpdateEvent::Chunk { length } => {
                    self.bytes_downloaded = self.bytes_downloaded + *length;
                    UpdateAction::Continue
                },
                UpdateEvent::DownloadCompleted => UpdateAction::Install,
                UpdateEvent::InstallSucceeded => {
                    self.state = UpdateState::Installed;
                    UpdateAction::Restart
                },
                UpdateEvent::Failure => {
                    self.state = UpdateState::Failed;
                    UpdateAction::Stop
                },
                _ => UpdateAction::Continue,
            },
            UpdateState::Installed | UpdateState::NotAvailable | UpdateState::Failed => {
                UpdateAction::Stop
            },
        }
    }
}

} // verus!
