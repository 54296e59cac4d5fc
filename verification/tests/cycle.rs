use ff7_companion::cycle::update;
use ff7_companion::updater::{UpdateAction, UpdateEvent, UpdateSession, UpdateState};

fn count(actions: &[UpdateAction], wanted: UpdateAction) -> usize {
    actions.iter().filter(|action| **action == wanted).count()
}

fn download_of(version: &str, lengths: &[usize]) -> Vec<UpdateEvent> {
    let mut events =
        vec![UpdateEvent::Launched, UpdateEvent::ManifestNewer { version: version.to_string() }];
    for length in lengths {
        events.push(UpdateEvent::Chunk { length: *length });
    }
    events
}

#[test]
fn empty_record_leaves_the_session_idle() {
    let (session, actions) = update(&[]);
    assert_eq!(session, UpdateSession::new());
    assert!(actions.is_empty());
}

#[test]
fn same_version_reaches_not_available_without_download() {
    let (session, actions) = update(&[UpdateEvent::Launched, UpdateEvent::ManifestCurrent]);
    assert_eq!(session.state(), UpdateState::NotAvailable);
    assert_eq!(session.bytes_downloaded(), 0);
    assert_eq!(session.remote_version(), "");
    assert_eq!(actions, vec![UpdateAction::CheckManifest, UpdateAction::Stop]);
    assert_eq!(count(&actions, UpdateAction::Download), 0);
    assert_eq!(count(&actions, UpdateAction::Install), 0);
    assert_eq!(count(&actions, UpdateAction::Restart), 0);
}

#[test]
fn same_version_stays_not_available_whatever_follows() {
    let mut events = vec![UpdateEvent::Launched, UpdateEvent::ManifestCurrent];
    events.extend(download_of("5.0.0", &[10, 20]));
    events.push(UpdateEvent::DownloadCompleted);
    events.push(UpdateEvent::InstallSucceeded);
    let (session, actions) = update(&events);
    assert_eq!(session.state(), UpdateState::NotAvailable);
    assert_eq!(session.bytes_downloaded(), 0);
    assert_eq!(actions.len(), events.len());
    assert_eq!(actions[0], UpdateAction::CheckManifest);
    assert!(actions[1..].iter().all(|action| *action == UpdateAction::Stop));
}

#[test]
fn completed_download_counts_every_byte_and_restarts_once() {
    let lengths = [4096, 4096, 0, 1500, 1];
    let artifact_length: usize = lengths.iter().sum();
    let mut events = download_of("1.2.3", &lengths);
    events.push(UpdateEvent::DownloadCompleted);
    events.push(UpdateEvent::InstallSucceeded);

    let (session, actions) = update(&events);

    assert_eq!(artifact_length, 9693);
    assert_eq!(session.bytes_downloaded(), 9693);
    assert_eq!(session.state(), UpdateState::Installed);
    assert_eq!(session.remote_version(), "1.2.3");
    assert_eq!(
        actions,
        vec![
            UpdateAction::CheckManifest,
            UpdateAction::Download,
            UpdateAction::Continue,
            UpdateAction::Continue,
            UpdateAction::Continue,
            UpdateAction::Continue,
            UpdateAction::Continue,
            UpdateAction::Install,
            UpdateAction::Restart,
        ]
    );
    assert_eq!(count(&actions, UpdateAction::Restart), 1);
    let install = actions.iter().position(|action| *action == UpdateAction::Install).unwrap();
    let restart = actions.iter().position(|action| *action == UpdateAction::Restart).unwrap();
    assert_eq!(restart, install + 1);
    assert_eq!(restart, actions.len() - 1);
}

#[test]
fn artifact_without_chunks_is_installed_with_a_count_of_zero() {
    let mut events = download_of("1.2.3", &[]);
    events.push(UpdateEvent::DownloadCompleted);
    events.push(UpdateEvent::InstallSucceeded);
    let (session, actions) = update(&events);
    assert_eq!(session.state(), UpdateState::Installed);
    assert_eq!(session.bytes_downloaded(), 0);
    assert_eq!(
        actions,
        vec![
            UpdateAction::CheckManifest,
            UpdateAction::Download,
            UpdateAction::Install,
            UpdateAction::Restart,
        ]
    );
}

#[test]
fn restart_is_not_repeated_after_the_installation() {
    let mut events = download_of("1.2.3", &[7]);
    events.push(UpdateEvent::DownloadCompleted);
    events.push(UpdateEvent::InstallSucceeded);
    events.push(UpdateEvent::InstallSucceeded);
    events.push(UpdateEvent::Launched);
    events.push(UpdateEvent::Chunk { length: 9 });
    events.push(UpdateEvent::Failure);
    let (session, actions) = update(&events);
    assert_eq!(session.state(), UpdateState::Installed);
    assert_eq!(session.bytes_downloaded(), 7);
    assert_eq!(count(&actions, UpdateAction::Restart), 1);
    assert_eq!(actions[4], UpdateAction::Restart);
    assert!(actions[5..].iter().all(|action| *action == UpdateAction::Stop));
}

#[test]
fn download_that_breaks_reaches_failed_without_install_or_restart() {
    let mut events = download_of("1.2.3", &[4096, 100]);
    events.push(UpdateEvent::Failure);
    let (session, actions) = update(&events);
    assert_eq!(session.state(), UpdateState::Failed);
    assert_eq!(session.remote_version(), "1.2.3");
    assert_eq!(session.bytes_downloaded(), 4196);
    assert_eq!(
        actions,
        vec![
            UpdateAction::CheckManifest,
            UpdateAction::Download,
            UpdateAction::Continue,
            UpdateAction::Continue,
            UpdateAction::Stop,
        ]
    );
    assert_eq!(count(&actions, UpdateAction::Install), 0);
    assert_eq!(count(&actions, UpdateAction::Restart), 0);
}

#[test]
fn broken_download_stays_failed_whatever_follows() {
    let mut events = download_of("1.2.3", &[4096]);
    events.push(UpdateEvent::Failure);
    events.push(UpdateEvent::Chunk { length: 4096 });
    events.push(UpdateEvent::DownloadCompleted);
    events.push(UpdateEvent::InstallSucceeded);
    let (session, actions) = update(&events);
    assert_eq!(session.state(), UpdateState::Failed);
    assert_eq!(session.bytes_downloaded(), 4096);
    assert_eq!(count(&actions, UpdateAction::Install), 0);
    assert_eq!(count(&actions, UpdateAction::Restart), 0);
    assert!(actions[4..].iter().all(|action| *action == UpdateAction::Stop));
}

#[test]
fn failed_check_reaches_failed_without_download() {
    let (session, actions) = update(&[UpdateEvent::Launched, UpdateEvent::Failure]);
    assert_eq!(session.state(), UpdateState::Failed);
    assert_eq!(session.bytes_downloaded(), 0);
    assert_eq!(actions, vec![UpdateAction::CheckManifest, UpdateAction::Stop]);
}

#[test]
fn failed_installation_reaches_failed_without_restart() {
    let mut events = download_of("1.2.3", &[64]);
    events.push(UpdateEvent::DownloadCompleted);
    events.push(UpdateEvent::Failure);
    let (session, actions) = update(&events);
    assert_eq!(session.state(), UpdateState::Failed);
    assert_eq!(session.bytes_downloaded(), 64);
    assert_eq!(count(&actions, UpdateAction::Install), 1);
    assert_eq!(count(&actions, UpdateAction::Restart), 0);
}

#[test]
fn replay_agrees_with_stepping_by_hand() {
    let mut events = download_of("0.9.0", &[1, 2, 3]);
    events.push(UpdateEvent::ManifestCurrent);
    events.push(UpdateEvent::DownloadCompleted);
    events.push(UpdateEvent::InstallSucceeded);

    let mut session = UpdateSession::new();
    let mut actions = Vec::new();
    for event in &events {
        assert!(session.accepts(event));
        actions.push(session.step(event));
    }

    assert_eq!(update(&events), (session, actions));
}

#[test]
fn every_reachable_session_is_well_formed() {
    let mut events = download_of("0.9.0", &[1, 2, 3]);
    events.push(UpdateEvent::Failure);
    for end in 0..=events.len() {
        let (session, _) = update(&events[..end]);
        let before_download = matches!(
            session.state(),
            UpdateState::Idle | UpdateState::Checking | UpdateState::NotAvailable
        );
        if before_download {
            assert_eq!(session.remote_version(), "");
            assert_eq!(session.bytes_downloaded(), 0);
        }
    }
}
