use santa::assets::{speech_name, AssetsLoading, AssetsReady, LoadReport, LoadStatus};
use santa::dialogue::SpeechCue;

#[test]
fn speech_name_is_file_stem() {
    assert_eq!(speech_name("speech/hello_1.ogg"), "hello_1");
    assert_eq!(speech_name("a/b/c.d.e"), "c");
    assert_eq!(speech_name("plain"), "plain");
    assert_eq!(speech_name("dir.v2/file"), "file");
    assert_eq!(speech_name(""), "");
}

#[test]
fn every_cue_path_names_its_cue() {
    for cue in SpeechCue::all() {
        assert_eq!(speech_name(cue.path()), cue.key());
    }
}

#[test]
fn ready_once_all_finish_without_errors() {
    let mut l: AssetsLoading<u32> = AssetsLoading::new();
    let mut ready = AssetsReady(false);
    l.track(1);
    l.track(2);
    l.track(3);
    let r = l.check(&vec![LoadStatus::Loaded, LoadStatus::Pending, LoadStatus::Pending], &mut ready);
    assert_eq!(r, None);
    assert!(!ready.0);
    assert_eq!(l.pending_handles(), &vec![2, 3]);
    assert_eq!(l.loaded_count(), 1);
    let r = l.check(&vec![LoadStatus::Loaded, LoadStatus::Loaded], &mut ready);
    assert_eq!(r, Some(LoadReport::AllLoaded { loaded: 3 }));
    assert!(ready.0);
    assert!(l.pending_handles().is_empty());
}

#[test]
fn failures_are_counted_and_reported() {
    let mut l: AssetsLoading<&str> = AssetsLoading::new();
    let mut ready = AssetsReady(false);
    l.track("font");
    l.track("santa");
    let r = l.check(&vec![LoadStatus::Failed, LoadStatus::Loaded], &mut ready);
    assert_eq!(r, Some(LoadReport::FinishedWithErrors { total: 2, errors: 1 }));
    assert!(ready.0);
    assert_eq!(l.error_count(), 1);
    assert_eq!(l.loaded_count(), 1);
}

#[test]
fn nothing_changed_means_no_report() {
    let mut l: AssetsLoading<u8> = AssetsLoading::new();
    let mut ready = AssetsReady(false);
    let r = l.check(&vec![], &mut ready);
    assert_eq!(r, None);
    assert!(!ready.0);
}
