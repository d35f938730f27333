use fof::session::{is_picture_ending, remove_slashes, LabelSession, SessionAction};

fn pictures(names: &[&str]) -> Vec<String> {
    names.iter().map(|name| name.to_string()).collect()
}

#[test]
fn session_by_hand_stores_each_picture_and_ends() {
    let mut session = LabelSession::new();
    assert!(!session.is_running());
    session.start(pictures(&["a.png", "b.png"]));
    assert!(session.is_running());
    assert_eq!(session.reset_labeling(false, false, 0), vec![SessionAction::SaveLabels("b.png".to_string())]);
    assert_eq!(session.labeling_que, pictures(&["a.png"]));
    assert_eq!(
        session.reset_labeling(false, false, 0),
        vec![SessionAction::SaveLabels("a.png".to_string()), SessionAction::EndSession]
    );
    assert!(!session.is_running());
    assert_eq!(session.ja_nein_idx, 0);
}

#[test]
fn skipped_pictures_are_not_stored() {
    let mut session = LabelSession::new();
    session.start(pictures(&["a.png", "b.png"]));
    assert_eq!(session.reset_labeling(true, false, 0), vec![]);
    assert_eq!(session.labeling_que, pictures(&["a.png"]));
    assert_eq!(session.reset_labeling(true, false, 0), vec![SessionAction::EndSession]);
    assert!(session.labeling_que.is_empty());
}

#[test]
fn session_by_yes_and_no_goes_through_the_detections() {
    let mut session = LabelSession::new();
    session.start(pictures(&["x/a.png", "dir/sub/b.png"]));
    assert_eq!(
        session.reset_labeling(false, true, 3),
        vec![
            SessionAction::SaveSubImage("JaNeinImgs/Nr0dirsubb.png".to_string()),
            SessionAction::SaveLabels("JaNeinImgs/Nr0dirsubb.png".to_string()),
        ]
    );
    assert_eq!(session.ja_nein_idx, 1);
    assert_eq!(session.labeling_que.len(), 2);
    assert_eq!(session.reset_labeling(true, true, 3), vec![]);
    assert_eq!(session.ja_nein_idx, 2);
    assert_eq!(
        session.reset_labeling(false, true, 3),
        vec![
            SessionAction::SaveSubImage("JaNeinImgs/Nr2dirsubb.png".to_string()),
            SessionAction::SaveLabels("JaNeinImgs/Nr2dirsubb.png".to_string()),
            SessionAction::ForgetDetections,
        ]
    );
    assert_eq!(session.ja_nein_idx, 0);
    assert_eq!(session.labeling_que, pictures(&["x/a.png"]));
    assert_eq!(
        session.reset_labeling(true, true, 1),
        vec![SessionAction::ForgetDetections, SessionAction::EndSession]
    );
    assert!(!session.is_running());
}

#[test]
fn picture_without_detections_is_done_at_once() {
    let mut session = LabelSession::new();
    session.start(pictures(&["a.png", "b.png"]));
    assert_eq!(
        session.reset_labeling(false, true, 0),
        vec![
            SessionAction::SaveSubImage("JaNeinImgs/Nr0b.png".to_string()),
            SessionAction::SaveLabels("JaNeinImgs/Nr0b.png".to_string()),
            SessionAction::ForgetDetections,
        ]
    );
    assert_eq!(session.labeling_que, pictures(&["a.png"]));
}

#[test]
fn session_without_pictures_ends_at_once() {
    let mut session = LabelSession::new();
    assert_eq!(session.reset_labeling(false, false, 0), vec![SessionAction::EndSession]);
    session.ja_nein_idx = usize::MAX;
    assert_eq!(
        session.reset_labeling(false, true, 5),
        vec![SessionAction::ForgetDetections, SessionAction::EndSession]
    );
    assert_eq!(session.ja_nein_idx, 0);
}

#[test]
fn stopping_a_session_forgets_its_pictures() {
    let mut session = LabelSession::new();
    session.start(pictures(&["a.png"]));
    session.ja_nein_idx = 4;
    session.stop();
    assert!(!session.is_running());
    assert_eq!(session.ja_nein_idx, 0);
    assert!(session.labeling_que.is_empty());
}

#[test]
fn slashes_are_removed() {
    assert_eq!(remove_slashes("a/b/c.png"), "abc.png");
    assert_eq!(remove_slashes("/a//b/"), "ab");
    assert_eq!(remove_slashes("none"), "none");
    assert_eq!(remove_slashes(""), "");
    assert_eq!(remove_slashes("///"), "");
    assert_eq!(remove_slashes("ö/ü"), "öü");
}

#[test]
fn endings_of_pictures() {
    for ending in ["png", "jpg", "jpeg", "pdf", "gif", "webp"] {
        assert!(is_picture_ending(ending));
    }
    for ending in ["PNG", "txt", "", "pn", "pngx", "yaml"] {
        assert!(!is_picture_ending(ending));
    }
}
