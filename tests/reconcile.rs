use listening_to::reconcile::{
    decide_with_presence, handle_is_working, handle_not_working, handle_playing_song, next_step,
    NextStep, PlaybackSnapshot, StatusAction,
};
use listening_to::slack::{
    cleared_status, listening_status, Profile, SlackPresence, SlackProfile, LISTENING_TO_EMOJI,
};

fn profile(text: &str, emoji: &str) -> SlackProfile {
    SlackProfile {
        ok: true,
        profile: Profile { status_text: text.to_string(), status_emoji: emoji.to_string() },
    }
}

fn presence(ok: bool, state: &str, online: bool) -> SlackPresence {
    SlackPresence { ok, presence: state.to_string(), online }
}

fn playback(is_playing: bool, label: &str) -> PlaybackSnapshot {
    PlaybackSnapshot { is_playing, track_label: label.to_string() }
}

fn working() -> SlackPresence {
    presence(true, "active", true)
}

/// Runs one check against a fake remote and returns the action.
fn check(pb: &PlaybackSnapshot, shown: &SlackProfile, pres: &SlackPresence) -> StatusAction {
    match next_step(pb, shown) {
        NextStep::FetchPresence => decide_with_presence(pb, shown, pres),
        NextStep::Act(a) => a,
    }
}

/// Applies an action to the fake remote.
fn apply(shown: &SlackProfile, action: &StatusAction) -> SlackProfile {
    match action.payload() {
        None => shown.clone(),
        Some(p) => SlackProfile { ok: true, profile: p },
    }
}

#[test]
fn correct_set() {
    let a = check(&playback(true, "Song A - Artist X"), &profile("Song B - Artist Y", ""), &working());
    assert_eq!(a, StatusAction::SetListening("Song A - Artist X".to_string()));
}

#[test]
fn correct_clear() {
    let a = check(
        &playback(false, ""),
        &profile("Song A - Artist X", LISTENING_TO_EMOJI),
        &working(),
    );
    assert_eq!(a, StatusAction::Clear);
}

#[test]
fn suppressed_while_not_working() {
    let shown = profile("Song A - Artist X", ":musical_note:");
    let pb = playback(true, "Song A - Artist X");
    assert_eq!(next_step(&pb, &shown), NextStep::FetchPresence);
    assert_eq!(decide_with_presence(&pb, &shown, &presence(true, "away", true)), StatusAction::Clear);
    assert_eq!(decide_with_presence(&pb, &shown, &presence(true, "active", false)), StatusAction::Clear);
    assert_eq!(decide_with_presence(&pb, &shown, &presence(false, "active", true)), StatusAction::Clear);
}

#[test]
fn stable_match() {
    let a = check(&playback(true, "Song A - Artist X"), &profile("Song A - Artist X", ":musical_note:"), &working());
    assert_eq!(a, StatusAction::Keep);
}

#[test]
fn no_clobber_of_manual_status() {
    let shown = profile("In a meeting", ":calendar:");
    assert_eq!(check(&playback(false, ""), &shown, &presence(true, "away", false)), StatusAction::Keep);
    assert_eq!(check(&playback(true, "Song A - Artist X"), &shown, &presence(true, "away", true)), StatusAction::Keep);
}

#[test]
fn second_check_writes_nothing() {
    let cases = vec![
        (playback(true, "Song A - Artist X"), profile("Song B - Artist Y", ":musical_note:"), working()),
        (playback(true, "Song A - Artist X"), profile("Lunch", ":fork:"), working()),
        (playback(false, ""), profile("Song A - Artist X", ":musical_note:"), working()),
        (playback(true, "Song A - Artist X"), profile("Song A - Artist X", ":musical_note:"), presence(true, "away", true)),
        (playback(true, ""), profile("", ":musical_note:"), working()),
    ];
    for (pb, shown, pres) in cases {
        let first = check(&pb, &shown, &pres);
        assert_ne!(first, StatusAction::Keep);
        let after = apply(&shown, &first);
        assert_eq!(check(&pb, &after, &pres), StatusAction::Keep);
    }
}

#[test]
fn set_listening_round_trip() {
    let a = StatusAction::SetListening("Song A - Artist X".to_string());
    let shown = apply(&profile("Lunch", ":fork:"), &a);
    assert_eq!(shown.profile.status_text, "Song A - Artist X");
    assert_eq!(shown.profile.status_emoji, LISTENING_TO_EMOJI);
    assert!(shown.is_listening_to());
}

#[test]
fn empty_label_while_playing_announces_nothing() {
    let pb = playback(true, "");
    assert_eq!(next_step(&pb, &profile("Lunch", ":fork:")), NextStep::Act(StatusAction::Keep));
    assert_eq!(next_step(&pb, &profile("x", ":musical_note:")), NextStep::Act(StatusAction::Clear));
    assert_eq!(decide_with_presence(&pb, &profile("x", ":musical_note:"), &working()), StatusAction::Clear);
}

#[test]
fn handlers() {
    let label = "Song A - Artist X".to_string();
    assert_eq!(handle_is_working(&label, &profile("Song A - Artist X", "")), StatusAction::Keep);
    assert_eq!(handle_is_working(&label, &profile("", "")), StatusAction::SetListening(label.clone()));
    assert_eq!(handle_not_working(&profile("x", ":musical_note:")), StatusAction::Clear);
    assert_eq!(handle_not_working(&profile("x", ":smile:")), StatusAction::Keep);
    assert_eq!(handle_playing_song(&label, &profile("", ""), &working()), StatusAction::SetListening(label.clone()));
    assert_eq!(handle_playing_song(&label, &profile("", ""), &presence(true, "away", true)), StatusAction::Keep);
}

#[test]
fn presence_is_working() {
    assert!(presence(true, "active", true).is_working());
    assert!(!presence(true, "away", true).is_working());
    assert!(!presence(true, "active", false).is_working());
    assert!(!presence(false, "active", true).is_working());
    assert!(!presence(true, "Active", true).is_working());
}

#[test]
fn profile_is_listening_to() {
    assert!(profile("a", ":musical_note:").is_listening_to());
    assert!(!profile("a", ":notes:").is_listening_to());
    let mut p = profile("a", ":musical_note:");
    p.ok = false;
    assert!(!p.is_listening_to());
}

#[test]
fn payloads() {
    assert_eq!(StatusAction::Keep.payload(), None);
    let p = StatusAction::Clear.payload().unwrap();
    assert_eq!(p, cleared_status());
    assert_eq!(p.status_text, "");
    assert_eq!(p.status_emoji, "");
    let l = listening_status("Song");
    assert_eq!(l.status_text, "Song");
    assert_eq!(l.status_emoji, ":musical_note:");
}
