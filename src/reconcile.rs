use vstd::prelude::*;

use crate::slack::{
    cleared_status, listening_marker, listening_status, Profile, SlackPresence, SlackProfile,
    StatusView,
};
use crate::spotify::{format_currently_playing, CurrentlyPlaying};

verus! {

/// What one check found on the player: whether it plays, and the label to announce.
#[derive(Debug, Clone, PartialEq, Eq)]
pub struct PlaybackSnapshot {
    pub is_playing: bool,
    pub track_label: String,
}

/// The single write that a check issues, if any.
#[derive(Debug, Clone, PartialEq, Eq)]
pub enum StatusAction {
    Keep,
    SetListening(String),
    Clear,
}

/// A status action as seen by the contracts.
pub enum ActionView {
    Keep,
    SetListening(Seq<char>),
    Clear,
}

/// What a check does once the player and the shown status are known.
#[derive(Debug, Clone, PartialEq, Eq)]
pub enum NextStep {
    /// Presence decides: fetch it, then call `decide_with_presence`.
    FetchPresence,
    /// Presence does not matter: this is the action.
    Act(StatusAction),
}

impl StatusAction {
    pub open spec fn view(&self) -> ActionView {
        match self {
            StatusAction::Keep => ActionView::Keep,
            StatusAction::SetListening(l) => ActionView::SetListening(l@),
            StatusAction::Clear => ActionView::Clear,
        }
    }

    /// The profile status to write: none for `Keep`.
    pub fn payload(&self) -> (r: Option<Profile>)
        ensures
            self.view() is Keep <==> r is None,
            self.view() is SetListening ==> r.unwrap().status_text@ == self.view()->SetListening_0
                && r.unwrap().status_emoji@ == listening_marker(),
            self.view() is Clear ==> r.unwrap().status_text@ == Seq::<char>::empty()
                && r.unwrap().status_emoji@ == Seq::<char>::empty(),
    {
        match self {
            StatusAction::Keep => None,
            StatusAction::SetListening(label) => Some(listening_status(label.as_str())),
            StatusAction::Clear => Some(cleared_status()),
        }
    }
}

/// The player announces something: it plays and the label is not empty.
/// A playing item without a label (an episode, an unknown item) announces nothing.
pub open spec fn announces(is_playing: bool, label: Seq<char>) -> bool {
    is_playing && label.len() > 0
}

/// Not working, or nothing to announce: undo a marker status, leave any other.
pub open spec fn not_working_action(status: StatusView) -> ActionView {
    if status.is_listening_marker() {
        ActionView::Clear
    } else {
        ActionView::Keep
    }
}

/// Working while a label is announced: write it unless it is already shown.
pub open spec fn working_action(label: Seq<char>, status: StatusView) -> ActionView {
    if label != status.text {
        ActionView::SetListening(label)
    } else {
        ActionView::Keep
    }
}

/// The action of one check, given the player, the shown status and whether the user works.
pub open spec fn check_action(
    is_playing: bool,
    label: Seq<char>,
    status: StatusView,
    working: bool,
) -> ActionView {
    if announces(is_playing, label) && working {
        working_action(label, status)
    } else {
        not_working_action(status)
    }
}

/// The status that the platform shows after an action was written.
pub open spec fn shown_after(status: StatusView, action: ActionView) -> StatusView {
    match action {
        ActionView::Keep => status,
        ActionView::SetListening(l) => StatusView { ok: true, text: l, emoji: listening_marker() },
        ActionView::Clear => StatusView { ok: true, text: Seq::empty(), emoji: Seq::empty() },
    }
}

impl PlaybackSnapshot {
    pub open spec fn announces(&self) -> bool {
        announces(self.is_playing, self.track_label@)
    }

    /// The snapshot of a player state: its flag and its label.
    pub fn of(currently_playing: &CurrentlyPlaying) -> (r: PlaybackSnapshot)
        ensures
            r.is_playing == currently_playing.is_playing,
            r.track_label@ == currently_playing.label(),
    {
        PlaybackSnapshot {
            is_playing: currently_playing.is_playing,
            track_label: format_currently_playing(currently_playing),
        }
    }
}

/// Working: announce `label` unless the shown text is already `label`.
pub fn handle_is_working(label: &String, slack_profile: &SlackProfile) -> (r: StatusAction)
    ensures
        r.view() == working_action(label@, slack_profile.view()),
{
    if *label != slack_profile.profile.status_text {
        StatusAction::SetListening(label.clone())
    } else {
        StatusAction::Keep
    }
}

/// Not working or not announcing: clear a marker status, keep any other.
pub fn handle_not_working(slack_profile: &SlackProfile) -> (r: StatusAction)
    ensures
        r.view() == not_working_action(slack_profile.view()),
{
    if slack_profile.is_listening_to() {
        StatusAction::Clear
    } else {
        StatusAction::Keep
    }
}

/// Something is announced: presence decides between the two paths.
pub fn handle_playing_song(
    label: &String,
    slack_profile: &SlackProfile,
    slack_presence: &SlackPresence,
) -> (r: StatusAction)
    ensures
        r.view() == (if slack_presence.spec_is_working() {
            working_action(label@, slack_profile.view())
        } else {
            not_working_action(slack_profile.view())
        }),
{
    if slack_presence.is_working() {
        handle_is_working(label, slack_profile)
    } else {
        handle_not_working(slack_profile)
    }
}

/// The first decision of a check: whether presence is needed, or the action at once.
pub fn next_step(playback: &PlaybackSnapshot, slack_profile: &SlackProfile) -> (r: NextStep)
    ensures
        playback.announces() <==> r is FetchPresence,
        r matches NextStep::Act(a) ==> a.view() == not_working_action(slack_profile.view()),
        r matches NextStep::Act(a) ==> forall|working: bool|
            a.view() == #[trigger] check_action(
                playback.is_playing,
                playback.track_label@,
                slack_profile.view(),
                working,
            ),
{
    if playback.is_playing && !playback.track_label.as_str().is_empty() {
        NextStep::FetchPresence
    } else {
        NextStep::Act(handle_not_working(slack_profile))
    }
}

/// The action of a check once presence is known.
pub fn decide_with_presence(
    playback: &PlaybackSnapshot,
    slack_profile: &SlackProfile,
    slack_presence: &SlackPresence,
) -> (r: StatusAction)
    ensures
        r.view() == check_action(
            playback.is_playing,
            playback.track_label@,
            slack_profile.view(),
            slack_presence.spec_is_working(),
        ),
{
    if playback.is_playing && !playback.track_label.as_str().is_empty() {
        handle_playing_song(&playback.track_label, slack_profile, slack_presence)
    } else {
        handle_not_working(slack_profile)
    }
}

/// A second check on an unchanged remote state writes nothing: whatever the first
/// check wrote already shows what the second one would want.
pub proof fn lemma_second_check_keeps(
    is_playing: bool,
    label: Seq<char>,
    status: StatusView,
    working: bool,
)
    ensures
        check_action(
            is_playing,
            label,
            shown_after(status, check_action(is_playing, label, status, working)),
            working,
        ) == ActionView::Keep,
{
    reveal_strlit(":musical_note:");
    assert(listening_marker().len() > 0);
}

/// A status without the marker survives a check while the user does not work and
/// nothing plays.
pub proof fn lemma_no_clobber(is_playing: bool, label: Seq<char>, status: StatusView, working: bool)
    requires
        !status.is_listening_marker(),
        !working,
        !is_playing,
    ensures
        check_action(is_playing, label, status, working) == ActionView::Keep,
{
}

/// A check clears only a status that carries the marker, and writes a status without
/// the marker only to replace it by a new marker status.
pub proof fn lemma_writes_only_owned(
    is_playing: bool,
    label: Seq<char>,
    status: StatusView,
    working: bool,
)
    ensures
        check_action(is_playing, label, status, working) is Clear ==> status.is_listening_marker(),
        check_action(is_playing, label, status, working) is SetListening ==> shown_after(
            status,
            check_action(is_playing, label, status, working),
        ).is_listening_marker(),
{
}

/// Once a listening status for `label` is written, the platform shows `label` with the
/// marker.
pub proof fn lemma_listening_round_trip(status: StatusView, label: Seq<char>)
    ensures
        shown_after(status, ActionView::SetListening(label)).text == label,
        shown_after(status, ActionView::SetListening(label)).emoji == listening_marker(),
        shown_after(status, ActionView::SetListening(label)).is_listening_marker(),
{
}

} // verus!
