use vstd::prelude::*;
use vstd::string::StringExecFns;

verus! {

/// The emoji that marks a status as one this library wrote.
pub const LISTENING_TO_EMOJI: &'static str = ":musical_note:";

/// The marker emoji as a sequence of characters.
pub open spec fn listening_marker() -> Seq<char> {
    ":musical_note:"@
}

/// The status shown on the messaging platform, as seen by the contracts.
pub struct StatusView {
    pub ok: bool,
    pub text: Seq<char>,
    pub emoji: Seq<char>,
}

impl StatusView {
    /// The status carries the marker, so this library set it.
    pub open spec fn is_listening_marker(self) -> bool {
        self.ok && self.emoji == listening_marker()
    }
}

/// Whether a presence reply says the user is working: reachable, online and active.
pub open spec fn presence_is_working(ok: bool, presence: Seq<char>, online: bool) -> bool {
    ok && online && presence == "active"@
}

/// Text and emoji of a profile status.
#[derive(Debug, Clone, PartialEq, Eq)]
pub struct Profile {
    pub status_text: String,
    pub status_emoji: String,
}

/// The profile reply of the messaging platform.
#[derive(Debug, Clone, PartialEq, Eq)]
pub struct SlackProfile {
    pub ok: bool,
    pub profile: Profile,
}

/// The presence reply of the messaging platform.
#[derive(Debug, Clone, PartialEq, Eq)]
pub struct SlackPresence {
    pub ok: bool,
    pub presence: String,
    pub online: bool,
}

impl SlackPresence {
    pub open spec fn spec_is_working(&self) -> bool {
        presence_is_working(self.ok, self.presence@, self.online)
    }

    /// The user is working: the reply is ok, the user is online and active.
    pub fn is_working(&self) -> (r: bool)
        ensures
            r == self.spec_is_working(),
    {
        let active = String::from_str("active");
        self.ok && self.online && self.presence == active
    }
}

impl SlackProfile {
    pub open spec fn view(&self) -> StatusView {
        StatusView {
            ok: self.ok,
            text: self.profile.status_text@,
            emoji: self.profile.status_emoji@,
        }
    }

    /// The displayed status carries the listening marker.
    pub fn is_listening_to(&self) -> (r: bool)
        ensures
            r == self.view().is_listening_marker(),
    {
        let marker = String::from_str(LISTENING_TO_EMOJI);
        proof {
            reveal_strlit(":musical_note:");
        }
        self.ok && self.profile.status_emoji == marker
    }
}

/// The profile status that announces `label`.
pub fn listening_status(label: &str) -> (r: Profile)
    ensures
        r.status_text@ == label@,
        r.status_emoji@ == listening_marker(),
{
    proof {
        reveal_strlit(":musical_note:");
    }
    Profile { status_text: String::from_str(label), status_emoji: String::from_str(LISTENING_TO_EMOJI) }
}

/// The empty profile status, which clears what is shown.
pub fn cleared_status() -> (r: Profile)
    ensures
        r.status_text@ == Seq::<char>::empty(),
        r.status_emoji@ == Seq::<char>::empty(),
{
    Profile { status_text: String::new(), status_emoji: String::new() }
}

} // verus!
