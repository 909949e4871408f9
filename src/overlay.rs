//! The overlay state store and its visibility policy.
use vstd::prelude::*;

use crate::status::NormalizedStatus;

verus! {

/// Milliseconds of inactivity after which an idle, visible overlay hides.
pub const AUTO_HIDE_AFTER_MS: u64 = 30000;

/// The state the overlay shows. Times are milliseconds on a monotonic clock.
pub struct OverlayState {
    pub visible: bool,
    pub status: String,
    pub text: String,
    pub is_listening: bool,
    pub is_speaking: bool,
    pub wake_word_detected: bool,
    pub last_activity_time: u64,
}

/// The record handed to the presentation layer on every change.
pub struct StatusUpdate {
    pub status: String,
    pub text: String,
    pub is_listening: bool,
    pub is_speaking: bool,
    pub wake_word_detected: bool,
}

/// What the caller has to do after a payload was processed.
pub struct Effects {
    /// The record to publish, when the state changed.
    pub update: Option<StatusUpdate>,
    /// The window has to be shown: the overlay just became visible.
    pub show_window: bool,
    /// The window has to be hidden: the overlay was idle for too long.
    pub hide_window: bool,
}

/// The overlay is shown while any activity flag is set or there is text.
pub open spec fn visible_for(listening: bool, speaking: bool, wake: bool, text: Seq<char>) -> bool {
    wake || speaking || listening || text.len() > 0
}

pub open spec fn proposed_visible(p: NormalizedStatus) -> bool {
    visible_for(p.is_listening, p.is_speaking, p.wake_word_detected, p.text@)
}

/// Time since `since`, zero when the clock reads earlier.
pub open spec fn elapsed(now: u64, since: u64) -> nat {
    if now >= since {
        (now - since) as nat
    } else {
        0
    }
}

/// A proposal differs from the state in a field that counts as a change.
pub open spec fn differs(s: OverlayState, p: NormalizedStatus) -> bool {
    ||| s.text@ != p.text@
    ||| s.is_listening != p.is_listening
    ||| s.is_speaking != p.is_speaking
    ||| s.wake_word_detected != p.wake_word_detected
    ||| s.visible != proposed_visible(p)
}

/// The state after a proposal was applied at time `now`.
pub open spec fn committed(s: OverlayState, p: NormalizedStatus, now: u64) -> OverlayState {
    if differs(s, p) {
        OverlayState {
            visible: proposed_visible(p),
            status: p.status,
            text: p.text,
            is_listening: p.is_listening,
            is_speaking: p.is_speaking,
            wake_word_detected: p.wake_word_detected,
            last_activity_time: now,
        }
    } else {
        s
    }
}

/// No flag is set and there is no text.
pub open spec fn idle(s: OverlayState) -> bool {
    !s.is_listening && !s.is_speaking && !s.wake_word_detected && s.text@.len() == 0
}

/// The auto-hide rule fires on `s` at time `now`.
pub open spec fn hides(s: OverlayState, now: u64) -> bool {
    s.visible && elapsed(now, s.last_activity_time) > AUTO_HIDE_AFTER_MS && idle(s)
}

/// The state after the auto-hide rule was evaluated at time `now`.
pub open spec fn after_auto_hide(s: OverlayState, now: u64) -> OverlayState {
    if hides(s, now) {
        OverlayState { visible: false, ..s }
    } else {
        s
    }
}

/// `u` carries the published fields of `s`.
pub open spec fn publishes(u: StatusUpdate, s: OverlayState) -> bool {
    &&& u.status@ == s.status@
    &&& u.text@ == s.text@
    &&& u.is_listening == s.is_listening
    &&& u.is_speaking == s.is_speaking
    &&& u.wake_word_detected == s.wake_word_detected
}

/// The status line shown while connected to `port`.
pub open spec fn connected_label(port: Seq<char>) -> Seq<char> {
    "Connected to CLIENT port "@ + port
}

/// Processing `p` at `now` takes `s` to `t` with effects `e`: the proposal
/// is applied, the auto-hide rule evaluated, a changed state published, and
/// the window shown when the overlay just became visible.
pub open spec fn processes(s: OverlayState, p: NormalizedStatus, now: u64, t: OverlayState, e: Effects) -> bool {
    &&& t == after_auto_hide(committed(s, p, now), now)
    &&& e.update is Some <==> differs(s, p)
    &&& e.update matches Some(u) ==> publishes(u, committed(s, p, now))
    &&& e.show_window == (differs(s, p) && proposed_visible(p) && !s.visible)
    &&& e.hide_window == hides(committed(s, p, now), now)
}

/// Whether a proposal makes the overlay visible.
pub fn should_be_visible(p: &NormalizedStatus) -> (r: bool)
    ensures
        r == proposed_visible(*p),
{
    p.wake_word_detected || p.is_speaking || p.is_listening || !p.text.as_str().is_empty()
}

impl OverlayState {
    /// The state at start-up: every field at its default, hidden.
    pub fn new(now: u64) -> (r: OverlayState)
        ensures
            !r.visible,
            r.status@ == "Unknown"@,
            r.text@.len() == 0,
            idle(r),
            r.last_activity_time == now,
    {
        proof {
            reveal_strlit("");
        }
        OverlayState {
            visible: false,
            status: "Unknown".to_string(),
            text: "".to_string(),
            is_listening: false,
            is_speaking: false,
            wake_word_detected: false,
            last_activity_time: now,
        }
    }

    /// Applies a proposal: when it differs in text, a flag or the derived
    /// visibility, every field is taken over, visibility is recomputed and
    /// the activity time moves to `now`; otherwise nothing changes.
    pub fn apply(&mut self, p: &NormalizedStatus, now: u64) -> (changed: bool)
        ensures
            changed == differs(*old(self), *p),
            *final(self) == committed(*old(self), *p, now),
    {
        let visible = should_be_visible(p);
        let changed = self.text != p.text || self.is_listening != p.is_listening
            || self.is_speaking != p.is_speaking || self.wake_word_detected != p.wake_word_detected
            || self.visible != visible;
        if changed {
            self.visible = visible;
            self.status = p.status.clone();
            self.text = p.text.clone();
            self.is_listening = p.is_listening;
            self.is_speaking = p.is_speaking;
            self.wake_word_detected = p.wake_word_detected;
            self.last_activity_time = now;
        }
        changed
    }

    /// Hides an idle overlay that has shown nothing new for longer than
    /// [`AUTO_HIDE_AFTER_MS`]; reports whether it did.
    pub fn auto_hide(&mut self, now: u64) -> (hidden: bool)
        ensures
            hidden == hides(*old(self), now),
            *final(self) == after_auto_hide(*old(self), now),
    {
        let since = if now >= self.last_activity_time {
            now - self.last_activity_time
        } else {
            0
        };
        let is_idle = !self.is_listening && !self.is_speaking && !self.wake_word_detected
            && self.text.as_str().is_empty();
        if self.visible && since > AUTO_HIDE_AFTER_MS && is_idle {
            self.visible = false;
            true
        } else {
            false
        }
    }

    /// Shows the overlay on request of the presentation layer.
    pub fn show_overlay(&mut self)
        ensures
            *final(self) == (OverlayState { visible: true, ..*old(self) }),
    {
        self.visible = true;
    }

    /// Hides the overlay on request of the presentation layer.
    pub fn hide_overlay(&mut self)
        ensures
            *final(self) == (OverlayState { visible: false, ..*old(self) }),
    {
        self.visible = false;
    }

    /// Takes over a status pushed by the presentation layer: status, text and
    /// flags are replaced; visibility and activity time stay.
    pub fn set_manual(&mut self, p: &NormalizedStatus)
        ensures
            *final(self) == (OverlayState {
                status: p.status,
                text: p.text,
                is_listening: p.is_listening,
                is_speaking: p.is_speaking,
                wake_word_detected: p.wake_word_detected,
                ..*old(self)
            }),
    {
        self.status = p.status.clone();
        self.text = p.text.clone();
        self.is_listening = p.is_listening;
        self.is_speaking = p.is_speaking;
        self.wake_word_detected = p.wake_word_detected;
    }

    /// Sets the status line; nothing else changes.
    pub fn set_status(&mut self, status: String)
        ensures
            *final(self) == (OverlayState { status, ..*old(self) }),
    {
        self.status = status;
    }

    /// Records that the source answers on `port`.
    pub fn note_connected(&mut self, port: &str)
        ensures
            final(self).status@ == connected_label(port@),
            *final(self) == (OverlayState { status: final(self).status, ..*old(self) }),
    {
        let mut label = "Connected to CLIENT port ".to_string();
        label.append(port);
        self.status = label;
    }

    /// Records that no candidate port answered the first probe.
    pub fn note_searching(&mut self)
        ensures
            final(self).status@ == "Waiting for client..."@,
            *final(self) == (OverlayState { status: final(self).status, ..*old(self) }),
    {
        self.status = "Waiting for client...".to_string();
    }

    /// Records that a poll could not reach the source.
    pub fn note_unreachable(&mut self)
        ensures
            final(self).status@ == "Waiting for client to start..."@,
            final(self).text@ == "Start the Gaja client first"@,
            *final(self) == (OverlayState {
                status: final(self).status,
                text: final(self).text,
                ..*old(self)
            }),
    {
        self.status = "Waiting for client to start...".to_string();
        self.text = "Start the Gaja client first".to_string();
    }

    /// A copy of the whole state.
    pub fn snapshot(&self) -> (r: OverlayState)
        ensures
            r == *self,
    {
        OverlayState {
            visible: self.visible,
            status: self.status.clone(),
            text: self.text.clone(),
            is_listening: self.is_listening,
            is_speaking: self.is_speaking,
            wake_word_detected: self.wake_word_detected,
            last_activity_time: self.last_activity_time,
        }
    }

    /// The record that goes to the presentation layer.
    pub fn status_update(&self) -> (u: StatusUpdate)
        ensures
            publishes(u, *self),
    {
        StatusUpdate {
            status: self.status.clone(),
            text: self.text.clone(),
            is_listening: self.is_listening,
            is_speaking: self.is_speaking,
            wake_word_detected: self.wake_word_detected,
        }
    }

    /// Processes one normalised payload at time `now`: applies it, then
    /// evaluates the auto-hide rule.
    pub fn process(&mut self, p: &NormalizedStatus, now: u64) -> (e: Effects)
        ensures
            processes(*old(self), *p, now, *final(self), e),
    {
        let was_visible = self.visible;
        let changed = self.apply(p, now);
        let update = if changed {
            Some(self.status_update())
        } else {
            None
        };
        let show_window = changed && self.visible && !was_visible;
        let hide_window = self.auto_hide(now);
        Effects { update, show_window, hide_window }
    }
}

/// Applying the same proposal twice changes nothing the second time, and
/// the activity time stays where the first application put it.
pub proof fn lemma_apply_idempotent(s: OverlayState, p: NormalizedStatus, t1: u64, t2: u64)
    ensures
        !differs(committed(s, p, t1), p),
        committed(committed(s, p, t1), p, t2) == committed(s, p, t1),
        committed(committed(s, p, t1), p, t2).last_activity_time == committed(
            s,
            p,
            t1,
        ).last_activity_time,
{
}

/// The overlay is to be visible exactly when a flag is set or the text is
/// not empty; it is hidden only when every flag is clear and there is no text.
pub proof fn lemma_visibility_formula(listening: bool, speaking: bool, wake: bool, text: Seq<char>)
    ensures
        visible_for(listening, speaking, wake, text) == (wake || speaking || listening || text.len()
            != 0),
        !visible_for(listening, speaking, wake, text) <==> (!listening && !speaking && !wake
            && text.len() == 0),
{
}

/// A visible, idle overlay whose last activity lies more than thirty seconds
/// back is hidden by the next evaluation; one thirty seconds back or less
/// is left as it is.
pub proof fn lemma_auto_hide(s: OverlayState, now: u64)
    requires
        s.visible,
        idle(s),
    ensures
        elapsed(now, s.last_activity_time) > 30000 ==> !after_auto_hide(s, now).visible,
        elapsed(now, s.last_activity_time) <= 30000 ==> after_auto_hide(s, now) == s,
{
}

/// Activity always wins over the elapsed time: a state with a flag set or
/// with text is never auto-hidden.
pub proof fn lemma_activity_blocks_auto_hide(s: OverlayState, now: u64)
    requires
        !idle(s),
    ensures
        after_auto_hide(s, now) == s,
{
}

} // verus!
