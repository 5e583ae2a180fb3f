//! The popup window's rules: when a focus loss hides it, and what a click
//! on the tray icon does to it.
use vstd::prelude::*;

verus! {

/// The auto-hide state of the popup.  `allow_auto_hide` is off while the
/// frontend keeps the window open on purpose (the login form).
/// `pending_hide` is set when the window loses focus and cleared when it
/// regains it.  Each loss of focus starts a delayed hide carrying the
/// current `focus_epoch`, which moves on whenever focus comes back: a
/// delayed hide is dropped if focus came back after its loss, even when
/// focus was lost again before it came due.
#[derive(Debug, Clone, Copy, PartialEq, Eq)]
pub struct AutoHide {
    pub allow_auto_hide: bool,
    pub pending_hide: bool,
    pub focus_epoch: u64,
}

/// Something that changes the auto-hide state.
#[derive(Debug, Clone, Copy, PartialEq, Eq)]
pub enum WindowEvent {
    /// The window gained (`true`) or lost (`false`) focus.
    Focused(bool),
    /// The frontend allowed (`true`) or suppressed (`false`) auto-hide.
    AutoHideSet(bool),
}

/// The state after `event`; a regain of focus starts a new epoch.
pub open spec fn after_event(flags: AutoHide, event: WindowEvent) -> AutoHide {
    match event {
        WindowEvent::Focused(focused) => if focused {
            AutoHide {
                pending_hide: false,
                focus_epoch: if flags.focus_epoch == u64::MAX {
                    0
                } else {
                    (flags.focus_epoch + 1) as u64
                },
                ..flags
            }
        } else {
            AutoHide { pending_hide: true, ..flags }
        },
        WindowEvent::AutoHideSet(enabled) => AutoHide { allow_auto_hide: enabled, ..flags },
    }
}

/// Whether the delayed hide started in epoch `ticket` hides the window when
/// it comes due: focus has not come back since, a hide is pending, and
/// auto-hide is allowed.
pub open spec fn hides(flags: AutoHide, ticket: u64) -> bool {
    flags.pending_hide && flags.allow_auto_hide && ticket == flags.focus_epoch
}

/// The state at start: auto-hide allowed, nothing pending, first epoch.
pub open spec fn initial_flags() -> AutoHide {
    AutoHide { allow_auto_hide: true, pending_hide: false, focus_epoch: 0 }
}

/// The state after `events`, from the start.
pub open spec fn replay(events: Seq<WindowEvent>) -> AutoHide
    decreases events.len(),
{
    if events.len() == 0 {
        initial_flags()
    } else {
        after_event(replay(events.drop_last()), events.last())
    }
}

/// Whether the last focus change among `events` was a loss of focus.
pub open spec fn last_focus_lost(events: Seq<WindowEvent>) -> bool
    decreases events.len(),
{
    if events.len() == 0 {
        false
    } else {
        match events.last() {
            WindowEvent::Focused(focused) => !focused,
            WindowEvent::AutoHideSet(_) => last_focus_lost(events.drop_last()),
        }
    }
}

/// Whether auto-hide is allowed after `events`: the last setting, or
/// allowed when there was none.
pub open spec fn auto_hide_allowed(events: Seq<WindowEvent>) -> bool
    decreases events.len(),
{
    if events.len() == 0 {
        true
    } else {
        match events.last() {
            WindowEvent::AutoHideSet(enabled) => enabled,
            WindowEvent::Focused(_) => auto_hide_allowed(events.drop_last()),
        }
    }
}

/// The number of times focus came back among `events`.
pub open spec fn regains(events: Seq<WindowEvent>) -> nat
    decreases events.len(),
{
    if events.len() == 0 {
        0
    } else {
        regains(events.drop_last()) + if events.last() == WindowEvent::Focused(true) {
            1nat
        } else {
            0nat
        }
    }
}

/// Whether focus did not come back after position `i` of `events`.
pub open spec fn no_regain_after(events: Seq<WindowEvent>, i: int) -> bool {
    forall|j: int| i < j < events.len() ==> #[trigger] events[j] != WindowEvent::Focused(true)
}

impl AutoHide {
    /// The state at start: auto-hide allowed, nothing pending.
    pub fn new() -> (r: AutoHide)
        ensures
            r == initial_flags(),
    {
        AutoHide { allow_auto_hide: true, pending_hide: false, focus_epoch: 0 }
    }

    /// Allows or suppresses auto-hide.
    pub fn set_auto_hide(&mut self, enabled: bool)
        ensures
            *final(self) == after_event(*old(self), WindowEvent::AutoHideSet(enabled)),
    {
        self.allow_auto_hide = enabled;
    }

    /// Records a focus change.  On a loss of focus the answer is the ticket
    /// (the current epoch) of the delayed hide to start; on a gain there is
    /// none.
    pub fn focus_changed(&mut self, focused: bool) -> (ticket: Option<u64>)
        ensures
            *final(self) == after_event(*old(self), WindowEvent::Focused(focused)),
            ticket == if focused { None } else { Some(old(self).focus_epoch) },
    {
        if focused {
            self.pending_hide = false;
            self.focus_epoch = self.focus_epoch.wrapping_add(1);
            None
        } else {
            self.pending_hide = true;
            Some(self.focus_epoch)
        }
    }

    /// Whether the delayed hide with `ticket` hides the window now that it
    /// has come due.
    pub fn hide_now(&self, ticket: u64) -> (b: bool)
        ensures
            b == hides(*self, ticket),
    {
        self.pending_hide && self.allow_auto_hide && ticket == self.focus_epoch
    }
}

/// A hide is pending exactly when the last focus change was a loss, and
/// auto-hide is allowed exactly when the last setting (if any) allowed it.
pub proof fn pending_hide_rule(events: Seq<WindowEvent>)
    ensures
        replay(events).pending_hide == last_focus_lost(events),
        replay(events).allow_auto_hide == auto_hide_allowed(events),
    decreases events.len(),
{
    if events.len() > 0 {
        pending_hide_rule(events.drop_last());
    }
}

proof fn epochs_count_regains(events: Seq<WindowEvent>)
    requires
        regains(events) <= u64::MAX,
    ensures
        replay(events).focus_epoch == regains(events),
    decreases events.len(),
{
    if events.len() > 0 {
        epochs_count_regains(events.drop_last());
    }
}

proof fn regains_of_prefix(events: Seq<WindowEvent>, n: int)
    requires
        0 <= n <= events.len(),
    ensures
        regains(events.take(n)) <= regains(events),
    decreases events.len(),
{
    if n < events.len() {
        regains_of_prefix(events.drop_last(), n);
        assert(events.drop_last().take(n) =~= events.take(n));
    } else {
        assert(events.take(n) =~= events);
    }
}

proof fn ticket_stays_live(events: Seq<WindowEvent>, i: int)
    requires
        0 <= i < events.len(),
        events[i] == WindowEvent::Focused(false),
        regains(events) <= u64::MAX,
    ensures
        (replay(events).focus_epoch == regains(events.take(i + 1))) == no_regain_after(events, i),
        no_regain_after(events, i) ==> replay(events).pending_hide,
    decreases events.len(),
{
    let prev = events.drop_last();
    epochs_count_regains(events);
    if i == events.len() - 1 {
        assert(events.take(i + 1) =~= events);
    } else {
        assert(prev.take(i + 1) =~= events.take(i + 1));
        assert(prev[i] == events[i]);
        ticket_stays_live(prev, i);
        regains_of_prefix(prev, i + 1);
        epochs_count_regains(prev);
        if events.last() == WindowEvent::Focused(true) {
            assert(events[events.len() - 1] == WindowEvent::Focused(true));
            assert(!no_regain_after(events, i));
        } else {
            if no_regain_after(prev, i) {
                assert forall|j: int| i < j < events.len() implies #[trigger] events[j]
                    != WindowEvent::Focused(true) by {
                    if j < events.len() - 1 {
                        assert(events[j] == prev[j]);
                    }
                }
            }
            if no_regain_after(events, i) {
                assert forall|j: int| i < j < prev.len() implies #[trigger] prev[j]
                    != WindowEvent::Focused(true) by {
                    assert(events[j] == prev[j]);
                }
            }
        }
    }
}

/// The delayed hide started by the loss of focus at position `i` hides the
/// window when it comes due (after `events`) exactly when focus did not come
/// back after that loss and auto-hide is allowed.  Losses with no regain
/// between them share a ticket, so the earliest delayed hide still hides
/// 3 s after its loss.  (Epochs are told apart while focus comes back at
/// most `u64::MAX` times.)
pub proof fn delayed_hide_rule(events: Seq<WindowEvent>, i: int)
    requires
        0 <= i < events.len(),
        events[i] == WindowEvent::Focused(false),
        regains(events) <= u64::MAX,
    ensures
        hides(replay(events), regains(events.take(i + 1)) as u64) == (no_regain_after(events, i)
            && auto_hide_allowed(events)),
{
    ticket_stays_live(events, i);
    pending_hide_rule(events);
    regains_of_prefix(events, i + 1);
}

/// What the popup looks like when the tray icon is clicked.
#[derive(Debug, Clone, Copy, PartialEq, Eq)]
pub enum WindowState {
    /// There is no main window.
    Missing,
    Visible,
    Hidden,
    /// The window system could not say whether it is visible.
    Unknown,
}

/// What a click on the tray icon does.
#[derive(Debug, Clone, Copy, PartialEq, Eq)]
pub enum TrayAction {
    Ignore,
    HideWindow,
    /// Show the window below the icon.
    ShowWindow,
}

/// A release of the left button on the tray icon toggles the popup: a
/// visible window is hidden, any other is shown below the icon (a window
/// whose visibility is unknown counts as hidden).  Other clicks, or a
/// missing window, do nothing.
pub fn tray_clicked(left_button_released: bool, window: WindowState) -> (a: TrayAction)
    ensures
        a == if !left_button_released || window == WindowState::Missing {
            TrayAction::Ignore
        } else if window == WindowState::Visible {
            TrayAction::HideWindow
        } else {
            TrayAction::ShowWindow
        },
{
    if !left_button_released {
        TrayAction::Ignore
    } else {
        match window {
            WindowState::Missing => TrayAction::Ignore,
            WindowState::Visible => TrayAction::HideWindow,
            WindowState::Hidden => TrayAction::ShowWindow,
            WindowState::Unknown => TrayAction::ShowWindow,
        }
    }
}

} // verus!
