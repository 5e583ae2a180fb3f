use token_monitor::window::{tray_clicked, AutoHide, TrayAction, WindowState};

#[test]
fn focus_loss_then_timer_hides() {
    let mut f = AutoHide::new();
    let ticket = f.focus_changed(false).unwrap();
    assert!(f.hide_now(ticket));
}

#[test]
fn regained_focus_cancels_the_delayed_hide() {
    let mut f = AutoHide::new();
    let ticket = f.focus_changed(false).unwrap();
    assert_eq!(f.focus_changed(true), None);
    assert!(!f.hide_now(ticket));
}

#[test]
fn suppressed_auto_hide_keeps_the_window() {
    let mut f = AutoHide::new();
    f.set_auto_hide(false);
    let ticket = f.focus_changed(false).unwrap();
    assert!(!f.hide_now(ticket));
    f.set_auto_hide(true);
    assert!(f.hide_now(ticket));
}

#[test]
fn earlier_timer_does_not_hide_after_a_regain_and_new_loss() {
    // Loss at 0 s, regain at 1 s, loss at 2 s: the timer of the first loss
    // (due at 3 s) must not hide; the timer of the second (due at 5 s) does.
    let mut f = AutoHide::new();
    let first = f.focus_changed(false).unwrap();
    f.focus_changed(true);
    let second = f.focus_changed(false).unwrap();
    assert_ne!(first, second);
    assert!(!f.hide_now(first));
    assert!(f.hide_now(second));
}

#[test]
fn two_losses_without_regain_hide_at_the_first_timer() {
    // Loss at 0 s and again at 1 s with no regain: the first timer hides at 3 s.
    let mut f = AutoHide::new();
    let first = f.focus_changed(false).unwrap();
    let second = f.focus_changed(false).unwrap();
    assert_eq!(first, second);
    assert!(f.hide_now(first));
}

#[test]
fn epochs_wrap_around() {
    let mut f = AutoHide { allow_auto_hide: true, pending_hide: false, focus_epoch: u64::MAX };
    assert_eq!(f.focus_changed(true), None);
    assert_eq!(f.focus_epoch, 0);
    assert_eq!(f.focus_changed(false), Some(0));
    assert!(f.hide_now(0));
}

#[test]
fn fresh_state_does_not_hide() {
    assert!(!AutoHide::new().hide_now(0));
    assert_eq!(
        AutoHide::new(),
        AutoHide { allow_auto_hide: true, pending_hide: false, focus_epoch: 0 }
    );
}

#[test]
fn tray_click_toggles_the_popup() {
    assert_eq!(tray_clicked(true, WindowState::Visible), TrayAction::HideWindow);
    assert_eq!(tray_clicked(true, WindowState::Hidden), TrayAction::ShowWindow);
    assert_eq!(tray_clicked(true, WindowState::Unknown), TrayAction::ShowWindow);
    assert_eq!(tray_clicked(true, WindowState::Missing), TrayAction::Ignore);
    assert_eq!(tray_clicked(false, WindowState::Visible), TrayAction::Ignore);
    assert_eq!(tray_clicked(false, WindowState::Hidden), TrayAction::Ignore);
}
