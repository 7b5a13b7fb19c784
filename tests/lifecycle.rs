use window_shell::action::Action;
use window_shell::coordinator::Coordinator;
use window_shell::model::ShellError;
use window_shell::window::{AuxKind, Role, Window, WindowInfo};

const DASH: Window = Window::Aux(AuxKind::Dashboard);
const MINI: Window = Window::Aux(AuxKind::Mini);

fn s(x: &str) -> String {
    x.to_string()
}

fn info(c: &Coordinator, label: &str) -> Option<WindowInfo> {
    c.lookup(&s(label))
}

fn visible(role: Role) -> Option<WindowInfo> {
    Some(WindowInfo { role, visible: true })
}

fn hidden(role: Role) -> Option<WindowInfo> {
    Some(WindowInfo { role, visible: false })
}

#[test]
fn fresh_process_shows_primary_only() {
    let c = Coordinator::new();
    assert_eq!(info(&c, "main"), visible(Role::Primary));
    assert_eq!(info(&c, "mini"), None);
    assert_eq!(info(&c, "dashboard"), None);
    assert_eq!(info(&c, "p1"), None);
    assert!(!c.is_exit_armed());
}

#[test]
fn open_dashboard_with_context_hides_primary() {
    let mut c = Coordinator::new();
    let acts = c.open_auxiliary(AuxKind::Dashboard, Some(s("settings"))).unwrap();
    assert_eq!(
        acts,
        vec![
            Action::Create(DASH),
            Action::Notify(AuxKind::Dashboard, s("settings")),
            Action::Hide(Window::Primary),
        ]
    );
    assert_eq!(info(&c, "dashboard"), visible(Role::Auxiliary));
    assert_eq!(info(&c, "main"), hidden(Role::Primary));
}

#[test]
fn reopening_hidden_dashboard_reuses_it() {
    let mut c = Coordinator::new();
    c.open_auxiliary(AuxKind::Dashboard, None).unwrap();
    c.close_auxiliary(AuxKind::Dashboard).unwrap();
    let acts = c.open_auxiliary(AuxKind::Dashboard, None).unwrap();
    assert_eq!(
        acts,
        vec![
            Action::Show(DASH),
            Action::Focus(DASH),
            Action::Notify(AuxKind::Dashboard, s("default")),
            Action::Hide(Window::Primary),
        ]
    );
}

#[test]
fn close_gesture_on_dashboard_hides_it_and_restores_primary() {
    let mut c = Coordinator::new();
    c.open_auxiliary(AuxKind::Dashboard, Some(s("settings"))).unwrap();
    let acts = c.close_requested(&s("dashboard"));
    assert_eq!(
        acts,
        vec![
            Action::Hide(DASH),
            Action::Show(Window::Primary),
            Action::Focus(Window::Primary),
            Action::Unminimize(Window::Primary),
        ]
    );
    assert_eq!(info(&c, "dashboard"), hidden(Role::Auxiliary));
    assert_eq!(info(&c, "main"), visible(Role::Primary));
}

#[test]
fn popup_label_collision_is_refused() {
    let mut c = Coordinator::new();
    let acts = c.create_popup(s("p1"), s("Info"), s("info.html")).unwrap();
    assert_eq!(
        acts,
        vec![Action::CreatePopup { label: s("p1"), title: s("Info"), url: s("info.html") }]
    );
    assert_eq!(info(&c, "p1"), visible(Role::Transient));
    assert_eq!(c.create_popup(s("p1"), s("Info"), s("info.html")), Err(ShellError::LabelTaken));
    assert_eq!(info(&c, "p1"), visible(Role::Transient));
}

#[test]
fn popup_cannot_take_a_role_label() {
    let mut c = Coordinator::new();
    assert_eq!(c.create_popup(s("main"), s("x"), s("x.html")), Err(ShellError::LabelTaken));
    assert_eq!(c.create_popup(s("dashboard"), s("x"), s("x.html")), Err(ShellError::LabelTaken));
    assert_eq!(c.create_popup(s("mini"), s("x"), s("x.html")), Err(ShellError::LabelTaken));
}

#[test]
fn closing_primary_arms_exit_and_blocks_opening() {
    let mut c = Coordinator::new();
    assert_eq!(c.close_requested(&s("main")), vec![Action::Exit]);
    assert!(c.is_exit_armed());
    assert_eq!(c.open_auxiliary(AuxKind::Dashboard, None), Err(ShellError::ShuttingDown));
    assert_eq!(info(&c, "dashboard"), None);
}

#[test]
fn force_quit_waits_the_grace_delay_then_exits() {
    let mut c = Coordinator::new();
    assert_eq!(c.force_quit(), vec![Action::ExitLater(100)]);
    assert!(c.is_exit_armed());
    // Within the grace delay the coordinator still answers.
    assert_eq!(c.hide_primary(), vec![Action::Hide(Window::Primary)]);
    assert_eq!(c.create_popup(s("p"), s("t"), s("u")), Err(ShellError::ShuttingDown));
    assert_eq!(c.exit_now(), vec![Action::Exit]);
    assert!(c.is_exit_armed());
}

#[test]
fn force_quit_twice_schedules_once() {
    let mut c = Coordinator::new();
    assert_eq!(c.force_quit().len(), 1);
    assert_eq!(c.force_quit(), vec![]);
    assert!(c.is_exit_armed());
}

#[test]
fn close_auxiliary_without_window_changes_nothing() {
    let mut c = Coordinator::new();
    assert_eq!(c.close_auxiliary(AuxKind::Mini), Ok(vec![]));
    assert_eq!(c.close_auxiliary(AuxKind::Dashboard), Ok(vec![]));
    assert_eq!(info(&c, "main"), visible(Role::Primary));
    assert_eq!(info(&c, "mini"), None);
    c.hide_primary();
    assert_eq!(c.close_auxiliary(AuxKind::Dashboard), Ok(vec![]));
    assert_eq!(info(&c, "main"), hidden(Role::Primary));
}

#[test]
fn mini_round_trip_rebuilds_primary() {
    let mut c = Coordinator::new();
    let open = c.open_auxiliary(AuxKind::Mini, None).unwrap();
    assert_eq!(
        open,
        vec![
            Action::Create(MINI),
            Action::Notify(AuxKind::Mini, s("default")),
            Action::Destroy(Window::Primary),
        ]
    );
    assert_eq!(info(&c, "main"), None);
    assert_eq!(info(&c, "mini"), visible(Role::Auxiliary));
    let close = c.close_auxiliary(AuxKind::Mini).unwrap();
    assert_eq!(
        close,
        vec![Action::Destroy(MINI), Action::Create(Window::Primary), Action::Focus(Window::Primary)]
    );
    assert_eq!(info(&c, "main"), visible(Role::Primary));
    assert_eq!(info(&c, "mini"), None);
}

#[test]
fn reopening_mini_replaces_the_old_instance() {
    let mut c = Coordinator::new();
    c.open_auxiliary(AuxKind::Mini, None).unwrap();
    let acts = c.open_auxiliary(AuxKind::Mini, Some(s("again"))).unwrap();
    assert_eq!(
        acts,
        vec![
            Action::Destroy(MINI),
            Action::Create(MINI),
            Action::Notify(AuxKind::Mini, s("again")),
        ]
    );
}

#[test]
fn dashboard_round_trip_keeps_both_windows() {
    let mut c = Coordinator::new();
    c.open_auxiliary(AuxKind::Dashboard, None).unwrap();
    let acts = c.close_auxiliary(AuxKind::Dashboard).unwrap();
    assert_eq!(
        acts,
        vec![
            Action::Hide(DASH),
            Action::Show(Window::Primary),
            Action::Focus(Window::Primary),
            Action::Unminimize(Window::Primary),
        ]
    );
    assert_eq!(info(&c, "dashboard"), hidden(Role::Auxiliary));
    assert_eq!(info(&c, "main"), visible(Role::Primary));
    // A second close leaves the state as it is.
    c.close_auxiliary(AuxKind::Dashboard).unwrap();
    assert_eq!(info(&c, "dashboard"), hidden(Role::Auxiliary));
    assert_eq!(info(&c, "main"), visible(Role::Primary));
}

#[test]
fn only_one_surface_is_visible_when_switching_kinds() {
    let mut c = Coordinator::new();
    c.open_auxiliary(AuxKind::Dashboard, None).unwrap();
    let acts = c.open_auxiliary(AuxKind::Mini, None).unwrap();
    assert_eq!(
        acts,
        vec![
            Action::Create(MINI),
            Action::Notify(AuxKind::Mini, s("default")),
            Action::Hide(DASH),
            Action::Destroy(Window::Primary),
        ]
    );
    assert_eq!(info(&c, "mini"), visible(Role::Auxiliary));
    assert_eq!(info(&c, "dashboard"), hidden(Role::Auxiliary));
    assert_eq!(info(&c, "main"), None);
    let acts = c.open_auxiliary(AuxKind::Dashboard, None).unwrap();
    assert_eq!(
        acts,
        vec![
            Action::Show(DASH),
            Action::Focus(DASH),
            Action::Notify(AuxKind::Dashboard, s("default")),
            Action::Destroy(MINI),
        ]
    );
    assert_eq!(info(&c, "mini"), None);
    assert_eq!(info(&c, "dashboard"), visible(Role::Auxiliary));
}

#[test]
fn show_primary_retires_auxiliary_and_fails_without_primary() {
    let mut c = Coordinator::new();
    c.open_auxiliary(AuxKind::Dashboard, None).unwrap();
    assert_eq!(
        c.show_primary(),
        Ok(vec![
            Action::Hide(DASH),
            Action::Show(Window::Primary),
            Action::Focus(Window::Primary),
            Action::Unminimize(Window::Primary),
        ])
    );
    c.close_window(&s("main"));
    assert_eq!(c.show_primary(), Err(ShellError::PrimaryMissing));
    assert_eq!(info(&c, "main"), None);
}

#[test]
fn create_primary_if_missing_is_idempotent() {
    let mut c = Coordinator::new();
    assert_eq!(c.create_primary_if_missing(), Ok(vec![]));
    assert_eq!(c.close_window(&s("main")), vec![Action::Destroy(Window::Primary)]);
    assert_eq!(
        c.create_primary_if_missing(),
        Ok(vec![Action::Create(Window::Primary), Action::Focus(Window::Primary)])
    );
    assert_eq!(c.create_primary_if_missing(), Ok(vec![]));
    assert_eq!(info(&c, "main"), visible(Role::Primary));
}

#[test]
fn reopen_primary_after_mini() {
    let mut c = Coordinator::new();
    c.open_auxiliary(AuxKind::Mini, None).unwrap();
    assert_eq!(
        c.reopen_primary(),
        Ok(vec![Action::Destroy(MINI), Action::Create(Window::Primary), Action::Focus(Window::Primary)])
    );
    assert_eq!(info(&c, "mini"), None);
    assert_eq!(info(&c, "main"), visible(Role::Primary));
    c.force_quit();
    assert_eq!(c.reopen_primary(), Err(ShellError::ShuttingDown));
}

#[test]
fn popup_close_gesture_is_deferred_and_stacked_closes_are_harmless() {
    let mut c = Coordinator::new();
    c.create_popup(s("p1"), s("Info"), s("info.html")).unwrap();
    assert_eq!(c.close_requested(&s("p1")), vec![Action::ClosePopupLater(s("p1"), 200)]);
    assert_eq!(c.close_requested(&s("p1")), vec![Action::ClosePopupLater(s("p1"), 200)]);
    assert_eq!(info(&c, "p1"), visible(Role::Transient));
    assert_eq!(c.close_window(&s("p1")), vec![Action::DestroyPopup(s("p1"))]);
    assert_eq!(c.close_window(&s("p1")), vec![]);
    assert_eq!(info(&c, "p1"), None);
    // The label is free again.
    assert!(c.create_popup(s("p1"), s("Info"), s("info.html")).is_ok());
}

#[test]
fn popups_are_kept_apart() {
    let mut c = Coordinator::new();
    c.create_popup(s("a"), s("A"), s("a.html")).unwrap();
    c.create_popup(s("b"), s("B"), s("b.html")).unwrap();
    c.create_popup(s("c"), s("C"), s("c.html")).unwrap();
    c.close_window(&s("b"));
    assert_eq!(info(&c, "a"), visible(Role::Transient));
    assert_eq!(info(&c, "b"), None);
    assert_eq!(info(&c, "c"), visible(Role::Transient));
    assert_eq!(c.close_requested(&s("nobody")), vec![]);
    assert_eq!(c.close_window(&s("nobody")), vec![]);
}

#[test]
fn close_gesture_while_exiting_ends_the_process() {
    let mut c = Coordinator::new();
    c.open_auxiliary(AuxKind::Dashboard, None).unwrap();
    c.force_quit();
    assert_eq!(c.close_requested(&s("dashboard")), vec![Action::Exit]);
    assert_eq!(c.close_auxiliary(AuxKind::Dashboard), Err(ShellError::ShuttingDown));
    assert_eq!(info(&c, "dashboard"), visible(Role::Auxiliary));
}

#[test]
fn forget_window_drops_the_entry_silently() {
    let mut c = Coordinator::new();
    c.open_auxiliary(AuxKind::Dashboard, None).unwrap();
    c.forget_window(&s("dashboard"));
    assert_eq!(info(&c, "dashboard"), None);
    c.create_popup(s("p"), s("t"), s("u")).unwrap();
    c.forget_window(&s("p"));
    assert_eq!(info(&c, "p"), None);
}
