//! Properties of the lifecycle transitions, proved over the model.
use vstd::prelude::*;
use crate::model::{
    close_auxiliary, close_requested, create_popup, exit_now, force_quit, open_auxiliary, Effect,
    Shell, ShellError,
};
use crate::window::{label_of, AuxKind, Window, EXIT_GRACE_MS};

verus! {

/// Closing an auxiliary kind that has no window changes nothing, asks for
/// nothing and succeeds.
pub proof fn close_absent_is_noop(s: Shell, k: AuxKind)
    requires
        s.aux(k) is None,
    ensures
        close_auxiliary(s, k) == Ok::<(Shell, Seq<Effect>), ShellError>((s, seq![])),
{
}

/// A second close of the same auxiliary kind leaves the state as the first
/// close left it.
pub proof fn close_twice_is_close_once(s: Shell, k: AuxKind)
    requires
        s.wf(),
        close_auxiliary(s, k) is Ok,
    ensures
        close_auxiliary(close_auxiliary(s, k)->Ok_0.0, k) is Ok,
        close_auxiliary(close_auxiliary(s, k)->Ok_0.0, k)->Ok_0.0 == close_auxiliary(s, k)->Ok_0.0,
{
    let s1 = close_auxiliary(s, k)->Ok_0.0;
    assert(close_auxiliary(s1, k)->Ok_0.0 =~= s1);
}

/// Forcing a quit twice arms the exit once: the first call from a running
/// state schedules the exit, the second changes nothing and schedules nothing.
pub proof fn force_quit_arms_once(s: Shell)
    ensures
        force_quit(s).0.exit_armed,
        !s.exit_armed ==> force_quit(s).1 == seq![Effect::ExitLater(EXIT_GRACE_MS)],
        s.exit_armed ==> force_quit(s) == (s, Seq::<Effect>::empty()),
        force_quit(force_quit(s).0) == (force_quit(s).0, Seq::<Effect>::empty()),
{
}

/// Opening and then closing the mini window (destroy/recreate idiom) ends
/// with a freshly built, focused primary window and no mini window.
pub proof fn mini_round_trip(s: Shell, ctx: Option<Seq<char>>)
    requires
        s.wf(),
        !s.exit_armed,
    ensures
        open_auxiliary(s, AuxKind::Mini, ctx) is Ok,
        close_auxiliary(open_auxiliary(s, AuxKind::Mini, ctx)->Ok_0.0, AuxKind::Mini) is Ok,
        ({
            let (s2, e2) = close_auxiliary(open_auxiliary(s, AuxKind::Mini, ctx)->Ok_0.0, AuxKind::Mini)->Ok_0;
            &&& s2.primary == Some(true)
            &&& s2.mini is None
            &&& s2.popups == s.popups
            &&& e2 == seq![
                Effect::Destroy(Window::Aux(AuxKind::Mini)),
                Effect::Create(Window::Primary),
                Effect::Focus(Window::Primary),
            ]
        }),
{
    let s1 = open_auxiliary(s, AuxKind::Mini, ctx)->Ok_0.0;
    let e2 = close_auxiliary(s1, AuxKind::Mini)->Ok_0.1;
    assert(e2 =~= seq![
        Effect::Destroy(Window::Aux(AuxKind::Mini)),
        Effect::Create(Window::Primary),
        Effect::Focus(Window::Primary),
    ]);
}

/// Opening and then closing the dashboard (hide/show idiom) keeps both
/// windows: the dashboard ends hidden, the primary window visible, focused
/// and un-minimized.
pub proof fn dashboard_round_trip(s: Shell, ctx: Option<Seq<char>>)
    requires
        s.wf(),
        !s.exit_armed,
        s.primary is Some,
    ensures
        open_auxiliary(s, AuxKind::Dashboard, ctx) is Ok,
        close_auxiliary(open_auxiliary(s, AuxKind::Dashboard, ctx)->Ok_0.0, AuxKind::Dashboard) is Ok,
        ({
            let (s2, e2) = close_auxiliary(open_auxiliary(s, AuxKind::Dashboard, ctx)->Ok_0.0, AuxKind::Dashboard)->Ok_0;
            &&& s2.primary == Some(true)
            &&& s2.dashboard == Some(false)
            &&& s2.popups == s.popups
            &&& e2 == seq![
                Effect::Hide(Window::Aux(AuxKind::Dashboard)),
                Effect::Show(Window::Primary),
                Effect::Focus(Window::Primary),
                Effect::Unminimize(Window::Primary),
            ]
        }),
{
    let s1 = open_auxiliary(s, AuxKind::Dashboard, ctx)->Ok_0.0;
    let e2 = close_auxiliary(s1, AuxKind::Dashboard)->Ok_0.1;
    assert(e2 =~= seq![
        Effect::Hide(Window::Aux(AuxKind::Dashboard)),
        Effect::Show(Window::Primary),
        Effect::Focus(Window::Primary),
        Effect::Unminimize(Window::Primary),
    ]);
}

/// Once a popup is open under a label, a second popup under that label is
/// refused and the state stays as it was.
pub proof fn popup_label_is_exclusive(s: Shell, label: Seq<char>, title: Seq<char>, url: Seq<char>, title2: Seq<char>, url2: Seq<char>)
    requires
        create_popup(s, label, title, url) is Ok,
    ensures
        create_popup(create_popup(s, label, title, url)->Ok_0.0, label, title2, url2)
            == Err::<(Shell, Seq<Effect>), ShellError>(ShellError::LabelTaken),
{
}

/// A close gesture on the primary window sets the exit flag and ends the
/// process; from then on no auxiliary window can be opened.
pub proof fn primary_close_shuts_down(s: Shell, k: AuxKind, ctx: Option<Seq<char>>)
    ensures
        close_requested(s, label_of(Window::Primary)).0.exit_armed,
        close_requested(s, label_of(Window::Primary)).1 == seq![Effect::Exit],
        open_auxiliary(close_requested(s, label_of(Window::Primary)).0, k, ctx)
            == Err::<(Shell, Seq<Effect>), ShellError>(ShellError::ShuttingDown),
{
}

/// After a forced quit the state still answers operations, and the end of
/// the grace delay ends the process whatever happened meanwhile.
pub proof fn exit_is_unconditional(s: Shell)
    ensures
        exit_now(s).0.exit_armed,
        exit_now(s).1 == seq![Effect::Exit],
        force_quit(s).0.exit_armed,
{
}

} // verus!
