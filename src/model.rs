//! The shell as a state machine: an abstract state, the effects a transition
//! asks the run loop to carry out, and one transition per operation.
use vstd::prelude::*;
use crate::window::{
    idiom_of, is_reserved, other_kind, window_for, AuxKind, Idiom, Role, Window, WindowInfo,
    EXIT_GRACE_MS, POPUP_CLOSE_DELAY_MS,
};

verus! {

/// Abstract state: which role windows exist (and whether each is visible),
/// the labels of live popups, and the exit flag.
#[verifier::ext_equal]
pub struct Shell {
    pub primary: Option<bool>,
    pub mini: Option<bool>,
    pub dashboard: Option<bool>,
    pub popups: Set<Seq<char>>,
    pub exit_armed: bool,
}

/// A window-system action, as the model sees it.
pub enum Effect {
    /// Build the window with its chrome profile, visible.
    Create(Window),
    Show(Window),
    Hide(Window),
    Focus(Window),
    Unminimize(Window),
    Destroy(Window),
    /// Best-effort context notification to an auxiliary window.
    Notify(AuxKind, Seq<char>),
    CreatePopup(Seq<char>, Seq<char>, Seq<char>),
    DestroyPopup(Seq<char>),
    /// Close the popup for real after the delay, bypassing the intercept.
    ClosePopupLater(Seq<char>, u64),
    /// End the process after the delay.
    ExitLater(u64),
    /// End the process now.
    Exit,
}

#[derive(Clone, Copy, Debug, PartialEq, Eq, Structural)]
pub enum ShellError {
    /// The exit flag is set: nothing is opened or shown any more.
    ShuttingDown,
    /// The operation needs a primary window and none exists.
    PrimaryMissing,
    /// A live window, or a role, already owns the label.
    LabelTaken,
}

pub type Step = (Shell, Seq<Effect>);

pub open spec fn shown(w: Option<bool>) -> nat {
    if w == Some(true) { 1 } else { 0 }
}

impl Shell {
    pub open spec fn aux(self, k: AuxKind) -> Option<bool> {
        match k {
            AuxKind::Mini => self.mini,
            AuxKind::Dashboard => self.dashboard,
        }
    }

    pub open spec fn with_aux(self, k: AuxKind, w: Option<bool>) -> Shell {
        match k {
            AuxKind::Mini => Shell { mini: w, ..self },
            AuxKind::Dashboard => Shell { dashboard: w, ..self },
        }
    }

    pub open spec fn get(self, w: Window) -> Option<bool> {
        match w {
            Window::Primary => self.primary,
            Window::Aux(k) => self.aux(k),
        }
    }

    /// How many of the primary window and the auxiliary kinds are visible.
    pub open spec fn visible_surfaces(self) -> nat {
        shown(self.primary) + shown(self.mini) + shown(self.dashboard)
    }

    /// At most one window per label (each role has one slot, and no popup
    /// holds a role label), and at most one primary surface visible.
    pub open spec fn wf(self) -> bool {
        &&& self.visible_surfaces() <= 1
        &&& self.popups.finite()
        &&& forall|l: Seq<char>| self.popups.contains(l) ==> !is_reserved(l)
    }

    /// What the registry holds under `l`.
    pub open spec fn lookup(self, l: Seq<char>) -> Option<WindowInfo> {
        match window_for(l) {
            Some(Window::Primary) => match self.primary {
                Some(v) => Some(WindowInfo { role: Role::Primary, visible: v }),
                None => None,
            },
            Some(Window::Aux(k)) => match self.aux(k) {
                Some(v) => Some(WindowInfo { role: Role::Auxiliary, visible: v }),
                None => None,
            },
            None => if self.popups.contains(l) {
                Some(WindowInfo { role: Role::Transient, visible: true })
            } else {
                None
            },
        }
    }
}

/// The state a fresh process starts in: the primary window, visible.
pub open spec fn initial() -> Shell {
    Shell {
        primary: Some(true),
        mini: None,
        dashboard: None,
        popups: Set::empty(),
        exit_armed: false,
    }
}

/// Takes a visible auxiliary window out of view, as its idiom says.
pub open spec fn retire(s: Shell, k: AuxKind) -> Step {
    if s.aux(k) == Some(true) {
        match idiom_of(k) {
            Idiom::HideShow => (s.with_aux(k, Some(false)), seq![Effect::Hide(Window::Aux(k))]),
            Idiom::DestroyRecreate => (s.with_aux(k, None), seq![Effect::Destroy(Window::Aux(k))]),
        }
    } else {
        (s, seq![])
    }
}

/// Retires every visible auxiliary window, then shows, focuses and
/// un-minimizes the primary window, or builds a fresh one if it is gone.
pub open spec fn restore_primary(s: Shell) -> Step {
    let (s1, e1) = retire(s, AuxKind::Mini);
    let (s2, e2) = retire(s1, AuxKind::Dashboard);
    let front = match s2.primary {
        Some(_) => seq![
            Effect::Show(Window::Primary),
            Effect::Focus(Window::Primary),
            Effect::Unminimize(Window::Primary),
        ],
        None => seq![Effect::Create(Window::Primary), Effect::Focus(Window::Primary)],
    };
    (Shell { primary: Some(true), ..s2 }, e1 + e2 + front)
}

pub open spec fn context_payload(ctx: Option<Seq<char>>) -> Seq<char> {
    match ctx {
        Some(c) => c,
        None => "default"@,
    }
}

pub open spec fn open_auxiliary(s: Shell, k: AuxKind, ctx: Option<Seq<char>>) -> Result<Step, ShellError> {
    if s.exit_armed {
        Err(ShellError::ShuttingDown)
    } else {
        let w = Window::Aux(k);
        let bring = match (idiom_of(k), s.aux(k)) {
            (Idiom::HideShow, Some(_)) => seq![Effect::Show(w), Effect::Focus(w)],
            (Idiom::HideShow, None) => seq![Effect::Create(w)],
            (Idiom::DestroyRecreate, Some(_)) => seq![Effect::Destroy(w), Effect::Create(w)],
            (Idiom::DestroyRecreate, None) => seq![Effect::Create(w)],
        };
        let s1 = s.with_aux(k, Some(true));
        let (s2, e2) = retire(s1, other_kind(k));
        let (s3, e3) = match (s2.primary, idiom_of(k)) {
            (None, _) => (s2, seq![]),
            (Some(_), Idiom::HideShow) => (
                Shell { primary: Some(false), ..s2 },
                seq![Effect::Hide(Window::Primary)],
            ),
            (Some(_), Idiom::DestroyRecreate) => (
                Shell { primary: None, ..s2 },
                seq![Effect::Destroy(Window::Primary)],
            ),
        };
        Ok((s3, bring + seq![Effect::Notify(k, context_payload(ctx))] + e2 + e3))
    }
}

pub open spec fn close_auxiliary(s: Shell, k: AuxKind) -> Result<Step, ShellError> {
    if s.aux(k) is None {
        Ok((s, seq![]))
    } else if s.exit_armed {
        Err(ShellError::ShuttingDown)
    } else {
        let w = Window::Aux(k);
        let (s1, e1) = match idiom_of(k) {
            Idiom::HideShow => (s.with_aux(k, Some(false)), seq![Effect::Hide(w)]),
            Idiom::DestroyRecreate => (s.with_aux(k, None), seq![Effect::Destroy(w)]),
        };
        let (s2, e2) = restore_primary(s1);
        Ok((s2, e1 + e2))
    }
}

pub open spec fn show_primary(s: Shell) -> Result<Step, ShellError> {
    if s.exit_armed {
        Err(ShellError::ShuttingDown)
    } else if s.primary is None {
        Err(ShellError::PrimaryMissing)
    } else {
        Ok(restore_primary(s))
    }
}

pub open spec fn hide_primary(s: Shell) -> Step {
    match s.primary {
        Some(_) => (Shell { primary: Some(false), ..s }, seq![Effect::Hide(Window::Primary)]),
        None => (s, seq![]),
    }
}

pub open spec fn create_primary_if_missing(s: Shell) -> Result<Step, ShellError> {
    if s.primary is Some {
        Ok((s, seq![]))
    } else if s.exit_armed {
        Err(ShellError::ShuttingDown)
    } else {
        Ok(restore_primary(s))
    }
}

pub open spec fn reopen_primary(s: Shell) -> Result<Step, ShellError> {
    if s.exit_armed {
        Err(ShellError::ShuttingDown)
    } else {
        Ok(restore_primary(s))
    }
}

pub open spec fn create_popup(s: Shell, label: Seq<char>, title: Seq<char>, url: Seq<char>) -> Result<Step, ShellError> {
    if s.exit_armed {
        Err(ShellError::ShuttingDown)
    } else if is_reserved(label) || s.popups.contains(label) {
        Err(ShellError::LabelTaken)
    } else {
        Ok((
            Shell { popups: s.popups.insert(label), ..s },
            seq![Effect::CreatePopup(label, title, url)],
        ))
    }
}

/// The state once the window under `l` is gone.
pub open spec fn without(s: Shell, l: Seq<char>) -> Shell {
    match window_for(l) {
        Some(Window::Primary) => Shell { primary: None, ..s },
        Some(Window::Aux(k)) => s.with_aux(k, None),
        None => Shell { popups: s.popups.remove(l), ..s },
    }
}

/// A programmatic close: the window under `l` is destroyed, if there is one.
pub open spec fn close_window(s: Shell, l: Seq<char>) -> Step {
    match window_for(l) {
        Some(w) => if s.get(w) is Some {
            (without(s, l), seq![Effect::Destroy(w)])
        } else {
            (s, seq![])
        },
        None => if s.popups.contains(l) {
            (without(s, l), seq![Effect::DestroyPopup(l)])
        } else {
            (s, seq![])
        },
    }
}

pub open spec fn force_quit(s: Shell) -> Step {
    if s.exit_armed {
        (s, seq![])
    } else {
        (Shell { exit_armed: true, ..s }, seq![Effect::ExitLater(EXIT_GRACE_MS)])
    }
}

/// The terminal path: always ends the process.
pub open spec fn exit_now(s: Shell) -> Step {
    (Shell { exit_armed: true, ..s }, seq![Effect::Exit])
}

/// A user's close gesture on the window under `l`; the OS close itself is
/// always suppressed, and this is what happens instead.
pub open spec fn close_requested(s: Shell, l: Seq<char>) -> Step {
    if s.exit_armed {
        (s, seq![Effect::Exit])
    } else {
        match window_for(l) {
            Some(Window::Primary) => exit_now(s),
            Some(Window::Aux(k)) => match close_auxiliary(s, k) {
                Ok(step) => step,
                Err(_) => (s, seq![]),
            },
            None => if s.popups.contains(l) {
                (s, seq![Effect::ClosePopupLater(l, POPUP_CLOSE_DELAY_MS)])
            } else {
                (s, seq![])
            },
        }
    }
}

} // verus!
