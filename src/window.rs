//! The windows the shell knows by role, their labels, lifecycle idioms and
//! fixed chrome profiles.
use vstd::prelude::*;
use vstd::string::StringExecFns;

verus! {

/// The auxiliary windows that take the primary window's place while open.
#[derive(Clone, Copy, Debug, PartialEq, Eq, Structural)]
pub enum AuxKind {
    Mini,
    Dashboard,
}

/// A window with a fixed role: the primary window or one auxiliary kind.
#[derive(Clone, Copy, Debug, PartialEq, Eq, Structural)]
pub enum Window {
    Primary,
    Aux(AuxKind),
}

/// How an auxiliary kind trades places with the primary window.
#[derive(Clone, Copy, Debug, PartialEq, Eq, Structural)]
pub enum Idiom {
    /// Opening destroys the primary window and any earlier instance of the
    /// kind; closing destroys the kind and builds a fresh primary window.
    DestroyRecreate,
    /// Opening hides the primary window and reuses a hidden instance;
    /// closing hides the kind and shows the primary window again.
    HideShow,
}

#[derive(Clone, Copy, Debug, PartialEq, Eq, Structural)]
pub enum Role {
    Primary,
    Auxiliary,
    Transient,
}

/// What the registry reports about one live window.
#[derive(Clone, Copy, Debug, PartialEq, Eq, Structural)]
pub struct WindowInfo {
    pub role: Role,
    pub visible: bool,
}

/// Size and decorations a window is built with; fixed per role.
#[derive(Debug)]
pub struct Chrome {
    pub title: String,
    pub url: String,
    pub width: u32,
    pub height: u32,
    pub decorations: bool,
    pub resizable: bool,
    pub always_on_top: bool,
    pub centered: bool,
}

/// Delay between a close gesture on a popup and its real close.
pub const POPUP_CLOSE_DELAY_MS: u64 = 200;

/// Delay between a forced quit and the end of the process.
pub const EXIT_GRACE_MS: u64 = 100;

pub open spec fn idiom_of(k: AuxKind) -> Idiom {
    match k {
        AuxKind::Mini => Idiom::DestroyRecreate,
        AuxKind::Dashboard => Idiom::HideShow,
    }
}

pub open spec fn other_kind(k: AuxKind) -> AuxKind {
    match k {
        AuxKind::Mini => AuxKind::Dashboard,
        AuxKind::Dashboard => AuxKind::Mini,
    }
}

pub open spec fn label_of(w: Window) -> Seq<char> {
    match w {
        Window::Primary => "main"@,
        Window::Aux(AuxKind::Mini) => "mini"@,
        Window::Aux(AuxKind::Dashboard) => "dashboard"@,
    }
}

/// The window whose role owns `l`, if `l` is a role label.
pub open spec fn window_for(l: Seq<char>) -> Option<Window> {
    if l == label_of(Window::Primary) {
        Some(Window::Primary)
    } else if l == label_of(Window::Aux(AuxKind::Mini)) {
        Some(Window::Aux(AuxKind::Mini))
    } else if l == label_of(Window::Aux(AuxKind::Dashboard)) {
        Some(Window::Aux(AuxKind::Dashboard))
    } else {
        None
    }
}

/// Role labels cannot be taken by a popup.
pub open spec fn is_reserved(l: Seq<char>) -> bool {
    window_for(l) is Some
}

impl AuxKind {
    pub fn idiom(self) -> (r: Idiom)
        ensures
            r == idiom_of(self),
    {
        match self {
            AuxKind::Mini => Idiom::DestroyRecreate,
            AuxKind::Dashboard => Idiom::HideShow,
        }
    }

    pub fn other(self) -> (r: AuxKind)
        ensures
            r == other_kind(self),
    {
        match self {
            AuxKind::Mini => AuxKind::Dashboard,
            AuxKind::Dashboard => AuxKind::Mini,
        }
    }

    /// The name of the event that carries the opening context.
    pub fn context_event(self) -> (r: String)
        ensures
            self == AuxKind::Mini ==> r@ == "mini-context"@,
            self == AuxKind::Dashboard ==> r@ == "dashboard-context"@,
    {
        match self {
            AuxKind::Mini => String::from_str("mini-context"),
            AuxKind::Dashboard => String::from_str("dashboard-context"),
        }
    }
}

impl Window {
    pub fn label(self) -> (r: String)
        ensures
            r@ == label_of(self),
    {
        match self {
            Window::Primary => String::from_str("main"),
            Window::Aux(AuxKind::Mini) => String::from_str("mini"),
            Window::Aux(AuxKind::Dashboard) => String::from_str("dashboard"),
        }
    }

    /// The role window that owns `label`; `None` for any other label.
    pub fn for_label(label: &String) -> (r: Option<Window>)
        ensures
            r == window_for(label@),
    {
        if *label == Window::Primary.label() {
            Some(Window::Primary)
        } else if *label == Window::Aux(AuxKind::Mini).label() {
            Some(Window::Aux(AuxKind::Mini))
        } else if *label == Window::Aux(AuxKind::Dashboard).label() {
            Some(Window::Aux(AuxKind::Dashboard))
        } else {
            None
        }
    }

    /// The fixed chrome profile the window is built with.
    pub fn chrome(self) -> (r: Chrome)
        ensures
            self == Window::Primary ==> r.title@ == "Queuelip"@ && r.url@ == "index.html"@
                && r.width == 800 && r.height == 600 && r.decorations && r.resizable
                && !r.always_on_top && r.centered,
            self == Window::Aux(AuxKind::Mini) ==> r.title@ == "Mini"@ && r.url@ == "mini.html"@
                && r.width == 320 && r.height == 180 && !r.decorations && !r.resizable
                && r.always_on_top && !r.centered,
            self == Window::Aux(AuxKind::Dashboard) ==> r.title@ == "Dashboard"@
                && r.url@ == "dashboard.html"@ && r.width == 400 && r.height == 350
                && !r.decorations && r.resizable && !r.always_on_top && r.centered,
    {
        match self {
            Window::Primary => Chrome {
                title: String::from_str("Queuelip"),
                url: String::from_str("index.html"),
                width: 800,
                height: 600,
                decorations: true,
                resizable: true,
                always_on_top: false,
                centered: true,
            },
            Window::Aux(AuxKind::Mini) => Chrome {
                title: String::from_str("Mini"),
                url: String::from_str("mini.html"),
                width: 320,
                height: 180,
                decorations: false,
                resizable: false,
                always_on_top: true,
                centered: false,
            },
            Window::Aux(AuxKind::Dashboard) => Chrome {
                title: String::from_str("Dashboard"),
                url: String::from_str("dashboard.html"),
                width: 400,
                height: 350,
                decorations: false,
                resizable: true,
                always_on_top: false,
                centered: true,
            },
        }
    }
}

} // verus!
