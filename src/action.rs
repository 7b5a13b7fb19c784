//! The actions a transition hands to the run loop, in the order they are to
//! be carried out.
use vstd::prelude::*;
use crate::model::{Effect, ShellError, Shell, Step};
use crate::window::{AuxKind, Window};

verus! {

#[derive(Clone, Debug, PartialEq, Eq)]
pub enum Action {
    Create(Window),
    Show(Window),
    Hide(Window),
    Focus(Window),
    Unminimize(Window),
    Destroy(Window),
    Notify(AuxKind, String),
    CreatePopup { label: String, title: String, url: String },
    DestroyPopup(String),
    ClosePopupLater(String, u64),
    ExitLater(u64),
    Exit,
}

impl View for Action {
    type V = Effect;

    open spec fn view(&self) -> Effect {
        match self {
            Action::Create(w) => Effect::Create(*w),
            Action::Show(w) => Effect::Show(*w),
            Action::Hide(w) => Effect::Hide(*w),
            Action::Focus(w) => Effect::Focus(*w),
            Action::Unminimize(w) => Effect::Unminimize(*w),
            Action::Destroy(w) => Effect::Destroy(*w),
            Action::Notify(k, c) => Effect::Notify(*k, c@),
            Action::CreatePopup { label, title, url } => Effect::CreatePopup(label@, title@, url@),
            Action::DestroyPopup(l) => Effect::DestroyPopup(l@),
            Action::ClosePopupLater(l, d) => Effect::ClosePopupLater(l@, *d),
            Action::ExitLater(d) => Effect::ExitLater(*d),
            Action::Exit => Effect::Exit,
        }
    }
}

pub open spec fn effects(v: Seq<Action>) -> Seq<Effect> {
    v.map_values(|a: Action| a@)
}

/// `r` and the move from `before` to `after` are what `step` prescribes; a
/// refused operation leaves the state as it was.
pub open spec fn answered(
    r: Result<Vec<Action>, ShellError>,
    before: Shell,
    after: Shell,
    step: Result<Step, ShellError>,
) -> bool {
    match step {
        Ok((s, e)) => match r {
            Ok(acts) => after == s && effects(acts@) == e,
            Err(_) => false,
        },
        Err(x) => r == Err::<Vec<Action>, ShellError>(x) && after == before,
    }
}

/// Appends one action.
pub(crate) fn emit(acts: &mut Vec<Action>, a: Action)
    ensures
        effects(final(acts)@) == effects(old(acts)@).push(a@),
{
    let ghost before = acts@;
    acts.push(a);
    proof {
        assert(effects(acts@) =~= effects(before).push(a@));
    }
}

} // verus!
