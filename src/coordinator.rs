//! The coordinator: the registry of live windows and the exit flag, driven
//! from the event loop. Each operation moves the state as its transition in
//! `model` says and returns the actions the loop must carry out.
use vstd::prelude::*;
use vstd::string::StringExecFns;
use crate::action::{answered, effects, emit, Action};
use crate::model;
use crate::model::{Shell, ShellError};
use crate::window::{
    is_reserved, AuxKind, Idiom, Role, Window, WindowInfo, EXIT_GRACE_MS, POPUP_CLOSE_DELAY_MS,
};

verus! {

#[derive(Clone)]
pub struct Coordinator {
    primary: Option<bool>,
    mini: Option<bool>,
    dashboard: Option<bool>,
    popups: Vec<String>,
    exit_armed: bool,
}

pub open spec fn opt_view(o: Option<String>) -> Option<Seq<char>> {
    match o {
        Some(s) => Some(s@),
        None => None,
    }
}

impl View for Coordinator {
    type V = Shell;

    closed spec fn view(&self) -> Shell {
        Shell {
            primary: self.primary,
            mini: self.mini,
            dashboard: self.dashboard,
            popups: self.popup_labels().to_set(),
            exit_armed: self.exit_armed,
        }
    }
}

impl Coordinator {
    spec fn popup_labels(&self) -> Seq<Seq<char>> {
        self.popups@.map_values(|p: String| p@)
    }

    spec fn popups_ok(&self) -> bool {
        self.popup_labels().no_duplicates()
    }

    /// The coordinator's own invariant; every operation keeps it.
    pub closed spec fn inv(&self) -> bool {
        self@.wf() && self.popups_ok()
    }

    /// A fresh process: the primary window exists and is visible.
    pub fn new() -> (r: Coordinator)
        ensures
            r.inv(),
            r@.wf(),
            r@ == model::initial(),
    {
        let r = Coordinator {
            primary: Some(true),
            mini: None,
            dashboard: None,
            popups: Vec::new(),
            exit_armed: false,
        };
        proof {
            assert(r.popup_labels() =~= Seq::<Seq<char>>::empty());
            assert(r@ =~= model::initial());
        }
        r
    }

    pub fn is_exit_armed(&self) -> (r: bool)
        ensures
            r == self@.exit_armed,
    {
        self.exit_armed
    }

    /// What lives under `label`; absence is an ordinary answer.
    pub fn lookup(&self, label: &String) -> (r: Option<WindowInfo>)
        requires
            self.inv(),
        ensures
            r == self@.lookup(label@),
    {
        match Window::for_label(label) {
            Some(Window::Primary) => match self.primary {
                Some(v) => Some(WindowInfo { role: Role::Primary, visible: v }),
                None => None,
            },
            Some(Window::Aux(k)) => match self.aux(k) {
                Some(v) => Some(WindowInfo { role: Role::Auxiliary, visible: v }),
                None => None,
            },
            None => match self.find_popup(label) {
                Some(_) => Some(WindowInfo { role: Role::Transient, visible: true }),
                None => None,
            },
        }
    }

    /// Brings auxiliary window `k` to the front, sends it the context
    /// (`"default"` when none is given), retires the other auxiliary kind and
    /// hides or destroys the primary window, as `k`'s idiom says. Refused
    /// once the exit flag is set.
    pub fn open_auxiliary(&mut self, k: AuxKind, ctx: Option<String>) -> (r: Result<Vec<Action>, ShellError>)
        requires
            old(self).inv(),
        ensures
            final(self).inv(),
            final(self)@.wf(),
            answered(r, old(self)@, final(self)@, model::open_auxiliary(old(self)@, k, opt_view(ctx))),
    {
        if self.exit_armed {
            return Err(ShellError::ShuttingDown);
        }
        let ghost s0 = self@;
        let mut acts: Vec<Action> = Vec::new();
        let w = Window::Aux(k);
        match (k.idiom(), self.aux(k).is_some()) {
            (Idiom::HideShow, true) => {
                emit(&mut acts, Action::Show(w));
                emit(&mut acts, Action::Focus(w));
            },
            (Idiom::DestroyRecreate, true) => {
                emit(&mut acts, Action::Destroy(w));
                emit(&mut acts, Action::Create(w));
            },
            (_, false) => {
                emit(&mut acts, Action::Create(w));
            },
        }
        let payload = match ctx {
            Some(c) => c,
            None => String::from_str("default"),
        };
        emit(&mut acts, Action::Notify(k, payload));
        let ghost e1 = effects(acts@);
        self.set_aux(k, Some(true));
        self.retire(k.other(), &mut acts);
        let ghost e2 = effects(acts@);
        if self.primary.is_some() {
            match k.idiom() {
                Idiom::HideShow => {
                    self.primary = Some(false);
                    emit(&mut acts, Action::Hide(Window::Primary));
                },
                Idiom::DestroyRecreate => {
                    self.primary = None;
                    emit(&mut acts, Action::Destroy(Window::Primary));
                },
            }
        }
        proof {
            let step = model::open_auxiliary(s0, k, opt_view(ctx));
            assert(self@ =~= step->Ok_0.0);
            assert(effects(acts@) =~= step->Ok_0.1);
        }
        Ok(acts)
    }

    /// Hides or destroys auxiliary window `k` and restores the primary
    /// window. With no such window it changes nothing and succeeds.
    pub fn close_auxiliary(&mut self, k: AuxKind) -> (r: Result<Vec<Action>, ShellError>)
        requires
            old(self).inv(),
        ensures
            final(self).inv(),
            final(self)@.wf(),
            answered(r, old(self)@, final(self)@, model::close_auxiliary(old(self)@, k)),
    {
        let ghost s0 = self@;
        let mut acts: Vec<Action> = Vec::new();
        if self.aux(k).is_none() {
            proof {
                assert(effects(acts@) =~= Seq::<model::Effect>::empty());
            }
            return Ok(acts);
        }
        if self.exit_armed {
            return Err(ShellError::ShuttingDown);
        }
        match k.idiom() {
            Idiom::HideShow => {
                self.set_aux(k, Some(false));
                emit(&mut acts, Action::Hide(Window::Aux(k)));
            },
            Idiom::DestroyRecreate => {
                self.set_aux(k, None);
                emit(&mut acts, Action::Destroy(Window::Aux(k)));
            },
        }
        self.restore_primary(&mut acts);
        proof {
            let step = model::close_auxiliary(s0, k);
            assert(self@ =~= step->Ok_0.0);
            assert(effects(acts@) =~= step->Ok_0.1);
        }
        Ok(acts)
    }

    /// Shows, focuses and un-minimizes the primary window, retiring any
    /// visible auxiliary window. Fails when there is no primary window.
    pub fn show_primary(&mut self) -> (r: Result<Vec<Action>, ShellError>)
        requires
            old(self).inv(),
        ensures
            final(self).inv(),
            final(self)@.wf(),
            answered(r, old(self)@, final(self)@, model::show_primary(old(self)@)),
    {
        if self.exit_armed {
            return Err(ShellError::ShuttingDown);
        }
        if self.primary.is_none() {
            return Err(ShellError::PrimaryMissing);
        }
        let mut acts: Vec<Action> = Vec::new();
        proof {
            assert(effects(acts@) =~= Seq::<model::Effect>::empty());
        }
        self.restore_primary(&mut acts);
        proof {
            assert(effects(acts@) =~= model::restore_primary(old(self)@).1);
        }
        Ok(acts)
    }

    /// Hides the primary window; without one there is nothing to do.
    pub fn hide_primary(&mut self) -> (r: Vec<Action>)
        requires
            old(self).inv(),
        ensures
            final(self).inv(),
            final(self)@.wf(),
            final(self)@ == model::hide_primary(old(self)@).0,
            effects(r@) == model::hide_primary(old(self)@).1,
    {
        let mut acts: Vec<Action> = Vec::new();
        if self.primary.is_some() {
            self.primary = Some(false);
            emit(&mut acts, Action::Hide(Window::Primary));
        }
        proof {
            assert(self@ =~= model::hide_primary(old(self)@).0);
            assert(effects(acts@) =~= model::hide_primary(old(self)@).1);
        }
        acts
    }

    /// Builds the primary window when it is gone; otherwise does nothing.
    pub fn create_primary_if_missing(&mut self) -> (r: Result<Vec<Action>, ShellError>)
        requires
            old(self).inv(),
        ensures
            final(self).inv(),
            final(self)@.wf(),
            answered(r, old(self)@, final(self)@, model::create_primary_if_missing(old(self)@)),
    {
        let mut acts: Vec<Action> = Vec::new();
        proof {
            assert(effects(acts@) =~= Seq::<model::Effect>::empty());
        }
        if self.primary.is_some() {
            return Ok(acts);
        }
        if self.exit_armed {
            return Err(ShellError::ShuttingDown);
        }
        self.restore_primary(&mut acts);
        proof {
            assert(effects(acts@) =~= model::restore_primary(old(self)@).1);
        }
        Ok(acts)
    }

    /// Brings the primary window back to the front, rebuilding it under its
    /// own label with the default chrome when it was destroyed.
    pub fn reopen_primary(&mut self) -> (r: Result<Vec<Action>, ShellError>)
        requires
            old(self).inv(),
        ensures
            final(self).inv(),
            final(self)@.wf(),
            answered(r, old(self)@, final(self)@, model::reopen_primary(old(self)@)),
    {
        if self.exit_armed {
            return Err(ShellError::ShuttingDown);
        }
        let mut acts: Vec<Action> = Vec::new();
        proof {
            assert(effects(acts@) =~= Seq::<model::Effect>::empty());
        }
        self.restore_primary(&mut acts);
        proof {
            assert(effects(acts@) =~= model::restore_primary(old(self)@).1);
        }
        Ok(acts)
    }

    /// Opens a transient popup under a fresh label. A label that a role owns
    /// or that a live popup holds is refused.
    pub fn create_popup(&mut self, label: String, title: String, url: String) -> (r: Result<Vec<Action>, ShellError>)
        requires
            old(self).inv(),
        ensures
            final(self).inv(),
            final(self)@.wf(),
            answered(r, old(self)@, final(self)@, model::create_popup(old(self)@, label@, title@, url@)),
    {
        if self.exit_armed {
            return Err(ShellError::ShuttingDown);
        }
        if Window::for_label(&label).is_some() || self.find_popup(&label).is_some() {
            return Err(ShellError::LabelTaken);
        }
        let ghost l = label@;
        let ghost old_labels = self.popup_labels();
        let mut acts: Vec<Action> = Vec::new();
        emit(&mut acts, Action::CreatePopup { label: label.clone(), title, url });
        self.popups.push(label);
        proof {
            assert(self.popup_labels() =~= old_labels.push(l));
            assert(!old_labels.contains(l));
            assert(self.popup_labels().no_duplicates()) by {
                assert forall|i: int, j: int|
                    0 <= i < self.popup_labels().len() && 0 <= j < self.popup_labels().len() && i != j
                    implies self.popup_labels()[i] != self.popup_labels()[j] by {
                    if i < old_labels.len() && j < old_labels.len() {
                    } else if i == old_labels.len() {
                        assert(old_labels.contains(old_labels[j]));
                    } else {
                        assert(old_labels.contains(old_labels[i]));
                    }
                }
            }
            assert forall|x: Seq<char>| self.popup_labels().contains(x) <==> (old_labels.contains(x) || x == l) by {
                if old_labels.contains(x) {
                    let j = choose|j: int| 0 <= j < old_labels.len() && old_labels[j] == x;
                    assert(self.popup_labels()[j] == x);
                }
                if x == l {
                    assert(self.popup_labels()[old_labels.len() as int] == x);
                }
            }
            assert(self@.popups =~= old(self)@.popups.insert(l));
            assert(self@ =~= model::create_popup(old(self)@, l, title@, url@)->Ok_0.0);
            assert(effects(acts@) =~= model::create_popup(old(self)@, l, title@, url@)->Ok_0.1);
        }
        Ok(acts)
    }

    /// Drops the popup at `i` from the registry.
    fn remove_popup(&mut self, i: usize)
        requires
            old(self).inv(),
            i < old(self).popups.len(),
        ensures
            final(self).popups_ok(),
            final(self)@ == model::without(old(self)@, old(self).popups@[i as int]@),
    {
        let ghost old_labels = self.popup_labels();
        let ghost l = old_labels[i as int];
        self.popups.remove(i);
        proof {
            assert(old(self)@.popups.contains(l));
            assert(!is_reserved(l));
            assert(self.popup_labels() =~= old_labels.remove(i as int));
            assert forall|x: Seq<char>| self.popup_labels().contains(x) <==> (old_labels.contains(x) && x != l) by {
                if old_labels.contains(x) && x != l {
                    let j = choose|j: int| 0 <= j < old_labels.len() && old_labels[j] == x;
                    if j < i {
                        assert(self.popup_labels()[j] == x);
                    } else {
                        assert(self.popup_labels()[j - 1] == x);
                    }
                }
                if self.popup_labels().contains(x) {
                    let j = choose|j: int| 0 <= j < self.popup_labels().len() && self.popup_labels()[j] == x;
                    if j < i {
                        assert(old_labels[j] == x);
                    } else {
                        assert(old_labels[j + 1] == x);
                    }
                }
            }
            assert(self@.popups =~= old(self)@.popups.remove(l));
            assert(self@ =~= model::without(old(self)@, l));
        }
    }

    /// A programmatic close: destroys the window under `label`, if any. It
    /// bypasses the close intercept, so it is also how a delayed popup close
    /// is carried out.
    pub fn close_window(&mut self, label: &String) -> (r: Vec<Action>)
        requires
            old(self).inv(),
        ensures
            final(self).inv(),
            final(self)@.wf(),
            final(self)@ == model::close_window(old(self)@, label@).0,
            effects(r@) == model::close_window(old(self)@, label@).1,
    {
        let mut acts: Vec<Action> = Vec::new();
        match Window::for_label(label) {
            Some(Window::Primary) => {
                if self.primary.is_some() {
                    self.primary = None;
                    emit(&mut acts, Action::Destroy(Window::Primary));
                }
            },
            Some(Window::Aux(k)) => {
                if self.aux(k).is_some() {
                    self.set_aux(k, None);
                    emit(&mut acts, Action::Destroy(Window::Aux(k)));
                }
            },
            None => {
                if let Some(i) = self.find_popup(label) {
                    self.remove_popup(i);
                    emit(&mut acts, Action::DestroyPopup(label.clone()));
                }
            },
        }
        proof {
            assert(self@ =~= model::close_window(old(self)@, label@).0);
            assert(effects(acts@) =~= model::close_window(old(self)@, label@).1);
        }
        acts
    }

    /// Drops the entry under `label` without any action: the window is
    /// already gone (the window system closed it, or building it failed).
    pub fn forget_window(&mut self, label: &String)
        requires
            old(self).inv(),
        ensures
            final(self).inv(),
            final(self)@.wf(),
            final(self)@ == model::close_window(old(self)@, label@).0,
    {
        let _ = self.close_window(label);
    }

    /// Sets the exit flag and schedules the end of the process after the
    /// grace delay; once the flag is set, it does nothing.
    pub fn force_quit(&mut self) -> (r: Vec<Action>)
        requires
            old(self).inv(),
        ensures
            final(self).inv(),
            final(self)@.wf(),
            final(self)@ == model::force_quit(old(self)@).0,
            effects(r@) == model::force_quit(old(self)@).1,
    {
        let mut acts: Vec<Action> = Vec::new();
        if !self.exit_armed {
            self.exit_armed = true;
            emit(&mut acts, Action::ExitLater(EXIT_GRACE_MS));
        }
        proof {
            assert(self@ =~= model::force_quit(old(self)@).0);
            assert(effects(acts@) =~= model::force_quit(old(self)@).1);
        }
        acts
    }

    /// The terminal path, for the end of the grace delay and for the run
    /// loop's exit request: it always ends the process.
    pub fn exit_now(&mut self) -> (r: Vec<Action>)
        requires
            old(self).inv(),
        ensures
            final(self).inv(),
            final(self)@.wf(),
            final(self)@ == model::exit_now(old(self)@).0,
            effects(r@) == model::exit_now(old(self)@).1,
    {
        let mut acts: Vec<Action> = Vec::new();
        self.exit_armed = true;
        emit(&mut acts, Action::Exit);
        proof {
            assert(self@ =~= model::exit_now(old(self)@).0);
            assert(effects(acts@) =~= model::exit_now(old(self)@).1);
        }
        acts
    }

    /// A user's close gesture on the window under `label`. The handler always
    /// suppresses the OS close; these are the actions taken instead.
    pub fn close_requested(&mut self, label: &String) -> (r: Vec<Action>)
        requires
            old(self).inv(),
        ensures
            final(self).inv(),
            final(self)@.wf(),
            final(self)@ == model::close_requested(old(self)@, label@).0,
            effects(r@) == model::close_requested(old(self)@, label@).1,
    {
        let mut acts: Vec<Action> = Vec::new();
        if self.exit_armed {
            emit(&mut acts, Action::Exit);
            proof {
                assert(effects(acts@) =~= model::close_requested(old(self)@, label@).1);
            }
            return acts;
        }
        match Window::for_label(label) {
            Some(Window::Primary) => self.exit_now(),
            Some(Window::Aux(k)) => match self.close_auxiliary(k) {
                Ok(a) => a,
                Err(_) => acts,
            },
            None => {
                if self.find_popup(label).is_some() {
                    emit(&mut acts, Action::ClosePopupLater(label.clone(), POPUP_CLOSE_DELAY_MS));
                }
                proof {
                    assert(effects(acts@) =~= model::close_requested(old(self)@, label@).1);
                }
                acts
            },
        }
    }

    fn aux(&self, k: AuxKind) -> (r: Option<bool>)
        ensures
            r == self@.aux(k),
    {
        match k {
            AuxKind::Mini => self.mini,
            AuxKind::Dashboard => self.dashboard,
        }
    }

    fn set_aux(&mut self, k: AuxKind, w: Option<bool>)
        ensures
            final(self)@ == old(self)@.with_aux(k, w),
            final(self).popups == old(self).popups,
    {
        match k {
            AuxKind::Mini => self.mini = w,
            AuxKind::Dashboard => self.dashboard = w,
        }
        proof {
            assert(self@ =~= old(self)@.with_aux(k, w));
        }
    }

    fn find_popup(&self, label: &String) -> (r: Option<usize>)
        ensures
            match r {
                Some(i) => i < self.popups.len() && self.popups@[i as int]@ == label@
                    && self@.popups.contains(label@),
                None => !self@.popups.contains(label@),
            },
    {
        let mut i: usize = 0;
        while i < self.popups.len()
            invariant
                i <= self.popups.len(),
                forall|j: int| 0 <= j < i ==> self.popups@[j]@ != label@,
            decreases self.popups.len() - i,
        {
            if self.popups[i] == *label {
                proof {
                    assert(self.popup_labels()[i as int] == label@);
                }
                return Some(i);
            }
            i = i + 1;
        }
        proof {
            if self.popup_labels().contains(label@) {
                let j = choose|j: int| 0 <= j < self.popup_labels().len() && self.popup_labels()[j] == label@;
                assert(self.popups@[j]@ == label@);
            }
        }
        None
    }

    fn retire(&mut self, k: AuxKind, acts: &mut Vec<Action>)
        ensures
            final(self)@ == model::retire(old(self)@, k).0,
            final(self).popups == old(self).popups,
            effects(final(acts)@) == effects(old(acts)@) + model::retire(old(self)@, k).1,
    {
        let ghost e0 = effects(acts@);
        if self.aux(k) == Some(true) {
            match k.idiom() {
                Idiom::HideShow => {
                    self.set_aux(k, Some(false));
                    emit(acts, Action::Hide(Window::Aux(k)));
                },
                Idiom::DestroyRecreate => {
                    self.set_aux(k, None);
                    emit(acts, Action::Destroy(Window::Aux(k)));
                },
            }
        }
        proof {
            assert(effects(acts@) =~= e0 + model::retire(old(self)@, k).1);
        }
    }

    fn restore_primary(&mut self, acts: &mut Vec<Action>)
        ensures
            final(self)@ == model::restore_primary(old(self)@).0,
            final(self).popups == old(self).popups,
            effects(final(acts)@) == effects(old(acts)@) + model::restore_primary(old(self)@).1,
    {
        let ghost e0 = effects(acts@);
        let ghost s0 = self@;
        self.retire(AuxKind::Mini, acts);
        let ghost s1 = self@;
        let ghost e1 = effects(acts@);
        self.retire(AuxKind::Dashboard, acts);
        let ghost e2 = effects(acts@);
        match self.primary {
            Some(_) => {
                emit(acts, Action::Show(Window::Primary));
                emit(acts, Action::Focus(Window::Primary));
                emit(acts, Action::Unminimize(Window::Primary));
            },
            None => {
                emit(acts, Action::Create(Window::Primary));
                emit(acts, Action::Focus(Window::Primary));
            },
        }
        self.primary = Some(true);
        proof {
            assert(self@ =~= model::restore_primary(s0).0);
            assert(effects(acts@) =~= e0 + model::restore_primary(s0).1);
        }
    }
}

} // verus!
