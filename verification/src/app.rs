//! The focus and dispatch coordinator over the panes.
//!
//! The coordinator owns the ordered panes, knows which one is active, and
//! routes each decoded command: quit commands stop the viewer, the
//! focus-switch command moves the active index cyclically, navigation
//! commands go to the active pane alone, and unmapped keys do nothing.
//! `step_app` is the model of that dispatch; every mutating method is
//! proved to perform it exactly.
use vstd::prelude::*;

use vstd::arithmetic::div_mod::{
    lemma_fundamental_div_mod, lemma_fundamental_div_mod_converse, lemma_small_mod,
};

use crate::buffer::{step_nav, BufView};
use crate::filewidget::FileWidget;
use crate::input::{spec_decode, Command, KeyInput};

verus! {

/// Whether the viewer is still running or has been asked to quit. Once
/// `Quit` is reached no command changes the state again; the main loop is
/// expected to stop.
#[derive(Clone, Copy, PartialEq, Eq, Structural, Debug)]
pub enum AppState {
    Running,
    Quit,
}

/// The abstract coordinator state: the panes' buffer models in order, the
/// index of the active pane, and the running flag.
#[verifier::ext_equal]
pub ghost struct AppView {
    pub widgets: Seq<BufView>,
    pub active: nat,
    pub running: bool,
}

impl AppView {
    /// Well-formedness: at least one pane, the active index in range, and
    /// every pane's buffer well formed.
    pub open spec fn wf(self) -> bool {
        &&& self.widgets.len() >= 1
        &&& self.active < self.widgets.len()
        &&& forall|i: int| 0 <= i < self.widgets.len() ==> (#[trigger] self.widgets[i]).wf()
    }
}

/// One dispatch step: `Quit` clears the running flag, `SwitchFocusNext`
/// advances the active index cyclically, `Pane` applies the navigation
/// command to the active pane alone, and `Noop` changes nothing.
pub open spec fn step_app(a: AppView, cmd: Command) -> AppView {
    match cmd {
        Command::Quit => AppView { running: false, ..a },
        Command::SwitchFocusNext => AppView {
            active: (a.active + 1) % a.widgets.len(),
            ..a
        },
        Command::Pane(nc) => AppView {
            widgets: a.widgets.update(a.active as int, step_nav(a.widgets[a.active as int], nc)),
            ..a
        },
        Command::Noop => a,
    }
}

/// `SwitchFocusNext` applied `k` times in a row.
pub open spec fn switch_times(a: AppView, k: nat) -> AppView
    decreases k,
{
    if k == 0 {
        a
    } else {
        step_app(switch_times(a, (k - 1) as nat), Command::SwitchFocusNext)
    }
}

proof fn lemma_switch_times_active(a: AppView, k: nat)
    requires
        a.wf(),
    ensures
        switch_times(a, k).widgets == a.widgets,
        switch_times(a, k).running == a.running,
        switch_times(a, k).active == (a.active + k) % a.widgets.len(),
    decreases k,
{
    let len: int = a.widgets.len() as int;
    if k == 0 {
        lemma_small_mod(a.active, a.widgets.len());
    } else {
        lemma_switch_times_active(a, (k - 1) as nat);
        let prev: int = switch_times(a, (k - 1) as nat).active as int;
        lemma_fundamental_div_mod(a.active + k as int - 1, len);
        let q: int = (a.active + k - 1) / len;
        if prev + 1 == len {
            lemma_fundamental_div_mod_converse(prev + 1, len, 1, 0);
            assert((q + 1) * len == len * q + len) by (nonlinear_arith);
            lemma_fundamental_div_mod_converse(a.active + k as int, len, q + 1, 0);
        } else {
            vstd::arithmetic::div_mod::lemma_mod_bound(a.active + k as int - 1, len);
            assert(q * len == len * q) by (nonlinear_arith);
            lemma_small_mod((prev + 1) as nat, a.widgets.len());
            lemma_fundamental_div_mod_converse(a.active + k as int, len, q, prev + 1);
        }
    }
}

/// Switching focus as many times as there are panes brings the active
/// index back to where it started, and changes nothing else.
pub proof fn lemma_switch_focus_round_trip(a: AppView)
    requires
        a.wf(),
    ensures
        switch_times(a, a.widgets.len()) == a,
{
    let len: int = a.widgets.len() as int;
    lemma_switch_times_active(a, a.widgets.len());
    lemma_fundamental_div_mod_converse(a.active + len, len, 1, a.active as int);
    assert(switch_times(a, a.widgets.len()) =~= a);
}

/// The viewer: the panes in order, the active index, and the state flag.
pub struct App {
    pub state: AppState,
    pub widgets: Vec<FileWidget>,
    pub active_widget: usize,
}

impl View for App {
    type V = AppView;

    open spec fn view(&self) -> AppView {
        AppView {
            widgets: Seq::new(self.widgets@.len(), |i: int| self.widgets@[i]@),
            active: self.active_widget as nat,
            running: self.state is Running,
        }
    }
}

impl App {
    /// A running viewer over the given panes, the first one active.
    pub fn new(widgets: Vec<FileWidget>) -> (a: App)
        requires
            widgets@.len() >= 1,
            forall|i: int| 0 <= i < widgets@.len() ==> (#[trigger] widgets@[i])@.wf(),
        ensures
            a@.widgets == Seq::new(widgets@.len(), |i: int| widgets@[i]@),
            a@.active == 0,
            a@.running,
            a@.wf(),
    {
        App { state: AppState::Running, widgets, active_widget: 0 }
    }

    /// Whether the viewer should keep handling input and rendering.
    pub fn is_running(&self) -> (r: bool)
        ensures
            r == self@.running,
    {
        match self.state {
            AppState::Running => true,
            AppState::Quit => false,
        }
    }

    /// The index of the pane that receives navigation commands.
    pub fn active_index(&self) -> (r: usize)
        ensures
            r as nat == self@.active,
    {
        self.active_widget
    }

    /// Dispatch one command, exactly as the model's [`step_app`] says:
    /// quit stops the viewer, focus-switch advances the active index
    /// cyclically, a navigation command reaches the active pane alone, and
    /// `Noop` changes nothing.
    pub fn handle_command(&mut self, cmd: Command)
        requires
            old(self)@.wf(),
        ensures
            final(self)@ == step_app(old(self)@, cmd),
            final(self)@.wf(),
    {
        match cmd {
            Command::Quit => {
                self.state = AppState::Quit;
                proof {
                    assert(final(self)@.widgets =~= old(self)@.widgets);
                    assert(final(self)@ =~= step_app(old(self)@, cmd));
                }
            },
            Command::SwitchFocusNext => {
                let len: usize = self.widgets.len();
                self.active_widget = (self.active_widget + 1) % len;
                proof {
                    assert(final(self)@.widgets =~= old(self)@.widgets);
                    assert(final(self)@ =~= step_app(old(self)@, cmd));
                }
            },
            Command::Pane(nc) => {
                let i: usize = self.active_widget;
                proof {
                    assert(old(self)@.widgets[i as int].wf());
                }
                let w: &mut FileWidget = &mut self.widgets[i];
                w.handle_command(nc);
                proof {
                    assert(final(self)@.widgets =~= old(self)@.widgets.update(
                        old(self)@.active as int,
                        step_nav(old(self)@.widgets[old(self)@.active as int], nc),
                    ));
                    assert(final(self)@ =~= step_app(old(self)@, cmd));
                }
            },
            Command::Noop => {},
        }
    }

    /// Decode one key event and dispatch the resulting command.
    pub fn handle_key(&mut self, input: KeyInput)
        requires
            old(self)@.wf(),
        ensures
            final(self)@ == step_app(old(self)@, spec_decode(input)),
            final(self)@.wf(),
    {
        let cmd: Command = crate::input::decode(input);
        self.handle_command(cmd);
    }
}

} // verus!
