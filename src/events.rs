//! Routing of menu activations and platform lifecycle events to requests on
//! the main window and to signals for the frontend.
use vstd::prelude::*;

use crate::MENU_OPEN_SETTINGS_ID;
use crate::window::{
    ShellError, WindowConfig, Windows, ensure_main_window_post, has_window, is_named, labels_distinct,
    MAIN_WINDOW_LABEL,
};

verus! {

/// Name of the signal that asks the frontend for its settings view.
pub const OPEN_SETTINGS_EVENT: &'static str = "OPEN_SETTINGS";

/// Name of the signal that tells the frontend the platform reopened the app.
pub const REOPEN_EVENT: &'static str = "reopen";

/// A payload-less signal for the frontend.
#[derive(Clone, Copy, PartialEq, Eq, Structural, Debug)]
pub enum Signal {
    OpenSettings,
    Reopen,
}

/// Name under which a signal is delivered.
pub open spec fn signal_name(s: Signal) -> Seq<char> {
    match s {
        Signal::OpenSettings => OPEN_SETTINGS_EVENT@,
        Signal::Reopen => REOPEN_EVENT@,
    }
}

impl Signal {
    /// Name under which this signal is delivered to the frontend.
    pub fn name(&self) -> (r: String)
        ensures
            r@ == signal_name(*self),
    {
        match self {
            Signal::OpenSettings => OPEN_SETTINGS_EVENT.to_owned(),
            Signal::Reopen => REOPEN_EVENT.to_owned(),
        }
    }
}

/// A request issued to the window system or to the frontend, in the order
/// issued. Each is best effort: its failure does not stop the next.
#[derive(Clone, Copy, PartialEq, Eq, Structural, Debug)]
pub enum Effect {
    /// Make the window at this position visible.
    Show(usize),
    /// Give the window at this position the input focus.
    Focus(usize),
    /// Send a signal to the frontend.
    Emit(Signal),
}

/// A lifecycle event of the platform's event loop.
#[derive(Clone, Copy, PartialEq, Eq, Structural, Debug)]
pub enum LifecycleEvent {
    /// The loop is ready.
    Ready,
    /// The platform reactivated the application (a click on its dock icon).
    Reopen { has_visible_windows: bool },
    /// The application was asked to exit.
    ExitRequested,
    /// The application is exiting.
    Exit,
    /// Any other event.
    Other,
}

/// What an activation of the Settings item requests once the main window
/// stands at position `w`: show it, focus it, then tell the frontend.
pub open spec fn open_settings_effects(w: usize) -> Seq<Effect> {
    seq![Effect::Show(w), Effect::Focus(w), Effect::Emit(Signal::OpenSettings)]
}

/// Signals sent for a lifecycle event: one "reopen" for a reopen, none otherwise.
pub open spec fn lifecycle_signals(e: LifecycleEvent) -> Seq<Signal> {
    if e is Reopen {
        seq![Signal::Reopen]
    } else {
        Seq::empty()
    }
}

/// What activating the Settings item did, given whether the platform builds a
/// window when asked: if the main window was found or built at position `w`,
/// the requests are those of `open_settings_effects(w)`; if it could not be
/// built, there are none.
pub open spec fn menu_event_outcome(
    before: Seq<WindowConfig>,
    accepts: bool,
    after: Seq<WindowConfig>,
    r: Seq<Effect>,
) -> bool {
    if r.len() == 0 {
        ensure_main_window_post(
            before,
            accepts,
            after,
            Err::<usize, ShellError>(ShellError::WindowCreation),
        )
    } else {
        &&& r[0] is Show
        &&& r == open_settings_effects(r[0]->Show_0)
        &&& ensure_main_window_post(before, accepts, after, Ok::<usize, ShellError>(r[0]->Show_0))
    }
}

/// Tells whether a menu identifier is the Settings item's.
pub fn is_open_settings(id: &str) -> (r: bool)
    ensures
        r == (id@ == MENU_OPEN_SETTINGS_ID@),
{
    id.to_owned() == MENU_OPEN_SETTINGS_ID.to_owned()
}

/// Handles the activation of the menu item `id`. For the Settings item the
/// main window is found or built (`accepts`: whether the platform builds a
/// window when asked), then shown, focused, and the frontend is told to open
/// its settings view; if the window cannot be built nothing is requested.
/// Any other item is left to the platform: nothing changes and nothing is
/// requested.
pub fn on_menu_event(windows: &mut Windows, id: &str, accepts: bool) -> (r: Vec<Effect>)
    requires
        old(windows).wf(),
    ensures
        final(windows).wf(),
        id@ != MENU_OPEN_SETTINGS_ID@ ==> final(windows).open@ == old(windows).open@ && r@
            == Seq::<Effect>::empty(),
        id@ == MENU_OPEN_SETTINGS_ID@ ==> menu_event_outcome(
            old(windows).open@,
            accepts,
            final(windows).open@,
            r@,
        ),
{
    let mut effects: Vec<Effect> = Vec::new();
    if is_open_settings(id) {
        let e = windows.ensure_main_window(accepts);
        if let Ok(w) = e {
            effects.push(Effect::Show(w));
            effects.push(Effect::Focus(w));
            effects.push(Effect::Emit(Signal::OpenSettings));
            assert(effects@ =~= open_settings_effects(w));
        }
        assert(ensure_main_window_post(old(windows).open@, accepts, windows.open@, e));
        if let Err(x) = e {
            assert(x == ShellError::WindowCreation);
        }
    }
    effects
}

/// Signals to send for a lifecycle event: "reopen" exactly once for a reopen,
/// whatever windows are visible; nothing for any other event.
pub fn on_lifecycle_event(event: &LifecycleEvent) -> (r: Vec<Signal>)
    ensures
        r@ == lifecycle_signals(*event),
{
    let mut signals: Vec<Signal> = Vec::new();
    if let LifecycleEvent::Reopen { .. } = event {
        signals.push(Signal::Reopen);
    }
    assert(signals@ =~= lifecycle_signals(*event));
    signals
}

/// On a platform that builds windows, activating the Settings item leaves a
/// main window open, built or reused, and requests exactly: show it, focus it,
/// and one "OPEN_SETTINGS" signal, in that order.
pub proof fn lemma_open_settings_dispatch(
    before: Seq<WindowConfig>,
    after: Seq<WindowConfig>,
    r: Seq<Effect>,
)
    requires
        labels_distinct(before),
        menu_event_outcome(before, true, after, r),
    ensures
        r.len() == 3,
        r[0] is Show,
        is_named(after, MAIN_WINDOW_LABEL@, r[0]->Show_0 as int),
        r[1] == Effect::Focus(r[0]->Show_0),
        r[2] == Effect::Emit(Signal::OpenSettings),
{
    let w = r[0]->Show_0;
    if !has_window(before, MAIN_WINDOW_LABEL@) {
        assert(after[before.len() as int] == after.last());
    }
    assert(open_settings_effects(w).len() == 3);
}

} // verus!
