//! The main window: its fixed configuration, and the registry of open
//! windows through which it is found or created.
use vstd::prelude::*;

verus! {

/// Logical name of the main window; the only name this shell creates or looks up.
pub const MAIN_WINDOW_LABEL: &'static str = "main";

/// Title of the main window.
pub const MAIN_WINDOW_TITLE: &'static str = "Open WebUI";

/// Content location of the main window: the root of the bundled frontend.
pub const MAIN_WINDOW_URL: &'static str = "/";

/// How a window is to be built, sizes in logical units.
pub struct WindowConfig {
    pub label: String,
    pub title: String,
    pub url: String,
    pub width: u32,
    pub height: u32,
    pub min_width: u32,
    pub min_height: u32,
    pub resizable: bool,
    pub minimizable: bool,
    pub visible: bool,
}

/// Errors of the shell.
#[derive(Clone, Copy, PartialEq, Eq, Structural, Debug)]
pub enum ShellError {
    /// The platform refused to build the main window.
    WindowCreation,
}

/// `c` is the main window's configuration: 800 by 650, at least 600 by 450,
/// resizable, minimizable and visible.
pub open spec fn is_main_window_config(c: WindowConfig) -> bool {
    &&& c.label@ == MAIN_WINDOW_LABEL@
    &&& c.title@ == MAIN_WINDOW_TITLE@
    &&& c.url@ == MAIN_WINDOW_URL@
    &&& c.width == 800
    &&& c.height == 650
    &&& c.min_width == 600
    &&& c.min_height == 450
    &&& c.resizable
    &&& c.minimizable
    &&& c.visible
}

/// The configuration the main window is built with.
pub fn main_window_config() -> (r: WindowConfig)
    ensures
        is_main_window_config(r),
{
    WindowConfig {
        label: MAIN_WINDOW_LABEL.to_owned(),
        title: MAIN_WINDOW_TITLE.to_owned(),
        url: MAIN_WINDOW_URL.to_owned(),
        width: 800,
        height: 650,
        min_width: 600,
        min_height: 450,
        resizable: true,
        minimizable: true,
        visible: true,
    }
}

/// The open windows, each by the configuration it was built with; a window is
/// identified by its position.
pub struct Windows {
    pub open: Vec<WindowConfig>,
}

/// `i` is the position of a window named `label`.
pub open spec fn is_named(open: Seq<WindowConfig>, label: Seq<char>, i: int) -> bool {
    0 <= i < open.len() && open[i].label@ == label
}

/// A window named `label` is open.
pub open spec fn has_window(open: Seq<WindowConfig>, label: Seq<char>) -> bool {
    exists|i: int| #[trigger] is_named(open, label, i)
}

/// No two open windows share a name.
pub open spec fn labels_distinct(open: Seq<WindowConfig>) -> bool {
    forall|i: int, j: int|
        0 <= i < open.len() && 0 <= j < open.len() && i != j ==> (#[trigger] open[i]).label@
            != (#[trigger] open[j]).label@
}

/// Number of open windows named `label`.
pub open spec fn count_named(open: Seq<WindowConfig>, label: Seq<char>) -> nat
    decreases open.len(),
{
    if open.len() == 0 {
        0
    } else {
        count_named(open.drop_last(), label) + if open.last().label@ == label {
            1nat
        } else {
            0nat
        }
    }
}

/// What ensuring the main window does, given whether the platform accepts to
/// build one: an existing main window is returned untouched; otherwise one is
/// built and added last, or, if the platform refuses, nothing changes.
pub open spec fn ensure_main_window_post(
    before: Seq<WindowConfig>,
    accepts: bool,
    after: Seq<WindowConfig>,
    r: Result<usize, ShellError>,
) -> bool {
    if has_window(before, MAIN_WINDOW_LABEL@) {
        &&& after == before
        &&& r is Ok
        &&& is_named(before, MAIN_WINDOW_LABEL@, r->Ok_0 as int)
    } else {
        if accepts {
            &&& after.len() == before.len() + 1
            &&& after.drop_last() == before
            &&& is_main_window_config(after.last())
            &&& r is Ok
            &&& r->Ok_0 == before.len()
        } else {
            after == before && r == Err::<usize, ShellError>(ShellError::WindowCreation)
        }
    }
}

impl Windows {
    /// The registry is well formed: window names are distinct.
    pub open spec fn wf(&self) -> bool {
        labels_distinct(self.open@)
    }

    /// No window is open.
    pub fn new() -> (r: Windows)
        ensures
            r.wf(),
            r.open@.len() == 0,
    {
        Windows { open: Vec::new() }
    }

    /// Position of the window named `label`, if one is open.
    pub fn find(&self, label: &str) -> (r: Option<usize>)
        requires
            self.wf(),
        ensures
            r is None <==> !has_window(self.open@, label@),
            r matches Some(k) ==> is_named(self.open@, label@, k as int),
    {
        let wanted = label.to_owned();
        let mut i: usize = 0;
        while i < self.open.len()
            invariant
                self.wf(),
                i <= self.open@.len(),
                wanted@ == label@,
                forall|j: int| 0 <= j < i ==> (#[trigger] self.open@[j]).label@ != label@,
            decreases self.open@.len() - i,
        {
            if self.open[i].label == wanted {
                assert(is_named(self.open@, label@, i as int));
                return Some(i);
            }
            i = i + 1;
        }
        None
    }

    /// Returns the main window, building it if none is open. `accepts` says
    /// whether the platform builds a window when asked; if it does not, the
    /// result is `WindowCreation` and nothing changes.
    pub fn ensure_main_window(&mut self, accepts: bool) -> (r: Result<usize, ShellError>)
        requires
            old(self).wf(),
        ensures
            final(self).wf(),
            ensure_main_window_post(old(self).open@, accepts, final(self).open@, r),
    {
        match self.find(MAIN_WINDOW_LABEL) {
            Some(i) => Ok(i),
            None => {
                if accepts {
                    let n = self.open.len();
                    self.open.push(main_window_config());
                    assert(self.open@.drop_last() =~= old(self).open@);
                    assert forall|i: int, j: int|
                        0 <= i < self.open@.len() && 0 <= j < self.open@.len() && i != j implies (
                    #[trigger] self.open@[i]).label@ != (#[trigger] self.open@[j]).label@ by {
                        if i == n as int {
                            assert(old(self).open@[j] == self.open@[j]);
                            assert(!is_named(old(self).open@, MAIN_WINDOW_LABEL@, j));
                        } else if j == n as int {
                            assert(old(self).open@[i] == self.open@[i]);
                            assert(!is_named(old(self).open@, MAIN_WINDOW_LABEL@, i));
                        } else {
                            assert(old(self).open@[i] == self.open@[i]);
                            assert(old(self).open@[j] == self.open@[j]);
                        }
                    }
                    Ok(n)
                } else {
                    Err(ShellError::WindowCreation)
                }
            },
        }
    }
}

/// Where no window of a name is open, none is counted.
proof fn lemma_count_absent(open: Seq<WindowConfig>, label: Seq<char>)
    requires
        forall|i: int| 0 <= i < open.len() ==> (#[trigger] open[i]).label@ != label,
    ensures
        count_named(open, label) == 0,
    decreases open.len(),
{
    if open.len() > 0 {
        assert forall|i: int| 0 <= i < open.drop_last().len() implies (
        #[trigger] open.drop_last()[i]).label@ != label by {
            assert(open.drop_last()[i] == open[i]);
        }
        lemma_count_absent(open.drop_last(), label);
    }
}

/// Ensuring the main window where none is open, on a platform that builds
/// it, opens exactly one window named "main", with the main window's
/// configuration; ensuring it again returns that same window and opens
/// nothing more, whether or not the platform would build another.
pub proof fn lemma_ensure_main_window_twice(
    w0: Seq<WindowConfig>,
    w1: Seq<WindowConfig>,
    w2: Seq<WindowConfig>,
    r1: Result<usize, ShellError>,
    r2: Result<usize, ShellError>,
    accepts_again: bool,
)
    requires
        labels_distinct(w0),
        !has_window(w0, MAIN_WINDOW_LABEL@),
        ensure_main_window_post(w0, true, w1, r1),
        ensure_main_window_post(w1, accepts_again, w2, r2),
    ensures
        r1 is Ok,
        w1.len() == w0.len() + 1,
        count_named(w1, MAIN_WINDOW_LABEL@) == 1,
        is_main_window_config(w1[r1->Ok_0 as int]),
        w2 == w1,
        r2 == r1,
{
    let main = MAIN_WINDOW_LABEL@;
    let n = w0.len() as int;
    assert forall|i: int| 0 <= i < n implies (#[trigger] w0[i]).label@ != main by {
        assert(!is_named(w0, main, i));
    }
    lemma_count_absent(w0, main);
    assert(w1.drop_last() == w0);
    assert(w1[n] == w1.last());
    assert(is_named(w1, main, n));
    let k = r2->Ok_0 as int;
    if k < n {
        assert(w1.drop_last()[k] == w1[k]);
        assert(w1[k] == w0[k]);
    }
}

} // verus!
