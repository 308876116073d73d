//! The screen stack: the visible screen and a bounded history behind it.

use vstd::prelude::*;

verus! {

/// The screens of the client.
#[derive(Debug)]
pub enum Screen {
    /// Login form.
    Login,
    /// Registration form.
    Register,
    /// Search form.
    Search,
    /// List of search results.
    Results,
    /// Detail view of the company with the given register number.
    Details(String),
    /// Account management.
    Account,
    /// Key binding help.
    Help,
}

/// What a [`Screen`] stands for in contracts: its tag and, for a detail view,
/// the characters of the register number.
pub enum ScreenId {
    Login,
    Register,
    Search,
    Results,
    Details(Seq<char>),
    Account,
    Help,
}

impl View for Screen {
    type V = ScreenId;

    open spec fn view(&self) -> ScreenId {
        match self {
            Screen::Login => ScreenId::Login,
            Screen::Register => ScreenId::Register,
            Screen::Search => ScreenId::Search,
            Screen::Results => ScreenId::Results,
            Screen::Details(id) => ScreenId::Details(id@),
            Screen::Account => ScreenId::Account,
            Screen::Help => ScreenId::Help,
        }
    }
}

impl Clone for Screen {
    fn clone(&self) -> (res: Self)
        ensures
            res == *self,
    {
        match self {
            Screen::Login => Screen::Login,
            Screen::Register => Screen::Register,
            Screen::Search => Screen::Search,
            Screen::Results => Screen::Results,
            Screen::Details(id) => Screen::Details(id.clone()),
            Screen::Account => Screen::Account,
            Screen::Help => Screen::Help,
        }
    }
}

impl PartialEq for Screen {
    fn eq(&self, other: &Self) -> (res: bool) {
        match self {
            Screen::Login => matches!(other, Screen::Login),
            Screen::Register => matches!(other, Screen::Register),
            Screen::Search => matches!(other, Screen::Search),
            Screen::Results => matches!(other, Screen::Results),
            Screen::Details(a) => match other {
                Screen::Details(b) => a.eq(b),
                _ => false,
            },
            Screen::Account => matches!(other, Screen::Account),
            Screen::Help => matches!(other, Screen::Help),
        }
    }
}

impl vstd::std_specs::cmp::PartialEqSpecImpl for Screen {
    open spec fn obeys_eq_spec() -> bool {
        true
    }

    open spec fn eq_spec(&self, other: &Self) -> bool {
        self@ == other@
    }
}

/// One step through the screens, as a value, for statements about runs of
/// steps.
pub enum NavStep {
    Push(ScreenId),
    Pop,
}

/// The screen stack as a mathematical value.
pub struct NavigationView {
    /// The visible screen.
    pub current: ScreenId,
    /// Screens to go back to, oldest first.
    pub history: Seq<ScreenId>,
    /// Largest number of screens the history keeps.
    pub max_history: nat,
}

impl NavigationView {
    /// The stack right after start: `initial` visible, nothing to go back to.
    pub open spec fn start(initial: ScreenId, max_history: nat) -> NavigationView {
        NavigationView { current: initial, history: Seq::empty(), max_history }
    }

    /// The history never holds more than the bound.
    pub open spec fn wf(self) -> bool {
        self.history.len() <= self.max_history
    }

    /// Going to `screen`. Going to the visible screen changes nothing;
    /// otherwise the visible screen joins the history, whose oldest entry
    /// leaves when the bound is passed.
    pub open spec fn push(self, screen: ScreenId) -> NavigationView {
        if screen == self.current {
            self
        } else {
            let grown = self.history.push(self.current);
            NavigationView {
                current: screen,
                history: if grown.len() > self.max_history {
                    grown.subrange(1, grown.len() as int)
                } else {
                    grown
                },
                max_history: self.max_history,
            }
        }
    }

    /// Whether there is a screen to go back to.
    pub open spec fn can_go_back(self) -> bool {
        self.history.len() > 0
    }

    /// Going back: the newest history entry becomes visible. With an empty
    /// history nothing changes.
    pub open spec fn pop(self) -> NavigationView {
        if self.can_go_back() {
            NavigationView {
                current: self.history.last(),
                history: self.history.drop_last(),
                max_history: self.max_history,
            }
        } else {
            self
        }
    }

    /// Showing `screen` in place of the visible one; the history stays.
    pub open spec fn replace(self, screen: ScreenId) -> NavigationView {
        NavigationView { current: screen, ..self }
    }

    /// Forgetting the history and showing `screen`.
    pub open spec fn reset(self, screen: ScreenId) -> NavigationView {
        NavigationView { current: screen, history: Seq::empty(), max_history: self.max_history }
    }

    /// The stack after one step.
    pub open spec fn step(self, s: NavStep) -> NavigationView {
        match s {
            NavStep::Push(screen) => self.push(screen),
            NavStep::Pop => self.pop(),
        }
    }

    /// The stack after the steps of `steps`, in order.
    pub open spec fn run(self, steps: Seq<NavStep>) -> NavigationView
        decreases steps.len(),
    {
        if steps.len() == 0 {
            self
        } else {
            self.run(steps.drop_last()).step(steps.last())
        }
    }

    /// Number of steps back in a run of `steps` from this stack that found a
    /// screen to go back to.
    pub open spec fn pops_done(self, steps: Seq<NavStep>) -> nat
        decreases steps.len(),
    {
        if steps.len() == 0 {
            0
        } else {
            self.pops_done(steps.drop_last()) + if steps.last() is Pop && self.run(
                steps.drop_last(),
            ).can_go_back() {
                1nat
            } else {
                0nat
            }
        }
    }

    /// Going to each of `screens` in turn.
    pub open spec fn push_all(self, screens: Seq<ScreenId>) -> NavigationView
        decreases screens.len(),
    {
        if screens.len() == 0 {
            self
        } else {
            self.push_all(screens.drop_last()).push(screens.last())
        }
    }

    /// Going back `count` times.
    pub open spec fn pop_times(self, count: nat) -> NavigationView
        decreases count,
    {
        if count == 0 {
            self
        } else {
            self.pop_times((count - 1) as nat).pop()
        }
    }
}

/// The visible screen and the history behind it.
pub struct Navigation {
    /// The visible screen.
    pub current: Screen,
    /// Screens to go back to, oldest first.
    pub history: Vec<Screen>,
    /// Largest number of screens the history keeps.
    pub max_history: usize,
}

impl View for Navigation {
    type V = NavigationView;

    open spec fn view(&self) -> NavigationView {
        NavigationView {
            current: self.current@,
            history: self.history@.map_values(|s: Screen| s@),
            max_history: self.max_history as nat,
        }
    }
}

impl Navigation {
    /// A stack that shows `initial_screen`, with an empty history of at most
    /// ten entries.
    pub fn new(initial_screen: Screen) -> (nav: Self)
        ensures
            nav@ == NavigationView::start(initial_screen@, 10),
            nav.current == initial_screen,
    {
        let nav = Navigation { current: initial_screen, history: Vec::new(), max_history: 10 };
        assert(nav@.history =~= Seq::empty());
        nav
    }

    /// Goes to `screen` and remembers the screen left behind.
    pub fn push(&mut self, screen: Screen)
        ensures
            final(self)@ == old(self)@.push(screen@),
            old(self)@.wf() ==> final(self)@.wf(),
    {
        if !self.current.eq(&screen) {
            let ghost before = self.history@.map_values(|s: Screen| s@);
            let mut previous = screen;
            std::mem::swap(&mut self.current, &mut previous);
            self.history.push(previous);
            assert(self.history@.map_values(|s: Screen| s@) =~= before.push(old(self).current@));
            if self.history.len() > self.max_history {
                let ghost grown = self.history@.map_values(|s: Screen| s@);
                self.history.remove(0);
                assert(self.history@.map_values(|s: Screen| s@) =~= grown.subrange(
                    1,
                    grown.len() as int,
                ));
            }
        }
    }

    /// Goes back one screen. Returns whether there was one to go back to.
    pub fn pop(&mut self) -> (went_back: bool)
        ensures
            went_back == old(self)@.can_go_back(),
            final(self)@ == old(self)@.pop(),
            old(self)@.wf() ==> final(self)@.wf(),
            !went_back ==> *final(self) == *old(self),
    {
        if self.history.len() == 0 {
            false
        } else {
            let ghost before = self.history@.map_values(|s: Screen| s@);
            let previous = self.history.pop().unwrap();
            self.current = previous;
            assert(self.history@.map_values(|s: Screen| s@) =~= before.drop_last());
            true
        }
    }

    /// Shows `screen` in place of the visible one, leaving the history alone.
    pub fn replace(&mut self, screen: Screen)
        ensures
            final(self)@ == old(self)@.replace(screen@),
            old(self)@.wf() ==> final(self)@.wf(),
            final(self).current == screen,
            final(self).history == old(self).history,
            final(self).max_history == old(self).max_history,
    {
        self.current = screen;
    }

    /// Forgets the history and shows `screen`.
    pub fn reset(&mut self, screen: Screen)
        ensures
            final(self)@ == old(self)@.reset(screen@),
            final(self)@.wf(),
            final(self).current == screen,
    {
        self.history.clear();
        self.current = screen;
        assert(self@.history =~= Seq::empty());
    }

    /// Whether there is a screen to go back to.
    pub fn can_go_back(&self) -> (yes: bool)
        ensures
            yes == self@.can_go_back(),
    {
        !self.history.is_empty()
    }

    /// The visible screen.
    pub fn current(&self) -> (screen: &Screen)
        ensures
            *screen == self.current,
    {
        &self.current
    }

    /// Number of screens in the history.
    pub fn history_len(&self) -> (len: usize)
        ensures
            len == self@.history.len(),
    {
        self.history.len()
    }
}

impl Default for Navigation {
    /// The stack of a client that starts at the login screen.
    fn default() -> (nav: Self)
        ensures
            nav@ == NavigationView::start(ScreenId::Login, 10),
    {
        Navigation::new(Screen::Login)
    }
}

/// Going to the screen that is already visible changes nothing. So going to
/// the same screen twice in a row leaves the stack, and with it the length of
/// the history, as the first step left it.
pub proof fn lemma_push_current_is_noop(nav: NavigationView, screen: ScreenId)
    ensures
        nav.push(nav.current) == nav,
        nav.push(screen).push(screen) == nav.push(screen),
        nav.push(screen).push(screen).history.len() == nav.push(screen).history.len(),
{
}

/// Every step keeps the history within its bound.
pub proof fn lemma_steps_keep_bound(nav: NavigationView, screen: ScreenId)
    requires
        nav.wf(),
    ensures
        nav.push(screen).wf(),
        nav.pop().wf(),
        nav.replace(screen).wf(),
        nav.reset(screen).wf(),
{
}

/// When the bound is reached, going to a new screen drops the oldest entry
/// and keeps the others in order, with the screen left behind as the newest.
pub proof fn lemma_push_evicts_oldest(nav: NavigationView, screen: ScreenId)
    requires
        nav.wf(),
        nav.max_history > 0,
        nav.history.len() == nav.max_history,
        screen != nav.current,
    ensures
        nav.push(screen).history.len() == nav.max_history,
        nav.push(screen).history.last() == nav.current,
        forall|i: int|
            0 <= i < nav.max_history - 1 ==> #[trigger] nav.push(screen).history[i]
                == nav.history[i + 1],
{
}

/// Number of pushes among `steps`.
pub open spec fn pushes(steps: Seq<NavStep>) -> nat
    decreases steps.len(),
{
    if steps.len() == 0 {
        0
    } else {
        pushes(steps.drop_last()) + if steps.last() is Push {
            1nat
        } else {
            0nat
        }
    }
}

/// No underflow, for pushes and steps back in any order: from a fresh stack,
/// the steps back that found a screen and the screens still in the history
/// are together no more than the pushes made. So a step back that comes
/// after as many successful ones as there were pushes finds nothing, fails,
/// and leaves the stack as it was.
pub proof fn lemma_pops_bounded_by_pushes(
    initial: ScreenId,
    max_history: nat,
    steps: Seq<NavStep>,
)
    ensures
        ({
            let start = NavigationView::start(initial, max_history);
            &&& start.run(steps).history.len() + start.pops_done(steps) <= pushes(steps)
            &&& start.pops_done(steps) == pushes(steps) ==> !start.run(steps).can_go_back()
                && start.run(steps).pop() == start.run(steps)
        }),
    decreases steps.len(),
{
    if steps.len() > 0 {
        lemma_pops_bounded_by_pushes(initial, max_history, steps.drop_last());
    }
}

/// A run of pushes adds at most one history entry per push.
pub proof fn lemma_push_all_history_len(nav: NavigationView, screens: Seq<ScreenId>)
    ensures
        nav.push_all(screens).history.len() <= nav.history.len() + screens.len(),
    decreases screens.len(),
{
    if screens.len() > 0 {
        lemma_push_all_history_len(nav, screens.drop_last());
    }
}

/// Going back at least as often as the history is long empties it.
pub proof fn lemma_pop_times_exhausts(nav: NavigationView, count: nat)
    ensures
        nav.pop_times(count).history.len() == if count >= nav.history.len() {
            0
        } else {
            nav.history.len() - count
        },
    decreases count,
{
    if count > 0 {
        lemma_pop_times_exhausts(nav, (count - 1) as nat);
    }
}

/// No underflow: from a fresh stack, after any pushes and at least as many
/// steps back, one more step back fails and leaves the stack, and so the
/// visible screen, as it was.
pub proof fn lemma_pop_beyond_pushes_fails(
    initial: ScreenId,
    max_history: nat,
    screens: Seq<ScreenId>,
    pops: nat,
)
    requires
        pops >= screens.len(),
    ensures
        ({
            let nav = NavigationView::start(initial, max_history).push_all(screens).pop_times(pops);
            &&& !nav.can_go_back()
            &&& nav.pop() == nav
            &&& nav.pop().current == nav.current
        }),
{
    let pushed = NavigationView::start(initial, max_history).push_all(screens);
    lemma_push_all_history_len(NavigationView::start(initial, max_history), screens);
    lemma_pop_times_exhausts(pushed, pops);
}

} // verus!
