use vstd::prelude::*;
use crate::history::{HistoryModel, HISTORY_SIZE};
use crate::text::core_title;
use crate::views::{
    or_unknown,
    is_toggle_key, CpuCoresView, HostInfo, Key, KeyKind, Readings, StatusView, SystemMonitorView,
    TickingComponent, ViewComponent, VrchatPageView,
};

verus! {

/// The closed set of views that the registry can hold.
pub enum AnyView {
    Status(StatusView),
    SystemMonitor(SystemMonitorView),
    CpuCores(CpuCoresView),
    VrchatPage(VrchatPageView),
}

impl AnyView {
    pub open spec fn wf(&self) -> bool {
        match self {
            AnyView::SystemMonitor(s) => s.wf(),
            AnyView::CpuCores(c) => c.wf(),
            _ => true,
        }
    }

    /// Whether the view uses `key` itself.
    pub open spec fn consumes(&self, key: Key) -> bool {
        match self {
            AnyView::CpuCores(_) => is_toggle_key(key),
            _ => false,
        }
    }

    /// `self` is what `prev` becomes when it is handed `key`.
    pub open spec fn keyed(self, prev: AnyView, key: Key) -> bool {
        if prev.consumes(key) {
            match (prev, self) {
                (AnyView::CpuCores(p), AnyView::CpuCores(c)) => {
                    &&& c.graph_mode() == !p.graph_mode()
                    &&& c.cores_view() == p.cores_view()
                    &&& c.titles_view() == p.titles_view()
                },
                _ => false,
            }
        } else {
            self == prev
        }
    }

    /// `self` is what `prev` becomes on a tick with readings `r`.
    pub open spec fn ticked(self, prev: AnyView, r: Readings) -> bool {
        match (prev, self) {
            (AnyView::SystemMonitor(p), AnyView::SystemMonitor(s)) => s.ticked(p, r),
            (AnyView::CpuCores(p), AnyView::CpuCores(c)) => c.ticked(p, r),
            (AnyView::SystemMonitor(_), _) => false,
            (AnyView::CpuCores(_), _) => false,
            _ => self == prev,
        }
    }

    /// Offers `key` to the view; `true` when the view used it.
    pub fn handle_key(&mut self, key: Key) -> (consumed: bool)
        ensures
            consumed == old(self).consumes(key),
            final(self).keyed(*old(self), key),
            final(self).wf() == old(self).wf(),
    {
        match self {
            AnyView::CpuCores(c) => c.handle_key(key),
            _ => false,
        }
    }

    /// Refreshes the view from `readings`.
    pub fn on_tick(&mut self, readings: &Readings)
        requires
            old(self).wf(),
        ensures
            final(self).wf(),
            final(self).ticked(*old(self), *readings),
    {
        match self {
            AnyView::SystemMonitor(s) => s.refresh(readings),
            AnyView::CpuCores(c) => c.refresh(readings),
            _ => {},
        }
    }
}

impl ViewComponent for AnyView {
    open spec fn uses_key(&self, key: Key) -> bool {
        self.consumes(key)
    }

    open spec fn key_effect(&self, prev: Self, key: Key) -> bool {
        self.keyed(prev, key)
    }

    fn handle_key(&mut self, key: Key) -> (consumed: bool) {
        AnyView::handle_key(self, key)
    }
}

impl TickingComponent for AnyView {
    open spec fn inv(&self) -> bool {
        self.wf()
    }

    open spec fn stepped(&self, prev: Self, r: Readings) -> bool {
        self.ticked(prev, r)
    }

    fn on_tick(&mut self, readings: &Readings) {
        AnyView::on_tick(self, readings);
    }
}

/// Keys that quit: `q` and Esc.
pub open spec fn is_quit_key(key: Key) -> bool {
    key == Key::Char('q') || key == Key::Esc
}

/// Keys that move to the next view: Tab and Right.
pub open spec fn is_next_key(key: Key) -> bool {
    key == Key::Tab || key == Key::Right
}

/// Keys that move to the previous view: Shift-Tab and Left.
pub open spec fn is_prev_key(key: Key) -> bool {
    key == Key::BackTab || key == Key::Left
}

/// The index after `i` among `n` views, wrapping round (`(i + 1) % n` for
/// `i` in range).
pub open spec fn next_index(i: int, n: int) -> int {
    if n <= 0 {
        i
    } else if i + 1 >= n {
        0
    } else {
        i + 1
    }
}

/// The index before `i` among `n` views, wrapping round.
pub open spec fn prev_index(i: int, n: int) -> int {
    if n <= 0 {
        i
    } else if i == 0 {
        n - 1
    } else {
        i - 1
    }
}

/// Moving back from the first view lands on the last, and moving on from the
/// last lands on the first; both moves stay in range and undo each other.
pub proof fn lemma_switching_is_circular(n: int, i: int)
    requires
        0 <= i < n,
    ensures
        prev_index(0, n) == n - 1,
        next_index(n - 1, n) == 0,
        0 <= next_index(i, n) < n,
        0 <= prev_index(i, n) < n,
        prev_index(next_index(i, n), n) == i,
        next_index(prev_index(i, n), n) == i,
        next_index(i, n) == (i + 1) % n,
{
    if i + 1 < n {
        vstd::arithmetic::div_mod::lemma_small_mod((i + 1) as nat, n as nat);
    } else {
        vstd::arithmetic::div_mod::lemma_mod_self_0(n);
    }
}

/// A key that the active view uses never reaches the global bindings: the
/// quit flag, the active index and the redraw request stay as they were, and
/// only the active view changes.
pub proof fn lemma_consumed_key_stays_local(before: App, after: App, key: Key)
    requires
        after.routed(before, key),
        before.active_consumes(key),
    ensures
        after.quit() == before.quit(),
        after.index() == before.index(),
        after.clear_pending() == before.clear_pending(),
        forall|j: int|
            0 <= j < before.len() && j != before.index() ==> #[trigger] after.views_view()[j]
                == before.views_view()[j],
{
}

/// The ordered views, the active index and the quit and redraw flags.
pub struct App {
    current_view: usize,
    views: Vec<AnyView>,
    ticking: Vec<bool>,
    should_quit: bool,
    needs_clear: bool,
}

impl App {
    pub closed spec fn index(&self) -> int {
        self.current_view as int
    }

    pub closed spec fn views_view(&self) -> Seq<AnyView> {
        self.views@
    }

    /// For each view, whether it is ticked.
    pub closed spec fn ticking_view(&self) -> Seq<bool> {
        self.ticking@
    }

    pub closed spec fn quit(&self) -> bool {
        self.should_quit
    }

    pub closed spec fn clear_pending(&self) -> bool {
        self.needs_clear
    }

    pub open spec fn len(&self) -> int {
        self.views_view().len() as int
    }

    /// Whether the active view uses `key` itself.
    pub open spec fn active_consumes(&self, key: Key) -> bool {
        self.len() > 0 && self.views_view()[self.index()].consumes(key)
    }

    /// `self` is `prev` after `key` was routed: a key that the active view
    /// uses changes that view alone; any other key goes to the global
    /// bindings and leaves every view as it was.
    pub open spec fn routed(self, prev: App, key: Key) -> bool {
        let i = prev.index();
        if prev.active_consumes(key) {
            &&& self.index() == i
            &&& self.quit() == prev.quit()
            &&& self.clear_pending() == prev.clear_pending()
            &&& self.views_view()[i].keyed(prev.views_view()[i], key)
            &&& forall|j: int|
                0 <= j < prev.len() && j != i ==> #[trigger] self.views_view()[j]
                    == prev.views_view()[j]
        } else {
            &&& self.views_view() == prev.views_view()
            &&& self.quit() == (prev.quit() || is_quit_key(key))
            &&& self.index() == if is_next_key(key) {
                next_index(i, prev.len())
            } else if is_prev_key(key) {
                prev_index(i, prev.len())
            } else {
                i
            }
            &&& self.clear_pending() == (prev.clear_pending() || (prev.len() > 0 && (
            is_next_key(key) || is_prev_key(key))))
        }
    }

    pub closed spec fn wf(&self) -> bool {
        &&& self.views@.len() == self.ticking@.len()
        &&& self.views@.len() == 0 ==> self.current_view == 0
        &&& self.views@.len() > 0 ==> self.current_view < self.views@.len()
        &&& forall|i: int| 0 <= i < self.views@.len() ==> #[trigger] self.views@[i].wf()
    }

    /// A registry with no views.
    pub fn empty() -> (r: App)
        ensures
            r.wf(),
            r.len() == 0,
            r.index() == 0,
            !r.quit(),
            r.clear_pending(),
    {
        App { current_view: 0, views: Vec::new(), ticking: Vec::new(), should_quit: false, needs_clear: true }
    }

    /// The status view built from `host`, a system monitor and a CPU cores
    /// view with one core per logical core of `host`, in that order, all
    /// ticked, the first one active.
    pub fn new(host: HostInfo) -> (r: App)
        ensures
            r.wf(),
            r.len() == 3,
            match r.views_view()[0] {
                AnyView::Status(s) => {
                    &&& s.os_name_view() == or_unknown(host.os_name)
                    &&& s.os_version_view() == or_unknown(host.os_version)
                    &&& s.kernel_version_view() == or_unknown(host.kernel_version)
                    &&& s.host_name_view() == or_unknown(host.host_name)
                    &&& s.cpu_name_view() == or_unknown(host.cpu_name)
                    &&& s.cores() == host.cpu_cores
                    &&& s.memory() == host.total_memory_bytes
                },
                _ => false,
            },
            match r.views_view()[1] {
                AnyView::SystemMonitor(m) => {
                    &&& m.cpu() == HistoryModel::fresh(HISTORY_SIZE as nat)
                    &&& m.gpu() == HistoryModel::fresh(HISTORY_SIZE as nat)
                    &&& m.vram() == HistoryModel::fresh(HISTORY_SIZE as nat)
                    &&& m.memory() == HistoryModel::fresh(HISTORY_SIZE as nat)
                },
                _ => false,
            },
            match r.views_view()[2] {
                AnyView::CpuCores(c) => {
                    &&& !c.graph_mode()
                    &&& c.cores_view().len() == host.cpu_cores
                    &&& c.titles_view().len() == host.cpu_cores
                    &&& forall|i: int|
                        0 <= i < host.cpu_cores ==> #[trigger] c.titles_view()[i] == core_title(
                            i as nat,
                        )
                    &&& forall|i: int|
                        0 <= i < host.cpu_cores ==> #[trigger] c.cores_view()[i]
                            == HistoryModel::fresh(HISTORY_SIZE as nat)
                },
                _ => false,
            },
            r.ticking_view() == seq![true, true, true],
            r.index() == 0,
            !r.quit(),
            r.clear_pending(),
    {
        let core_count = host.cpu_cores;
        let mut app = App::empty();
        app.register_ticking_view(AnyView::Status(StatusView::new(host)));
        app.register_ticking_view(AnyView::SystemMonitor(SystemMonitorView::new()));
        app.register_ticking_view(AnyView::CpuCores(CpuCoresView::new(core_count)));
        assert(app.ticking@ =~= seq![true, true, true]);
        app
    }

    /// Appends a view that is refreshed on ticks.
    pub fn register_ticking_view(&mut self, view: AnyView)
        requires
            old(self).wf(),
            view.wf(),
        ensures
            final(self).wf(),
            final(self).views_view() == old(self).views_view().push(view),
            final(self).ticking_view() == old(self).ticking_view().push(true),
            final(self).index() == old(self).index(),
            final(self).quit() == old(self).quit(),
            final(self).clear_pending() == old(self).clear_pending(),
    {
        self.views.push(view);
        self.ticking.push(true);
    }

    /// Appends a view that is never ticked.
    pub fn register_view(&mut self, view: AnyView)
        requires
            old(self).wf(),
            view.wf(),
        ensures
            final(self).wf(),
            final(self).views_view() == old(self).views_view().push(view),
            final(self).ticking_view() == old(self).ticking_view().push(false),
            final(self).index() == old(self).index(),
            final(self).quit() == old(self).quit(),
            final(self).clear_pending() == old(self).clear_pending(),
    {
        self.views.push(view);
        self.ticking.push(false);
    }

    /// Moves to the next view, wrapping round, and asks for a full redraw.
    pub fn next_view(&mut self)
        requires
            old(self).wf(),
        ensures
            final(self).wf(),
            final(self).index() == next_index(old(self).index(), old(self).len()),
            final(self).clear_pending() == (old(self).clear_pending() || old(self).len() > 0),
            final(self).views_view() == old(self).views_view(),
            final(self).ticking_view() == old(self).ticking_view(),
            final(self).quit() == old(self).quit(),
    {
        if self.views.len() > 0 {
            self.current_view = if self.current_view + 1 == self.views.len() {
                0
            } else {
                self.current_view + 1
            };
            self.needs_clear = true;
        }
    }

    /// Moves to the previous view, wrapping round, and asks for a full redraw.
    pub fn prev_view(&mut self)
        requires
            old(self).wf(),
        ensures
            final(self).wf(),
            final(self).index() == prev_index(old(self).index(), old(self).len()),
            final(self).clear_pending() == (old(self).clear_pending() || old(self).len() > 0),
            final(self).views_view() == old(self).views_view(),
            final(self).ticking_view() == old(self).ticking_view(),
            final(self).quit() == old(self).quit(),
    {
        if self.views.len() > 0 {
            self.current_view = if self.current_view == 0 {
                self.views.len() - 1
            } else {
                self.current_view - 1
            };
            self.needs_clear = true;
        }
    }

    /// Reports whether a full redraw is due and clears the request.
    pub fn take_needs_clear(&mut self) -> (r: bool)
        requires
            old(self).wf(),
        ensures
            final(self).wf(),
            r == old(self).clear_pending(),
            !final(self).clear_pending(),
            final(self).index() == old(self).index(),
            final(self).views_view() == old(self).views_view(),
            final(self).ticking_view() == old(self).ticking_view(),
            final(self).quit() == old(self).quit(),
    {
        let r = self.needs_clear;
        self.needs_clear = false;
        r
    }

    /// The view to draw, if there is one.
    pub fn active_view(&self) -> (r: Option<&AnyView>)
        requires
            self.wf(),
        ensures
            match r {
                Some(v) => self.len() > 0 && *v == self.views_view()[self.index()],
                None => self.len() == 0,
            },
    {
        if self.views.len() > 0 {
            Some(&self.views[self.current_view])
        } else {
            None
        }
    }

    /// Whether a tick would reach the active view.
    pub fn needs_tick(&self) -> (r: bool)
        requires
            self.wf(),
        ensures
            r == (self.len() > 0 && self.ticking_view()[self.index()]),
    {
        self.views.len() > 0 && self.ticking[self.current_view]
    }

    /// Ticks the active view with `readings`, unless it is not ticked;
    /// inactive views are left alone.
    pub fn on_tick(&mut self, readings: &Readings)
        requires
            old(self).wf(),
        ensures
            final(self).wf(),
            final(self).index() == old(self).index(),
            final(self).ticking_view() == old(self).ticking_view(),
            final(self).quit() == old(self).quit(),
            final(self).clear_pending() == old(self).clear_pending(),
            final(self).len() == old(self).len(),
            forall|j: int|
                0 <= j < old(self).len() && j != old(self).index() ==> #[trigger] final(self).views_view()[j] == old(self).views_view()[j],
            old(self).len() > 0 ==> if old(self).ticking_view()[old(self).index()] {
                final(self).views_view()[old(self).index()].ticked(
                    old(self).views_view()[old(self).index()],
                    *readings,
                )
            } else {
                final(self).views_view() == old(self).views_view()
            },
    {
        if self.views.len() > 0 && self.ticking[self.current_view] {
            let i = self.current_view;
            let mut slot = AnyView::VrchatPage(VrchatPageView::new());
            self.views.set_and_swap(i, &mut slot);
            slot.on_tick(readings);
            self.views.set_and_swap(i, &mut slot);
        }
    }

    /// Offers `key` to the active view first; only a key that the view does
    /// not use reaches the global bindings (quit, next view, previous view).
    /// Any other key is ignored.
    pub fn handle_key(&mut self, key: Key)
        requires
            old(self).wf(),
        ensures
            final(self).wf(),
            final(self).ticking_view() == old(self).ticking_view(),
            final(self).len() == old(self).len(),
            final(self).routed(*old(self), key),
    {
        if self.views.len() > 0 {
            let i = self.current_view;
            let mut slot = AnyView::VrchatPage(VrchatPageView::new());
            self.views.set_and_swap(i, &mut slot);
            let consumed = slot.handle_key(key);
            self.views.set_and_swap(i, &mut slot);
            if consumed {
                return;
            }
            assert(self.views@ =~= old(self).views@);
        }
        match key {
            Key::Char('q') | Key::Esc => self.should_quit = true,
            Key::Tab | Key::Right => self.next_view(),
            Key::BackTab | Key::Left => self.prev_view(),
            _ => {},
        }
    }

    /// Routes a key event: only presses count, releases and repeats are
    /// dropped.
    pub fn handle_key_event(&mut self, key: Key, kind: KeyKind)
        requires
            old(self).wf(),
        ensures
            final(self).wf(),
            kind == KeyKind::Press ==> final(self).routed(*old(self), key),
            kind != KeyKind::Press ==> *final(self) == *old(self),
    {
        match kind {
            KeyKind::Press => self.handle_key(key),
            _ => {},
        }
    }

    pub fn should_quit(&self) -> (r: bool)
        ensures
            r == self.quit(),
    {
        self.should_quit
    }

    pub fn current_index(&self) -> (r: usize)
        ensures
            r == self.index(),
    {
        self.current_view
    }

    pub fn view_count(&self) -> (r: usize)
        ensures
            r == self.len(),
    {
        self.views.len()
    }
}

} // verus!
