use vstd::prelude::*;
use crate::history::{HistoryModel, HISTORY_SIZE};
use crate::text::{core_title, core_title_of};
use crate::widgets::{percent_of, ratio_percent, CoreGraph, CpuGraph, GpuGraph, MemoryGraph};

verus! {

/// A key code, as far as the views and the registry tell keys apart.
#[derive(Clone, Copy, Debug, PartialEq, Eq, Structural)]
pub enum Key {
    Char(char),
    Tab,
    BackTab,
    Left,
    Right,
    Esc,
    Other,
}

/// Kind of a keyboard event.
#[derive(Clone, Copy, Debug, PartialEq, Eq, Structural)]
pub enum KeyKind {
    Press,
    Release,
    Repeat,
}

/// One round of telemetry: fixed-point percentages and byte counts. GPU
/// figures are absent when no GPU can be queried.
pub struct Readings {
    pub cpu: i64,
    pub cores: Vec<i64>,
    pub memory_used: u64,
    pub memory_total: u64,
    pub gpu_util: Option<i64>,
    pub gpu_vram: Option<(u64, u64)>,
}

/// Static host facts as the metrics source reports them.
pub struct HostInfo {
    pub os_name: Option<String>,
    pub os_version: Option<String>,
    pub kernel_version: Option<String>,
    pub host_name: Option<String>,
    pub cpu_name: Option<String>,
    pub cpu_cores: usize,
    pub total_memory_bytes: u64,
}

/// Text shown for a fact that the host did not report.
pub open spec fn or_unknown(s: Option<String>) -> Seq<char> {
    match s {
        Some(t) => t@,
        None => "Unknown"@,
    }
}

fn text_or_unknown(s: Option<String>) -> (r: String)
    ensures
        r@ == or_unknown(s),
{
    match s {
        Some(t) => t,
        None => {
            let u = "Unknown".to_owned();
            proof {
                reveal_strlit("Unknown");
            }
            u
        },
    }
}

/// Key handling of a view: `true` when the view used the key itself, in
/// which case the key must not reach any global binding.
pub trait ViewComponent: Sized {
    /// Whether the view uses `key` itself.
    spec fn uses_key(&self, key: Key) -> bool;

    /// `self` is what `prev` becomes when it uses `key`.
    spec fn key_effect(&self, prev: Self, key: Key) -> bool;

    fn handle_key(&mut self, key: Key) -> (consumed: bool)
        ensures
            consumed == old(self).uses_key(key),
            consumed ==> final(self).key_effect(*old(self), key),
            !consumed ==> *final(self) == *old(self),
    ;
}

/// Per-tick refresh of a view from fresh readings.
pub trait TickingComponent: Sized {
    spec fn inv(&self) -> bool;

    /// `self` is what `prev` becomes on a tick with readings `r`.
    spec fn stepped(&self, prev: Self, r: Readings) -> bool;

    fn on_tick(&mut self, readings: &Readings)
        requires
            old(self).inv(),
        ensures
            final(self).inv(),
            final(self).stepped(*old(self), *readings),
    ;
}

/// A view that both handles keys and refreshes on ticks.
pub trait TickingView: ViewComponent + TickingComponent {

}

impl<T: ViewComponent + TickingComponent> TickingView for T {

}

/// Host facts captured once; ticking leaves them as they are.
pub struct StatusView {
    os_name: String,
    os_version: String,
    kernel_version: String,
    host_name: String,
    cpu_name: String,
    cpu_cores: usize,
    total_memory_bytes: u64,
}

impl StatusView {
    pub closed spec fn os_name_view(&self) -> Seq<char> {
        self.os_name@
    }

    pub closed spec fn os_version_view(&self) -> Seq<char> {
        self.os_version@
    }

    pub closed spec fn kernel_version_view(&self) -> Seq<char> {
        self.kernel_version@
    }

    pub closed spec fn host_name_view(&self) -> Seq<char> {
        self.host_name@
    }

    pub closed spec fn cpu_name_view(&self) -> Seq<char> {
        self.cpu_name@
    }

    pub closed spec fn cores(&self) -> usize {
        self.cpu_cores
    }

    pub closed spec fn memory(&self) -> u64 {
        self.total_memory_bytes
    }

    /// Takes the facts as given, with `Unknown` for each one missing.
    pub fn new(info: HostInfo) -> (r: StatusView)
        ensures
            r.os_name_view() == or_unknown(info.os_name),
            r.os_version_view() == or_unknown(info.os_version),
            r.kernel_version_view() == or_unknown(info.kernel_version),
            r.host_name_view() == or_unknown(info.host_name),
            r.cpu_name_view() == or_unknown(info.cpu_name),
            r.cores() == info.cpu_cores,
            r.memory() == info.total_memory_bytes,
    {
        StatusView {
            os_name: text_or_unknown(info.os_name),
            os_version: text_or_unknown(info.os_version),
            kernel_version: text_or_unknown(info.kernel_version),
            host_name: text_or_unknown(info.host_name),
            cpu_name: text_or_unknown(info.cpu_name),
            cpu_cores: info.cpu_cores,
            total_memory_bytes: info.total_memory_bytes,
        }
    }

    pub fn os_name(&self) -> (r: &str)
        ensures
            r@ == self.os_name_view(),
    {
        self.os_name.as_str()
    }

    pub fn os_version(&self) -> (r: &str)
        ensures
            r@ == self.os_version_view(),
    {
        self.os_version.as_str()
    }

    pub fn kernel_version(&self) -> (r: &str)
        ensures
            r@ == self.kernel_version_view(),
    {
        self.kernel_version.as_str()
    }

    pub fn host_name(&self) -> (r: &str)
        ensures
            r@ == self.host_name_view(),
    {
        self.host_name.as_str()
    }

    pub fn cpu_name(&self) -> (r: &str)
        ensures
            r@ == self.cpu_name_view(),
    {
        self.cpu_name.as_str()
    }

    pub fn cpu_cores(&self) -> (r: usize)
        ensures
            r == self.cores(),
    {
        self.cpu_cores
    }

    pub fn total_memory_bytes(&self) -> (r: u64)
        ensures
            r == self.memory(),
    {
        self.total_memory_bytes
    }
}

impl ViewComponent for StatusView {
    open spec fn uses_key(&self, key: Key) -> bool {
        false
    }

    open spec fn key_effect(&self, prev: Self, key: Key) -> bool {
        *self == prev
    }

    fn handle_key(&mut self, key: Key) -> (consumed: bool) {
        false
    }
}

impl TickingComponent for StatusView {
    open spec fn inv(&self) -> bool {
        true
    }

    open spec fn stepped(&self, prev: Self, r: Readings) -> bool {
        *self == prev
    }

    fn on_tick(&mut self, readings: &Readings) {
    }
}

/// Aggregate CPU, memory and GPU graphs.
pub struct SystemMonitorView {
    cpu_graph: CpuGraph,
    gpu_graph: GpuGraph,
    memory_graph: MemoryGraph,
}

impl SystemMonitorView {
    pub closed spec fn cpu(&self) -> HistoryModel {
        self.cpu_graph@
    }

    pub closed spec fn gpu(&self) -> HistoryModel {
        self.gpu_graph.usage()
    }

    pub closed spec fn vram(&self) -> HistoryModel {
        self.gpu_graph.vram()
    }

    pub closed spec fn memory(&self) -> HistoryModel {
        self.memory_graph@
    }

    pub closed spec fn memory_used(&self) -> u64 {
        self.memory_graph.used()
    }

    pub closed spec fn memory_total(&self) -> u64 {
        self.memory_graph.total()
    }

    pub open spec fn wf(&self) -> bool {
        &&& self.cpu().wf()
        &&& self.gpu().wf()
        &&& self.vram().wf()
        &&& self.memory().wf()
    }

    /// What one tick does: every graph takes its reading; a GPU graph whose
    /// reading is absent keeps its history.
    pub open spec fn ticked(self, prev: SystemMonitorView, r: Readings) -> bool {
        &&& self.cpu() == prev.cpu().push(r.cpu as int)
        &&& self.memory() == prev.memory().push(
            ratio_percent(r.memory_used as int, r.memory_total as int) as int,
        )
        &&& self.memory_used() == r.memory_used
        &&& self.memory_total() == r.memory_total
        &&& self.gpu() == match r.gpu_util {
            Some(u) => prev.gpu().push(u as int),
            None => prev.gpu(),
        }
        &&& self.vram() == match r.gpu_vram {
            Some(v) => prev.vram().push(ratio_percent(v.0 as int, v.1 as int) as int),
            None => prev.vram(),
        }
    }

    pub fn new() -> (r: SystemMonitorView)
        ensures
            r.wf(),
            r.cpu() == HistoryModel::fresh(HISTORY_SIZE as nat),
            r.gpu() == HistoryModel::fresh(HISTORY_SIZE as nat),
            r.vram() == HistoryModel::fresh(HISTORY_SIZE as nat),
            r.memory() == HistoryModel::fresh(HISTORY_SIZE as nat),
    {
        SystemMonitorView { cpu_graph: CpuGraph::new(), gpu_graph: GpuGraph::new(), memory_graph: MemoryGraph::new() }
    }

    /// Pushes one round of readings into the graphs.
    pub fn refresh(&mut self, readings: &Readings)
        requires
            old(self).wf(),
        ensures
            final(self).wf(),
            final(self).ticked(*old(self), *readings),
    {
        self.cpu_graph.push(readings.cpu);
        self.memory_graph.push(readings.memory_used, readings.memory_total);
        match readings.gpu_util {
            Some(u) => self.gpu_graph.push(u),
            None => {},
        }
        match readings.gpu_vram {
            Some(v) => {
                let p = percent_of(v.0, v.1);
                self.gpu_graph.push_vram(p as i64);
            },
            None => {},
        }
    }

    pub fn cpu_graph(&self) -> (r: &CpuGraph)
        ensures
            r@ == self.cpu(),
            self.wf() ==> r.wf(),
    {
        &self.cpu_graph
    }

    pub fn gpu_graph(&self) -> (r: &GpuGraph)
        ensures
            r.usage() == self.gpu(),
            r.vram() == self.vram(),
            self.wf() ==> r.wf(),
    {
        &self.gpu_graph
    }

    pub fn memory_graph(&self) -> (r: &MemoryGraph)
        ensures
            r@ == self.memory(),
            r.used() == self.memory_used(),
            r.total() == self.memory_total(),
            self.wf() ==> r.wf(),
    {
        &self.memory_graph
    }
}

impl ViewComponent for SystemMonitorView {
    open spec fn uses_key(&self, key: Key) -> bool {
        false
    }

    open spec fn key_effect(&self, prev: Self, key: Key) -> bool {
        *self == prev
    }

    fn handle_key(&mut self, key: Key) -> (consumed: bool) {
        false
    }
}

impl TickingComponent for SystemMonitorView {
    open spec fn inv(&self) -> bool {
        self.wf()
    }

    open spec fn stepped(&self, prev: Self, r: Readings) -> bool {
        self.ticked(prev, r)
    }

    fn on_tick(&mut self, readings: &Readings) {
        self.refresh(readings);
    }
}

/// Columns and rows of the core grid: four columns of gauges, or two columns
/// of graphs, with as many rows as the cores need.
pub open spec fn grid_of(cores: nat, graph_mode: bool) -> (nat, nat) {
    if graph_mode {
        (2, (cores + 1) / 2)
    } else {
        (if cores < 4 { cores } else { 4 }, (cores + 3) / 4)
    }
}

/// Whether `key` switches the core grid between gauges and graphs.
pub open spec fn is_toggle_key(key: Key) -> bool {
    key == Key::Char('g') || key == Key::Char('G')
}

/// One history per logical core, shown as a gauge grid or a graph grid.
pub struct CpuCoresView {
    cores: Vec<CoreGraph>,
    show_graph: bool,
}

impl CpuCoresView {
    pub closed spec fn cores_view(&self) -> Seq<HistoryModel> {
        self.cores@.map_values(|c: CoreGraph| c@)
    }

    pub closed spec fn titles_view(&self) -> Seq<Seq<char>> {
        self.cores@.map_values(|c: CoreGraph| c.title_view())
    }

    pub closed spec fn graph_mode(&self) -> bool {
        self.show_graph
    }

    pub open spec fn wf(&self) -> bool {
        forall|i: int| 0 <= i < self.cores_view().len() ==> #[trigger] self.cores_view()[i].wf()
    }

    /// What one tick does: core `i` takes reading `i`, where there is one.
    pub open spec fn ticked(self, prev: CpuCoresView, r: Readings) -> bool {
        &&& self.graph_mode() == prev.graph_mode()
        &&& self.titles_view() == prev.titles_view()
        &&& self.cores_view().len() == prev.cores_view().len()
        &&& forall|i: int|
            0 <= i < prev.cores_view().len() ==> #[trigger] self.cores_view()[i] == if i
                < r.cores@.len() {
                prev.cores_view()[i].push(r.cores@[i] as int)
            } else {
                prev.cores_view()[i]
            }
    }

    /// One core per logical core, core `i` titled `Core i`, in gauge mode.
    pub fn new(core_count: usize) -> (r: CpuCoresView)
        ensures
            r.wf(),
            !r.graph_mode(),
            r.cores_view().len() == core_count,
            r.titles_view().len() == core_count,
            forall|i: int| 0 <= i < core_count ==> #[trigger] r.titles_view()[i] == core_title(i as nat),
            forall|i: int|
                0 <= i < core_count ==> #[trigger] r.cores_view()[i] == HistoryModel::fresh(
                    HISTORY_SIZE as nat,
                ),
    {
        let mut cores: Vec<CoreGraph> = Vec::new();
        let mut i: usize = 0;
        while i < core_count
            invariant
                i <= core_count,
                cores@.len() == i,
                forall|j: int|
                    0 <= j < i ==> #[trigger] cores@[j]@ == HistoryModel::fresh(HISTORY_SIZE as nat),
                forall|j: int| 0 <= j < i ==> #[trigger] cores@[j].title_view() == core_title(j as nat),
            decreases core_count - i,
        {
            cores.push(CoreGraph::new(core_title_of(i)));
            i = i + 1;
        }
        let r = CpuCoresView { cores, show_graph: false };
        assert forall|j: int| 0 <= j < core_count implies #[trigger] r.cores_view()[j].wf() by {
            assert(r.cores_view()[j] == cores@[j]@);
        }
        r
    }

    /// Pushes reading `i` into core `i`, for each core that has one.
    pub fn refresh(&mut self, readings: &Readings)
        requires
            old(self).wf(),
        ensures
            final(self).wf(),
            final(self).ticked(*old(self), *readings),
    {
        let ghost prev = *self;
        let n = self.cores.len();
        assert forall|j: int| 0 <= j < n implies #[trigger] prev.cores@[j]@.wf() by {
            assert(prev.cores_view()[j] == prev.cores@[j]@);
        }
        let mut i: usize = 0;
        while i < n
            invariant
                n == prev.cores@.len(),
                i <= n,
                self.cores@.len() == n,
                self.show_graph == prev.show_graph,
                forall|j: int| 0 <= j < n ==> #[trigger] prev.cores@[j]@.wf(),
                forall|j: int|
                    0 <= j < n ==> #[trigger] self.cores@[j].title_view() == prev.cores@[j].title_view(),
                forall|j: int|
                    0 <= j < n ==> #[trigger] self.cores@[j]@ == if j < i && j < readings.cores@.len() {
                        prev.cores@[j]@.push(readings.cores@[j] as int)
                    } else {
                        prev.cores@[j]@
                    },
            decreases n - i,
        {
            if i < readings.cores.len() {
                let mut slot = CoreGraph::new(String::new());
                self.cores.set_and_swap(i, &mut slot);
                slot.push(readings.cores[i]);
                self.cores.set_and_swap(i, &mut slot);
            }
            i = i + 1;
        }
        assert(self.titles_view() =~= prev.titles_view());
        assert forall|j: int| 0 <= j < n implies #[trigger] self.cores_view()[j].wf() by {
            assert(self.cores_view()[j] == self.cores@[j]@);
            assert(prev.cores_view()[j] == prev.cores@[j]@);
        }
        assert forall|j: int| 0 <= j < n implies #[trigger] self.cores_view()[j] == if j
            < readings.cores@.len() {
            prev.cores_view()[j].push(readings.cores@[j] as int)
        } else {
            prev.cores_view()[j]
        } by {
            assert(self.cores_view()[j] == self.cores@[j]@);
            assert(prev.cores_view()[j] == prev.cores@[j]@);
        }
    }

    /// Switches between gauge and graph mode.
    pub fn toggle_mode(&mut self)
        ensures
            final(self).graph_mode() == !old(self).graph_mode(),
            final(self).cores_view() == old(self).cores_view(),
            final(self).titles_view() == old(self).titles_view(),
            final(self).wf() == old(self).wf(),
    {
        self.show_graph = !self.show_graph;
    }

    /// Consumes `g` and `G` by toggling the mode; leaves other keys.
    pub fn handle_key(&mut self, key: Key) -> (consumed: bool)
        ensures
            consumed == is_toggle_key(key),
            !consumed ==> *final(self) == *old(self),
            final(self).graph_mode() == (old(self).graph_mode() != consumed),
            final(self).cores_view() == old(self).cores_view(),
            final(self).titles_view() == old(self).titles_view(),
            final(self).wf() == old(self).wf(),
    {
        match key {
            Key::Char('g') | Key::Char('G') => {
                self.toggle_mode();
                true
            },
            _ => false,
        }
    }

    /// `(columns, rows)` of the grid in the current mode.
    pub fn grid(&self) -> (r: (usize, usize))
        ensures
            r.0 as nat == grid_of(self.cores_view().len(), self.graph_mode()).0,
            r.1 as nat == grid_of(self.cores_view().len(), self.graph_mode()).1,
    {
        let n = self.cores.len();
        if self.show_graph {
            (2, n / 2 + n % 2)
        } else {
            let cols: usize = if n < 4 { n } else { 4 };
            let rows: usize = if n % 4 == 0 { n / 4 } else { n / 4 + 1 };
            (cols, rows)
        }
    }

    pub fn is_graph_mode(&self) -> (r: bool)
        ensures
            r == self.graph_mode(),
    {
        self.show_graph
    }

    pub fn core_count(&self) -> (r: usize)
        ensures
            r == self.cores_view().len(),
    {
        self.cores.len()
    }

    /// Core `i`.
    pub fn core_at(&self, i: usize) -> (r: &CoreGraph)
        requires
            i < self.cores_view().len(),
        ensures
            r@ == self.cores_view()[i as int],
            self.wf() ==> r.wf(),
    {
        &self.cores[i]
    }
}

impl ViewComponent for CpuCoresView {
    open spec fn uses_key(&self, key: Key) -> bool {
        is_toggle_key(key)
    }

    open spec fn key_effect(&self, prev: Self, key: Key) -> bool {
        &&& self.graph_mode() == !prev.graph_mode()
        &&& self.cores_view() == prev.cores_view()
        &&& self.titles_view() == prev.titles_view()
    }

    fn handle_key(&mut self, key: Key) -> (consumed: bool) {
        CpuCoresView::handle_key(self, key)
    }
}

impl TickingComponent for CpuCoresView {
    open spec fn inv(&self) -> bool {
        self.wf()
    }

    open spec fn stepped(&self, prev: Self, r: Readings) -> bool {
        self.ticked(prev, r)
    }

    fn on_tick(&mut self, readings: &Readings) {
        self.refresh(readings);
    }
}

/// A page with no content yet.
pub struct VrchatPageView {}

impl VrchatPageView {
    pub fn new() -> (r: VrchatPageView) {
        VrchatPageView {  }
    }
}

impl ViewComponent for VrchatPageView {
    open spec fn uses_key(&self, key: Key) -> bool {
        false
    }

    open spec fn key_effect(&self, prev: Self, key: Key) -> bool {
        *self == prev
    }

    fn handle_key(&mut self, key: Key) -> (consumed: bool) {
        false
    }
}

impl TickingComponent for VrchatPageView {
    open spec fn inv(&self) -> bool {
        true
    }

    open spec fn stepped(&self, prev: Self, r: Readings) -> bool {
        *self == prev
    }

    fn on_tick(&mut self, readings: &Readings) {
    }
}

} // verus!
