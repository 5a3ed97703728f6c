use vstd::prelude::*;
use crate::history::{
    band, band_of, clamp_percent, clamp_sample, Band, HistoryBuffer, HistoryModel, FULL_SCALE,
    HISTORY_SIZE,
};

verus! {

/// `used` as a share of `total`, in fixed-point units, clamped to 100%;
/// zero when `total` is zero.
pub open spec fn ratio_percent(used: int, total: int) -> u32 {
    if total == 0 {
        0
    } else {
        clamp_percent(used * FULL_SCALE / total)
    }
}

/// Computes `ratio_percent` without overflow.
pub fn percent_of(used: u64, total: u64) -> (r: u32)
    ensures
        r == ratio_percent(used as int, total as int),
        r <= FULL_SCALE,
{
    if total == 0 {
        0
    } else {
        assert((used as int) * 1_000_000 <= 18_446_744_073_709_551_615 * 1_000_000) by (nonlinear_arith)
            requires
                used as int <= 18_446_744_073_709_551_615,
        ;
        let scaled: u128 = (used as u128) * (FULL_SCALE as u128);
        let p: u128 = scaled / (total as u128);
        if p > FULL_SCALE as u128 {
            FULL_SCALE
        } else {
            p as u32
        }
    }
}

/// Percentage gauge: holds the latest value only.
pub struct UsageGauge {
    title: String,
    usage_percent: u32,
}

impl UsageGauge {
    pub closed spec fn usage(&self) -> u32 {
        self.usage_percent
    }

    pub closed spec fn title_view(&self) -> Seq<char> {
        self.title@
    }

    pub open spec fn wf(&self) -> bool {
        self.usage() <= FULL_SCALE
    }

    pub fn new(title: String) -> (r: UsageGauge)
        ensures
            r.wf(),
            r.usage() == 0,
            r.title_view() == title@,
    {
        UsageGauge { title, usage_percent: 0 }
    }

    /// Records `percent`, clamped to `[0, 100]` percent.
    pub fn set_usage(&mut self, percent: i64)
        ensures
            final(self).wf(),
            final(self).usage() == clamp_percent(percent as int),
            final(self).title_view() == old(self).title_view(),
    {
        self.usage_percent = clamp_sample(percent);
    }

    pub fn get_usage(&self) -> (r: u32)
        ensures
            r == self.usage(),
    {
        self.usage_percent
    }

    /// Severity band of the current value.
    pub fn get_color(&self) -> (r: Band)
        ensures
            r == band_of(self.usage() as int),
    {
        band(self.usage_percent)
    }

    pub fn title(&self) -> (r: &str)
        ensures
            r@ == self.title_view(),
    {
        self.title.as_str()
    }
}

/// Time-series graph over a rolling history.
pub struct UsageGraph {
    title: String,
    history: HistoryBuffer,
}

impl UsageGraph {
    pub closed spec fn view(&self) -> HistoryModel {
        self.history@
    }

    pub closed spec fn title_view(&self) -> Seq<char> {
        self.title@
    }

    pub open spec fn wf(&self) -> bool {
        self@.wf()
    }

    pub fn new(title: String) -> (r: UsageGraph)
        ensures
            r.wf(),
            r@ == HistoryModel::fresh(HISTORY_SIZE as nat),
            r.title_view() == title@,
    {
        UsageGraph { title, history: HistoryBuffer::new() }
    }

    /// Records `percent`, clamped; the first value fills the whole history.
    pub fn push(&mut self, percent: i64)
        requires
            old(self).wf(),
        ensures
            final(self).wf(),
            final(self)@ == old(self)@.push(percent as int),
            final(self)@.samples.len() == old(self)@.capacity,
            final(self)@.current() == clamp_percent(percent as int),
            final(self).title_view() == old(self).title_view(),
    {
        self.history.push(percent);
    }

    pub fn get_current(&self) -> (r: u32)
        requires
            self.wf(),
        ensures
            r == self@.current(),
    {
        self.history.current()
    }

    /// Severity band of the current value.
    pub fn color(&self) -> (r: Band)
        requires
            self.wf(),
        ensures
            r == band_of(self@.current() as int),
    {
        band(self.history.current())
    }

    pub fn history(&self) -> (r: &HistoryBuffer)
        ensures
            r@ == self@,
    {
        &self.history
    }

    pub fn title(&self) -> (r: &str)
        ensures
            r@ == self.title_view(),
    {
        self.title.as_str()
    }
}

/// Aggregate CPU graph.
pub struct CpuGraph {
    graph: UsageGraph,
}

impl CpuGraph {
    pub closed spec fn view(&self) -> HistoryModel {
        self.graph@
    }

    pub open spec fn wf(&self) -> bool {
        self@.wf()
    }

    pub fn new() -> (r: CpuGraph)
        ensures
            r.wf(),
            r@ == HistoryModel::fresh(HISTORY_SIZE as nat),
    {
        CpuGraph { graph: UsageGraph::new("CPU".to_string()) }
    }

    pub fn push(&mut self, percent: i64)
        requires
            old(self).wf(),
        ensures
            final(self).wf(),
            final(self)@ == old(self)@.push(percent as int),
            final(self)@.samples.len() == old(self)@.capacity,
            final(self)@.current() == clamp_percent(percent as int),
    {
        self.graph.push(percent);
    }

    pub fn graph(&self) -> (r: &UsageGraph)
        ensures
            r@ == self@,
            r.wf() == self.wf(),
    {
        &self.graph
    }
}

/// GPU utilisation and VRAM graphs, each with its own history.
pub struct GpuGraph {
    graph: UsageGraph,
    vram_graph: UsageGraph,
}

impl GpuGraph {
    pub closed spec fn usage(&self) -> HistoryModel {
        self.graph@
    }

    pub closed spec fn vram(&self) -> HistoryModel {
        self.vram_graph@
    }

    pub open spec fn wf(&self) -> bool {
        self.usage().wf() && self.vram().wf()
    }

    pub fn new() -> (r: GpuGraph)
        ensures
            r.wf(),
            r.usage() == HistoryModel::fresh(HISTORY_SIZE as nat),
            r.vram() == HistoryModel::fresh(HISTORY_SIZE as nat),
    {
        GpuGraph { graph: UsageGraph::new("GPU".to_string()), vram_graph: UsageGraph::new("VRAM".to_string()) }
    }

    pub fn push(&mut self, percent: i64)
        requires
            old(self).wf(),
        ensures
            final(self).wf(),
            final(self).usage() == old(self).usage().push(percent as int),
            final(self).usage().samples.len() == old(self).usage().capacity,
            final(self).usage().current() == clamp_percent(percent as int),
            final(self).vram() == old(self).vram(),
    {
        self.graph.push(percent);
    }

    pub fn push_vram(&mut self, percent: i64)
        requires
            old(self).wf(),
        ensures
            final(self).wf(),
            final(self).usage() == old(self).usage(),
            final(self).vram() == old(self).vram().push(percent as int),
            final(self).vram().samples.len() == old(self).vram().capacity,
            final(self).vram().current() == clamp_percent(percent as int),
    {
        self.vram_graph.push(percent);
    }

    pub fn graph(&self) -> (r: &UsageGraph)
        ensures
            r@ == self.usage(),
            self.wf() ==> r.wf(),
    {
        &self.graph
    }

    pub fn vram_graph(&self) -> (r: &UsageGraph)
        ensures
            r@ == self.vram(),
            self.wf() ==> r.wf(),
    {
        &self.vram_graph
    }
}

/// Memory graph: the percentage history plus the latest absolute figures.
pub struct MemoryGraph {
    graph: UsageGraph,
    used_bytes: u64,
    total_bytes: u64,
}

impl MemoryGraph {
    pub closed spec fn view(&self) -> HistoryModel {
        self.graph@
    }

    pub closed spec fn used(&self) -> u64 {
        self.used_bytes
    }

    pub closed spec fn total(&self) -> u64 {
        self.total_bytes
    }

    pub open spec fn wf(&self) -> bool {
        self@.wf()
    }

    pub fn new() -> (r: MemoryGraph)
        ensures
            r.wf(),
            r@ == HistoryModel::fresh(HISTORY_SIZE as nat),
            r.used() == 0,
            r.total() == 0,
    {
        MemoryGraph { graph: UsageGraph::new("Memory".to_string()), used_bytes: 0, total_bytes: 0 }
    }

    /// Records the absolute figures and pushes `used / total` as a percentage.
    pub fn push(&mut self, used_bytes: u64, total_bytes: u64)
        requires
            old(self).wf(),
        ensures
            final(self).wf(),
            final(self)@ == old(self)@.push(ratio_percent(used_bytes as int, total_bytes as int) as int),
            final(self)@.samples.len() == old(self)@.capacity,
            final(self)@.current() == ratio_percent(used_bytes as int, total_bytes as int),
            final(self).used() == used_bytes,
            final(self).total() == total_bytes,
    {
        self.used_bytes = used_bytes;
        self.total_bytes = total_bytes;
        let p = percent_of(used_bytes, total_bytes);
        self.graph.push(p as i64);
    }

    pub fn used_bytes(&self) -> (r: u64)
        ensures
            r == self.used(),
    {
        self.used_bytes
    }

    pub fn total_bytes(&self) -> (r: u64)
        ensures
            r == self.total(),
    {
        self.total_bytes
    }

    pub fn graph(&self) -> (r: &UsageGraph)
        ensures
            r@ == self@,
            self.wf() ==> r.wf(),
    {
        &self.graph
    }
}

/// History of one logical core, shown as a gauge or as a graph.
pub struct CoreGraph {
    title: String,
    history: HistoryBuffer,
}

impl CoreGraph {
    pub closed spec fn view(&self) -> HistoryModel {
        self.history@
    }

    pub closed spec fn title_view(&self) -> Seq<char> {
        self.title@
    }

    pub open spec fn wf(&self) -> bool {
        self@.wf()
    }

    pub fn new(title: String) -> (r: CoreGraph)
        ensures
            r.wf(),
            r@ == HistoryModel::fresh(HISTORY_SIZE as nat),
            r.title_view() == title@,
    {
        CoreGraph { title, history: HistoryBuffer::new() }
    }

    pub fn push(&mut self, percent: i64)
        requires
            old(self).wf(),
        ensures
            final(self).wf(),
            final(self)@ == old(self)@.push(percent as int),
            final(self)@.samples.len() == old(self)@.capacity,
            final(self)@.current() == clamp_percent(percent as int),
            final(self).title_view() == old(self).title_view(),
    {
        self.history.push(percent);
    }

    pub fn current(&self) -> (r: u32)
        requires
            self.wf(),
        ensures
            r == self@.current(),
    {
        self.history.current()
    }

    pub fn color(&self) -> (r: Band)
        requires
            self.wf(),
        ensures
            r == band_of(self@.current() as int),
    {
        band(self.history.current())
    }

    pub fn history(&self) -> (r: &HistoryBuffer)
        ensures
            r@ == self@,
    {
        &self.history
    }

    pub fn title(&self) -> (r: &str)
        ensures
            r@ == self.title_view(),
    {
        self.title.as_str()
    }
}

/// Aggregate CPU gauge.
pub struct CpuGauge {
    gauge: UsageGauge,
}

impl CpuGauge {
    pub closed spec fn usage(&self) -> u32 {
        self.gauge.usage()
    }

    pub fn new() -> (r: CpuGauge)
        ensures
            r.usage() == 0,
    {
        CpuGauge { gauge: UsageGauge::new("CPU".to_string()) }
    }

    pub fn set_usage(&mut self, percent: i64)
        ensures
            final(self).usage() == clamp_percent(percent as int),
    {
        self.gauge.set_usage(percent);
    }

    pub fn gauge(&self) -> (r: &UsageGauge)
        ensures
            r.usage() == self.usage(),
    {
        &self.gauge
    }
}

/// GPU utilisation and VRAM gauges.
pub struct GpuGauge {
    gauge: UsageGauge,
    vram_gauge: UsageGauge,
}

impl GpuGauge {
    pub closed spec fn usage(&self) -> u32 {
        self.gauge.usage()
    }

    pub closed spec fn vram(&self) -> u32 {
        self.vram_gauge.usage()
    }

    pub fn new() -> (r: GpuGauge)
        ensures
            r.usage() == 0,
            r.vram() == 0,
    {
        GpuGauge { gauge: UsageGauge::new("GPU".to_string()), vram_gauge: UsageGauge::new("VRAM".to_string()) }
    }

    pub fn set_usage(&mut self, percent: i64)
        ensures
            final(self).usage() == clamp_percent(percent as int),
            final(self).vram() == old(self).vram(),
    {
        self.gauge.set_usage(percent);
    }

    pub fn set_vram_usage(&mut self, percent: i64)
        ensures
            final(self).usage() == old(self).usage(),
            final(self).vram() == clamp_percent(percent as int),
    {
        self.vram_gauge.set_usage(percent);
    }

    pub fn gauge(&self) -> (r: &UsageGauge)
        ensures
            r.usage() == self.usage(),
    {
        &self.gauge
    }

    pub fn vram_gauge(&self) -> (r: &UsageGauge)
        ensures
            r.usage() == self.vram(),
    {
        &self.vram_gauge
    }
}

/// Memory gauge: the percentage plus the latest absolute figures.
pub struct MemoryGauge {
    gauge: UsageGauge,
    used_bytes: u64,
    total_bytes: u64,
}

impl MemoryGauge {
    pub closed spec fn usage(&self) -> u32 {
        self.gauge.usage()
    }

    pub closed spec fn used(&self) -> u64 {
        self.used_bytes
    }

    pub closed spec fn total(&self) -> u64 {
        self.total_bytes
    }

    pub fn new() -> (r: MemoryGauge)
        ensures
            r.usage() == 0,
            r.used() == 0,
            r.total() == 0,
    {
        MemoryGauge { gauge: UsageGauge::new("Memory".to_string()), used_bytes: 0, total_bytes: 0 }
    }

    /// Records the absolute figures and the share `used / total`.
    pub fn set_usage(&mut self, used_bytes: u64, total_bytes: u64)
        ensures
            final(self).usage() == ratio_percent(used_bytes as int, total_bytes as int),
            final(self).used() == used_bytes,
            final(self).total() == total_bytes,
    {
        self.used_bytes = used_bytes;
        self.total_bytes = total_bytes;
        let p = percent_of(used_bytes, total_bytes);
        self.gauge.set_usage(p as i64);
    }

    pub fn used_bytes(&self) -> (r: u64)
        ensures
            r == self.used(),
    {
        self.used_bytes
    }

    pub fn total_bytes(&self) -> (r: u64)
        ensures
            r == self.total(),
    {
        self.total_bytes
    }

    pub fn gauge(&self) -> (r: &UsageGauge)
        ensures
            r.usage() == self.usage(),
    {
        &self.gauge
    }
}

} // verus!
