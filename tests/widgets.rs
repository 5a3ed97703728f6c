use sysview::history::{Band, FULL_SCALE, HISTORY_SIZE};
use sysview::widgets::{
    percent_of, CoreGraph, CpuGauge, CpuGraph, GpuGauge, GpuGraph, MemoryGauge, MemoryGraph, UsageGauge,
    UsageGraph,
};

#[test]
fn percent_of_is_exact() {
    assert_eq!(percent_of(1, 4), 250_000);
    assert_eq!(percent_of(8, 16), 500_000);
    assert_eq!(percent_of(1, 3), 333_333);
    assert_eq!(percent_of(0, 10), 0);
    assert_eq!(percent_of(5, 0), 0);
    assert_eq!(percent_of(20, 10), FULL_SCALE);
    assert_eq!(percent_of(u64::MAX, u64::MAX), FULL_SCALE);
    assert_eq!(percent_of(u64::MAX / 2, u64::MAX), 499_999);
}

#[test]
fn gauge_clamps_and_bands() {
    let mut g = UsageGauge::new("Load".to_string());
    assert_eq!(g.get_usage(), 0);
    assert_eq!(g.title(), "Load");
    g.set_usage(600_000);
    assert_eq!(g.get_usage(), 600_000);
    assert_eq!(g.get_color(), Band::Mid);
    g.set_usage(-1);
    assert_eq!(g.get_usage(), 0);
    assert_eq!(g.get_color(), Band::Low);
    g.set_usage(2_000_000);
    assert_eq!(g.get_color(), Band::High);
}

#[test]
fn usage_graph_tracks_latest() {
    let mut g = UsageGraph::new("CPU".to_string());
    assert_eq!(g.get_current(), 0);
    g.push(800_000);
    assert_eq!(g.get_current(), 800_000);
    assert_eq!(g.color(), Band::High);
    assert_eq!(g.history().snapshot().len(), HISTORY_SIZE);
    assert_eq!(g.title(), "CPU");
}

#[test]
fn memory_graph_keeps_bytes_and_percent() {
    let mut m = MemoryGraph::new();
    m.push(4 * 1024 * 1024 * 1024, 16 * 1024 * 1024 * 1024);
    assert_eq!(m.used_bytes(), 4 * 1024 * 1024 * 1024);
    assert_eq!(m.total_bytes(), 16 * 1024 * 1024 * 1024);
    assert_eq!(m.graph().get_current(), 250_000);
    m.push(1, 0);
    assert_eq!(m.graph().get_current(), 0);
}

#[test]
fn gpu_graph_histories_are_independent() {
    let mut g = GpuGraph::new();
    g.push(300_000);
    assert_eq!(g.graph().get_current(), 300_000);
    assert_eq!(g.vram_graph().get_current(), 0);
    g.push_vram(900_000);
    assert_eq!(g.graph().get_current(), 300_000);
    assert_eq!(g.vram_graph().get_current(), 900_000);
    assert_eq!(g.vram_graph().color(), Band::High);
}

#[test]
fn cpu_graph_pushes() {
    let mut c = CpuGraph::new();
    c.push(-10);
    assert_eq!(c.graph().get_current(), 0);
    c.push(510_000);
    assert_eq!(c.graph().get_current(), 510_000);
    assert_eq!(c.graph().color(), Band::Mid);
}

#[test]
fn core_graph_seeds_on_first_push() {
    let mut c = CoreGraph::new("Core 3".to_string());
    c.push(420_000);
    assert_eq!(c.current(), 420_000);
    assert!(c.history().snapshot().iter().all(|&(_, v)| v == 420_000));
    assert_eq!(c.color(), Band::Low);
    assert_eq!(c.title(), "Core 3");
}

#[test]
fn gauges_set_usage() {
    let mut c = CpuGauge::new();
    c.set_usage(1_200_000);
    assert_eq!(c.gauge().get_usage(), FULL_SCALE);
    let mut g = GpuGauge::new();
    g.set_usage(100_000);
    g.set_vram_usage(700_000);
    assert_eq!(g.gauge().get_usage(), 100_000);
    assert_eq!(g.vram_gauge().get_usage(), 700_000);
    assert_eq!(g.vram_gauge().get_color(), Band::Mid);
    let mut m = MemoryGauge::new();
    m.set_usage(3, 4);
    assert_eq!(m.gauge().get_usage(), 750_000);
    assert_eq!(m.used_bytes(), 3);
    assert_eq!(m.total_bytes(), 4);
}
