use sysview::viewer::{AnyView, App};
use sysview::views::{CpuCoresView, HostInfo, Key, KeyKind, Readings, StatusView, SystemMonitorView, VrchatPageView};

fn host_with(cores: usize) -> HostInfo {
    HostInfo {
        os_name: None,
        os_version: None,
        kernel_version: None,
        host_name: None,
        cpu_name: None,
        cpu_cores: cores,
        total_memory_bytes: 0,
    }
}


fn cores_mode(app: &App) -> Option<bool> {
    match app.active_view() {
        Some(AnyView::CpuCores(c)) => Some(c.is_graph_mode()),
        _ => None,
    }
}

#[test]
fn switching_is_circular() {
    let mut app = App::new(host_with(8));
    assert_eq!(app.view_count(), 3);
    assert_eq!(app.current_index(), 0);
    app.prev_view();
    assert_eq!(app.current_index(), 2);
    app.next_view();
    assert_eq!(app.current_index(), 0);
    app.next_view();
    app.next_view();
    assert_eq!(app.current_index(), 2);
    app.next_view();
    assert_eq!(app.current_index(), 0);
}

#[test]
fn tab_twice_then_quit() {
    let mut app = App::new(host_with(8));
    app.handle_key(Key::Tab);
    app.handle_key(Key::Tab);
    assert_eq!(app.current_index(), 2);
    assert!(!app.should_quit());
    app.handle_key(Key::Char('q'));
    assert!(app.should_quit());
}

#[test]
fn arrows_and_back_tab_switch() {
    let mut app = App::new(host_with(2));
    app.handle_key(Key::Right);
    assert_eq!(app.current_index(), 1);
    app.handle_key(Key::Left);
    assert_eq!(app.current_index(), 0);
    app.handle_key(Key::BackTab);
    assert_eq!(app.current_index(), 2);
    app.handle_key(Key::Esc);
    assert!(app.should_quit());
}

#[test]
fn consumed_key_skips_global_bindings() {
    let mut app = App::new(host_with(8));
    app.handle_key(Key::Tab);
    app.handle_key(Key::Tab);
    assert!(app.take_needs_clear());
    assert_eq!(cores_mode(&app), Some(false));
    app.handle_key(Key::Char('g'));
    assert_eq!(cores_mode(&app), Some(true));
    assert_eq!(app.current_index(), 2);
    assert!(!app.should_quit());
    assert!(!app.take_needs_clear());
    match app.active_view() {
        Some(AnyView::CpuCores(c)) => assert_eq!(c.grid(), (2, 4)),
        _ => panic!("cores view expected"),
    }
}

#[test]
fn unbound_key_is_ignored() {
    let mut app = App::new(host_with(8));
    app.handle_key(Key::Char('g'));
    app.handle_key(Key::Other);
    app.handle_key(Key::Char('x'));
    assert_eq!(app.current_index(), 0);
    assert!(!app.should_quit());
}

#[test]
fn release_and_repeat_are_dropped() {
    let mut app = App::new(host_with(8));
    app.handle_key_event(Key::Tab, KeyKind::Release);
    app.handle_key_event(Key::Tab, KeyKind::Repeat);
    assert_eq!(app.current_index(), 0);
    app.handle_key_event(Key::Tab, KeyKind::Press);
    assert_eq!(app.current_index(), 1);
    app.handle_key_event(Key::Char('q'), KeyKind::Release);
    assert!(!app.should_quit());
}

#[test]
fn switching_requests_clear() {
    let mut app = App::new(host_with(1));
    assert!(app.take_needs_clear());
    assert!(!app.take_needs_clear());
    app.next_view();
    assert!(app.take_needs_clear());
}

#[test]
fn empty_registry_does_nothing() {
    let mut app = App::empty();
    app.take_needs_clear();
    app.next_view();
    app.prev_view();
    assert_eq!(app.current_index(), 0);
    assert!(!app.take_needs_clear());
    assert!(app.active_view().is_none());
    assert!(!app.needs_tick());
    app.handle_key(Key::Char('q'));
    assert!(app.should_quit());
}

#[test]
fn tick_reaches_active_view_only() {
    let mut app = App::empty();
    app.register_ticking_view(AnyView::CpuCores(CpuCoresView::new(2)));
    app.register_ticking_view(AnyView::SystemMonitor(SystemMonitorView::new()));
    let r = Readings { cpu: 500_000, cores: vec![700_000, 800_000], memory_used: 1, memory_total: 2, gpu_util: None, gpu_vram: None };
    app.on_tick(&r);
    app.next_view();
    match app.active_view() {
        Some(AnyView::SystemMonitor(s)) => assert_eq!(s.cpu_graph().graph().get_current(), 0),
        _ => panic!("monitor expected"),
    }
    app.prev_view();
    match app.active_view() {
        Some(AnyView::CpuCores(c)) => {
            assert_eq!(c.core_at(0).current(), 700_000);
            assert_eq!(c.core_at(1).current(), 800_000);
        }
        _ => panic!("cores expected"),
    }
}

#[test]
fn untick_view_is_skipped() {
    let mut app = App::empty();
    app.register_view(AnyView::CpuCores(CpuCoresView::new(1)));
    app.register_ticking_view(AnyView::VrchatPage(VrchatPageView::new()));
    assert!(!app.needs_tick());
    let r = Readings { cpu: 0, cores: vec![900_000], memory_used: 0, memory_total: 0, gpu_util: None, gpu_vram: None };
    app.on_tick(&r);
    match app.active_view() {
        Some(AnyView::CpuCores(c)) => assert_eq!(c.core_at(0).current(), 0),
        _ => panic!("cores expected"),
    }
    app.next_view();
    assert!(app.needs_tick());
}

#[test]
fn status_first_in_default_registry() {
    let app = App::new(host_with(4));
    match app.active_view() {
        Some(AnyView::Status(s)) => assert_eq!(s.cpu_cores(), 4),
        _ => panic!("status expected"),
    }
    let _ = StatusView::new(host_with(0));
}

#[test]
fn default_registry_sizes_cores_from_host() {
    let mut app = App::new(host_with(3));
    app.prev_view();
    match app.active_view() {
        Some(AnyView::CpuCores(c)) => {
            assert_eq!(c.core_count(), 3);
            assert_eq!(c.core_at(2).title(), "Core 2");
            assert!(!c.is_graph_mode());
        }
        _ => panic!("cores expected"),
    }
}
