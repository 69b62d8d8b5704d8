use sys_status_applet::chart::{mem_percent, SystemChart, CHART_HEIGHT_PX};
use sys_status_applet::config::{Config, CONFIG_VERSION};
use sys_status_applet::render::y_label_formatter;
use sys_status_applet::series::{clamp_percent, PercentualUsageChart, Rgb, Sample, WINDOW_MS};
use sys_status_applet::window::Message;

fn color() -> Rgb {
    Rgb { r: 10, g: 20, b: 30 }
}

fn series() -> PercentualUsageChart {
    PercentualUsageChart::new(Vec::new(), color())
}

#[test]
fn first_push_keeps_exactly_one_sample() {
    let mut s = series();
    s.push_data(0, 10);
    assert_eq!(s.data_points.len(), 1);
    assert_eq!(s.data_points[0], Sample { time_ms: 0, value: 10 });
}

#[test]
fn push_is_newest_first() {
    let mut s = series();
    s.push_data(100, 1);
    s.push_data(200, 2);
    assert_eq!(s.data_points.len(), 2);
    assert_eq!(s.data_points[0], Sample { time_ms: 200, value: 2 });
    assert_eq!(s.data_points[1], Sample { time_ms: 100, value: 1 });
}

#[test]
fn window_eviction_scenario() {
    // push (t=0s, 10), (t=30s, 40), (t=61s, 90) with a 60 s window:
    // the sample at t=0 is evicted, leaving [(61s, 90), (30s, 40)].
    assert_eq!(WINDOW_MS, 60_000);
    let mut s = series();
    s.push_data(0, 10);
    s.push_data(30_000, 40);
    s.push_data(61_000, 90);
    assert_eq!(s.data_points.len(), 2);
    assert_eq!(s.data_points[0], Sample { time_ms: 61_000, value: 90 });
    assert_eq!(s.data_points[1], Sample { time_ms: 30_000, value: 40 });
}

#[test]
fn sample_exactly_at_window_edge_is_kept() {
    let mut s = series();
    s.push_data(0, 10);
    s.push_data(60_000, 20);
    // diff == window is not strictly greater, so the old sample stays
    assert_eq!(s.data_points.len(), 2);
    s.push_data(60_001, 30);
    // now the t=0 sample is older than the window and goes
    assert_eq!(s.data_points.len(), 2);
    assert_eq!(s.data_points[1], Sample { time_ms: 60_000, value: 20 });
}

#[test]
fn every_retained_sample_is_within_window_after_each_push() {
    let mut s = series();
    let times = [0u64, 900, 15_000, 44_000, 61_500, 100_000, 180_000];
    for (i, &t) in times.iter().enumerate() {
        s.push_data(t, (i as i32) * 10 % 101);
        let newest = s.data_points[0].time_ms;
        assert_eq!(newest, t);
        for j in 0..s.data_points.len() {
            assert!(newest - s.data_points[j].time_ms <= WINDOW_MS);
        }
    }
}

#[test]
fn query_surface_reports_newest_sample() {
    let mut s = series();
    assert_eq!(s.newest_time_ms(), 0);
    assert_eq!(s.len(), 0);
    s.push_data(700, 3);
    s.push_data(1800, 4);
    assert_eq!(s.newest_time_ms(), 1800);
    assert_eq!(s.len(), 2);
    assert_eq!(s.sample_at(0), Sample { time_ms: 1800, value: 4 });
    assert_eq!(s.sample_at(1), Sample { time_ms: 700, value: 3 });
}

#[test]
fn clamping_policy() {
    assert_eq!(clamp_percent(137), 100);
    assert_eq!(clamp_percent(-5), 0);
    assert_eq!(clamp_percent(0), 0);
    assert_eq!(clamp_percent(100), 100);
    assert_eq!(clamp_percent(63), 63);
}

#[test]
fn memory_percentage_formula() {
    assert_eq!(mem_percent(4096, 8192), 50);
    assert_eq!(mem_percent(0, 8192), 0);
    assert_eq!(mem_percent(8192, 8192), 100);
    assert_eq!(mem_percent(1, 3), 33);
    // degenerate and out-of-range readings are recovered locally
    assert_eq!(mem_percent(123, 0), 0);
    assert_eq!(mem_percent(9000, 8192), 100);
    assert_eq!(mem_percent(u64::MAX, 1), 100);
}

#[test]
fn push_invalidates_render_cache() {
    let mut s = series();
    s.push_data(1000, 5);
    assert!(s.cache.is_none());
    let _ = s.draw();
    assert!(s.cache.is_some());
    s.push_data(2000, 6);
    assert!(s.cache.is_none());
}

#[test]
fn consecutive_draws_return_identical_geometry() {
    let mut s = series();
    s.push_data(1000, 5);
    s.push_data(2500, 7);
    let f1 = s.draw();
    let f2 = s.draw();
    assert_eq!(f1, f2);
}

#[test]
fn draw_after_push_reflects_the_new_data() {
    let mut s = series();
    s.push_data(1000, 5);
    let f1 = s.draw();
    s.push_data(2500, 7);
    let f2 = s.draw();
    assert_ne!(f1, f2);
    assert_eq!(f2.points.len(), 2);
    assert_eq!(f2.points[1], Sample { time_ms: 2500, value: 7 });
    assert_eq!(f2.x_max, 2500);
}

#[test]
fn empty_series_draw_returns_placeholder_frame() {
    let mut s = series();
    let f = s.draw();
    assert_eq!(f.points.len(), 0);
    // zero-era placeholder domain, still spanning one window
    assert_eq!(f.x_min, -(WINDOW_MS as i128));
    assert_eq!(f.x_max, 0);
    assert!(f.x_min < f.x_max);
    assert_eq!(f.y_min, 0);
    assert_eq!(f.y_max, 100);
    assert_eq!(f.color, color());
}

#[test]
fn frame_points_are_chronological() {
    let mut s = series();
    s.push_data(10, 1);
    s.push_data(2000, 2);
    s.push_data(3500, 3);
    let f = s.draw();
    assert_eq!(f.points.len(), 3);
    assert_eq!(f.points[0].time_ms, 10);
    assert_eq!(f.points[1].time_ms, 2000);
    assert_eq!(f.points[2].time_ms, 3500);
    // visible domain: exactly one window ending at the newest sample,
    // reaching before the epoch when the newest sample is close to it
    assert_eq!(f.x_max, 3500);
    assert_eq!(f.x_min, 3500 - WINDOW_MS as i128);
}

#[test]
fn near_epoch_domain_still_spans_one_window() {
    let mut s = series();
    s.push_data(5000, 10);
    let f = s.draw();
    assert_eq!(f.x_max, 5000);
    assert_eq!(f.x_min, 5000 - WINDOW_MS as i128);
    assert_eq!(f.x_max - f.x_min, WINDOW_MS as i128);
}

#[test]
fn frame_domain_spans_one_window() {
    let mut s = series();
    s.push_data(500_000, 42);
    let f = s.draw();
    assert_eq!(f.x_max, 500_000);
    assert_eq!(f.x_min, 500_000 - WINDOW_MS as i128);
    assert_eq!(f.x_max - f.x_min, WINDOW_MS as i128);
}

#[test]
fn first_tick_seeds_both_series() {
    let mut c = SystemChart::new(color());
    assert!(!c.is_initialized());
    c.tick(5000, 42, 4096, 8192);
    assert!(c.is_initialized());
    assert_eq!(c.last_sample_ms, 5000);
    let cpu = c.cpu.as_ref().unwrap();
    let mem = c.memory.as_ref().unwrap();
    assert_eq!(cpu.data_points.len(), 1);
    assert_eq!(cpu.data_points[0], Sample { time_ms: 5000, value: 42 });
    assert_eq!(mem.data_points.len(), 1);
    assert_eq!(mem.data_points[0], Sample { time_ms: 5000, value: 50 });
    assert_eq!(c.chart_height, CHART_HEIGHT_PX);
}

#[test]
fn tick_clamps_out_of_range_cpu_readings() {
    let mut c = SystemChart::new(color());
    c.tick(0, 137, 0, 1);
    assert_eq!(c.cpu.as_ref().unwrap().data_points[0].value, 100);
    c.tick(2000, -5, 0, 1);
    assert_eq!(c.cpu.as_ref().unwrap().data_points[0].value, 0);
}

#[test]
fn second_tick_within_interval_is_a_no_op() {
    let mut c = SystemChart::new(color());
    c.tick(1000, 10, 1, 4);
    let len_before = c.cpu.as_ref().unwrap().data_points.len();
    c.tick(1500, 99, 4, 4);
    assert_eq!(c.last_sample_ms, 1000);
    assert_eq!(c.cpu.as_ref().unwrap().data_points.len(), len_before);
    assert_eq!(c.cpu.as_ref().unwrap().data_points[0].value, 10);
    // exactly at the interval boundary it is still gated
    c.tick(2000, 99, 4, 4);
    assert_eq!(c.last_sample_ms, 1000);
    // past the boundary it samples again
    c.tick(2001, 99, 4, 4);
    assert_eq!(c.last_sample_ms, 2001);
    assert_eq!(c.cpu.as_ref().unwrap().data_points.len(), 2);
    assert_eq!(c.cpu.as_ref().unwrap().data_points[0].value, 99);
}

#[test]
fn view_is_loading_until_initialized() {
    let mut c = SystemChart::new(color());
    assert!(c.view().is_none());
    c.tick(1000, 10, 1, 4);
    let frames = c.view().unwrap();
    assert_eq!(frames.0.points.len(), 1);
    assert_eq!(frames.1.points.len(), 1);
    assert_eq!(frames.0.points[0].value, 10);
    assert_eq!(frames.1.points[0].value, 25);
    assert_eq!(frames.0.color, color());
}

#[test]
fn y_label_formatter_renders_percent_labels() {
    assert_eq!(y_label_formatter(&0), "0%");
    assert_eq!(y_label_formatter(&7), "7%");
    assert_eq!(y_label_formatter(&50), "50%");
    assert_eq!(y_label_formatter(&100), "100%");
    assert_eq!(y_label_formatter(&137), "137%");
    assert_eq!(y_label_formatter(&-5), "-5%");
    assert_eq!(y_label_formatter(&i32::MIN), "-2147483648%");
}

#[test]
fn config_default_and_version() {
    assert_eq!(Config::default(), Config {});
    assert_eq!(CONFIG_VERSION, 1);
}

#[test]
fn messages_are_cloneable() {
    let m = Message::Config(Config::default());
    let _ = m.clone();
    let _ = Message::TogglePopup.clone();
    let _ = Message::Tick.clone();
}

#[test]
fn update_samples_from_the_live_system() {
    // drives the real metric source and clock through the controller
    let mut c = SystemChart::new(color());
    c.update();
    assert!(c.is_initialized());
    let cpu = c.cpu.as_ref().unwrap();
    let mem = c.memory.as_ref().unwrap();
    assert_eq!(cpu.data_points.len(), 1);
    assert_eq!(mem.data_points.len(), 1);
    assert!((0..=100).contains(&cpu.data_points[0].value));
    assert!((0..=100).contains(&mem.data_points[0].value));
    let first_t = cpu.data_points[0].time_ms;
    // an immediate second update is gated by the sampling interval
    c.update();
    assert_eq!(c.cpu.as_ref().unwrap().data_points.len(), 1);
    assert_eq!(c.cpu.as_ref().unwrap().data_points[0].time_ms, first_t);
    let frames = c.view().expect("initialized controller must render");
    assert_eq!(frames.0.points.len(), 1);
}
