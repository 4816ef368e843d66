use pimetrics::{
    counter_rate, cpu_shares, fan_rpm, io_rate, percent_of, scaled_ratio, Ambient, CpuCounters,
    Gauges, IoCounters, MetricsCollector, RawCounters, SensorReadings, PERCENT_SCALE,
};

fn cpu(user: u64, system: u64, idle: u64, iowait: u64, irq: u64, softirq: u64, steal: u64) -> CpuCounters {
    CpuCounters {
        user,
        system,
        idle,
        iowait,
        irq,
        softirq,
        steal,
        total: user + system + idle + iowait + irq + softirq + steal,
        context_switches: 0,
    }
}

fn gauges() -> Gauges {
    Gauges {
        run_queue_length: 3,
        load_avg_1: 125,
        load_avg_5: 90,
        load_avg_15: 40,
        cpu_temp_millicelsius: 48312,
        throttle_status: 0,
        mem_total_bytes: 4_000_000_000,
        mem_used_bytes: 1_500_000_000,
        uptime_seconds: 3600,
    }
}

fn raw(cpu: CpuCounters, minor: u64, major: u64, disks: Vec<IoCounters>, nets: Vec<IoCounters>) -> RawCounters {
    RawCounters { cpu, page_faults_minor: minor, page_faults_major: major, disks, nets }
}

#[test]
fn rate_of_growing_counter() {
    assert_eq!(counter_rate(100, 150, 5000), 10);
}

#[test]
fn rate_after_counter_reset_is_zero() {
    assert_eq!(counter_rate(150, 100, 5000), 0);
}

#[test]
fn rate_with_zero_interval_is_zero() {
    assert_eq!(counter_rate(100, 150, 0), 0);
    assert_eq!(counter_rate(0, u64::MAX, 0), 0);
}

#[test]
fn rate_rounds_down_and_uses_milliseconds() {
    assert_eq!(counter_rate(0, 7, 2000), 3);
    assert_eq!(counter_rate(0, 1, 500), 2);
}

#[test]
fn scaled_ratio_caps_at_u64_max() {
    assert_eq!(scaled_ratio(u64::MAX, 1, 1000), u64::MAX);
    assert_eq!(scaled_ratio(5, 0, 1000), 0);
    assert_eq!(scaled_ratio(u64::MAX, u64::MAX, 10000), 10000);
}

#[test]
fn percent_in_hundredths() {
    assert_eq!(percent_of(1, 3), 3333);
    assert_eq!(percent_of(3, 3), PERCENT_SCALE);
    assert_eq!(percent_of(3, 0), 0);
}

#[test]
fn fan_speed_from_pulses() {
    // 60 pulses in one second: 30 revolutions, 1800 per minute
    assert_eq!(fan_rpm(60, 1000), 1800);
    assert_eq!(fan_rpm(10, 5000), 60);
    assert_eq!(fan_rpm(10, 0), 0);
}

#[test]
fn cpu_mode_shares_sum_to_full() {
    let prev = cpu(100, 50, 800, 10, 5, 5, 0);
    let cur = cpu(133, 83, 1133, 11, 6, 7, 1);
    let s = cpu_shares(&prev, &cur);
    let sum = s.user + s.system + s.idle + s.iowait + s.irq + s.softirq + s.steal;
    assert!(sum <= PERCENT_SCALE && sum > PERCENT_SCALE - 7);
    // total grew by 404, idle by 333
    assert_eq!(s.idle, 8242);
    assert_eq!(s.usage, 1757);
    assert_eq!(s.user, 816);
}

#[test]
fn cpu_shares_without_total_growth_are_zero() {
    let c = cpu(100, 50, 800, 10, 5, 5, 0);
    let s = cpu_shares(&c, &c);
    assert_eq!(s.usage, 0);
    assert_eq!(s.user + s.system + s.idle + s.iowait + s.irq + s.softirq + s.steal, 0);
}

#[test]
fn io_rate_matches_devices_by_id() {
    let prev = vec![
        IoCounters { id: 1, inbound: 1000, outbound: 500 },
        IoCounters { id: 2, inbound: 2000, outbound: 700 },
    ];
    let cur = vec![
        IoCounters { id: 2, inbound: 2600, outbound: 100 },
        IoCounters { id: 1, inbound: 1400, outbound: 900 },
        IoCounters { id: 3, inbound: 1000, outbound: 0 },
    ];
    // in: 600 + 400 + 1000 (new device counts from 0), over 2 s
    assert_eq!(io_rate(&prev, &cur, false, 2000), 1000);
    // out: device 2 was reset and counts 0; device 1 grew by 400
    assert_eq!(io_rate(&prev, &cur, true, 2000), 200);
    assert_eq!(io_rate(&prev, &cur, true, 0), 0);
}

#[test]
fn io_rate_saturates_sum() {
    let cur = vec![
        IoCounters { id: 1, inbound: u64::MAX, outbound: 0 },
        IoCounters { id: 2, inbound: u64::MAX, outbound: 0 },
    ];
    assert_eq!(io_rate(&Vec::new(), &cur, false, 1000), u64::MAX);
}

#[test]
fn first_tick_measures_from_zero_baseline() {
    let mut c = MetricsCollector::new(5000);
    let mut first = cpu(10, 10, 80, 0, 0, 0, 0);
    first.context_switches = 500;
    let r = c.tick(raw(first, 50, 5, vec![], vec![]), gauges(), SensorReadings::absent(), 1000);
    assert_eq!(r.timestamp, 1000);
    assert_eq!(r.context_switches_per_sec, 100);
    assert_eq!(r.page_faults_minor_per_sec, 10);
    assert_eq!(r.page_faults_major_per_sec, 1);
    assert_eq!(r.cpu.idle, 8000);
    assert_eq!(r.cpu.usage, 2000);
    assert_eq!(r.load_avg_1, 125);
    assert_eq!(r.mem_used_bytes, 1_500_000_000);
    assert_eq!(r.cpu_temp_millicelsius, 48312);
}

#[test]
fn later_tick_measures_per_interval() {
    let mut c = MetricsCollector::new(5000);
    let mut a = cpu(10, 10, 80, 0, 0, 0, 0);
    a.context_switches = 100;
    let mut b = cpu(20, 30, 130, 10, 5, 5, 0);
    b.context_switches = 150;
    let disks_a = vec![IoCounters { id: 8, inbound: 4096, outbound: 0 }];
    let disks_b = vec![IoCounters { id: 8, inbound: 14096, outbound: 5000 }];
    c.tick(raw(a, 100, 0, disks_a, vec![]), gauges(), SensorReadings::absent(), 1000);
    let r = c.tick(raw(b, 150, 0, disks_b, vec![]), gauges(), SensorReadings::absent(), 1005);
    assert_eq!(r.context_switches_per_sec, 10);
    assert_eq!(r.page_faults_minor_per_sec, 10);
    assert_eq!(r.disk_read_bytes_per_sec, 2000);
    assert_eq!(r.disk_write_bytes_per_sec, 1000);
    assert_eq!(r.net_rx_bytes_per_sec, 0);
    // total grew by 100: user 10, system 20, idle 50, iowait 10, irq 5, softirq 5
    assert_eq!(r.cpu.system, 2000);
    assert_eq!(r.cpu.usage, 5000);
    assert_eq!(r.cpu.irq, 500);
}

#[test]
fn zero_interval_gives_zero_rates() {
    let mut c = MetricsCollector::new(0);
    let mut a = cpu(10, 10, 80, 0, 0, 0, 0);
    a.context_switches = 100;
    let disks = vec![IoCounters { id: 1, inbound: 10, outbound: 10 }];
    let nets = vec![IoCounters { id: 2, inbound: 10, outbound: 10 }];
    let s = SensorReadings { pulses: Some(40), ambient: None, duty: None };
    let r = c.tick(raw(a, 100, 10, disks, nets), gauges(), s, 7);
    assert_eq!(r.context_switches_per_sec, 0);
    assert_eq!(r.page_faults_minor_per_sec, 0);
    assert_eq!(r.page_faults_major_per_sec, 0);
    assert_eq!(r.disk_read_bytes_per_sec, 0);
    assert_eq!(r.disk_write_bytes_per_sec, 0);
    assert_eq!(r.net_rx_bytes_per_sec, 0);
    assert_eq!(r.net_tx_bytes_per_sec, 0);
    assert_eq!(r.fan_rpm, Some(0));
}

#[test]
fn timestamps_strictly_increase() {
    let mut c = MetricsCollector::new(1000);
    let base = cpu(1, 1, 1, 1, 1, 1, 1);
    let t1 = c.tick(raw(base, 0, 0, vec![], vec![]), gauges(), SensorReadings::absent(), 500).timestamp;
    let t2 = c.tick(raw(base, 0, 0, vec![], vec![]), gauges(), SensorReadings::absent(), 500).timestamp;
    let t3 = c.tick(raw(base, 0, 0, vec![], vec![]), gauges(), SensorReadings::absent(), 200).timestamp;
    let t4 = c.tick(raw(base, 0, 0, vec![], vec![]), gauges(), SensorReadings::absent(), 900).timestamp;
    assert_eq!((t1, t2, t3, t4), (500, 501, 502, 900));
}

#[test]
fn no_tick_past_largest_timestamp() {
    let mut c = MetricsCollector::new(1000);
    assert!(c.can_tick());
    c.tick(raw(CpuCounters::zero(), 0, 0, vec![], vec![]), gauges(), SensorReadings::absent(), u64::MAX);
    assert!(!c.can_tick());
}

#[test]
fn sensors_absent_give_no_sensor_fields() {
    let mut c = MetricsCollector::new(1000);
    for now in 1..4u64 {
        let r = c.tick(raw(cpu(now, now, now, 0, 0, 0, 0), 0, 0, vec![], vec![]), gauges(), SensorReadings::absent(), now);
        assert_eq!(r.fan_rpm, None);
        assert_eq!(r.env_temp_decicelsius, None);
        assert_eq!(r.env_humidity_permille, None);
        assert_eq!(r.pwm_duty, None);
    }
}

#[test]
fn failing_probe_clears_only_its_fields() {
    let a = raw(cpu(10, 10, 80, 0, 0, 0, 0), 10, 0, vec![], vec![]);
    let b = raw(cpu(20, 20, 160, 0, 0, 0, 0), 30, 0, vec![], vec![]);
    let full = SensorReadings {
        pulses: Some(120),
        ambient: Some(Ambient { temp_decicelsius: 215, humidity_permille: 473 }),
        duty: Some(7500),
    };
    let failing = SensorReadings { pulses: Some(120), ambient: None, duty: Some(7500) };

    let mut c1 = MetricsCollector::new(2000);
    c1.tick(a.clone(), gauges(), full, 1);
    let r1 = c1.tick(b.clone(), gauges(), full, 3);
    let mut c2 = MetricsCollector::new(2000);
    c2.tick(a, gauges(), failing, 1);
    let r2 = c2.tick(b, gauges(), failing, 3);

    assert_eq!(r1.fan_rpm, Some(1800));
    assert_eq!(r1.env_temp_decicelsius, Some(215));
    assert_eq!(r1.env_humidity_permille, Some(473));
    assert_eq!(r1.pwm_duty, Some(7500));
    assert_eq!(r2.env_temp_decicelsius, None);
    assert_eq!(r2.env_humidity_permille, None);
    assert_eq!(r2.fan_rpm, Some(1800));
    assert_eq!(r2.pwm_duty, Some(7500));
    assert_eq!(r1.cpu, r2.cpu);
    assert_eq!(r1.page_faults_minor_per_sec, 10);
    assert_eq!(r2.page_faults_minor_per_sec, 10);
}
