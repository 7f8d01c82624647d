use buzzcurse::report::{status_line, PLACES};

#[test]
fn status_line_shows_power_speed_and_bar() {
    assert_eq!(PLACES, 5);
    assert_eq!(status_line(0), "power: 0.00000  |  vibration speed: 0.00000  [     ]");
    assert_eq!(status_line(7), "power: 0.00007  |  vibration speed: 0.00007  [     ]");
    assert_eq!(status_line(20_000), "power: 0.20000  |  vibration speed: 0.20000  [=    ]");
    assert_eq!(status_line(50_000), "power: 0.50000  |  vibration speed: 0.50000  [==   ]");
    assert_eq!(status_line(99_999), "power: 0.99999  |  vibration speed: 0.99999  [==== ]");
    assert_eq!(status_line(100_000), "power: 1.00000  |  vibration speed: 1.00000  [=====]");
    assert_eq!(status_line(123_456), "power: 1.23456  |  vibration speed: 1.00000  [=====]");
    assert_eq!(status_line(150_000), "power: 1.50000  |  vibration speed: 1.00000  [=====]");
}

#[test]
fn status_line_of_a_huge_power() {
    assert_eq!(
        status_line(u64::MAX),
        "power: 184467440737095.51615  |  vibration speed: 1.00000  [=====]"
    );
    assert_eq!(
        status_line(1_000_000_000),
        "power: 10000.00000  |  vibration speed: 1.00000  [=====]"
    );
}

#[test]
fn status_line_agrees_with_floating_point_formatting() {
    for units in 0..=150_000u64 {
        let power: f64 = units as f64 / 100_000.0;
        let speed: f64 = power.min(1.0);
        let want: String = format!(
            "power: {:.5}  |  vibration speed: {:.5}  [{:<5}]",
            power,
            speed,
            "=".repeat((speed * 5.0) as usize)
        );
        assert_eq!(status_line(units), want);
    }
}
