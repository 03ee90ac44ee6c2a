use screenshader::startup::{Size2, StartInfo};

#[test]
fn default_metrics_are_960_by_540() {
    let info = StartInfo::default();
    assert_eq!(info.metrics, Size2 { width: 960, height: 540 });
}

#[test]
fn explicit_metrics_are_kept() {
    let info = StartInfo::with_metrics(1280, 720);
    assert_eq!(info.metrics, Size2 { width: 1280, height: 720 });
}
