use hamshack::config::Config;

#[test]
fn default_settings() {
    let c = Config::default();
    assert_eq!(c.port, 3000);
    assert_eq!(c.host, "0.0.0.0");
    assert_eq!(c.callsign, "N0CALL");
    assert_eq!(c.locator, "FN31");
    assert!(!c.sdr_enabled);
    assert_eq!(c.sdr_device, "rtlsdr");
    assert_eq!(c.sdr_sample_rate, 2400000);
}

use hamshack::config::port_from_args;

fn args(v: &[&str]) -> Vec<String> {
    v.iter().map(|s| s.to_string()).collect()
}

#[test]
fn port_after_equals_sign() {
    assert_eq!(port_from_args(&args(&["hamshack", "--port=8080"])), Some(8080));
    assert_eq!(port_from_args(&args(&["hamshack", "--port=+42"])), Some(42));
    assert_eq!(port_from_args(&args(&["hamshack", "--port=80=1"])), Some(80));
}

#[test]
fn port_as_next_argument() {
    assert_eq!(port_from_args(&args(&["hamshack", "--port", "9000"])), Some(9000));
    assert_eq!(port_from_args(&args(&["hamshack", "--portnumber", "1"])), Some(1));
}

#[test]
fn port_rejected_or_absent() {
    assert_eq!(port_from_args(&args(&["hamshack"])), None);
    assert_eq!(port_from_args(&args(&["hamshack", "--port"])), None);
    assert_eq!(port_from_args(&args(&["hamshack", "--port="])), None);
    assert_eq!(port_from_args(&args(&["hamshack", "--port=abc"])), None);
    assert_eq!(port_from_args(&args(&["hamshack", "--port=70000"])), None);
    assert_eq!(port_from_args(&args(&["hamshack", "--port", "-1"])), None);
    assert_eq!(port_from_args(&args(&["hamshack", "8080"])), None);
    assert_eq!(port_from_args(&args(&["hamshack", "--host=x", "8080"])), None);
}
