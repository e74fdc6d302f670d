use redeye::{FilterError, FilterStatus, OVERLAY_BACKEND_NAME};

#[test]
fn inactive_status_reads_off() {
    assert_eq!(FilterStatus::Inactive.to_string(), "Off");
}

#[test]
fn active_status_names_backend_and_temperature() {
    let status = FilterStatus::Active {
        backend: OVERLAY_BACKEND_NAME,
        temperature_kelvin: 4450,
    };
    assert_eq!(status.to_string(), "Wayland overlay: 4450 K");
}

#[test]
fn active_status_edge_temperatures() {
    let zero = FilterStatus::Active {
        backend: "x",
        temperature_kelvin: 0,
    };
    assert_eq!(zero.to_string(), "x: 0 K");
    let max = FilterStatus::Active {
        backend: OVERLAY_BACKEND_NAME,
        temperature_kelvin: u16::MAX,
    };
    assert_eq!(max.to_string(), "Wayland overlay: 65535 K");
    let ten = FilterStatus::Active {
        backend: OVERLAY_BACKEND_NAME,
        temperature_kelvin: 10,
    };
    assert_eq!(ten.to_string(), "Wayland overlay: 10 K");
    let warmest = FilterStatus::Active {
        backend: OVERLAY_BACKEND_NAME,
        temperature_kelvin: 2400,
    };
    assert_eq!(warmest.to_string(), "Wayland overlay: 2400 K");
}

#[test]
fn error_keeps_its_message() {
    let err = FilterError::new("Wayland overlay was not configured".to_string());
    assert_eq!(err.to_string(), "Wayland overlay was not configured");
    let err = FilterError::from_text("Overlay width is too large");
    assert_eq!(err.to_string(), "Overlay width is too large");
}

#[test]
fn status_message_shows_status_or_error() {
    let ok = Ok(FilterStatus::Active {
        backend: OVERLAY_BACKEND_NAME,
        temperature_kelvin: 6459,
    });
    assert_eq!(redeye::status_message(&ok), "Wayland overlay: 6459 K");
    assert_eq!(redeye::status_message(&Ok(FilterStatus::Inactive)), "Off");
    let err = Err(FilterError::new("Could not configure overlay: gone".to_string()));
    assert_eq!(redeye::status_message(&err), "Could not configure overlay: gone");
}
