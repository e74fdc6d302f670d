use redeye::{
    BlueLightFilter, FilterAction, FilterError, FilterStatus, OverlayOutcome, StrengthRequest,
    OVERLAY_BACKEND_NAME,
};

fn expect_finish(action: FilterAction) -> (bool, Result<FilterStatus, FilterError>) {
    match action {
        FilterAction::Finish {
            release_overlay,
            result,
        } => (release_overlay, result),
        other => panic!("expected the change to finish, got {other:?}"),
    }
}

fn expect_active(result: Result<FilterStatus, FilterError>) -> (&'static str, u16) {
    match result {
        Ok(FilterStatus::Active {
            backend,
            temperature_kelvin,
        }) => (backend, temperature_kelvin),
        other => panic!("expected an active status, got {other:?}"),
    }
}

#[test]
fn new_filter_holds_nothing() {
    let filter = BlueLightFilter::new();
    assert!(!filter.has_overlay());
    assert_eq!(filter.pending_request(), None);
    let default = BlueLightFilter::default();
    assert!(!default.has_overlay());
}

#[test]
fn first_show_creates_then_applies() {
    let mut filter = BlueLightFilter::new();
    let action = filter.set_strength(StrengthRequest::Warm {
        temperature_kelvin: 4450,
    });
    assert!(matches!(action, FilterAction::CreateOverlay));
    assert_eq!(filter.pending_request(), Some(4450));

    let created = OverlayOutcome::Created(Ok(()));
    assert!(filter.accepts_outcome(&created));
    assert!(!filter.accepts_outcome(&OverlayOutcome::Applied(Ok(()))));
    let action = filter.resume(created);
    assert!(matches!(action, FilterAction::ApplyOverlay));
    assert!(filter.has_overlay());

    let applied = OverlayOutcome::Applied(Ok(()));
    assert!(filter.accepts_outcome(&applied));
    let (release, result) = expect_finish(filter.resume(applied));
    assert!(!release);
    assert_eq!(expect_active(result), ("Wayland overlay", 4450));
    assert!(filter.has_overlay());
    assert_eq!(filter.pending_request(), None);
}

#[test]
fn held_overlay_is_redrawn_not_recreated() {
    let mut filter = BlueLightFilter::new();
    filter.set_strength(StrengthRequest::Warm {
        temperature_kelvin: 6000,
    });
    filter.resume(OverlayOutcome::Created(Ok(())));
    filter.resume(OverlayOutcome::Applied(Ok(())));

    let action = filter.set_strength(StrengthRequest::Warm {
        temperature_kelvin: 2400,
    });
    assert!(matches!(action, FilterAction::ApplyOverlay));
    assert!(!filter.accepts_outcome(&OverlayOutcome::Created(Ok(()))));
    let (release, result) = expect_finish(filter.resume(OverlayOutcome::Applied(Ok(()))));
    assert!(!release);
    assert_eq!(expect_active(result), (OVERLAY_BACKEND_NAME, 2400));
}

#[test]
fn turning_off_releases_held_overlay_once() {
    let mut filter = BlueLightFilter::new();
    filter.set_strength(StrengthRequest::Warm {
        temperature_kelvin: 5000,
    });
    filter.resume(OverlayOutcome::Created(Ok(())));
    filter.resume(OverlayOutcome::Applied(Ok(())));

    let (release, result) = expect_finish(filter.set_strength(StrengthRequest::Off));
    assert!(release);
    assert!(matches!(result, Ok(FilterStatus::Inactive)));
    assert!(!filter.has_overlay());

    let (release, result) = expect_finish(filter.set_strength(StrengthRequest::Off));
    assert!(!release);
    assert!(matches!(result, Ok(FilterStatus::Inactive)));
}

#[test]
fn turning_off_without_overlay_releases_nothing() {
    let mut filter = BlueLightFilter::new();
    let (release, result) = expect_finish(filter.set_strength(StrengthRequest::Off));
    assert!(!release);
    assert!(matches!(result, Ok(FilterStatus::Inactive)));
}

#[test]
fn failed_creation_reports_error_and_holds_nothing() {
    let mut filter = BlueLightFilter::new();
    filter.set_strength(StrengthRequest::Warm {
        temperature_kelvin: 3000,
    });
    let error = FilterError::new("Could not connect to Wayland: no socket".to_string());
    let (release, result) = expect_finish(filter.resume(OverlayOutcome::Created(Err(error))));
    assert!(!release);
    assert_eq!(
        result.unwrap_err().to_string(),
        "Could not connect to Wayland: no socket"
    );
    assert!(!filter.has_overlay());
    assert_eq!(filter.pending_request(), None);

    let action = filter.set_strength(StrengthRequest::Warm {
        temperature_kelvin: 3000,
    });
    assert!(matches!(action, FilterAction::CreateOverlay));
}

#[test]
fn failed_redraw_reports_error_and_keeps_overlay() {
    let mut filter = BlueLightFilter::new();
    filter.set_strength(StrengthRequest::Warm {
        temperature_kelvin: 3000,
    });
    filter.resume(OverlayOutcome::Created(Ok(())));
    let error = FilterError::new("Could not flush overlay update: broken pipe".to_string());
    let (release, result) = expect_finish(filter.resume(OverlayOutcome::Applied(Err(error))));
    assert!(!release);
    assert_eq!(
        result.unwrap_err().to_string(),
        "Could not flush overlay update: broken pipe"
    );
    assert!(filter.has_overlay());
    assert_eq!(filter.pending_request(), None);
}

#[test]
fn clear_reports_whether_overlay_was_held() {
    let mut filter = BlueLightFilter::new();
    assert!(!filter.clear());
    filter.set_strength(StrengthRequest::Warm {
        temperature_kelvin: 3000,
    });
    filter.resume(OverlayOutcome::Created(Ok(())));
    assert!(filter.clear());
    assert!(!filter.has_overlay());
    assert_eq!(filter.pending_request(), None);
    assert!(!filter.clear());
}

#[test]
fn nothing_is_accepted_without_a_request() {
    let filter = BlueLightFilter::new();
    assert!(!filter.accepts_outcome(&OverlayOutcome::Created(Ok(()))));
    assert!(!filter.accepts_outcome(&OverlayOutcome::Applied(Ok(()))));
}
