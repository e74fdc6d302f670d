use vstd::prelude::*;

use crate::error::FilterError;
use crate::status::{FilterStatus, OVERLAY_BACKEND_NAME};

verus! {

/// A change of the filter's strength, as the user asks for it.
#[derive(Debug, Clone, Copy, PartialEq, Eq, Structural)]
pub enum StrengthRequest {
    /// The strength is zero: no filter is shown.
    Off,
    /// Show the overlay, warming the screen to the given colour temperature.
    Warm { temperature_kelvin: u16 },
}

/// What became of the overlay work that the filter asked for.
#[derive(Debug)]
pub enum OverlayOutcome {
    /// The overlay was created on the compositor, or could not be.
    Created(Result<(), FilterError>),
    /// The overlay was redrawn for the requested strength, or could not be.
    Applied(Result<(), FilterError>),
}

/// What the filter asks its caller to do next.
#[derive(Debug)]
pub enum FilterAction {
    /// Create the overlay on the compositor and report the outcome.
    CreateOverlay,
    /// Redraw the overlay for the requested strength and report the outcome.
    ApplyOverlay,
    /// The change is complete: release the overlay where asked, and report `result`.
    Finish { release_overlay: bool, result: Result<FilterStatus, FilterError> },
}

/// The abstract state of the filter: whether it holds an overlay, and the
/// temperature of the request still in progress, if any.
pub struct FilterModel {
    pub overlay: bool,
    pub pending: Option<u16>,
}

/// Decides how the blue-light filter reacts to requests and to the outcome of the
/// overlay work it asks for. The overlay is created once, on the first request
/// that shows it, and kept until the filter is turned off or cleared.
#[derive(Debug)]
pub struct BlueLightFilter {
    overlay: bool,
    pending: Option<u16>,
}

impl View for BlueLightFilter {
    type V = FilterModel;

    closed spec fn view(&self) -> FilterModel {
        FilterModel { overlay: self.overlay, pending: self.pending }
    }
}

/// The state after `request`, and the first action it needs.
pub open spec fn request_step(m: FilterModel, request: StrengthRequest) -> (FilterModel, FilterAction) {
    match request {
        StrengthRequest::Off => (
            FilterModel { overlay: false, pending: None },
            FilterAction::Finish { release_overlay: m.overlay, result: Ok(FilterStatus::Inactive) },
        ),
        StrengthRequest::Warm { temperature_kelvin } => (
            FilterModel { overlay: m.overlay, pending: Some(temperature_kelvin) },
            if m.overlay {
                FilterAction::ApplyOverlay
            } else {
                FilterAction::CreateOverlay
            },
        ),
    }
}

/// Whether the filter waits for `outcome`: a creation while a request is pending and
/// no overlay is held, an application while a request is pending and one is held.
pub open spec fn accepts(m: FilterModel, outcome: OverlayOutcome) -> bool {
    match outcome {
        OverlayOutcome::Created(_) => m.pending is Some && !m.overlay,
        OverlayOutcome::Applied(_) => m.pending is Some && m.overlay,
    }
}

/// The state after `outcome`, and the action that follows it.
pub open spec fn outcome_step(m: FilterModel, outcome: OverlayOutcome) -> (FilterModel, FilterAction) {
    match outcome {
        OverlayOutcome::Created(Ok(())) => (
            FilterModel { overlay: true, pending: m.pending },
            FilterAction::ApplyOverlay,
        ),
        OverlayOutcome::Created(Err(e)) => (
            FilterModel { overlay: false, pending: None },
            FilterAction::Finish { release_overlay: false, result: Err(e) },
        ),
        OverlayOutcome::Applied(Ok(())) => (
            FilterModel { overlay: m.overlay, pending: None },
            FilterAction::Finish {
                release_overlay: false,
                result: Ok(
                    FilterStatus::Active {
                        backend: OVERLAY_BACKEND_NAME,
                        temperature_kelvin: m.pending->0,
                    },
                ),
            },
        ),
        OverlayOutcome::Applied(Err(e)) => (
            FilterModel { overlay: m.overlay, pending: None },
            FilterAction::Finish { release_overlay: false, result: Err(e) },
        ),
    }
}

impl BlueLightFilter {
    /// A filter that holds no overlay and has no request in progress.
    pub fn new() -> (filter: Self)
        ensures
            filter@ == (FilterModel { overlay: false, pending: None }),
    {
        BlueLightFilter { overlay: false, pending: None }
    }

    /// Whether the filter holds an overlay.
    pub fn has_overlay(&self) -> (held: bool)
        ensures
            held == self@.overlay,
    {
        self.overlay
    }

    /// The temperature of the request in progress, if any.
    pub fn pending_request(&self) -> (pending: Option<u16>)
        ensures
            pending == self@.pending,
    {
        self.pending
    }

    /// Starts a change of strength and returns the first thing to do for it.
    /// Turning the filter off completes at once with `Inactive`, and asks to release
    /// the overlay when one is held; showing it asks to create the overlay when none
    /// is held yet, and to redraw the held one otherwise.
    pub fn set_strength(&mut self, request: StrengthRequest) -> (action: FilterAction)
        ensures
            (final(self)@, action) == request_step(old(self)@, request),
    {
        match request {
            StrengthRequest::Off => {
                let release_overlay = self.overlay;
                self.overlay = false;
                self.pending = None;
                FilterAction::Finish { release_overlay, result: Ok(FilterStatus::Inactive) }
            },
            StrengthRequest::Warm { temperature_kelvin } => {
                self.pending = Some(temperature_kelvin);
                if self.overlay {
                    FilterAction::ApplyOverlay
                } else {
                    FilterAction::CreateOverlay
                }
            },
        }
    }

    /// Whether the filter waits for `outcome` now.
    pub fn accepts_outcome(&self, outcome: &OverlayOutcome) -> (ok: bool)
        ensures
            ok == accepts(self@, *outcome),
    {
        match outcome {
            OverlayOutcome::Created(_) => self.pending.is_some() && !self.overlay,
            OverlayOutcome::Applied(_) => self.pending.is_some() && self.overlay,
        }
    }

    /// Continues the change in progress with the outcome of the overlay work.
    /// A created overlay is kept and then redrawn; a failure ends the change with
    /// that error; a successful redraw ends it with `Active` at the requested
    /// temperature.
    pub fn resume(&mut self, outcome: OverlayOutcome) -> (action: FilterAction)
        requires
            accepts(old(self)@, outcome),
        ensures
            (final(self)@, action) == outcome_step(old(self)@, outcome),
    {
        match outcome {
            OverlayOutcome::Created(Ok(())) => {
                self.overlay = true;
                FilterAction::ApplyOverlay
            },
            OverlayOutcome::Created(Err(e)) => {
                self.overlay = false;
                self.pending = None;
                FilterAction::Finish { release_overlay: false, result: Err(e) }
            },
            OverlayOutcome::Applied(Ok(())) => {
                let temperature_kelvin = match self.pending {
                    Some(t) => t,
                    None => 0,
                };
                self.pending = None;
                FilterAction::Finish {
                    release_overlay: false,
                    result: Ok(
                        FilterStatus::Active { backend: OVERLAY_BACKEND_NAME, temperature_kelvin },
                    ),
                }
            },
            OverlayOutcome::Applied(Err(e)) => {
                self.pending = None;
                FilterAction::Finish { release_overlay: false, result: Err(e) }
            },
        }
    }

    /// Gives up the overlay, for instance when the filter is dropped; returns whether
    /// one was held, so that the caller clears it.
    pub fn clear(&mut self) -> (had_overlay: bool)
        ensures
            had_overlay == old(self)@.overlay,
            final(self)@ == (FilterModel { overlay: false, pending: None }),
    {
        let had_overlay = self.overlay;
        self.overlay = false;
        self.pending = None;
        had_overlay
    }
}

impl Default for BlueLightFilter {
    fn default() -> (filter: Self)
        ensures
            filter@ == (FilterModel { overlay: false, pending: None }),
    {
        BlueLightFilter::new()
    }
}

} // verus!
