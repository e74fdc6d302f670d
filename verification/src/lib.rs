//! Verified core of a blue-light filter that dims the screen with a warm
//! translucent overlay drawn on Wayland layer surfaces.

mod error;
mod filter;
mod laws;
mod overlay;
mod pixels;
mod status;

pub use error::FilterError;
pub use status::{
    decimal, digit_char, status_message, status_text, FilterStatus, OVERLAY_BACKEND_NAME,
};
pub use pixels::{
    be_bytes, buffer_layout, green_for, layout_result, le_bytes, overlay_pixel, overlay_row,
    pixel_value, repeated, shm_too_large_message, surface_too_large_message,
    width_too_large_message, BufferLayout, SHM_SIZE_LIMIT,
};
pub use overlay::{
    at_least_one, binding_for, capped, check_overlay_globals, draw_targets, drawable_indices,
    ensure_configured, fresh_surface, handle_layer_event, needs_roundtrip, no_compositor_message,
    no_layer_shell_message, no_outputs_message, no_shm_message, not_configured_message,
    registry_binding, surface_after, GlobalBinding, LayerEvent, SurfaceState, MAX_BIND_VERSION,
};
pub use filter::{
    accepts, outcome_step, request_step, BlueLightFilter, FilterAction, FilterModel, OverlayOutcome,
    StrengthRequest,
};
pub use laws::{
    law_byte_orders,
    law_configure_sets_size, law_pixel_channels, law_registry_binds_four_names,
    law_status_text_fields,
    digit_value, digits_value, law_decimal_denotes,
    law_draw_targets_exact, law_failure_is_reported, law_finish_clears_pending,
    law_held_overlay_is_reused, law_layout_fits, law_off_releases_overlay, law_row_repeats_pixel,
    law_show_without_overlay, law_surface_flags_monotone, law_surface_size_positive,
};
