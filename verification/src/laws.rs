use vstd::prelude::*;

use crate::error::FilterError;
use crate::filter::{
    outcome_step, request_step, FilterAction, FilterModel, OverlayOutcome, StrengthRequest,
};
use crate::overlay::{
    binding_for, drawable_indices, fresh_surface, surface_after, GlobalBinding, LayerEvent,
    SurfaceState,
};
use crate::pixels::{be_bytes, layout_result, le_bytes, pixel_value, repeated, BufferLayout, SHM_SIZE_LIMIT};
use crate::status::{decimal, digit_char, status_text, FilterStatus, OVERLAY_BACKEND_NAME};

verus! {

/// Turning the filter off always reports `Inactive`, releases the overlay exactly
/// when one was held, and leaves no overlay and no request behind; turning it off
/// again then releases nothing.
pub proof fn law_off_releases_overlay(m: FilterModel)
    ensures
        request_step(m, StrengthRequest::Off).0 == (FilterModel { overlay: false, pending: None }),
        request_step(m, StrengthRequest::Off).1 == (FilterAction::Finish {
            release_overlay: m.overlay,
            result: Ok(FilterStatus::Inactive),
        }),
        request_step(request_step(m, StrengthRequest::Off).0, StrengthRequest::Off).1
            == (FilterAction::Finish { release_overlay: false, result: Ok(FilterStatus::Inactive) }),
{
}

/// Showing the filter from a state without an overlay asks to create it; once it is
/// created and redrawn, the change reports `Active` with the overlay backend and the
/// requested temperature, the overlay is held and nothing is pending.
pub proof fn law_show_without_overlay(m: FilterModel, temperature_kelvin: u16)
    requires
        !m.overlay,
    ensures
        ({
            let (m1, a1) = request_step(m, StrengthRequest::Warm { temperature_kelvin });
            let (m2, a2) = outcome_step(m1, OverlayOutcome::Created(Ok(())));
            let (m3, a3) = outcome_step(m2, OverlayOutcome::Applied(Ok(())));
            &&& a1 == FilterAction::CreateOverlay
            &&& a2 == FilterAction::ApplyOverlay
            &&& a3 == (FilterAction::Finish {
                release_overlay: false,
                result: Ok(FilterStatus::Active { backend: OVERLAY_BACKEND_NAME, temperature_kelvin }),
            })
            &&& m3 == (FilterModel { overlay: true, pending: None })
        }),
{
}

/// Once an overlay is held, showing the filter never creates another one: it goes
/// straight to the redraw, and a successful redraw reports `Active` at the requested
/// temperature and keeps the overlay.
pub proof fn law_held_overlay_is_reused(m: FilterModel, temperature_kelvin: u16)
    requires
        m.overlay,
    ensures
        ({
            let (m1, a1) = request_step(m, StrengthRequest::Warm { temperature_kelvin });
            let (m2, a2) = outcome_step(m1, OverlayOutcome::Applied(Ok(())));
            &&& a1 == FilterAction::ApplyOverlay
            &&& a2 == (FilterAction::Finish {
                release_overlay: false,
                result: Ok(FilterStatus::Active { backend: OVERLAY_BACKEND_NAME, temperature_kelvin }),
            })
            &&& m2 == (FilterModel { overlay: true, pending: None })
        }),
{
}

/// A failure of the overlay work ends the change with that very error and nothing
/// pending: a failed creation leaves no overlay, a failed redraw keeps the one held.
pub proof fn law_failure_is_reported(m: FilterModel, e: FilterError)
    ensures
        outcome_step(m, OverlayOutcome::Created(Err(e))) == (
            FilterModel { overlay: false, pending: None },
            FilterAction::Finish { release_overlay: false, result: Err(e) },
        ),
        outcome_step(m, OverlayOutcome::Applied(Err(e))) == (
            FilterModel { overlay: m.overlay, pending: None },
            FilterAction::Finish { release_overlay: false, result: Err(e) },
        ),
{
}

/// Every step that completes a change leaves no request pending, and only turning the
/// filter off ever asks to release the overlay.
pub proof fn law_finish_clears_pending(m: FilterModel, request: StrengthRequest, outcome: OverlayOutcome)
    ensures
        request_step(m, request).1 matches FilterAction::Finish { release_overlay, .. } ==> {
            &&& request_step(m, request).0.pending is None
            &&& request == StrengthRequest::Off
        },
        outcome_step(m, outcome).1 matches FilterAction::Finish { release_overlay, .. } ==> {
            &&& outcome_step(m, outcome).0.pending is None
            &&& !release_overlay
        },
{
}

/// A row of `count` copies of a 4-byte pixel is `4 * count` bytes long, and its byte
/// at position `i` is the pixel's byte at position `i % 4`.
pub proof fn law_row_repeats_pixel(unit: Seq<u8>, count: nat)
    requires
        unit.len() == 4,
    ensures
        repeated(unit, count).len() == 4 * count,
        forall|i: int| 0 <= i < 4 * count ==> #[trigger] repeated(unit, count)[i] == unit[i % 4],
    decreases count,
{
    if count > 0 {
        law_row_repeats_pixel(unit, (count - 1) as nat);
        assert forall|i: int| 0 <= i < 4 * count implies #[trigger] repeated(unit, count)[i] == unit[i
            % 4] by {
            if i < 4 * (count - 1) {
                assert(repeated(unit, count)[i] == repeated(unit, (count - 1) as nat)[i]);
            } else {
                let k = i - 4 * (count - 1);
                assert(repeated(unit, count)[i] == unit[k]);
                assert(i % 4 == k) by (nonlinear_arith)
                    requires
                        i == k + 4 * (count - 1),
                        0 <= k < 4,
                ;
            }
        }
    }
}

/// An overlay image can be laid out exactly when a row fits in 32 bits and the whole
/// image fits in a shared memory pool; then a row is four bytes per pixel and the
/// image is one row per line.
pub proof fn law_layout_fits(width: u32, height: u32)
    ensures
        layout_result(width, height) is Ok <==> 4 * width <= u32::MAX && 4 * width * height
            <= SHM_SIZE_LIMIT,
        layout_result(width, height) matches Ok(layout) ==> layout.stride == 4 * width
            && layout.size == layout.stride * height && layout.size <= SHM_SIZE_LIMIT,
        4 * width > u32::MAX ==> layout_result(width, height) == Err::<BufferLayout, Seq<char>>(
            "Overlay width is too large"@,
        ),
        4 * width <= u32::MAX && 4 * width * height > u32::MAX ==> layout_result(width, height)
            == Err::<BufferLayout, Seq<char>>("Overlay surface is too large"@),
        4 * width * height <= u32::MAX && 4 * width * height > 0x7fff_ffff ==> layout_result(
            width,
            height,
        ) == Err::<BufferLayout, Seq<char>>("Overlay buffer is too large for Wayland shm"@),
{
    assert(width * 4 * height == 4 * width * height) by (nonlinear_arith);
    if 4 * width <= u32::MAX && 4 * width * height > u32::MAX {
        assert(4 * width * height > SHM_SIZE_LIMIT);
    }
    if height >= 1 {
        assert(4 * width * height >= 4 * width) by (nonlinear_arith)
            requires
                height >= 1,
        ;
    }
}

/// A surface's size is never zero: a fresh surface is 1 by 1, and every layer event
/// keeps both sides positive.
pub proof fn law_surface_size_positive(s: SurfaceState, event: LayerEvent)
    requires
        s.width > 0,
        s.height > 0,
    ensures
        fresh_surface().width > 0 && fresh_surface().height > 0,
        surface_after(s, event).width > 0,
        surface_after(s, event).height > 0,
{
}

/// Configuring and closing are permanent: no layer event unconfigures or reopens a
/// surface, so a closed surface is never drawn again.
pub proof fn law_surface_flags_monotone(s: SurfaceState, event: LayerEvent)
    ensures
        s.configured ==> surface_after(s, event).configured,
        s.closed ==> surface_after(s, event).closed,
        s.closed ==> !surface_after(s, event).drawable(),
{
}

/// The surfaces drawn on are exactly the configured, open ones, each once, in
/// increasing order of index.
pub proof fn law_draw_targets_exact(surfaces: Seq<SurfaceState>, n: int)
    requires
        0 <= n <= surfaces.len(),
        n <= usize::MAX,
    ensures
        forall|i: int|
            0 <= i < n ==> (drawable_indices(surfaces, n).contains(i as usize) <==> (
            #[trigger] surfaces[i]).configured && !surfaces[i].closed),
        forall|j: int, k: int|
            0 <= j < k < drawable_indices(surfaces, n).len() ==> drawable_indices(surfaces, n)[j]
                < drawable_indices(surfaces, n)[k],
        forall|j: int|
            0 <= j < drawable_indices(surfaces, n).len() ==> drawable_indices(surfaces, n)[j] < n,
    decreases n,
{
    if n > 0 {
        law_draw_targets_exact(surfaces, n - 1);
        let prev = drawable_indices(surfaces, n - 1);
        let cur = drawable_indices(surfaces, n);
        assert forall|i: int| 0 <= i < n implies (cur.contains(i as usize) <==> (
        #[trigger] surfaces[i]).configured && !surfaces[i].closed) by {
            if surfaces[n - 1].drawable() {
                assert(cur == prev.push((n - 1) as usize));
                if i < n - 1 {
                    if cur.contains(i as usize) {
                        let w = choose|w: int| 0 <= w < cur.len() && cur[w] == i as usize;
                        if w < prev.len() {
                            assert(prev[w] == i as usize);
                        }
                    }
                    if prev.contains(i as usize) {
                        let w = choose|w: int| 0 <= w < prev.len() && prev[w] == i as usize;
                        assert(cur[w] == i as usize);
                    }
                } else {
                    assert(cur[cur.len() - 1] == i as usize);
                }
            } else {
                if i == n - 1 {
                    if prev.contains(i as usize) {
                        let w = choose|w: int| 0 <= w < prev.len() && prev[w] == i as usize;
                        assert(prev[w] < n - 1);
                    }
                }
            }
        }
    }
}

/// The number that a decimal digit character stands for.
pub open spec fn digit_value(c: char) -> int {
    (c as int) - ('0' as int)
}

/// The number that a string of decimal digits stands for, most significant first.
pub open spec fn digits_value(s: Seq<char>) -> int
    decreases s.len(),
{
    if s.len() == 0 {
        0
    } else {
        digits_value(s.drop_last()) * 10 + digit_value(s.last())
    }
}

/// The temperature in a status is written in plain decimal: only the digits `0`
/// to `9`, no leading zero (zero itself is `0`), standing for exactly the number.
pub proof fn law_decimal_denotes(n: nat)
    ensures
        digits_value(decimal(n)) == n,
        decimal(n).len() >= 1,
        decimal(n)[0] != '0' || n == 0,
        forall|i: int| 0 <= i < decimal(n).len() ==> '0' <= #[trigger] decimal(n)[i] <= '9',
    decreases n,
{
    if n < 10 {
        assert(digit_value(digit_char(n)) == n);
        assert(decimal(n).drop_last() =~= Seq::<char>::empty());
        assert(digits_value(decimal(n)) == digits_value(Seq::<char>::empty()) * 10 + digit_value(
            digit_char(n),
        ));
    } else {
        law_decimal_denotes(n / 10);
        let d = decimal(n / 10);
        assert(decimal(n) == d.push(digit_char(n % 10)));
        assert(decimal(n).drop_last() =~= d);
        assert(digit_value(digit_char(n % 10)) == n % 10);
        assert(decimal(n).last() == digit_char(n % 10));
        assert(digits_value(decimal(n)) == digits_value(d) * 10 + digit_value(digit_char(n % 10)));
        assert((n / 10) * 10 + n % 10 == n);
        assert(decimal(n)[0] == d[0]);
        assert forall|i: int| 0 <= i < decimal(n).len() implies '0' <= #[trigger] decimal(n)[i] <= '9' by {
            if i < d.len() {
                assert(decimal(n)[i] == d[i]);
            }
        }
    }
}

/// The status line of an active filter is its backend's name, `": "`, the
/// temperature in decimal and `" K"`, for every backend and every temperature; only
/// the inactive filter reads `Off`.
pub proof fn law_status_text_fields(backend: &'static str, temperature_kelvin: u16)
    ensures
        status_text(FilterStatus::Active { backend, temperature_kelvin }) == backend@ + ": "@
            + decimal(temperature_kelvin as nat) + " K"@,
        status_text(FilterStatus::Active { backend, temperature_kelvin }) != "Off"@,
        status_text(FilterStatus::Inactive) == "Off"@,
{
    reveal_strlit(": ");
    reveal_strlit(" K");
    reveal_strlit("Off");
    law_decimal_denotes(temperature_kelvin as nat);
    let text = status_text(FilterStatus::Active { backend, temperature_kelvin });
    assert(text.len() >= 5);
}

/// A configure event always gives the surface the announced size, raised to at
/// least 1 by 1, and marks it configured, whatever the surface was before; only
/// whether it is closed carries over. A close event only marks it closed, and any
/// other event changes nothing.
pub proof fn law_configure_sets_size(s: SurfaceState, serial: u32, width: u32, height: u32)
    ensures
        surface_after(s, LayerEvent::Configure { serial, width, height }) == (SurfaceState {
            width: if width >= 1 { width } else { 1 },
            height: if height >= 1 { height } else { 1 },
            configured: true,
            closed: s.closed,
        }),
        surface_after(s, LayerEvent::Closed) == (SurfaceState {
            width: s.width,
            height: s.height,
            configured: s.configured,
            closed: true,
        }),
        surface_after(s, LayerEvent::Other) == s,
{
}

/// The overlay colour for opacity `alpha`, byte by byte from the most significant:
/// alpha, red equal to `alpha`, green `alpha * 118 / 255`, and blue zero.
pub proof fn law_pixel_channels(alpha: u8)
    ensures
        pixel_value(alpha) / 0x0100_0000 == alpha,
        pixel_value(alpha) / 0x1_0000 % 0x100 == alpha,
        pixel_value(alpha) / 0x100 % 0x100 == alpha * 118 / 255,
        pixel_value(alpha) % 0x100 == 0,
{
    let a = alpha as int;
    let g = alpha * 118 / 255;
    assert(0 <= g < 256) by (nonlinear_arith)
        requires
            g == a * 118 / 255,
            0 <= a < 256,
    ;
    let p = a * 0x0100_0000 + a * 0x1_0000 + g * 0x100;
    assert(pixel_value(alpha) == p);
    assert(p / 0x0100_0000 == a && p / 0x1_0000 % 0x100 == a && p / 0x100 % 0x100 == g && p % 0x100
        == 0) by (nonlinear_arith)
        requires
            p == a * 0x0100_0000 + a * 0x1_0000 + g * 0x100,
            0 <= a < 256,
            0 <= g < 256,
    ;
}

/// The registry binds exactly four interfaces, each as its own global:
/// `wl_compositor`, `wl_output` and `zwlr_layer_shell_v1` at the announced version
/// capped at 4, `wl_shm` at version 1; every other interface is ignored.
pub proof fn law_registry_binds_four_names(interface: Seq<char>, version: u32)
    ensures
        binding_for(interface, version) is Some <==> (interface == "wl_compositor"@ || interface
            == "wl_shm"@ || interface == "wl_output"@ || interface == "zwlr_layer_shell_v1"@),
        binding_for(interface, version) matches Some(GlobalBinding::Compositor { version: v }) ==> (
        interface == "wl_compositor"@ && v == (if version < 4 { version } else { 4 })),
        binding_for(interface, version) matches Some(GlobalBinding::Shm { version: v }) ==> (interface
            == "wl_shm"@ && v == 1),
        binding_for(interface, version) matches Some(GlobalBinding::Output { version: v }) ==> (
        interface == "wl_output"@ && v == (if version < 4 { version } else { 4 })),
        binding_for(interface, version) matches Some(GlobalBinding::LayerShell { version: v }) ==> (
        interface == "zwlr_layer_shell_v1"@ && v == (if version < 4 { version } else { 4 })),
        interface == "wl_compositor"@ ==> binding_for(interface, version) is Some,
        interface == "wl_shm"@ ==> binding_for(interface, version) is Some,
        interface == "wl_output"@ ==> binding_for(interface, version) is Some,
        interface == "zwlr_layer_shell_v1"@ ==> binding_for(interface, version) is Some,
{
}

/// The two byte orders of a 32-bit value: little-endian puts the byte of weight
/// `256^i` at position `i`, big-endian puts it at position `3 - i`.
pub proof fn law_byte_orders(value: u32)
    ensures
        le_bytes(value).len() == 4 && be_bytes(value).len() == 4,
        le_bytes(value)[0] == value % 0x100 && be_bytes(value)[3] == value % 0x100,
        le_bytes(value)[1] == value / 0x100 % 0x100 && be_bytes(value)[2] == value / 0x100 % 0x100,
        le_bytes(value)[2] == value / 0x1_0000 % 0x100 && be_bytes(value)[1] == value / 0x1_0000
            % 0x100,
        le_bytes(value)[3] == value / 0x0100_0000 && be_bytes(value)[0] == value / 0x0100_0000,
{
}

} // verus!
