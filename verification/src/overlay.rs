use vstd::prelude::*;

use crate::error::FilterError;

verus! {

/// The highest protocol version the overlay binds for versioned globals.
pub const MAX_BIND_VERSION: u32 = 4;

/// What the overlay knows of one layer surface, one per output.
#[derive(Debug, Clone, Copy, PartialEq, Eq, Structural)]
pub struct SurfaceState {
    /// Width in pixels that the compositor gave the surface (at least 1).
    pub width: u32,
    /// Height in pixels that the compositor gave the surface (at least 1).
    pub height: u32,
    /// Whether the compositor has configured the surface.
    pub configured: bool,
    /// Whether the compositor has closed the surface.
    pub closed: bool,
}

/// The state of a surface that was just created and not yet configured.
pub open spec fn fresh_surface() -> SurfaceState {
    SurfaceState { width: 1, height: 1, configured: false, closed: false }
}

impl SurfaceState {
    /// A surface that was just created: 1 by 1 pixels, neither configured nor closed.
    pub fn pending() -> (s: Self)
        ensures
            s == fresh_surface(),
            s.width == 1 && s.height == 1 && !s.configured && !s.closed,
    {
        SurfaceState { width: 1, height: 1, configured: false, closed: false }
    }

    /// Whether the overlay is drawn on this surface: it is configured and not closed.
    pub open spec fn drawable(self) -> bool {
        self.configured && !self.closed
    }

    /// Whether the compositor still owes this surface its configuration.
    pub open spec fn awaiting_configure(self) -> bool {
        !self.configured && !self.closed
    }
}

/// An event of the layer-shell protocol for one layer surface.
#[derive(Debug, Clone, Copy, PartialEq, Eq, Structural)]
pub enum LayerEvent {
    /// The compositor sets the surface's size; the serial must be acknowledged.
    Configure { serial: u32, width: u32, height: u32 },
    /// The compositor closed the surface.
    Closed,
    /// Any other event, which the overlay ignores.
    Other,
}

/// `x`, or 1 where `x` is 0.
pub open spec fn at_least_one(x: u32) -> u32 {
    if x == 0 { 1 } else { x }
}

/// The state of a surface after `event`.
pub open spec fn surface_after(s: SurfaceState, event: LayerEvent) -> SurfaceState {
    match event {
        LayerEvent::Configure { serial, width, height } => SurfaceState {
            width: at_least_one(width),
            height: at_least_one(height),
            configured: true,
            closed: s.closed,
        },
        LayerEvent::Closed => SurfaceState { closed: true, ..s },
        LayerEvent::Other => s,
    }
}

/// Applies a layer-surface event to the surface with the given index, and returns
/// the serial to acknowledge when the event configures an existing surface.
/// An event for an index past the end changes nothing.
pub fn handle_layer_event(surfaces: &mut Vec<SurfaceState>, index: usize, event: LayerEvent) -> (ack:
    Option<u32>)
    ensures
        index < old(surfaces)@.len() ==> final(surfaces)@ == old(surfaces)@.update(
            index as int,
            surface_after(old(surfaces)@[index as int], event),
        ),
        index >= old(surfaces)@.len() ==> final(surfaces)@ == old(surfaces)@,
        ack == (match event {
            LayerEvent::Configure { serial, .. } => if index < old(surfaces)@.len() {
                Some(serial)
            } else {
                None
            },
            _ => None,
        }),
{
    if index >= surfaces.len() {
        return None;
    }
    let current = surfaces[index];
    match event {
        LayerEvent::Configure { serial, width, height } => {
            let width = if width == 0 { 1 } else { width };
            let height = if height == 0 { 1 } else { height };
            surfaces.set(index, SurfaceState { width, height, configured: true, closed: current.closed });
            Some(serial)
        },
        LayerEvent::Closed => {
            surfaces.set(index, SurfaceState { closed: true, ..current });
            None
        },
        LayerEvent::Other => None,
    }
}

/// Message reported when the compositor offers no `wl_compositor`.
pub open spec fn no_compositor_message() -> Seq<char> {
    "Wayland compositor global is unavailable"@
}

/// Message reported when the compositor offers no layer shell.
pub open spec fn no_layer_shell_message() -> Seq<char> {
    "Wayland layer-shell global is unavailable"@
}

/// Message reported when the compositor reports no output.
pub open spec fn no_outputs_message() -> Seq<char> {
    "Wayland did not report any outputs"@
}

/// Message reported when no overlay surface was configured.
pub open spec fn not_configured_message() -> Seq<char> {
    "Wayland overlay was not configured"@
}

/// Message reported when the compositor offers no shared memory.
pub open spec fn no_shm_message() -> Seq<char> {
    "Wayland shared memory global is unavailable"@
}

/// Checks that the globals needed to create the overlay surfaces were announced:
/// a compositor, then a layer shell, then at least one output.
pub fn check_overlay_globals(has_compositor: bool, has_layer_shell: bool, output_count: usize) -> (res:
    Result<(), FilterError>)
    ensures
        res is Ok <==> has_compositor && has_layer_shell && output_count > 0,
        res matches Err(e) ==> e@ == (if !has_compositor {
            no_compositor_message()
        } else if !has_layer_shell {
            no_layer_shell_message()
        } else {
            no_outputs_message()
        }),
{
    if !has_compositor {
        return Err(FilterError::from_text("Wayland compositor global is unavailable"));
    }
    if !has_layer_shell {
        return Err(FilterError::from_text("Wayland layer-shell global is unavailable"));
    }
    if output_count == 0 {
        return Err(FilterError::from_text("Wayland did not report any outputs"));
    }
    Ok(())
}

/// Checks that at least one overlay surface has been configured.
pub fn ensure_configured(surfaces: &Vec<SurfaceState>) -> (res: Result<(), FilterError>)
    ensures
        res is Ok <==> exists|i: int| 0 <= i < surfaces@.len() && #[trigger] surfaces@[i].configured,
        res matches Err(e) ==> e@ == not_configured_message(),
{
    let mut i: usize = 0;
    while i < surfaces.len()
        invariant
            i <= surfaces@.len(),
            forall|j: int| 0 <= j < i ==> !#[trigger] surfaces@[j].configured,
        decreases surfaces@.len() - i,
    {
        if surfaces[i].configured {
            return Ok(());
        }
        i = i + 1;
    }
    Err(FilterError::from_text("Wayland overlay was not configured"))
}

/// Whether some surface still waits for its configuration, so that the overlay
/// must wait for the compositor before it draws.
pub fn needs_roundtrip(surfaces: &Vec<SurfaceState>) -> (res: bool)
    ensures
        res <==> exists|i: int|
            0 <= i < surfaces@.len() && !(#[trigger] surfaces@[i]).configured && !surfaces@[i].closed,
{
    let mut i: usize = 0;
    while i < surfaces.len()
        invariant
            i <= surfaces@.len(),
            forall|j: int| 0 <= j < i ==> (#[trigger] surfaces@[j]).configured || surfaces@[j].closed,
        decreases surfaces@.len() - i,
    {
        if !surfaces[i].configured && !surfaces[i].closed {
            return true;
        }
        i = i + 1;
    }
    false
}

/// The indices, in increasing order, of the surfaces among the first `n` that are drawn.
pub open spec fn drawable_indices(surfaces: Seq<SurfaceState>, n: int) -> Seq<usize>
    decreases n,
{
    if n <= 0 {
        Seq::empty()
    } else if surfaces[n - 1].drawable() {
        drawable_indices(surfaces, n - 1).push((n - 1) as usize)
    } else {
        drawable_indices(surfaces, n - 1)
    }
}

/// The surfaces to draw on, in order: every configured surface that is not closed.
/// Drawing needs shared memory, so it fails when the compositor offers none.
pub fn draw_targets(has_shm: bool, surfaces: &Vec<SurfaceState>) -> (res: Result<Vec<usize>, FilterError>)
    ensures
        res is Ok <==> has_shm,
        res matches Ok(targets) ==> targets@ == drawable_indices(surfaces@, surfaces@.len() as int),
        res matches Err(e) ==> e@ == no_shm_message(),
{
    if !has_shm {
        return Err(FilterError::from_text("Wayland shared memory global is unavailable"));
    }
    let mut targets: Vec<usize> = Vec::new();
    let mut i: usize = 0;
    while i < surfaces.len()
        invariant
            i <= surfaces@.len(),
            targets@ == drawable_indices(surfaces@, i as int),
        decreases surfaces@.len() - i,
    {
        if surfaces[i].configured && !surfaces[i].closed {
            targets.push(i);
        }
        i = i + 1;
    }
    Ok(targets)
}

/// A global of the compositor that the overlay binds, with the version to bind.
#[derive(Debug, Clone, Copy, PartialEq, Eq, Structural)]
pub enum GlobalBinding {
    Compositor { version: u32 },
    Shm { version: u32 },
    Output { version: u32 },
    LayerShell { version: u32 },
}

/// `version`, capped at `MAX_BIND_VERSION`.
pub open spec fn capped(version: u32) -> u32 {
    if version < MAX_BIND_VERSION { version } else { MAX_BIND_VERSION }
}

/// Which global an announced interface is bound as: the compositor, outputs and
/// the layer shell at the announced version capped at 4, shared memory at version 1;
/// every other interface is ignored.
pub open spec fn binding_for(interface: Seq<char>, version: u32) -> Option<GlobalBinding> {
    if interface == "wl_compositor"@ {
        Some(GlobalBinding::Compositor { version: capped(version) })
    } else if interface == "wl_shm"@ {
        Some(GlobalBinding::Shm { version: 1 })
    } else if interface == "wl_output"@ {
        Some(GlobalBinding::Output { version: capped(version) })
    } else if interface == "zwlr_layer_shell_v1"@ {
        Some(GlobalBinding::LayerShell { version: capped(version) })
    } else {
        None
    }
}

/// Decides how to bind a global that the registry announces.
pub fn registry_binding(interface: &str, version: u32) -> (binding: Option<GlobalBinding>)
    ensures
        binding == binding_for(interface@, version),
{
    let name = String::from_str(interface);
    let capped_version = if version < MAX_BIND_VERSION { version } else { MAX_BIND_VERSION };
    if name == String::from_str("wl_compositor") {
        Some(GlobalBinding::Compositor { version: capped_version })
    } else if name == String::from_str("wl_shm") {
        Some(GlobalBinding::Shm { version: 1 })
    } else if name == String::from_str("wl_output") {
        Some(GlobalBinding::Output { version: capped_version })
    } else if name == String::from_str("zwlr_layer_shell_v1") {
        Some(GlobalBinding::LayerShell { version: capped_version })
    } else {
        None
    }
}

} // verus!
