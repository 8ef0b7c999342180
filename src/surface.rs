use vstd::prelude::*;

use crate::settings::{PresentMode, WindowSettings};

verus! {

/// wgpu's `TextureFormat`, carried through as an opaque value.
#[verifier::external_type_specification]
#[verifier::external_body]
pub struct ExTextureFormat(wgpu::TextureFormat);

/// wgpu's `CompositeAlphaMode`, carried through as an opaque value.
#[verifier::external_type_specification]
#[verifier::external_body]
pub struct ExCompositeAlphaMode(wgpu::CompositeAlphaMode);

/// Relies on wgpu's `TextureFormat::is_srgb` to tell gamma-corrected formats
/// apart; nothing is assumed of its answer.
pub assume_specification[ wgpu::TextureFormat::is_srgb ](format: &wgpu::TextureFormat) -> bool;

/// Physical size of a window or surface, in pixels.
#[derive(Clone, Copy, Debug, PartialEq, Eq, Structural)]
pub struct SurfaceSize {
    pub width: u32,
    pub height: u32,
}

impl SurfaceSize {
    /// A size with no area, as reported for a minimized window.
    pub open spec fn is_degenerate(self) -> bool {
        self.width == 0 || self.height == 0
    }
}

/// What a surface supports on the chosen adapter, each list in the order the
/// platform reports it.
pub struct SurfaceCapabilities {
    pub formats: Vec<wgpu::TextureFormat>,
    pub present_modes: Vec<PresentMode>,
    pub alpha_modes: Vec<wgpu::CompositeAlphaMode>,
}

impl SurfaceCapabilities {
    /// Every list holds at least one entry, so a configuration can be built.
    pub open spec fn is_usable(&self) -> bool {
        self.formats@.len() > 0 && self.present_modes@.len() > 0 && self.alpha_modes@.len() > 0
    }
}

/// The configuration a surface is presented under. The surface is always
/// used as a render attachment and with no extra view formats.
#[derive(Clone, Copy, Debug, PartialEq, Eq)]
pub struct SurfaceConfig {
    pub format: wgpu::TextureFormat,
    pub width: u32,
    pub height: u32,
    pub present_mode: PresentMode,
    pub alpha_mode: wgpu::CompositeAlphaMode,
    pub desired_maximum_frame_latency: u32,
}

/// `i` is the index picked from a format list whose sRGB flags are `srgb`:
/// the first sRGB entry, or the first entry when none is sRGB.
pub open spec fn is_chosen_format_index(srgb: Seq<bool>, i: int) -> bool {
    &&& 0 <= i < srgb.len()
    &&& forall|j: int| 0 <= j < i ==> !srgb[j]
    &&& (srgb[i] || (i == 0 && forall|j: int| 0 <= j < srgb.len() ==> !srgb[j]))
}

/// The presentation mode picked from `modes`: `desired` if it is supported,
/// else the first supported mode.
pub open spec fn chosen_present_mode(modes: Seq<PresentMode>, desired: PresentMode) -> PresentMode
    recommends
        modes.len() > 0,
{
    if modes.contains(desired) {
        desired
    } else {
        modes[0]
    }
}

/// The configuration built for a surface of `size` with the given format.
pub open spec fn config_for(
    size: SurfaceSize,
    format: wgpu::TextureFormat,
    caps: SurfaceCapabilities,
    settings: WindowSettings,
) -> SurfaceConfig
    recommends
        caps.is_usable(),
{
    SurfaceConfig {
        format,
        width: size.width,
        height: size.height,
        present_mode: chosen_present_mode(caps.present_modes@, settings.present_mode),
        alpha_mode: caps.alpha_modes@[0],
        desired_maximum_frame_latency: settings.desired_max_buffer,
    }
}

/// `config` with its dimensions following `size`; a size with no area leaves
/// it as it is.
pub open spec fn resized_config(config: SurfaceConfig, size: SurfaceSize) -> SurfaceConfig {
    if size.is_degenerate() {
        config
    } else {
        SurfaceConfig { width: size.width, height: size.height, ..config }
    }
}

/// Index of the format to use, given which of the supported formats are sRGB.
pub fn choose_format_index(srgb: &Vec<bool>) -> (r: Option<usize>)
    ensures
        r is None <==> srgb@.len() == 0,
        r matches Some(i) ==> is_chosen_format_index(srgb@, i as int),
{
    if srgb.len() == 0 {
        return None;
    }
    let mut i: usize = 0;
    while i < srgb.len()
        invariant
            0 <= i <= srgb@.len(),
            forall|j: int| 0 <= j < i ==> !srgb@[j],
        decreases srgb@.len() - i,
    {
        if srgb[i] {
            return Some(i);
        }
        i = i + 1;
    }
    Some(0)
}

/// The sRGB flag of each format, in order.
pub fn srgb_flags(formats: &Vec<wgpu::TextureFormat>) -> (r: Vec<bool>)
    ensures
        r@.len() == formats@.len(),
{
    let mut flags: Vec<bool> = Vec::new();
    let mut i: usize = 0;
    while i < formats.len()
        invariant
            i <= formats@.len(),
            flags@.len() == i,
        decreases formats@.len() - i,
    {
        flags.push(formats[i].is_srgb());
        i = i + 1;
    }
    flags
}

/// The surface format to use: the first sRGB format in `formats`, or the first
/// format when none is sRGB.
pub fn select_format(formats: &Vec<wgpu::TextureFormat>) -> (r: Option<wgpu::TextureFormat>)
    ensures
        r is None <==> formats@.len() == 0,
        r is Some ==> exists|srgb: Seq<bool>, i: int|
            #![trigger is_chosen_format_index(srgb, i)]
            srgb.len() == formats@.len() && is_chosen_format_index(srgb, i) && r == Some(
                formats@[i],
            ),
{
    let flags = srgb_flags(formats);
    match choose_format_index(&flags) {
        Some(i) => {
            assert(is_chosen_format_index(flags@, i as int));
            Some(formats[i])
        },
        None => None,
    }
}

/// The presentation mode to use: `desired` when `modes` holds it, else the
/// first of `modes`.
pub fn select_present_mode(modes: &Vec<PresentMode>, desired: PresentMode) -> (r: Option<
    PresentMode,
>)
    ensures
        r is None <==> modes@.len() == 0,
        r is Some ==> r == Some(chosen_present_mode(modes@, desired)),
{
    if modes.len() == 0 {
        return None;
    }
    let mut i: usize = 0;
    while i < modes.len()
        invariant
            0 <= i <= modes@.len(),
            forall|j: int| 0 <= j < i ==> modes@[j] != desired,
        decreases modes@.len() - i,
    {
        if modes[i] == desired {
            assert(modes@.contains(desired));
            return Some(desired);
        }
        i = i + 1;
    }
    assert(!modes@.contains(desired));
    Some(modes[0])
}

/// Builds the configuration for a surface of `size` presented in `format`,
/// or `None` when the capabilities leave a list empty.
pub fn build_config(
    size: SurfaceSize,
    format: wgpu::TextureFormat,
    caps: &SurfaceCapabilities,
    settings: &WindowSettings,
) -> (r: Option<SurfaceConfig>)
    ensures
        r is None <==> !caps.is_usable(),
        r is Some ==> r == Some(config_for(size, format, *caps, *settings)),
{
    if caps.formats.len() == 0 || caps.alpha_modes.len() == 0 {
        return None;
    }
    match select_present_mode(&caps.present_modes, settings.present_mode) {
        None => None,
        Some(present_mode) => Some(
            SurfaceConfig {
                format,
                width: size.width,
                height: size.height,
                present_mode,
                alpha_mode: caps.alpha_modes[0],
                desired_maximum_frame_latency: settings.desired_max_buffer,
            },
        ),
    }
}

} // verus!
