//! Surface configuration: choosing the pixel format, presentation mode and
//! alpha mode from what the surface supports.
use vstd::prelude::*;

verus! {

#[verifier::external_type_specification]
#[verifier::external_body]
pub struct ExTextureFormat(wgpu::TextureFormat);

#[verifier::external_type_specification]
#[verifier::external_body]
pub struct ExPresentMode(wgpu::PresentMode);

#[verifier::external_type_specification]
#[verifier::external_body]
pub struct ExCompositeAlphaMode(wgpu::CompositeAlphaMode);

/// Whether a texture format encodes its colour channels with the sRGB transfer
/// curve, as wgpu classifies it.
pub uninterp spec fn srgb_encoded(f: wgpu::TextureFormat) -> bool;

/// Relies on wgpu's `TextureFormat::is_srgb`, which depends on the format alone.
pub assume_specification[ wgpu::TextureFormat::is_srgb ](f: &wgpu::TextureFormat) -> (r: bool)
    ensures
        r == srgb_encoded(*f),
;

/// `i` is the format to pick from `formats`: the first sRGB one, or the first
/// of all where none is sRGB.
pub open spec fn preferred_format_index(formats: Seq<wgpu::TextureFormat>, i: int) -> bool {
    &&& 0 <= i < formats.len()
    &&& if srgb_encoded(formats[i]) {
        forall|j: int| 0 <= j < i ==> !srgb_encoded(#[trigger] formats[j])
    } else {
        i == 0 && forall|j: int| 0 <= j < formats.len() ==> !srgb_encoded(#[trigger] formats[j])
    }
}

/// Picks the index of the surface format to render into: the first that is
/// sRGB-encoded, falling back to the first listed; `None` when none is listed.
pub fn select_format_index(formats: &Vec<wgpu::TextureFormat>) -> (r: Option<usize>)
    ensures
        r is None <==> formats@.len() == 0,
        r matches Some(i) ==> preferred_format_index(formats@, i as int),
{
    let mut i: usize = 0;
    while i < formats.len()
        invariant
            i <= formats@.len(),
            forall|j: int| 0 <= j < i ==> !srgb_encoded(#[trigger] formats@[j]),
        decreases formats@.len() - i,
    {
        if formats[i].is_srgb() {
            return Some(i);
        }
        i = i + 1;
    }
    if formats.len() == 0 {
        None
    } else {
        Some(0)
    }
}

/// How the surface is configured: its size in pixels, pixel format,
/// presentation mode and alpha compositing mode. It is always used as a
/// render attachment.
#[derive(Clone, Copy, Debug)]
pub struct SurfaceConfig {
    pub width: u32,
    pub height: u32,
    pub format: wgpu::TextureFormat,
    pub present_mode: wgpu::PresentMode,
    pub alpha_mode: wgpu::CompositeAlphaMode,
}

/// Why a surface cannot be configured from what it reports it supports.
#[derive(Clone, Copy, Debug, PartialEq, Eq, Structural)]
pub enum ConfigError {
    NoFormat,
    NoPresentMode,
    NoAlphaMode,
}

/// The first capability list that is empty, if any, as an error.
pub open spec fn config_error(
    formats: Seq<wgpu::TextureFormat>,
    present_modes: Seq<wgpu::PresentMode>,
    alpha_modes: Seq<wgpu::CompositeAlphaMode>,
) -> Option<ConfigError> {
    if formats.len() == 0 {
        Some(ConfigError::NoFormat)
    } else if present_modes.len() == 0 {
        Some(ConfigError::NoPresentMode)
    } else if alpha_modes.len() == 0 {
        Some(ConfigError::NoAlphaMode)
    } else {
        None
    }
}

/// `c` is the configuration chosen from these capabilities at this size: the
/// preferred format, the first presentation mode and the first alpha mode.
pub open spec fn chosen_config(
    c: SurfaceConfig,
    formats: Seq<wgpu::TextureFormat>,
    present_modes: Seq<wgpu::PresentMode>,
    alpha_modes: Seq<wgpu::CompositeAlphaMode>,
    width: u32,
    height: u32,
) -> bool {
    &&& c.width == width
    &&& c.height == height
    &&& exists|i: int| preferred_format_index(formats, i) && c.format == formats[i]
    &&& present_modes.len() > 0 && c.present_mode == present_modes[0]
    &&& alpha_modes.len() > 0 && c.alpha_mode == alpha_modes[0]
}

impl SurfaceConfig {
    /// The configuration chosen from the surface's capabilities: the preferred
    /// format, and the first reported presentation and alpha modes.
    pub fn from_capabilities(
        formats: &Vec<wgpu::TextureFormat>,
        present_modes: &Vec<wgpu::PresentMode>,
        alpha_modes: &Vec<wgpu::CompositeAlphaMode>,
        width: u32,
        height: u32,
    ) -> (r: Result<SurfaceConfig, ConfigError>)
        ensures
            match config_error(formats@, present_modes@, alpha_modes@) {
                Some(e) => r == Err::<SurfaceConfig, ConfigError>(e),
                None => r matches Ok(c) && chosen_config(
                    c,
                    formats@,
                    present_modes@,
                    alpha_modes@,
                    width,
                    height,
                ),
            },
    {
        let i = match select_format_index(formats) {
            Some(i) => i,
            None => {
                return Err(ConfigError::NoFormat);
            },
        };
        if present_modes.len() == 0 {
            return Err(ConfigError::NoPresentMode);
        }
        if alpha_modes.len() == 0 {
            return Err(ConfigError::NoAlphaMode);
        }
        Ok(
            SurfaceConfig {
                width,
                height,
                format: formats[i],
                present_mode: present_modes[0],
                alpha_mode: alpha_modes[0],
            },
        )
    }
}

} // verus!
