//! Choosing how the window's surface is presented.

use vstd::prelude::*;

verus! {

/// A texture format. Formats that nothing here depends on are told apart by a
/// number that the caller picks.
#[derive(Clone, Copy, Debug, PartialEq, Eq, Structural)]
pub enum TextureFormat {
    Bgra8UnormSrgb,
    Other(u32),
}

/// How finished frames reach the screen.
#[derive(Clone, Copy, Debug, PartialEq, Eq, Structural)]
pub enum PresentMode {
    AutoVsync,
    AutoNoVsync,
    Fifo,
    FifoRelaxed,
    Immediate,
    Mailbox,
}

/// How the surface is blended with what lies behind the window.
#[derive(Clone, Copy, Debug, PartialEq, Eq, Structural)]
pub enum AlphaMode {
    Auto,
    Opaque,
    PreMultiplied,
    PostMultiplied,
    Inherit,
}

/// What the surface offers, in the adapter's order of preference.
#[derive(Debug)]
pub struct SurfaceCapabilities {
    pub formats: Vec<TextureFormat>,
    pub present_modes: Vec<PresentMode>,
    pub alpha_modes: Vec<AlphaMode>,
}

/// What a texture may be used for.
#[derive(Clone, Copy, Debug, PartialEq, Eq, Structural)]
pub struct TextureUsage {
    pub copy_src: bool,
    pub copy_dst: bool,
    pub texture_binding: bool,
    pub storage_binding: bool,
    pub render_attachment: bool,
}

/// Being drawn to, and nothing else.
pub open spec fn drawn_to() -> TextureUsage {
    TextureUsage {
        copy_src: false,
        copy_dst: false,
        texture_binding: false,
        storage_binding: false,
        render_attachment: true,
    }
}

/// How the surface is set up.
#[derive(Debug)]
pub struct SurfaceConfig {
    pub usage: TextureUsage,
    pub format: TextureFormat,
    pub width: u32,
    pub height: u32,
    pub present_mode: PresentMode,
    pub alpha_mode: AlphaMode,
    pub view_formats: Vec<TextureFormat>,
    pub desired_maximum_frame_latency: u32,
}

/// The model of `SurfaceConfig`.
#[verifier::ext_equal]
pub struct SurfaceSetup {
    pub usage: TextureUsage,
    pub format: TextureFormat,
    pub width: u32,
    pub height: u32,
    pub present_mode: PresentMode,
    pub alpha_mode: AlphaMode,
    pub view_formats: Seq<TextureFormat>,
    pub desired_maximum_frame_latency: u32,
}

impl View for SurfaceConfig {
    type V = SurfaceSetup;

    open spec fn view(&self) -> SurfaceSetup {
        SurfaceSetup {
            usage: self.usage,
            format: self.format,
            width: self.width,
            height: self.height,
            present_mode: self.present_mode,
            alpha_mode: self.alpha_mode,
            view_formats: self.view_formats@,
            desired_maximum_frame_latency: self.desired_maximum_frame_latency,
        }
    }
}

/// The preferred format where it is on offer, else the first one.
pub open spec fn chosen_format(formats: Seq<TextureFormat>) -> TextureFormat {
    if formats.contains(TextureFormat::Bgra8UnormSrgb) {
        TextureFormat::Bgra8UnormSrgb
    } else {
        formats[0]
    }
}

/// Mailbox before immediate before first in, first out.
pub open spec fn chosen_present_mode(modes: Seq<PresentMode>) -> PresentMode {
    if modes.contains(PresentMode::Mailbox) {
        PresentMode::Mailbox
    } else if modes.contains(PresentMode::Immediate) {
        PresentMode::Immediate
    } else {
        PresentMode::Fifo
    }
}

fn offers_format(formats: &Vec<TextureFormat>, wanted: TextureFormat) -> (found: bool)
    ensures
        found == formats@.contains(wanted),
{
    for i in 0..formats.len()
        invariant
            forall|j: int| 0 <= j < i ==> formats@[j] != wanted,
    {
        if formats[i] == wanted {
            return true;
        }
    }
    false
}

fn offers_present_mode(modes: &Vec<PresentMode>, wanted: PresentMode) -> (found: bool)
    ensures
        found == modes@.contains(wanted),
{
    for i in 0..modes.len()
        invariant
            forall|j: int| 0 <= j < i ==> modes@[j] != wanted,
    {
        if modes[i] == wanted {
            return true;
        }
    }
    false
}

impl SurfaceConfig {
    /// Chooses from what the surface offers, for a window of the given size.
    pub fn select(capabilities: &SurfaceCapabilities, width: u32, height: u32) -> (config: Self)
        requires
            capabilities.formats@.len() > 0,
            capabilities.alpha_modes@.len() > 0,
        ensures
            config@ == (SurfaceSetup {
                usage: drawn_to(),
                format: chosen_format(capabilities.formats@),
                width,
                height,
                present_mode: chosen_present_mode(capabilities.present_modes@),
                alpha_mode: capabilities.alpha_modes@[0],
                view_formats: seq![chosen_format(capabilities.formats@)],
                desired_maximum_frame_latency: 2,
            }),
    {
        let format = if offers_format(&capabilities.formats, TextureFormat::Bgra8UnormSrgb) {
            TextureFormat::Bgra8UnormSrgb
        } else {
            capabilities.formats[0]
        };
        let present_mode = if offers_present_mode(
            &capabilities.present_modes,
            PresentMode::Mailbox,
        ) {
            PresentMode::Mailbox
        } else if offers_present_mode(&capabilities.present_modes, PresentMode::Immediate) {
            PresentMode::Immediate
        } else {
            PresentMode::Fifo
        };
        let mut view_formats: Vec<TextureFormat> = Vec::new();
        view_formats.push(format);
        SurfaceConfig {
            usage: TextureUsage {
                copy_src: false,
                copy_dst: false,
                texture_binding: false,
                storage_binding: false,
                render_attachment: true,
            },
            format,
            width,
            height,
            present_mode,
            alpha_mode: capabilities.alpha_modes[0],
            view_formats,
            desired_maximum_frame_latency: 2,
        }
    }
}

/// The format is one that the surface offers.
pub proof fn law_format_is_offered(formats: Seq<TextureFormat>)
    requires
        formats.len() > 0,
    ensures
        formats.contains(chosen_format(formats)),
{
    assert(formats.contains(formats[0]));
}

/// The present mode is one that the surface offers, as long as it offers first
/// in, first out, as every surface must.
pub proof fn law_present_mode_is_offered(modes: Seq<PresentMode>)
    requires
        modes.contains(PresentMode::Fifo),
    ensures
        modes.contains(chosen_present_mode(modes)),
{
}

} // verus!
