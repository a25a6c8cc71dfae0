use vstd::prelude::*;

verus! {

/// The window and graphics context the program asks for.
#[derive(Clone, Debug, PartialEq, Eq)]
pub struct ContextConfig {
    /// Requested API version, major part.
    pub major_version: u8,
    /// Requested API version, minor part.
    pub minor_version: u8,
    pub double_buffer: bool,
    /// Bits per depth-buffer sample.
    pub depth_bits: u8,
    pub title: String,
    /// Window size in pixels.
    pub width: u32,
    pub height: u32,
    /// Whether the window is centred on the screen.
    pub centered: bool,
    /// Frames between buffer swaps; 1 synchronises with the display.
    pub swap_interval: i32,
}

/// The fixed window title.
pub open spec fn window_title() -> Seq<char> {
    "Rust SDL2 Window"@
}

impl ContextConfig {
    /// The demo's configuration: API 3.1, double buffered, a 24-bit depth
    /// buffer, a centred 800 by 600 window, and vertical sync.
    pub fn standard() -> (r: ContextConfig)
        ensures
            r.major_version == 3,
            r.minor_version == 1,
            r.double_buffer,
            r.depth_bits == 24,
            r.title@ == window_title(),
            r.width == 800,
            r.height == 600,
            r.centered,
            r.swap_interval == 1,
    {
        ContextConfig {
            major_version: 3,
            minor_version: 1,
            double_buffer: true,
            depth_bits: 24,
            title: "Rust SDL2 Window".to_owned(),
            width: 800,
            height: 600,
            centered: true,
            swap_interval: 1,
        }
    }
}

} // verus!
