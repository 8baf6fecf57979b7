//! Fixed render settings: the window the program opens, what each frame
//! clears the buffers to, how the draw call culls and depth-tests, and the
//! two shader sources compiled once at startup.

use vstd::prelude::*;

verus! {

/// The window the program opens: fixed size, a depth buffer, a fixed title.
#[derive(Clone, Copy, PartialEq, Eq, Structural, Debug)]
pub struct WindowConfig {
    pub width: u32,
    pub height: u32,
    pub depth_bits: u8,
}

/// The one window configuration: 1280 by 720 pixels with a 24-bit depth
/// buffer.
pub open spec fn window_spec() -> WindowConfig {
    WindowConfig { width: 1280, height: 720, depth_bits: 24 }
}

/// The window parameters, the same on every call.
pub fn window_config() -> (w: WindowConfig)
    ensures
        w == window_spec(),
{
    WindowConfig { width: 1280, height: 720, depth_bits: 24 }
}

/// The window's title.
pub fn window_title() -> (t: &'static str)
    ensures
        t@ == "Hello world"@,
{
    "Hello world"
}

/// What each frame clears to: a color in thousandths per channel and a depth
/// in thousandths.
#[derive(Clone, Copy, PartialEq, Eq, Structural, Debug)]
pub struct ClearConfig {
    pub red_milli: u32,
    pub green_milli: u32,
    pub blue_milli: u32,
    pub alpha_milli: u32,
    pub depth_milli: u32,
}

/// The one clear the program does: opaque green, depth 1.
pub open spec fn clear_spec() -> ClearConfig {
    ClearConfig {
        red_milli: 0,
        green_milli: 1000,
        blue_milli: 0,
        alpha_milli: 1000,
        depth_milli: 1000,
    }
}

/// The clear values, the same on every frame.
pub fn clear_config() -> (c: ClearConfig)
    ensures
        c == clear_spec(),
{
    ClearConfig {
        red_milli: 0,
        green_milli: 1000,
        blue_milli: 0,
        alpha_milli: 1000,
        depth_milli: 1000,
    }
}

/// How the one draw call is issued: cull clockwise-wound faces, keep a
/// fragment only where its depth is strictly less, and write the depth that
/// passes.
#[derive(Clone, Copy, PartialEq, Eq, Structural, Debug)]
pub struct DrawConfig {
    pub cull_clockwise: bool,
    pub depth_test_if_less: bool,
    pub depth_write: bool,
}

/// The one draw configuration: all three settings on.
pub open spec fn draw_spec() -> DrawConfig {
    DrawConfig { cull_clockwise: true, depth_test_if_less: true, depth_write: true }
}

/// The draw parameters, the same on every frame.
pub fn draw_config() -> (d: DrawConfig)
    ensures
        d == draw_spec(),
{
    DrawConfig { cull_clockwise: true, depth_test_if_less: true, depth_write: true }
}

/// The vertex stage: transforms the local-space position by
/// `perspective * modelview` into clip space.
pub fn vertex_shader_source() -> (s: &'static str)
    ensures
        s@ == "
        #version 150

        uniform mat4 perspective;
        uniform mat4 modelview;

        in vec3 position;

        void main() {
            gl_Position = perspective * modelview * vec4(position, 1.0);
        }
    "@,
{
    "
        #version 150

        uniform mat4 perspective;
        uniform mat4 modelview;

        in vec3 position;

        void main() {
            gl_Position = perspective * modelview * vec4(position, 1.0);
        }
    "
}

/// The fragment stage: emits constant opaque black, ignoring all inputs.
pub fn fragment_shader_source() -> (s: &'static str)
    ensures
        s@ == "
        #version 150

        void main() {
            gl_FragColor = vec4(0.0, 0.0, 0.0, 1.0);
        }
    "@,
{
    "
        #version 150

        void main() {
            gl_FragColor = vec4(0.0, 0.0, 0.0, 1.0);
        }
    "
}

} // verus!
