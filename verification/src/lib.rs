//! The logic of a minimal animated-quad viewer: a window shows a single
//! quad, a fixed camera looks at it, and a render loop slides it along the
//! x-axis by linear interpolation until the window is closed or Escape is
//! pressed. Everything the loop decides — the configurations built once at
//! startup, the exit test, the animation arithmetic, the frame timing — is
//! specified and verified here; opening the window, talking to the GPU and
//! reading the clock are left to the program around the library.

pub mod anim;
pub mod camera;
pub mod events;
pub mod frame;
pub mod geometry;
pub mod render;
pub mod timing;
pub mod vec3;

pub use anim::interpolated_translation;
pub use anim::Progress;
pub use anim::END_X_MILLI;
pub use anim::MAX_PROGRESS_MILLI;
pub use anim::START_X_MILLI;
pub use camera::projection_config;
pub use camera::view_config;
pub use camera::ProjectionConfig;
pub use camera::ViewConfig;
pub use events::should_exit;
pub use events::Event;
pub use events::Key;
pub use events::KeyState;
pub use frame::FrameAction;
pub use frame::FrameState;
pub use frame::Mode;
pub use geometry::quad_vertices;
pub use render::clear_config;
pub use render::draw_config;
pub use render::fragment_shader_source;
pub use render::vertex_shader_source;
pub use render::window_config;
pub use render::window_title;
pub use render::ClearConfig;
pub use render::DrawConfig;
pub use render::WindowConfig;
pub use timing::Timing;
pub use timing::INITIAL_DT_MS;
pub use vec3::Vec3Milli;
