//! Window identity and the window-creation configuration.
//!
//! `WindowConfig` carries every optional window hint; `set_hints` turns it
//! into the exact ordered sequence of native hint settings to apply before a
//! window is created. Unset fields emit nothing, so the native defaults
//! (restored by the leading reset) stay in force.

use vstd::prelude::*;

use crate::types::ClientApi;
use crate::types::ContextCreationApi;
use crate::types::ContextReleaseBehavior;
use crate::types::OpenGLProfile;
use crate::types::Robustness;

verus! {

pub const GLFW_FOCUSED: i32 = 0x00020001;
pub const GLFW_RESIZABLE: i32 = 0x00020003;
pub const GLFW_VISIBLE: i32 = 0x00020004;
pub const GLFW_DECORATED: i32 = 0x00020005;
pub const GLFW_AUTO_ICONIFY: i32 = 0x00020006;
pub const GLFW_FLOATING: i32 = 0x00020007;
pub const GLFW_MAXIMIZED: i32 = 0x00020008;
pub const GLFW_CENTER_CURSOR: i32 = 0x00020009;
pub const GLFW_TRANSPARENT_FRAMEBUFFER: i32 = 0x0002000A;
pub const GLFW_FOCUS_ON_SHOW: i32 = 0x0002000C;
pub const GLFW_MOUSE_PASSTHROUGH: i32 = 0x0002000D;
pub const GLFW_POSITION_X: i32 = 0x0002000E;
pub const GLFW_POSITION_Y: i32 = 0x0002000F;
pub const GLFW_RED_BITS: i32 = 0x00021001;
pub const GLFW_GREEN_BITS: i32 = 0x00021002;
pub const GLFW_BLUE_BITS: i32 = 0x00021003;
pub const GLFW_ALPHA_BITS: i32 = 0x00021004;
pub const GLFW_DEPTH_BITS: i32 = 0x00021005;
pub const GLFW_STENCIL_BITS: i32 = 0x00021006;
pub const GLFW_ACCUM_RED_BITS: i32 = 0x00021007;
pub const GLFW_ACCUM_GREEN_BITS: i32 = 0x00021008;
pub const GLFW_ACCUM_BLUE_BITS: i32 = 0x00021009;
pub const GLFW_ACCUM_ALPHA_BITS: i32 = 0x0002100A;
pub const GLFW_AUX_BUFFERS: i32 = 0x0002100B;
pub const GLFW_STEREO: i32 = 0x0002100C;
pub const GLFW_SAMPLES: i32 = 0x0002100D;
pub const GLFW_SRGB_CAPABLE: i32 = 0x0002100E;
pub const GLFW_REFRESH_RATE: i32 = 0x0002100F;
pub const GLFW_DOUBLEBUFFER: i32 = 0x00021010;
pub const GLFW_CLIENT_API: i32 = 0x00022001;
pub const GLFW_CONTEXT_VERSION_MAJOR: i32 = 0x00022002;
pub const GLFW_CONTEXT_VERSION_MINOR: i32 = 0x00022003;
pub const GLFW_CONTEXT_ROBUSTNESS: i32 = 0x00022005;
pub const GLFW_OPENGL_FORWARD_COMPAT: i32 = 0x00022006;
pub const GLFW_OPENGL_DEBUG_CONTEXT: i32 = 0x00022007;
pub const GLFW_OPENGL_PROFILE: i32 = 0x00022008;
pub const GLFW_CONTEXT_RELEASE_BEHAVIOR: i32 = 0x00022009;
pub const GLFW_CONTEXT_CREATION_API: i32 = 0x0002200B;
pub const GLFW_SCALE_TO_MONITOR: i32 = 0x0002200C;
pub const GLFW_SCALE_FRAMEBUFFER: i32 = 0x0002200D;
pub const GLFW_COCOA_FRAME_NAME: i32 = 0x00023002;
pub const GLFW_COCOA_GRAPHICS_SWITCHING: i32 = 0x00023003;
pub const GLFW_X11_CLASS_NAME: i32 = 0x00024001;
pub const GLFW_X11_INSTANCE_NAME: i32 = 0x00024002;
pub const GLFW_WIN32_KEYBOARD_MENU: i32 = 0x00025001;
pub const GLFW_WIN32_SHOWDEFAULT: i32 = 0x00025002;
pub const GLFW_WAYLAND_APP_ID: i32 = 0x00026001;

/// One native hint-application step.
#[derive(Debug, Clone, Eq, PartialEq)]
pub enum HintSetting {
    /// Restore every window hint to its native default.
    Reset,
    /// Set an integer-valued (or boolean-valued) hint.
    Int { hint: i32, value: i32 },
    /// Set a string-valued hint.
    Text { hint: i32, value: String },
}

/// The hint step an optional boolean field contributes: nothing when unset,
/// one integer hint with 1 for true and 0 for false when set.
pub open spec fn bool_hint(hint: i32, v: Option<bool>) -> Seq<HintSetting> {
    match v {
        Some(b) => seq![(HintSetting::Int { hint, value: if b { 1 } else { 0 } })],
        None => Seq::empty(),
    }
}

/// The hint step an optional integer field contributes.
pub open spec fn int_hint(hint: i32, v: Option<i32>) -> Seq<HintSetting> {
    match v {
        Some(value) => seq![(HintSetting::Int { hint, value })],
        None => Seq::empty(),
    }
}

/// The hint step an optional string field contributes.
pub open spec fn text_hint(hint: i32, v: Option<String>) -> Seq<HintSetting> {
    match v {
        Some(value) => seq![(HintSetting::Text { hint, value })],
        None => Seq::empty(),
    }
}

/// Appends the hint step of an optional boolean field.
pub(crate) fn push_bool_hint(out: &mut Vec<HintSetting>, hint: i32, v: Option<bool>)
    ensures
        final(out)@ == old(out)@ + bool_hint(hint, v),
{
    match v {
        Some(b) => {
            out.push(HintSetting::Int { hint, value: if b { 1 } else { 0 } });
            proof {
                assert(out@ =~= old(out)@ + bool_hint(hint, v));
            }
        }
        None => {
            proof {
                assert(out@ =~= old(out)@ + bool_hint(hint, v));
            }
        }
    }
}

/// Appends the hint step of an optional integer field.
pub(crate) fn push_int_hint(out: &mut Vec<HintSetting>, hint: i32, v: Option<i32>)
    ensures
        final(out)@ == old(out)@ + int_hint(hint, v),
{
    match v {
        Some(value) => {
            out.push(HintSetting::Int { hint, value });
            proof {
                assert(out@ =~= old(out)@ + int_hint(hint, v));
            }
        }
        None => {
            proof {
                assert(out@ =~= old(out)@ + int_hint(hint, v));
            }
        }
    }
}

/// Appends the hint step of an optional string field.
pub(crate) fn push_text_hint(out: &mut Vec<HintSetting>, hint: i32, v: Option<String>)
    ensures
        final(out)@ == old(out)@ + text_hint(hint, v),
{
    match v {
        Some(value) => {
            out.push(HintSetting::Text { hint, value });
            proof {
                assert(out@ =~= old(out)@ + text_hint(hint, v));
            }
        }
        None => {
            proof {
                assert(out@ =~= old(out)@ + text_hint(hint, v));
            }
        }
    }
}

/// Identity of a window: a non-zero pointer-sized value. Events carry it, and
/// the context tracker keys its records by it.
#[derive(Debug, Clone, Copy, Eq, PartialEq, Hash, PartialOrd, Ord, Structural)]
pub struct WindowId(pub u64);

impl WindowId {
    /// Wraps a raw identity; zero means "no window" and yields `None`.
    pub fn new(window: u64) -> (r: Option<Self>)
        ensures
            r == if window == 0 {
                None::<WindowId>
            } else {
                Some(WindowId(window))
            },
    {
        if window == 0 {
            None
        } else {
            Some(WindowId(window))
        }
    }

    /// The raw identity value stored inside.
    pub fn get_ptr(self) -> (r: u64)
        ensures
            r == self.0,
    {
        self.0
    }
}

/// Everything a window can be asked to be at creation time. Every field is
/// optional; an unset field leaves the native default in force.
#[derive(Debug, Default)]
pub struct WindowConfig {
    pub resizeable: Option<bool>,
    pub visible: Option<bool>,
    pub decorated: Option<bool>,
    pub focused: Option<bool>,
    pub auto_iconify: Option<bool>,
    pub floating: Option<bool>,
    pub maximized: Option<bool>,
    pub center_cursor: Option<bool>,
    pub transparent_framebuffer: Option<bool>,
    pub focus_on_show: Option<bool>,
    pub scale_to_monitor: Option<bool>,
    pub scale_framebuffer: Option<bool>,
    pub mouse_passthrough: Option<bool>,
    pub position_x: Option<i32>,
    pub position_y: Option<i32>,
    pub red_bits: Option<i32>,
    pub green_bits: Option<i32>,
    pub blue_bits: Option<i32>,
    pub alpha_bits: Option<i32>,
    pub depth_bits: Option<i32>,
    pub stencil_bits: Option<i32>,
    pub accum_red_bits: Option<i32>,
    pub accum_green_bits: Option<i32>,
    pub accum_blue_bits: Option<i32>,
    pub accum_alpha_bits: Option<i32>,
    pub aux_buffers: Option<i32>,
    pub samples: Option<i32>,
    pub refresh_rate: Option<i32>,
    pub stereo: Option<bool>,
    pub srgb_capable: Option<bool>,
    pub doublebuffer: Option<bool>,
    pub client_api: Option<ClientApi>,
    pub context_creation_api: Option<ContextCreationApi>,
    pub context_version_major: Option<i32>,
    pub context_version_minor: Option<i32>,
    pub context_robustness: Option<Robustness>,
    pub context_release_behavior: Option<ContextReleaseBehavior>,
    pub opengl_forward_compat: Option<bool>,
    pub opengl_context_debug: Option<bool>,
    pub opengl_profile: Option<OpenGLProfile>,
    pub win32_keyboard_menu: Option<bool>,
    pub win32_showdefault: Option<bool>,
    pub cocoa_frame_name: Option<String>,
    pub cocoa_graphics_switching: Option<bool>,
    pub wayland_app_id: Option<String>,
    pub x11_class_name: Option<String>,
    pub x11_instance_name: Option<String>,
}

impl WindowConfig {
    /// The exact ordered sequence of native hint settings this
    /// configuration stands for: a reset to defaults, then one setting per
    /// populated field, in a fixed order.
    pub open spec fn spec_hints(self) -> Seq<HintSetting> {
        seq![HintSetting::Reset] + bool_hint(GLFW_RESIZABLE, self.resizeable) + bool_hint(GLFW_VISIBLE, self.visible) + bool_hint(GLFW_DECORATED, self.decorated) + bool_hint(GLFW_FOCUSED, self.focused) + bool_hint(GLFW_AUTO_ICONIFY, self.auto_iconify) + bool_hint(GLFW_FLOATING, self.floating) + bool_hint(GLFW_MAXIMIZED, self.maximized) + bool_hint(GLFW_CENTER_CURSOR, self.center_cursor) + bool_hint(GLFW_TRANSPARENT_FRAMEBUFFER, self.transparent_framebuffer) + bool_hint(GLFW_FOCUS_ON_SHOW, self.focus_on_show) + bool_hint(GLFW_SCALE_TO_MONITOR, self.scale_to_monitor) + bool_hint(GLFW_SCALE_FRAMEBUFFER, self.scale_framebuffer) + bool_hint(GLFW_MOUSE_PASSTHROUGH, self.mouse_passthrough) + int_hint(GLFW_POSITION_X, self.position_x) + int_hint(GLFW_POSITION_Y, self.position_y) + int_hint(GLFW_RED_BITS, self.red_bits) + int_hint(GLFW_GREEN_BITS, self.green_bits) + int_hint(GLFW_BLUE_BITS, self.blue_bits) + int_hint(GLFW_ALPHA_BITS, self.alpha_bits) + int_hint(GLFW_DEPTH_BITS, self.depth_bits) + int_hint(GLFW_STENCIL_BITS, self.stencil_bits) + int_hint(GLFW_ACCUM_RED_BITS, self.accum_red_bits) + int_hint(GLFW_ACCUM_GREEN_BITS, self.accum_green_bits) + int_hint(GLFW_ACCUM_BLUE_BITS, self.accum_blue_bits) + int_hint(GLFW_ACCUM_ALPHA_BITS, self.accum_alpha_bits) + int_hint(GLFW_AUX_BUFFERS, self.aux_buffers) + int_hint(GLFW_SAMPLES, self.samples) + int_hint(GLFW_REFRESH_RATE, self.refresh_rate) + bool_hint(GLFW_STEREO, self.stereo) + bool_hint(GLFW_SRGB_CAPABLE, self.srgb_capable) + bool_hint(GLFW_DOUBLEBUFFER, self.doublebuffer) + int_hint(GLFW_CLIENT_API, match self.client_api { Some(v) => Some(v.spec_code()), None => None }) + int_hint(GLFW_CONTEXT_CREATION_API, match self.context_creation_api { Some(v) => Some(v.spec_code()), None => None }) + int_hint(GLFW_CONTEXT_VERSION_MAJOR, self.context_version_major) + int_hint(GLFW_CONTEXT_VERSION_MINOR, self.context_version_minor) + int_hint(GLFW_CONTEXT_ROBUSTNESS, match self.context_robustness { Some(v) => Some(v.spec_code()), None => None }) + int_hint(GLFW_CONTEXT_RELEASE_BEHAVIOR, match self.context_release_behavior { Some(v) => Some(v.spec_code()), None => None }) + bool_hint(GLFW_OPENGL_FORWARD_COMPAT, self.opengl_forward_compat) + bool_hint(GLFW_OPENGL_DEBUG_CONTEXT, self.opengl_context_debug) + int_hint(GLFW_OPENGL_PROFILE, match self.opengl_profile { Some(v) => Some(v.spec_code()), None => None }) + bool_hint(GLFW_WIN32_KEYBOARD_MENU, self.win32_keyboard_menu) + bool_hint(GLFW_WIN32_SHOWDEFAULT, self.win32_showdefault) + text_hint(GLFW_COCOA_FRAME_NAME, self.cocoa_frame_name) + bool_hint(GLFW_COCOA_GRAPHICS_SWITCHING, self.cocoa_graphics_switching) + text_hint(GLFW_WAYLAND_APP_ID, self.wayland_app_id) + text_hint(GLFW_X11_CLASS_NAME, self.x11_class_name) + text_hint(GLFW_X11_INSTANCE_NAME, self.x11_instance_name)
    }

    /// Computes the hint settings to apply before creating a window with
    /// this configuration. The caller applies each step to the native layer
    /// in order, checking the error channel after each one; a failed step is
    /// logged and the rest still apply.
    #[verifier::rlimit(80)]
    pub fn set_hints(&self) -> (r: Vec<HintSetting>)
        ensures
            r@ == self.spec_hints(),
    {
        let mut out: Vec<HintSetting> = Vec::new();
        out.push(HintSetting::Reset);
        proof {
            assert(out@ =~= seq![HintSetting::Reset]);
        }
        push_bool_hint(&mut out, GLFW_RESIZABLE, self.resizeable);
        push_bool_hint(&mut out, GLFW_VISIBLE, self.visible);
        push_bool_hint(&mut out, GLFW_DECORATED, self.decorated);
        push_bool_hint(&mut out, GLFW_FOCUSED, self.focused);
        push_bool_hint(&mut out, GLFW_AUTO_ICONIFY, self.auto_iconify);
        push_bool_hint(&mut out, GLFW_FLOATING, self.floating);
        push_bool_hint(&mut out, GLFW_MAXIMIZED, self.maximized);
        push_bool_hint(&mut out, GLFW_CENTER_CURSOR, self.center_cursor);
        push_bool_hint(&mut out, GLFW_TRANSPARENT_FRAMEBUFFER, self.transparent_framebuffer);
        push_bool_hint(&mut out, GLFW_FOCUS_ON_SHOW, self.focus_on_show);
        push_bool_hint(&mut out, GLFW_SCALE_TO_MONITOR, self.scale_to_monitor);
        push_bool_hint(&mut out, GLFW_SCALE_FRAMEBUFFER, self.scale_framebuffer);
        push_bool_hint(&mut out, GLFW_MOUSE_PASSTHROUGH, self.mouse_passthrough);
        push_int_hint(&mut out, GLFW_POSITION_X, self.position_x);
        push_int_hint(&mut out, GLFW_POSITION_Y, self.position_y);
        push_int_hint(&mut out, GLFW_RED_BITS, self.red_bits);
        push_int_hint(&mut out, GLFW_GREEN_BITS, self.green_bits);
        push_int_hint(&mut out, GLFW_BLUE_BITS, self.blue_bits);
        push_int_hint(&mut out, GLFW_ALPHA_BITS, self.alpha_bits);
        push_int_hint(&mut out, GLFW_DEPTH_BITS, self.depth_bits);
        push_int_hint(&mut out, GLFW_STENCIL_BITS, self.stencil_bits);
        push_int_hint(&mut out, GLFW_ACCUM_RED_BITS, self.accum_red_bits);
        push_int_hint(&mut out, GLFW_ACCUM_GREEN_BITS, self.accum_green_bits);
        push_int_hint(&mut out, GLFW_ACCUM_BLUE_BITS, self.accum_blue_bits);
        push_int_hint(&mut out, GLFW_ACCUM_ALPHA_BITS, self.accum_alpha_bits);
        push_int_hint(&mut out, GLFW_AUX_BUFFERS, self.aux_buffers);
        push_int_hint(&mut out, GLFW_SAMPLES, self.samples);
        push_int_hint(&mut out, GLFW_REFRESH_RATE, self.refresh_rate);
        push_bool_hint(&mut out, GLFW_STEREO, self.stereo);
        push_bool_hint(&mut out, GLFW_SRGB_CAPABLE, self.srgb_capable);
        push_bool_hint(&mut out, GLFW_DOUBLEBUFFER, self.doublebuffer);
        let client_api_code = match self.client_api { Some(v) => Some(v.code()), None => None };
        push_int_hint(&mut out, GLFW_CLIENT_API, client_api_code);
        let context_creation_api_code = match self.context_creation_api { Some(v) => Some(v.code()), None => None };
        push_int_hint(&mut out, GLFW_CONTEXT_CREATION_API, context_creation_api_code);
        push_int_hint(&mut out, GLFW_CONTEXT_VERSION_MAJOR, self.context_version_major);
        push_int_hint(&mut out, GLFW_CONTEXT_VERSION_MINOR, self.context_version_minor);
        let context_robustness_code = match self.context_robustness { Some(v) => Some(v.code()), None => None };
        push_int_hint(&mut out, GLFW_CONTEXT_ROBUSTNESS, context_robustness_code);
        let context_release_behavior_code = match self.context_release_behavior { Some(v) => Some(v.code()), None => None };
        push_int_hint(&mut out, GLFW_CONTEXT_RELEASE_BEHAVIOR, context_release_behavior_code);
        push_bool_hint(&mut out, GLFW_OPENGL_FORWARD_COMPAT, self.opengl_forward_compat);
        push_bool_hint(&mut out, GLFW_OPENGL_DEBUG_CONTEXT, self.opengl_context_debug);
        let opengl_profile_code = match self.opengl_profile { Some(v) => Some(v.code()), None => None };
        push_int_hint(&mut out, GLFW_OPENGL_PROFILE, opengl_profile_code);
        push_bool_hint(&mut out, GLFW_WIN32_KEYBOARD_MENU, self.win32_keyboard_menu);
        push_bool_hint(&mut out, GLFW_WIN32_SHOWDEFAULT, self.win32_showdefault);
        push_text_hint(&mut out, GLFW_COCOA_FRAME_NAME, self.cocoa_frame_name.clone());
        push_bool_hint(&mut out, GLFW_COCOA_GRAPHICS_SWITCHING, self.cocoa_graphics_switching);
        push_text_hint(&mut out, GLFW_WAYLAND_APP_ID, self.wayland_app_id.clone());
        push_text_hint(&mut out, GLFW_X11_CLASS_NAME, self.x11_class_name.clone());
        push_text_hint(&mut out, GLFW_X11_INSTANCE_NAME, self.x11_instance_name.clone());
        out
    }
}


/// Appending on either side keeps an element reachable: `x` in `a` or in `b`
/// is in `a + b`.
proof fn lemma_add_contains<A>(a: Seq<A>, b: Seq<A>, x: A)
    requires
        a.contains(x) || b.contains(x),
    ensures
        (a + b).contains(x),
{
    if a.contains(x) {
        let i = choose|i: int| 0 <= i < a.len() && a[i] == x;
        assert((a + b)[i] == x);
    } else {
        let i = choose|i: int| 0 <= i < b.len() && b[i] == x;
        assert((a + b)[a.len() + i] == x);
    }
}

/// A configured starting position reaches the native layer: when
/// `position_x` (or `position_y`) is set, the hint sequence carries exactly
/// that coordinate under the corresponding hint identifier.
pub proof fn lemma_position_hints_emitted(config: WindowConfig)
    ensures
        config.position_x is Some ==> config.spec_hints().contains(
            (HintSetting::Int { hint: GLFW_POSITION_X, value: config.position_x->0 }),
        ),
        config.position_y is Some ==> config.spec_hints().contains(
            (HintSetting::Int { hint: GLFW_POSITION_Y, value: config.position_y->0 }),
        ),
{
    let p0 = seq![HintSetting::Reset];
    let p1 = bool_hint(GLFW_RESIZABLE, config.resizeable);
    let p2 = bool_hint(GLFW_VISIBLE, config.visible);
    let p3 = bool_hint(GLFW_DECORATED, config.decorated);
    let p4 = bool_hint(GLFW_FOCUSED, config.focused);
    let p5 = bool_hint(GLFW_AUTO_ICONIFY, config.auto_iconify);
    let p6 = bool_hint(GLFW_FLOATING, config.floating);
    let p7 = bool_hint(GLFW_MAXIMIZED, config.maximized);
    let p8 = bool_hint(GLFW_CENTER_CURSOR, config.center_cursor);
    let p9 = bool_hint(GLFW_TRANSPARENT_FRAMEBUFFER, config.transparent_framebuffer);
    let p10 = bool_hint(GLFW_FOCUS_ON_SHOW, config.focus_on_show);
    let p11 = bool_hint(GLFW_SCALE_TO_MONITOR, config.scale_to_monitor);
    let p12 = bool_hint(GLFW_SCALE_FRAMEBUFFER, config.scale_framebuffer);
    let p13 = bool_hint(GLFW_MOUSE_PASSTHROUGH, config.mouse_passthrough);
    let p14 = int_hint(GLFW_POSITION_X, config.position_x);
    let p15 = int_hint(GLFW_POSITION_Y, config.position_y);
    let p16 = int_hint(GLFW_RED_BITS, config.red_bits);
    let p17 = int_hint(GLFW_GREEN_BITS, config.green_bits);
    let p18 = int_hint(GLFW_BLUE_BITS, config.blue_bits);
    let p19 = int_hint(GLFW_ALPHA_BITS, config.alpha_bits);
    let p20 = int_hint(GLFW_DEPTH_BITS, config.depth_bits);
    let p21 = int_hint(GLFW_STENCIL_BITS, config.stencil_bits);
    let p22 = int_hint(GLFW_ACCUM_RED_BITS, config.accum_red_bits);
    let p23 = int_hint(GLFW_ACCUM_GREEN_BITS, config.accum_green_bits);
    let p24 = int_hint(GLFW_ACCUM_BLUE_BITS, config.accum_blue_bits);
    let p25 = int_hint(GLFW_ACCUM_ALPHA_BITS, config.accum_alpha_bits);
    let p26 = int_hint(GLFW_AUX_BUFFERS, config.aux_buffers);
    let p27 = int_hint(GLFW_SAMPLES, config.samples);
    let p28 = int_hint(GLFW_REFRESH_RATE, config.refresh_rate);
    let p29 = bool_hint(GLFW_STEREO, config.stereo);
    let p30 = bool_hint(GLFW_SRGB_CAPABLE, config.srgb_capable);
    let p31 = bool_hint(GLFW_DOUBLEBUFFER, config.doublebuffer);
    let p32 = int_hint(GLFW_CLIENT_API, match config.client_api { Some(v) => Some(v.spec_code()), None => None });
    let p33 = int_hint(GLFW_CONTEXT_CREATION_API, match config.context_creation_api { Some(v) => Some(v.spec_code()), None => None });
    let p34 = int_hint(GLFW_CONTEXT_VERSION_MAJOR, config.context_version_major);
    let p35 = int_hint(GLFW_CONTEXT_VERSION_MINOR, config.context_version_minor);
    let p36 = int_hint(GLFW_CONTEXT_ROBUSTNESS, match config.context_robustness { Some(v) => Some(v.spec_code()), None => None });
    let p37 = int_hint(GLFW_CONTEXT_RELEASE_BEHAVIOR, match config.context_release_behavior { Some(v) => Some(v.spec_code()), None => None });
    let p38 = bool_hint(GLFW_OPENGL_FORWARD_COMPAT, config.opengl_forward_compat);
    let p39 = bool_hint(GLFW_OPENGL_DEBUG_CONTEXT, config.opengl_context_debug);
    let p40 = int_hint(GLFW_OPENGL_PROFILE, match config.opengl_profile { Some(v) => Some(v.spec_code()), None => None });
    let p41 = bool_hint(GLFW_WIN32_KEYBOARD_MENU, config.win32_keyboard_menu);
    let p42 = bool_hint(GLFW_WIN32_SHOWDEFAULT, config.win32_showdefault);
    let p43 = text_hint(GLFW_COCOA_FRAME_NAME, config.cocoa_frame_name);
    let p44 = bool_hint(GLFW_COCOA_GRAPHICS_SWITCHING, config.cocoa_graphics_switching);
    let p45 = text_hint(GLFW_WAYLAND_APP_ID, config.wayland_app_id);
    let p46 = text_hint(GLFW_X11_CLASS_NAME, config.x11_class_name);
    let p47 = text_hint(GLFW_X11_INSTANCE_NAME, config.x11_instance_name);
    let acc0 = p0;
    let acc1 = acc0 + p1;
    let acc2 = acc1 + p2;
    let acc3 = acc2 + p3;
    let acc4 = acc3 + p4;
    let acc5 = acc4 + p5;
    let acc6 = acc5 + p6;
    let acc7 = acc6 + p7;
    let acc8 = acc7 + p8;
    let acc9 = acc8 + p9;
    let acc10 = acc9 + p10;
    let acc11 = acc10 + p11;
    let acc12 = acc11 + p12;
    let acc13 = acc12 + p13;
    let acc14 = acc13 + p14;
    let acc15 = acc14 + p15;
    let acc16 = acc15 + p16;
    let acc17 = acc16 + p17;
    let acc18 = acc17 + p18;
    let acc19 = acc18 + p19;
    let acc20 = acc19 + p20;
    let acc21 = acc20 + p21;
    let acc22 = acc21 + p22;
    let acc23 = acc22 + p23;
    let acc24 = acc23 + p24;
    let acc25 = acc24 + p25;
    let acc26 = acc25 + p26;
    let acc27 = acc26 + p27;
    let acc28 = acc27 + p28;
    let acc29 = acc28 + p29;
    let acc30 = acc29 + p30;
    let acc31 = acc30 + p31;
    let acc32 = acc31 + p32;
    let acc33 = acc32 + p33;
    let acc34 = acc33 + p34;
    let acc35 = acc34 + p35;
    let acc36 = acc35 + p36;
    let acc37 = acc36 + p37;
    let acc38 = acc37 + p38;
    let acc39 = acc38 + p39;
    let acc40 = acc39 + p40;
    let acc41 = acc40 + p41;
    let acc42 = acc41 + p42;
    let acc43 = acc42 + p43;
    let acc44 = acc43 + p44;
    let acc45 = acc44 + p45;
    let acc46 = acc45 + p46;
    let acc47 = acc46 + p47;
    assert(config.spec_hints() == acc47);
    if config.position_x is Some {
        let e = HintSetting::Int { hint: GLFW_POSITION_X, value: config.position_x->0 };
        assert(p14[0] == e);
        assert(p14.contains(e));
        lemma_add_contains(acc13, p14, e);
        lemma_add_contains(acc14, p15, e);
        lemma_add_contains(acc15, p16, e);
        lemma_add_contains(acc16, p17, e);
        lemma_add_contains(acc17, p18, e);
        lemma_add_contains(acc18, p19, e);
        lemma_add_contains(acc19, p20, e);
        lemma_add_contains(acc20, p21, e);
        lemma_add_contains(acc21, p22, e);
        lemma_add_contains(acc22, p23, e);
        lemma_add_contains(acc23, p24, e);
        lemma_add_contains(acc24, p25, e);
        lemma_add_contains(acc25, p26, e);
        lemma_add_contains(acc26, p27, e);
        lemma_add_contains(acc27, p28, e);
        lemma_add_contains(acc28, p29, e);
        lemma_add_contains(acc29, p30, e);
        lemma_add_contains(acc30, p31, e);
        lemma_add_contains(acc31, p32, e);
        lemma_add_contains(acc32, p33, e);
        lemma_add_contains(acc33, p34, e);
        lemma_add_contains(acc34, p35, e);
        lemma_add_contains(acc35, p36, e);
        lemma_add_contains(acc36, p37, e);
        lemma_add_contains(acc37, p38, e);
        lemma_add_contains(acc38, p39, e);
        lemma_add_contains(acc39, p40, e);
        lemma_add_contains(acc40, p41, e);
        lemma_add_contains(acc41, p42, e);
        lemma_add_contains(acc42, p43, e);
        lemma_add_contains(acc43, p44, e);
        lemma_add_contains(acc44, p45, e);
        lemma_add_contains(acc45, p46, e);
        lemma_add_contains(acc46, p47, e);
    }
    if config.position_y is Some {
        let e = HintSetting::Int { hint: GLFW_POSITION_Y, value: config.position_y->0 };
        assert(p15[0] == e);
        assert(p15.contains(e));
        lemma_add_contains(acc14, p15, e);
        lemma_add_contains(acc15, p16, e);
        lemma_add_contains(acc16, p17, e);
        lemma_add_contains(acc17, p18, e);
        lemma_add_contains(acc18, p19, e);
        lemma_add_contains(acc19, p20, e);
        lemma_add_contains(acc20, p21, e);
        lemma_add_contains(acc21, p22, e);
        lemma_add_contains(acc22, p23, e);
        lemma_add_contains(acc23, p24, e);
        lemma_add_contains(acc24, p25, e);
        lemma_add_contains(acc25, p26, e);
        lemma_add_contains(acc26, p27, e);
        lemma_add_contains(acc27, p28, e);
        lemma_add_contains(acc28, p29, e);
        lemma_add_contains(acc29, p30, e);
        lemma_add_contains(acc30, p31, e);
        lemma_add_contains(acc31, p32, e);
        lemma_add_contains(acc32, p33, e);
        lemma_add_contains(acc33, p34, e);
        lemma_add_contains(acc34, p35, e);
        lemma_add_contains(acc35, p36, e);
        lemma_add_contains(acc36, p37, e);
        lemma_add_contains(acc37, p38, e);
        lemma_add_contains(acc38, p39, e);
        lemma_add_contains(acc39, p40, e);
        lemma_add_contains(acc40, p41, e);
        lemma_add_contains(acc41, p42, e);
        lemma_add_contains(acc42, p43, e);
        lemma_add_contains(acc43, p44, e);
        lemma_add_contains(acc44, p45, e);
        lemma_add_contains(acc45, p46, e);
        lemma_add_contains(acc46, p47, e);
    }
}

} // verus!
