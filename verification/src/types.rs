//! The value types of the native protocol: error codes, structured errors,
//! and the enumerations used by hints, attributes and input callbacks.
//!
//! Each enumeration pairs a spec-level code table (`spec_code` /
//! `spec_from_code`) with verified executable conversions, so that every
//! contract that mentions a raw native code can be pinned to the table.

use vstd::prelude::*;
use vstd::string::*;

use crate::monitor::MonitorId;

verus! {

/// Error codes reported by the native layer, plus a catch-all for values the
/// table does not know.
#[derive(Debug, Clone, Copy, Eq, PartialEq, Hash, PartialOrd, Ord, Structural)]
pub enum ErrorCode {
    /// The library has not been initialized.
    NotInitialized,
    /// No context is current for this thread.
    NoCurrentContext,
    /// One of the arguments was an invalid enum value.
    InvalidEnum,
    /// One of the arguments was an invalid value.
    InvalidValue,
    /// A memory allocation failed.
    OutOfMemory,
    /// The requested client API is not available on the system.
    ApiUnavailable,
    /// The requested client API version is not available.
    VersionUnavailable,
    /// A platform-specific error that fits no other category.
    PlatformError,
    /// The requested format is not supported or available.
    FormatUnavailable,
    /// The specified window has no rendering context.
    NoWindowContext,
    /// The specified cursor shape is not available.
    CursorUnavailable,
    /// The requested feature is not provided by the platform.
    FeatureUnavailable,
    /// The requested feature is not implemented for the platform.
    FeatureUnimplemented,
    /// Platform unavailable or no matching platform was found.
    PlatformUnavailable,
    /// Any other code the native layer may report.
    Custom(i32),
}

impl ErrorCode {
    /// The native numeric code of this error.
    pub open spec fn spec_code(self) -> i32 {
        match self {
            ErrorCode::NotInitialized => 0x00010001,
            ErrorCode::NoCurrentContext => 0x00010002,
            ErrorCode::InvalidEnum => 0x00010003,
            ErrorCode::InvalidValue => 0x00010004,
            ErrorCode::OutOfMemory => 0x00010005,
            ErrorCode::ApiUnavailable => 0x00010006,
            ErrorCode::VersionUnavailable => 0x00010007,
            ErrorCode::PlatformError => 0x00010008,
            ErrorCode::FormatUnavailable => 0x00010009,
            ErrorCode::NoWindowContext => 0x0001000A,
            ErrorCode::CursorUnavailable => 0x0001000B,
            ErrorCode::FeatureUnavailable => 0x0001000C,
            ErrorCode::FeatureUnimplemented => 0x0001000D,
            ErrorCode::PlatformUnavailable => 0x0001000E,
            ErrorCode::Custom(c) => c,
        }
    }

    /// The code an arbitrary native value maps to.
    pub open spec fn spec_from_code(value: i32) -> ErrorCode {
        if value == 0x00010001 {
            ErrorCode::NotInitialized
        } else if value == 0x00010002 {
            ErrorCode::NoCurrentContext
        } else if value == 0x00010003 {
            ErrorCode::InvalidEnum
        } else if value == 0x00010004 {
            ErrorCode::InvalidValue
        } else if value == 0x00010005 {
            ErrorCode::OutOfMemory
        } else if value == 0x00010006 {
            ErrorCode::ApiUnavailable
        } else if value == 0x00010007 {
            ErrorCode::VersionUnavailable
        } else if value == 0x00010008 {
            ErrorCode::PlatformError
        } else if value == 0x00010009 {
            ErrorCode::FormatUnavailable
        } else if value == 0x0001000A {
            ErrorCode::NoWindowContext
        } else if value == 0x0001000B {
            ErrorCode::CursorUnavailable
        } else if value == 0x0001000C {
            ErrorCode::FeatureUnavailable
        } else if value == 0x0001000D {
            ErrorCode::FeatureUnimplemented
        } else if value == 0x0001000E {
            ErrorCode::PlatformUnavailable
        } else {
            ErrorCode::Custom(value)
        }
    }

    /// The native numeric code of this error.
    pub fn code(self) -> (r: i32)
        ensures
            r == self.spec_code(),
    {
        match self {
            ErrorCode::NotInitialized => 0x00010001,
            ErrorCode::NoCurrentContext => 0x00010002,
            ErrorCode::InvalidEnum => 0x00010003,
            ErrorCode::InvalidValue => 0x00010004,
            ErrorCode::OutOfMemory => 0x00010005,
            ErrorCode::ApiUnavailable => 0x00010006,
            ErrorCode::VersionUnavailable => 0x00010007,
            ErrorCode::PlatformError => 0x00010008,
            ErrorCode::FormatUnavailable => 0x00010009,
            ErrorCode::NoWindowContext => 0x0001000A,
            ErrorCode::CursorUnavailable => 0x0001000B,
            ErrorCode::FeatureUnavailable => 0x0001000C,
            ErrorCode::FeatureUnimplemented => 0x0001000D,
            ErrorCode::PlatformUnavailable => 0x0001000E,
            ErrorCode::Custom(c) => c,
        }
    }
}

impl From<i32> for ErrorCode {
    /// Maps a raw native error code to the table, with unknown values kept
    /// verbatim in `Custom`.
    fn from(value: i32) -> (r: Self) {
        if value == 0x00010001 {
            ErrorCode::NotInitialized
        } else if value == 0x00010002 {
            ErrorCode::NoCurrentContext
        } else if value == 0x00010003 {
            ErrorCode::InvalidEnum
        } else if value == 0x00010004 {
            ErrorCode::InvalidValue
        } else if value == 0x00010005 {
            ErrorCode::OutOfMemory
        } else if value == 0x00010006 {
            ErrorCode::ApiUnavailable
        } else if value == 0x00010007 {
            ErrorCode::VersionUnavailable
        } else if value == 0x00010008 {
            ErrorCode::PlatformError
        } else if value == 0x00010009 {
            ErrorCode::FormatUnavailable
        } else if value == 0x0001000A {
            ErrorCode::NoWindowContext
        } else if value == 0x0001000B {
            ErrorCode::CursorUnavailable
        } else if value == 0x0001000C {
            ErrorCode::FeatureUnavailable
        } else if value == 0x0001000D {
            ErrorCode::FeatureUnimplemented
        } else if value == 0x0001000E {
            ErrorCode::PlatformUnavailable
        } else {
            ErrorCode::Custom(value)
        }
    }
}

impl vstd::std_specs::convert::FromSpecImpl<i32> for ErrorCode {
    open spec fn obeys_from_spec() -> bool {
        true
    }

    open spec fn from_spec(value: i32) -> Self {
        ErrorCode::spec_from_code(value)
    }
}

/// A structured native-style error: a code plus a human-readable description.
#[derive(Debug, Clone, Eq, PartialEq, Hash, PartialOrd, Ord)]
pub struct GlfwError {
    pub code: ErrorCode,
    pub description: String,
}

impl GlfwError {
    /// The error every monitor-accepting operation returns when the given
    /// monitor identity is no longer in the live set. `context` names the
    /// operation for the caller's benefit.
    pub fn dead_monitor(monitor: MonitorId, context: &str) -> (r: Self)
        ensures
            r.code == ErrorCode::PlatformError,
            r.description@ == "At "@ + context@ + ", the monitor is no longer alive"@,
    {
        let mut description = String::from_str("At ");
        description.append(context);
        description.append(", the monitor is no longer alive");
        let _ = monitor;
        GlfwError { code: ErrorCode::PlatformError, description }
    }

    /// The error used when the library itself is not (or no longer)
    /// initialized. `context` names the operation for the caller's benefit.
    pub fn dead_context(context: &str) -> (r: Self)
        ensures
            r.code == ErrorCode::NotInitialized,
            r.description@ == "At "@ + context@ + ", glfw is dead"@,
    {
        let mut description = String::from_str("At ");
        description.append(context);
        description.append(", glfw is dead");
        GlfwError { code: ErrorCode::NotInitialized, description }
    }
}

/// The platform the native layer runs on. `Null` is the simulated platform
/// used for testing.
#[derive(Debug, Clone, Copy, Eq, PartialEq, Hash, Structural)]
pub enum Platform {
    Win32,
    Cocoa,
    Wayland,
    X11,
    /// A simulated platform
    Null,
}

impl Platform {
    /// The native numeric code of this platform.
    pub open spec fn spec_code(self) -> i32 {
        match self {
            Platform::Win32 => 0x00060001,
            Platform::Cocoa => 0x00060002,
            Platform::Wayland => 0x00060003,
            Platform::X11 => 0x00060004,
            Platform::Null => 0x00060005,
        }
    }

    /// The platform a raw native value denotes, if any.
    pub open spec fn spec_from_code(value: i32) -> Option<Platform> {
        if value == 0x00060001 {
            Some(Platform::Win32)
        } else if value == 0x00060002 {
            Some(Platform::Cocoa)
        } else if value == 0x00060003 {
            Some(Platform::Wayland)
        } else if value == 0x00060004 {
            Some(Platform::X11)
        } else if value == 0x00060005 {
            Some(Platform::Null)
        } else {
            None
        }
    }

    /// The native numeric code of this platform.
    pub fn code(self) -> (r: i32)
        ensures
            r == self.spec_code(),
    {
        match self {
            Platform::Win32 => 0x00060001,
            Platform::Cocoa => 0x00060002,
            Platform::Wayland => 0x00060003,
            Platform::X11 => 0x00060004,
            Platform::Null => 0x00060005,
        }
    }
}

impl TryFrom<i32> for Platform {
    type Error = ();

    /// Validates a raw native platform value against the table.
    fn try_from(value: i32) -> (r: Result<Self, ()>) {
        if value == 0x00060001 {
            Ok(Platform::Win32)
        } else if value == 0x00060002 {
            Ok(Platform::Cocoa)
        } else if value == 0x00060003 {
            Ok(Platform::Wayland)
        } else if value == 0x00060004 {
            Ok(Platform::X11)
        } else if value == 0x00060005 {
            Ok(Platform::Null)
        } else {
            Err(())
        }
    }
}

impl vstd::std_specs::convert::TryFromSpecImpl<i32> for Platform {
    open spec fn obeys_try_from_spec() -> bool {
        true
    }

    open spec fn try_from_spec(value: i32) -> Result<Self, ()> {
        match Platform::spec_from_code(value) {
            Some(p) => Ok(p),
            None => Err(()),
        }
    }
}

/// The standard system cursor shapes.
#[derive(Debug, Clone, Copy, Eq, PartialEq, Hash, Structural, PartialOrd, Ord, Default)]
pub enum StdCursor {
    #[default]
    Arrow,
    Ibeam,
    Crosshair,
    PointingHand,
    ResizeEW,
    ResizeNS,
    ResizeNESW,
    ResizeNWSE,
    ResizeAll,
    NotAllowed,
}

impl StdCursor {
    /// The native numeric code of this value.
    pub open spec fn spec_code(self) -> i32 {
        match self {
            StdCursor::Arrow => 0x00036001,
            StdCursor::Ibeam => 0x00036002,
            StdCursor::Crosshair => 0x00036003,
            StdCursor::PointingHand => 0x00036004,
            StdCursor::ResizeEW => 0x00036005,
            StdCursor::ResizeNS => 0x00036006,
            StdCursor::ResizeNESW => 0x00036008,
            StdCursor::ResizeNWSE => 0x00036007,
            StdCursor::ResizeAll => 0x00036009,
            StdCursor::NotAllowed => 0x0003600A,
        }
    }

    /// The native numeric code of this value.
    pub fn code(self) -> (r: i32)
        ensures
            r == self.spec_code(),
    {
        match self {
            StdCursor::Arrow => 0x00036001,
            StdCursor::Ibeam => 0x00036002,
            StdCursor::Crosshair => 0x00036003,
            StdCursor::PointingHand => 0x00036004,
            StdCursor::ResizeEW => 0x00036005,
            StdCursor::ResizeNS => 0x00036006,
            StdCursor::ResizeNESW => 0x00036008,
            StdCursor::ResizeNWSE => 0x00036007,
            StdCursor::ResizeAll => 0x00036009,
            StdCursor::NotAllowed => 0x0003600A,
        }
    }
}

/// How the cursor behaves over a window: visible, hidden, grabbed or confined.
#[derive(Debug, Clone, Copy, Eq, PartialEq, Hash, Structural, PartialOrd, Ord, Default)]
pub enum CursorMode {
    /// Visible cursor behaving normally.
    #[default]
    Normal,
    /// Invisible over the content area, but free to leave.
    Hidden,
    /// Hidden and grabbed: virtual, unlimited cursor movement.
    Disabled,
    /// Visible but confined to the content area.
    Captured,
}

impl CursorMode {
    /// The native numeric code of this value.
    pub open spec fn spec_code(self) -> i32 {
        match self {
            CursorMode::Normal => 0x00034001,
            CursorMode::Hidden => 0x00034002,
            CursorMode::Disabled => 0x00034003,
            CursorMode::Captured => 0x00034004,
        }
    }

    /// The value a raw native code denotes, if any.
    pub open spec fn spec_from_code(value: i32) -> Option<CursorMode> {
        if value == 0x00034001 {
            Some(CursorMode::Normal)
        } else if value == 0x00034002 {
            Some(CursorMode::Hidden)
        } else if value == 0x00034003 {
            Some(CursorMode::Disabled)
        } else if value == 0x00034004 {
            Some(CursorMode::Captured)
        } else {
            None
        }
    }

    /// The native numeric code of this value.
    pub fn code(self) -> (r: i32)
        ensures
            r == self.spec_code(),
    {
        match self {
            CursorMode::Normal => 0x00034001,
            CursorMode::Hidden => 0x00034002,
            CursorMode::Disabled => 0x00034003,
            CursorMode::Captured => 0x00034004,
        }
    }
}

impl TryFrom<i32> for CursorMode {
    type Error = ();

    /// Validates a raw native code against the table.
    fn try_from(value: i32) -> (r: Result<Self, ()>) {
        if value == 0x00034001 {
            Ok(CursorMode::Normal)
        } else if value == 0x00034002 {
            Ok(CursorMode::Hidden)
        } else if value == 0x00034003 {
            Ok(CursorMode::Disabled)
        } else if value == 0x00034004 {
            Ok(CursorMode::Captured)
        } else {
            Err(())
        }
    }
}

impl vstd::std_specs::convert::TryFromSpecImpl<i32> for CursorMode {
    open spec fn obeys_try_from_spec() -> bool {
        true
    }

    open spec fn try_from_spec(value: i32) -> Result<Self, ()> {
        match CursorMode::spec_from_code(value) {
            Some(v) => Ok(v),
            None => Err(()),
        }
    }
}

/// The client rendering API a window is created for.
#[derive(Debug, Clone, Copy, Eq, PartialEq, Hash, Structural, PartialOrd, Ord, Default)]
pub enum ClientApi {
    #[default]
    OpenGL,
    OpenGLES,
    /// For APIs with their own surface creation, or no rendering at all.
    NoAPI,
}

impl ClientApi {
    /// The native numeric code of this value.
    pub open spec fn spec_code(self) -> i32 {
        match self {
            ClientApi::OpenGL => 0x00030001,
            ClientApi::OpenGLES => 0x00030002,
            ClientApi::NoAPI => 0,
        }
    }

    /// The value a raw native code denotes, if any.
    pub open spec fn spec_from_code(value: i32) -> Option<ClientApi> {
        if value == 0x00030001 {
            Some(ClientApi::OpenGL)
        } else if value == 0x00030002 {
            Some(ClientApi::OpenGLES)
        } else if value == 0 {
            Some(ClientApi::NoAPI)
        } else {
            None
        }
    }

    /// The native numeric code of this value.
    pub fn code(self) -> (r: i32)
        ensures
            r == self.spec_code(),
    {
        match self {
            ClientApi::OpenGL => 0x00030001,
            ClientApi::OpenGLES => 0x00030002,
            ClientApi::NoAPI => 0,
        }
    }
}

impl TryFrom<i32> for ClientApi {
    type Error = ();

    /// Validates a raw native code against the table.
    fn try_from(value: i32) -> (r: Result<Self, ()>) {
        if value == 0x00030001 {
            Ok(ClientApi::OpenGL)
        } else if value == 0x00030002 {
            Ok(ClientApi::OpenGLES)
        } else if value == 0 {
            Ok(ClientApi::NoAPI)
        } else {
            Err(())
        }
    }
}

impl vstd::std_specs::convert::TryFromSpecImpl<i32> for ClientApi {
    open spec fn obeys_try_from_spec() -> bool {
        true
    }

    open spec fn try_from_spec(value: i32) -> Result<Self, ()> {
        match ClientApi::spec_from_code(value) {
            Some(v) => Ok(v),
            None => Err(()),
        }
    }
}

/// Which native machinery creates the rendering context.
#[derive(Debug, Clone, Copy, Eq, PartialEq, Hash, Structural, PartialOrd, Ord, Default)]
pub enum ContextCreationApi {
    #[default]
    Native,
    Egl,
    Osmesa,
}

impl ContextCreationApi {
    /// The native numeric code of this value.
    pub open spec fn spec_code(self) -> i32 {
        match self {
            ContextCreationApi::Native => 0x00036001,
            ContextCreationApi::Egl => 0x00036002,
            ContextCreationApi::Osmesa => 0x00036003,
        }
    }

    /// The value a raw native code denotes, if any.
    pub open spec fn spec_from_code(value: i32) -> Option<ContextCreationApi> {
        if value == 0x00036001 {
            Some(ContextCreationApi::Native)
        } else if value == 0x00036002 {
            Some(ContextCreationApi::Egl)
        } else if value == 0x00036003 {
            Some(ContextCreationApi::Osmesa)
        } else {
            None
        }
    }

    /// The native numeric code of this value.
    pub fn code(self) -> (r: i32)
        ensures
            r == self.spec_code(),
    {
        match self {
            ContextCreationApi::Native => 0x00036001,
            ContextCreationApi::Egl => 0x00036002,
            ContextCreationApi::Osmesa => 0x00036003,
        }
    }
}

impl TryFrom<i32> for ContextCreationApi {
    type Error = ();

    /// Validates a raw native code against the table.
    fn try_from(value: i32) -> (r: Result<Self, ()>) {
        if value == 0x00036001 {
            Ok(ContextCreationApi::Native)
        } else if value == 0x00036002 {
            Ok(ContextCreationApi::Egl)
        } else if value == 0x00036003 {
            Ok(ContextCreationApi::Osmesa)
        } else {
            Err(())
        }
    }
}

impl vstd::std_specs::convert::TryFromSpecImpl<i32> for ContextCreationApi {
    open spec fn obeys_try_from_spec() -> bool {
        true
    }

    open spec fn try_from_spec(value: i32) -> Result<Self, ()> {
        match ContextCreationApi::spec_from_code(value) {
            Some(v) => Ok(v),
            None => Err(()),
        }
    }
}

/// The robustness strategy of the rendering context.
#[derive(Debug, Clone, Copy, Eq, PartialEq, Hash, Structural, PartialOrd, Ord, Default)]
pub enum Robustness {
    #[default]
    No,
    NoResetNotification,
    LoseContextOnReset,
}

impl Robustness {
    /// The native numeric code of this value.
    pub open spec fn spec_code(self) -> i32 {
        match self {
            Robustness::No => 0,
            Robustness::NoResetNotification => 0x00031001,
            Robustness::LoseContextOnReset => 0x00031002,
        }
    }

    /// The value a raw native code denotes, if any.
    pub open spec fn spec_from_code(value: i32) -> Option<Robustness> {
        if value == 0 {
            Some(Robustness::No)
        } else if value == 0x00031001 {
            Some(Robustness::NoResetNotification)
        } else if value == 0x00031002 {
            Some(Robustness::LoseContextOnReset)
        } else {
            None
        }
    }

    /// The native numeric code of this value.
    pub fn code(self) -> (r: i32)
        ensures
            r == self.spec_code(),
    {
        match self {
            Robustness::No => 0,
            Robustness::NoResetNotification => 0x00031001,
            Robustness::LoseContextOnReset => 0x00031002,
        }
    }
}

impl TryFrom<i32> for Robustness {
    type Error = ();

    /// Validates a raw native code against the table.
    fn try_from(value: i32) -> (r: Result<Self, ()>) {
        if value == 0 {
            Ok(Robustness::No)
        } else if value == 0x00031001 {
            Ok(Robustness::NoResetNotification)
        } else if value == 0x00031002 {
            Ok(Robustness::LoseContextOnReset)
        } else {
            Err(())
        }
    }
}

impl vstd::std_specs::convert::TryFromSpecImpl<i32> for Robustness {
    open spec fn obeys_try_from_spec() -> bool {
        true
    }

    open spec fn try_from_spec(value: i32) -> Result<Self, ()> {
        match Robustness::spec_from_code(value) {
            Some(v) => Ok(v),
            None => Err(()),
        }
    }
}

/// What happens to the pipeline when the context is released.
#[derive(Debug, Clone, Copy, Eq, PartialEq, Hash, Structural, PartialOrd, Ord, Default)]
pub enum ContextReleaseBehavior {
    #[default]
    Any,
    Flush,
    /// The pipeline is not flushed when the context is released.
    NoFlush,
}

impl ContextReleaseBehavior {
    /// The native numeric code of this value.
    pub open spec fn spec_code(self) -> i32 {
        match self {
            ContextReleaseBehavior::Any => 0,
            ContextReleaseBehavior::Flush => 0x00035001,
            ContextReleaseBehavior::NoFlush => 0x00035002,
        }
    }

    /// The value a raw native code denotes, if any.
    pub open spec fn spec_from_code(value: i32) -> Option<ContextReleaseBehavior> {
        if value == 0 {
            Some(ContextReleaseBehavior::Any)
        } else if value == 0x00035001 {
            Some(ContextReleaseBehavior::Flush)
        } else if value == 0x00035002 {
            Some(ContextReleaseBehavior::NoFlush)
        } else {
            None
        }
    }

    /// The native numeric code of this value.
    pub fn code(self) -> (r: i32)
        ensures
            r == self.spec_code(),
    {
        match self {
            ContextReleaseBehavior::Any => 0,
            ContextReleaseBehavior::Flush => 0x00035001,
            ContextReleaseBehavior::NoFlush => 0x00035002,
        }
    }
}

impl TryFrom<i32> for ContextReleaseBehavior {
    type Error = ();

    /// Validates a raw native code against the table.
    fn try_from(value: i32) -> (r: Result<Self, ()>) {
        if value == 0 {
            Ok(ContextReleaseBehavior::Any)
        } else if value == 0x00035001 {
            Ok(ContextReleaseBehavior::Flush)
        } else if value == 0x00035002 {
            Ok(ContextReleaseBehavior::NoFlush)
        } else {
            Err(())
        }
    }
}

impl vstd::std_specs::convert::TryFromSpecImpl<i32> for ContextReleaseBehavior {
    open spec fn obeys_try_from_spec() -> bool {
        true
    }

    open spec fn try_from_spec(value: i32) -> Result<Self, ()> {
        match ContextReleaseBehavior::spec_from_code(value) {
            Some(v) => Ok(v),
            None => Err(()),
        }
    }
}

/// The OpenGL profile the context must honour.
#[derive(Debug, Clone, Copy, Eq, PartialEq, Hash, Structural, PartialOrd, Ord, Default)]
pub enum OpenGLProfile {
    #[default]
    Any,
    Core,
    Compatibility,
}

impl OpenGLProfile {
    /// The native numeric code of this value.
    pub open spec fn spec_code(self) -> i32 {
        match self {
            OpenGLProfile::Any => 0,
            OpenGLProfile::Core => 0x00032001,
            OpenGLProfile::Compatibility => 0x00032002,
        }
    }

    /// The value a raw native code denotes, if any.
    pub open spec fn spec_from_code(value: i32) -> Option<OpenGLProfile> {
        if value == 0 {
            Some(OpenGLProfile::Any)
        } else if value == 0x00032001 {
            Some(OpenGLProfile::Core)
        } else if value == 0x00032002 {
            Some(OpenGLProfile::Compatibility)
        } else {
            None
        }
    }

    /// The native numeric code of this value.
    pub fn code(self) -> (r: i32)
        ensures
            r == self.spec_code(),
    {
        match self {
            OpenGLProfile::Any => 0,
            OpenGLProfile::Core => 0x00032001,
            OpenGLProfile::Compatibility => 0x00032002,
        }
    }
}

impl TryFrom<i32> for OpenGLProfile {
    type Error = ();

    /// Validates a raw native code against the table.
    fn try_from(value: i32) -> (r: Result<Self, ()>) {
        if value == 0 {
            Ok(OpenGLProfile::Any)
        } else if value == 0x00032001 {
            Ok(OpenGLProfile::Core)
        } else if value == 0x00032002 {
            Ok(OpenGLProfile::Compatibility)
        } else {
            Err(())
        }
    }
}

impl vstd::std_specs::convert::TryFromSpecImpl<i32> for OpenGLProfile {
    open spec fn obeys_try_from_spec() -> bool {
        true
    }

    open spec fn try_from_spec(value: i32) -> Result<Self, ()> {
        match OpenGLProfile::spec_from_code(value) {
            Some(v) => Ok(v),
            None => Err(()),
        }
    }
}

/// The rendering backend the ANGLE layer should use.
#[derive(Debug, Clone, Copy, Eq, PartialEq, Hash, Structural, PartialOrd, Ord)]
pub enum AnglePlatform {
    /// The ANGLE layer is not used.
    Disabled,
    OpenGL,
    OpenGLES,
    D3D9,
    D3D11,
    Vulkan,
    Metal,
}

impl AnglePlatform {
    /// The native numeric code of this value.
    pub open spec fn spec_code(self) -> i32 {
        match self {
            AnglePlatform::Disabled => 0x00037001,
            AnglePlatform::OpenGL => 0x00037002,
            AnglePlatform::OpenGLES => 0x00037003,
            AnglePlatform::D3D9 => 0x00037004,
            AnglePlatform::D3D11 => 0x00037005,
            AnglePlatform::Vulkan => 0x00037007,
            AnglePlatform::Metal => 0x00037008,
        }
    }

    /// The value a raw native code denotes, if any.
    pub open spec fn spec_from_code(value: i32) -> Option<AnglePlatform> {
        if value == 0x00037001 {
            Some(AnglePlatform::Disabled)
        } else if value == 0x00037002 {
            Some(AnglePlatform::OpenGL)
        } else if value == 0x00037003 {
            Some(AnglePlatform::OpenGLES)
        } else if value == 0x00037004 {
            Some(AnglePlatform::D3D9)
        } else if value == 0x00037005 {
            Some(AnglePlatform::D3D11)
        } else if value == 0x00037007 {
            Some(AnglePlatform::Vulkan)
        } else if value == 0x00037008 {
            Some(AnglePlatform::Metal)
        } else {
            None
        }
    }

    /// The native numeric code of this value.
    pub fn code(self) -> (r: i32)
        ensures
            r == self.spec_code(),
    {
        match self {
            AnglePlatform::Disabled => 0x00037001,
            AnglePlatform::OpenGL => 0x00037002,
            AnglePlatform::OpenGLES => 0x00037003,
            AnglePlatform::D3D9 => 0x00037004,
            AnglePlatform::D3D11 => 0x00037005,
            AnglePlatform::Vulkan => 0x00037007,
            AnglePlatform::Metal => 0x00037008,
        }
    }
}

impl TryFrom<i32> for AnglePlatform {
    type Error = ();

    /// Validates a raw native code against the table.
    fn try_from(value: i32) -> (r: Result<Self, ()>) {
        if value == 0x00037001 {
            Ok(AnglePlatform::Disabled)
        } else if value == 0x00037002 {
            Ok(AnglePlatform::OpenGL)
        } else if value == 0x00037003 {
            Ok(AnglePlatform::OpenGLES)
        } else if value == 0x00037004 {
            Ok(AnglePlatform::D3D9)
        } else if value == 0x00037005 {
            Ok(AnglePlatform::D3D11)
        } else if value == 0x00037007 {
            Ok(AnglePlatform::Vulkan)
        } else if value == 0x00037008 {
            Ok(AnglePlatform::Metal)
        } else {
            Err(())
        }
    }
}

impl vstd::std_specs::convert::TryFromSpecImpl<i32> for AnglePlatform {
    open spec fn obeys_try_from_spec() -> bool {
        true
    }

    open spec fn try_from_spec(value: i32) -> Result<Self, ()> {
        match AnglePlatform::spec_from_code(value) {
            Some(v) => Ok(v),
            None => Err(()),
        }
    }
}

/// A mouse button, as reported by input callbacks.
#[derive(Debug, Clone, Copy, Eq, PartialEq, Hash, Structural, PartialOrd, Ord)]
pub enum MouseButton {
    Left,
    Right,
    Middle,
    Button4,
    Button5,
    Button6,
    Button7,
    Button8,
}

impl MouseButton {
    /// The native numeric code of this value.
    pub open spec fn spec_code(self) -> i32 {
        match self {
            MouseButton::Left => 0,
            MouseButton::Right => 1,
            MouseButton::Middle => 2,
            MouseButton::Button4 => 3,
            MouseButton::Button5 => 4,
            MouseButton::Button6 => 5,
            MouseButton::Button7 => 6,
            MouseButton::Button8 => 7,
        }
    }

    /// The value a raw native code denotes, if any.
    pub open spec fn spec_from_code(value: i32) -> Option<MouseButton> {
        if value == 0 {
            Some(MouseButton::Left)
        } else if value == 1 {
            Some(MouseButton::Right)
        } else if value == 2 {
            Some(MouseButton::Middle)
        } else if value == 3 {
            Some(MouseButton::Button4)
        } else if value == 4 {
            Some(MouseButton::Button5)
        } else if value == 5 {
            Some(MouseButton::Button6)
        } else if value == 6 {
            Some(MouseButton::Button7)
        } else if value == 7 {
            Some(MouseButton::Button8)
        } else {
            None
        }
    }

    /// The native numeric code of this value.
    pub fn code(self) -> (r: i32)
        ensures
            r == self.spec_code(),
    {
        match self {
            MouseButton::Left => 0,
            MouseButton::Right => 1,
            MouseButton::Middle => 2,
            MouseButton::Button4 => 3,
            MouseButton::Button5 => 4,
            MouseButton::Button6 => 5,
            MouseButton::Button7 => 6,
            MouseButton::Button8 => 7,
        }
    }
}

impl TryFrom<i32> for MouseButton {
    type Error = ();

    /// Validates a raw native code against the table.
    fn try_from(value: i32) -> (r: Result<Self, ()>) {
        if value == 0 {
            Ok(MouseButton::Left)
        } else if value == 1 {
            Ok(MouseButton::Right)
        } else if value == 2 {
            Ok(MouseButton::Middle)
        } else if value == 3 {
            Ok(MouseButton::Button4)
        } else if value == 4 {
            Ok(MouseButton::Button5)
        } else if value == 5 {
            Ok(MouseButton::Button6)
        } else if value == 6 {
            Ok(MouseButton::Button7)
        } else if value == 7 {
            Ok(MouseButton::Button8)
        } else {
            Err(())
        }
    }
}

impl vstd::std_specs::convert::TryFromSpecImpl<i32> for MouseButton {
    open spec fn obeys_try_from_spec() -> bool {
        true
    }

    open spec fn try_from_spec(value: i32) -> Result<Self, ()> {
        match MouseButton::spec_from_code(value) {
            Some(v) => Ok(v),
            None => Err(()),
        }
    }
}

/// One of the sixteen joystick slots.
#[derive(Debug, Clone, Copy, Eq, PartialEq, Hash, Structural, PartialOrd, Ord)]
pub enum Joystick {
    Joystick1,
    Joystick2,
    Joystick3,
    Joystick4,
    Joystick5,
    Joystick6,
    Joystick7,
    Joystick8,
    Joystick9,
    Joystick10,
    Joystick11,
    Joystick12,
    Joystick13,
    Joystick14,
    Joystick15,
    Joystick16,
}

impl Joystick {
    /// The native numeric code of this value.
    pub open spec fn spec_code(self) -> i32 {
        match self {
            Joystick::Joystick1 => 0,
            Joystick::Joystick2 => 1,
            Joystick::Joystick3 => 2,
            Joystick::Joystick4 => 3,
            Joystick::Joystick5 => 4,
            Joystick::Joystick6 => 5,
            Joystick::Joystick7 => 6,
            Joystick::Joystick8 => 7,
            Joystick::Joystick9 => 8,
            Joystick::Joystick10 => 9,
            Joystick::Joystick11 => 10,
            Joystick::Joystick12 => 11,
            Joystick::Joystick13 => 12,
            Joystick::Joystick14 => 13,
            Joystick::Joystick15 => 14,
            Joystick::Joystick16 => 15,
        }
    }

    /// The value a raw native code denotes, if any.
    pub open spec fn spec_from_code(value: i32) -> Option<Joystick> {
        if value == 0 {
            Some(Joystick::Joystick1)
        } else if value == 1 {
            Some(Joystick::Joystick2)
        } else if value == 2 {
            Some(Joystick::Joystick3)
        } else if value == 3 {
            Some(Joystick::Joystick4)
        } else if value == 4 {
            Some(Joystick::Joystick5)
        } else if value == 5 {
            Some(Joystick::Joystick6)
        } else if value == 6 {
            Some(Joystick::Joystick7)
        } else if value == 7 {
            Some(Joystick::Joystick8)
        } else if value == 8 {
            Some(Joystick::Joystick9)
        } else if value == 9 {
            Some(Joystick::Joystick10)
        } else if value == 10 {
            Some(Joystick::Joystick11)
        } else if value == 11 {
            Some(Joystick::Joystick12)
        } else if value == 12 {
            Some(Joystick::Joystick13)
        } else if value == 13 {
            Some(Joystick::Joystick14)
        } else if value == 14 {
            Some(Joystick::Joystick15)
        } else if value == 15 {
            Some(Joystick::Joystick16)
        } else {
            None
        }
    }

    /// The native numeric code of this value.
    pub fn code(self) -> (r: i32)
        ensures
            r == self.spec_code(),
    {
        match self {
            Joystick::Joystick1 => 0,
            Joystick::Joystick2 => 1,
            Joystick::Joystick3 => 2,
            Joystick::Joystick4 => 3,
            Joystick::Joystick5 => 4,
            Joystick::Joystick6 => 5,
            Joystick::Joystick7 => 6,
            Joystick::Joystick8 => 7,
            Joystick::Joystick9 => 8,
            Joystick::Joystick10 => 9,
            Joystick::Joystick11 => 10,
            Joystick::Joystick12 => 11,
            Joystick::Joystick13 => 12,
            Joystick::Joystick14 => 13,
            Joystick::Joystick15 => 14,
            Joystick::Joystick16 => 15,
        }
    }
}

impl TryFrom<i32> for Joystick {
    type Error = ();

    /// Validates a raw native code against the table.
    fn try_from(value: i32) -> (r: Result<Self, ()>) {
        if value == 0 {
            Ok(Joystick::Joystick1)
        } else if value == 1 {
            Ok(Joystick::Joystick2)
        } else if value == 2 {
            Ok(Joystick::Joystick3)
        } else if value == 3 {
            Ok(Joystick::Joystick4)
        } else if value == 4 {
            Ok(Joystick::Joystick5)
        } else if value == 5 {
            Ok(Joystick::Joystick6)
        } else if value == 6 {
            Ok(Joystick::Joystick7)
        } else if value == 7 {
            Ok(Joystick::Joystick8)
        } else if value == 8 {
            Ok(Joystick::Joystick9)
        } else if value == 9 {
            Ok(Joystick::Joystick10)
        } else if value == 10 {
            Ok(Joystick::Joystick11)
        } else if value == 11 {
            Ok(Joystick::Joystick12)
        } else if value == 12 {
            Ok(Joystick::Joystick13)
        } else if value == 13 {
            Ok(Joystick::Joystick14)
        } else if value == 14 {
            Ok(Joystick::Joystick15)
        } else if value == 15 {
            Ok(Joystick::Joystick16)
        } else {
            Err(())
        }
    }
}

impl vstd::std_specs::convert::TryFromSpecImpl<i32> for Joystick {
    open spec fn obeys_try_from_spec() -> bool {
        true
    }

    open spec fn try_from_spec(value: i32) -> Result<Self, ()> {
        match Joystick::spec_from_code(value) {
            Some(v) => Ok(v),
            None => Err(()),
        }
    }
}

/// A physical key token, named after the standard US keyboard layout.
#[derive(Debug, Clone, Copy, Eq, PartialEq, Hash, Structural, PartialOrd, Ord)]
pub enum Key {
    Space,
    Apostrophe,
    Comma,
    Minus,
    Period,
    Slash,
    Num0,
    Num1,
    Num2,
    Num3,
    Num4,
    Num5,
    Num6,
    Num7,
    Num8,
    Num9,
    Semicolon,
    Equal,
    A,
    B,
    C,
    D,
    E,
    F,
    G,
    H,
    I,
    J,
    K,
    L,
    M,
    N,
    O,
    P,
    Q,
    R,
    S,
    T,
    U,
    V,
    W,
    X,
    Y,
    Z,
    LeftBracket,
    Backslash,
    RightBracket,
    GraveAccent,
    World1,
    World2,
    Escape,
    Enter,
    Tab,
    Backspace,
    Insert,
    Delete,
    Right,
    Left,
    Down,
    Up,
    PageUp,
    PageDown,
    Home,
    End,
    CapsLock,
    ScrollLock,
    NumLock,
    PrintScreen,
    Pause,
    F1,
    F2,
    F3,
    F4,
    F5,
    F6,
    F7,
    F8,
    F9,
    F10,
    F11,
    F12,
    F13,
    F14,
    F15,
    F16,
    F17,
    F18,
    F19,
    F20,
    F21,
    F22,
    F23,
    F24,
    F25,
    Kp0,
    Kp1,
    Kp2,
    Kp3,
    Kp4,
    Kp5,
    Kp6,
    Kp7,
    Kp8,
    Kp9,
    KpDecimal,
    KpDivide,
    KpMultiply,
    KpSubtract,
    KpAdd,
    KpEnter,
    KpEqual,
    LeftShift,
    LeftControl,
    LeftAlt,
    LeftSuper,
    RightShift,
    RightControl,
    RightAlt,
    RightSuper,
    Menu,
}

impl Key {
    /// The native numeric code of this value.
    pub open spec fn spec_code(self) -> i32 {
        match self {
            Key::Space => 32,
            Key::Apostrophe => 39,
            Key::Comma => 44,
            Key::Minus => 45,
            Key::Period => 46,
            Key::Slash => 47,
            Key::Num0 => 48,
            Key::Num1 => 49,
            Key::Num2 => 50,
            Key::Num3 => 51,
            Key::Num4 => 52,
            Key::Num5 => 53,
            Key::Num6 => 54,
            Key::Num7 => 55,
            Key::Num8 => 56,
            Key::Num9 => 57,
            Key::Semicolon => 59,
            Key::Equal => 61,
            Key::A => 65,
            Key::B => 66,
            Key::C => 67,
            Key::D => 68,
            Key::E => 69,
            Key::F => 70,
            Key::G => 71,
            Key::H => 72,
            Key::I => 73,
            Key::J => 74,
            Key::K => 75,
            Key::L => 76,
            Key::M => 77,
            Key::N => 78,
            Key::O => 79,
            Key::P => 80,
            Key::Q => 81,
            Key::R => 82,
            Key::S => 83,
            Key::T => 84,
            Key::U => 85,
            Key::V => 86,
            Key::W => 87,
            Key::X => 88,
            Key::Y => 89,
            Key::Z => 90,
            Key::LeftBracket => 91,
            Key::Backslash => 92,
            Key::RightBracket => 93,
            Key::GraveAccent => 96,
            Key::World1 => 161,
            Key::World2 => 162,
            Key::Escape => 256,
            Key::Enter => 257,
            Key::Tab => 258,
            Key::Backspace => 259,
            Key::Insert => 260,
            Key::Delete => 261,
            Key::Right => 262,
            Key::Left => 263,
            Key::Down => 264,
            Key::Up => 265,
            Key::PageUp => 266,
            Key::PageDown => 267,
            Key::Home => 268,
            Key::End => 269,
            Key::CapsLock => 280,
            Key::ScrollLock => 281,
            Key::NumLock => 282,
            Key::PrintScreen => 283,
            Key::Pause => 284,
            Key::F1 => 290,
            Key::F2 => 291,
            Key::F3 => 292,
            Key::F4 => 293,
            Key::F5 => 294,
            Key::F6 => 295,
            Key::F7 => 296,
            Key::F8 => 297,
            Key::F9 => 298,
            Key::F10 => 299,
            Key::F11 => 300,
            Key::F12 => 301,
            Key::F13 => 302,
            Key::F14 => 303,
            Key::F15 => 304,
            Key::F16 => 305,
            Key::F17 => 306,
            Key::F18 => 307,
            Key::F19 => 308,
            Key::F20 => 309,
            Key::F21 => 310,
            Key::F22 => 311,
            Key::F23 => 312,
            Key::F24 => 313,
            Key::F25 => 314,
            Key::Kp0 => 320,
            Key::Kp1 => 321,
            Key::Kp2 => 322,
            Key::Kp3 => 323,
            Key::Kp4 => 324,
            Key::Kp5 => 325,
            Key::Kp6 => 326,
            Key::Kp7 => 327,
            Key::Kp8 => 328,
            Key::Kp9 => 329,
            Key::KpDecimal => 330,
            Key::KpDivide => 331,
            Key::KpMultiply => 332,
            Key::KpSubtract => 333,
            Key::KpAdd => 334,
            Key::KpEnter => 335,
            Key::KpEqual => 336,
            Key::LeftShift => 340,
            Key::LeftControl => 341,
            Key::LeftAlt => 342,
            Key::LeftSuper => 343,
            Key::RightShift => 344,
            Key::RightControl => 345,
            Key::RightAlt => 346,
            Key::RightSuper => 347,
            Key::Menu => 348,
        }
    }

    /// The value a raw native code denotes, if any.
    pub open spec fn spec_from_code(value: i32) -> Option<Key> {
        if value == 32 {
            Some(Key::Space)
        } else if value == 39 {
            Some(Key::Apostrophe)
        } else if value == 44 {
            Some(Key::Comma)
        } else if value == 45 {
            Some(Key::Minus)
        } else if value == 46 {
            Some(Key::Period)
        } else if value == 47 {
            Some(Key::Slash)
        } else if value == 48 {
            Some(Key::Num0)
        } else if value == 49 {
            Some(Key::Num1)
        } else if value == 50 {
            Some(Key::Num2)
        } else if value == 51 {
            Some(Key::Num3)
        } else if value == 52 {
            Some(Key::Num4)
        } else if value == 53 {
            Some(Key::Num5)
        } else if value == 54 {
            Some(Key::Num6)
        } else if value == 55 {
            Some(Key::Num7)
        } else if value == 56 {
            Some(Key::Num8)
        } else if value == 57 {
            Some(Key::Num9)
        } else if value == 59 {
            Some(Key::Semicolon)
        } else if value == 61 {
            Some(Key::Equal)
        } else if value == 65 {
            Some(Key::A)
        } else if value == 66 {
            Some(Key::B)
        } else if value == 67 {
            Some(Key::C)
        } else if value == 68 {
            Some(Key::D)
        } else if value == 69 {
            Some(Key::E)
        } else if value == 70 {
            Some(Key::F)
        } else if value == 71 {
            Some(Key::G)
        } else if value == 72 {
            Some(Key::H)
        } else if value == 73 {
            Some(Key::I)
        } else if value == 74 {
            Some(Key::J)
        } else if value == 75 {
            Some(Key::K)
        } else if value == 76 {
            Some(Key::L)
        } else if value == 77 {
            Some(Key::M)
        } else if value == 78 {
            Some(Key::N)
        } else if value == 79 {
            Some(Key::O)
        } else if value == 80 {
            Some(Key::P)
        } else if value == 81 {
            Some(Key::Q)
        } else if value == 82 {
            Some(Key::R)
        } else if value == 83 {
            Some(Key::S)
        } else if value == 84 {
            Some(Key::T)
        } else if value == 85 {
            Some(Key::U)
        } else if value == 86 {
            Some(Key::V)
        } else if value == 87 {
            Some(Key::W)
        } else if value == 88 {
            Some(Key::X)
        } else if value == 89 {
            Some(Key::Y)
        } else if value == 90 {
            Some(Key::Z)
        } else if value == 91 {
            Some(Key::LeftBracket)
        } else if value == 92 {
            Some(Key::Backslash)
        } else if value == 93 {
            Some(Key::RightBracket)
        } else if value == 96 {
            Some(Key::GraveAccent)
        } else if value == 161 {
            Some(Key::World1)
        } else if value == 162 {
            Some(Key::World2)
        } else if value == 256 {
            Some(Key::Escape)
        } else if value == 257 {
            Some(Key::Enter)
        } else if value == 258 {
            Some(Key::Tab)
        } else if value == 259 {
            Some(Key::Backspace)
        } else if value == 260 {
            Some(Key::Insert)
        } else if value == 261 {
            Some(Key::Delete)
        } else if value == 262 {
            Some(Key::Right)
        } else if value == 263 {
            Some(Key::Left)
        } else if value == 264 {
            Some(Key::Down)
        } else if value == 265 {
            Some(Key::Up)
        } else if value == 266 {
            Some(Key::PageUp)
        } else if value == 267 {
            Some(Key::PageDown)
        } else if value == 268 {
            Some(Key::Home)
        } else if value == 269 {
            Some(Key::End)
        } else if value == 280 {
            Some(Key::CapsLock)
        } else if value == 281 {
            Some(Key::ScrollLock)
        } else if value == 282 {
            Some(Key::NumLock)
        } else if value == 283 {
            Some(Key::PrintScreen)
        } else if value == 284 {
            Some(Key::Pause)
        } else if value == 290 {
            Some(Key::F1)
        } else if value == 291 {
            Some(Key::F2)
        } else if value == 292 {
            Some(Key::F3)
        } else if value == 293 {
            Some(Key::F4)
        } else if value == 294 {
            Some(Key::F5)
        } else if value == 295 {
            Some(Key::F6)
        } else if value == 296 {
            Some(Key::F7)
        } else if value == 297 {
            Some(Key::F8)
        } else if value == 298 {
            Some(Key::F9)
        } else if value == 299 {
            Some(Key::F10)
        } else if value == 300 {
            Some(Key::F11)
        } else if value == 301 {
            Some(Key::F12)
        } else if value == 302 {
            Some(Key::F13)
        } else if value == 303 {
            Some(Key::F14)
        } else if value == 304 {
            Some(Key::F15)
        } else if value == 305 {
            Some(Key::F16)
        } else if value == 306 {
            Some(Key::F17)
        } else if value == 307 {
            Some(Key::F18)
        } else if value == 308 {
            Some(Key::F19)
        } else if value == 309 {
            Some(Key::F20)
        } else if value == 310 {
            Some(Key::F21)
        } else if value == 311 {
            Some(Key::F22)
        } else if value == 312 {
            Some(Key::F23)
        } else if value == 313 {
            Some(Key::F24)
        } else if value == 314 {
            Some(Key::F25)
        } else if value == 320 {
            Some(Key::Kp0)
        } else if value == 321 {
            Some(Key::Kp1)
        } else if value == 322 {
            Some(Key::Kp2)
        } else if value == 323 {
            Some(Key::Kp3)
        } else if value == 324 {
            Some(Key::Kp4)
        } else if value == 325 {
            Some(Key::Kp5)
        } else if value == 326 {
            Some(Key::Kp6)
        } else if value == 327 {
            Some(Key::Kp7)
        } else if value == 328 {
            Some(Key::Kp8)
        } else if value == 329 {
            Some(Key::Kp9)
        } else if value == 330 {
            Some(Key::KpDecimal)
        } else if value == 331 {
            Some(Key::KpDivide)
        } else if value == 332 {
            Some(Key::KpMultiply)
        } else if value == 333 {
            Some(Key::KpSubtract)
        } else if value == 334 {
            Some(Key::KpAdd)
        } else if value == 335 {
            Some(Key::KpEnter)
        } else if value == 336 {
            Some(Key::KpEqual)
        } else if value == 340 {
            Some(Key::LeftShift)
        } else if value == 341 {
            Some(Key::LeftControl)
        } else if value == 342 {
            Some(Key::LeftAlt)
        } else if value == 343 {
            Some(Key::LeftSuper)
        } else if value == 344 {
            Some(Key::RightShift)
        } else if value == 345 {
            Some(Key::RightControl)
        } else if value == 346 {
            Some(Key::RightAlt)
        } else if value == 347 {
            Some(Key::RightSuper)
        } else if value == 348 {
            Some(Key::Menu)
        } else {
            None
        }
    }

    /// The native numeric code of this value.
    pub fn code(self) -> (r: i32)
        ensures
            r == self.spec_code(),
    {
        match self {
            Key::Space => 32,
            Key::Apostrophe => 39,
            Key::Comma => 44,
            Key::Minus => 45,
            Key::Period => 46,
            Key::Slash => 47,
            Key::Num0 => 48,
            Key::Num1 => 49,
            Key::Num2 => 50,
            Key::Num3 => 51,
            Key::Num4 => 52,
            Key::Num5 => 53,
            Key::Num6 => 54,
            Key::Num7 => 55,
            Key::Num8 => 56,
            Key::Num9 => 57,
            Key::Semicolon => 59,
            Key::Equal => 61,
            Key::A => 65,
            Key::B => 66,
            Key::C => 67,
            Key::D => 68,
            Key::E => 69,
            Key::F => 70,
            Key::G => 71,
            Key::H => 72,
            Key::I => 73,
            Key::J => 74,
            Key::K => 75,
            Key::L => 76,
            Key::M => 77,
            Key::N => 78,
            Key::O => 79,
            Key::P => 80,
            Key::Q => 81,
            Key::R => 82,
            Key::S => 83,
            Key::T => 84,
            Key::U => 85,
            Key::V => 86,
            Key::W => 87,
            Key::X => 88,
            Key::Y => 89,
            Key::Z => 90,
            Key::LeftBracket => 91,
            Key::Backslash => 92,
            Key::RightBracket => 93,
            Key::GraveAccent => 96,
            Key::World1 => 161,
            Key::World2 => 162,
            Key::Escape => 256,
            Key::Enter => 257,
            Key::Tab => 258,
            Key::Backspace => 259,
            Key::Insert => 260,
            Key::Delete => 261,
            Key::Right => 262,
            Key::Left => 263,
            Key::Down => 264,
            Key::Up => 265,
            Key::PageUp => 266,
            Key::PageDown => 267,
            Key::Home => 268,
            Key::End => 269,
            Key::CapsLock => 280,
            Key::ScrollLock => 281,
            Key::NumLock => 282,
            Key::PrintScreen => 283,
            Key::Pause => 284,
            Key::F1 => 290,
            Key::F2 => 291,
            Key::F3 => 292,
            Key::F4 => 293,
            Key::F5 => 294,
            Key::F6 => 295,
            Key::F7 => 296,
            Key::F8 => 297,
            Key::F9 => 298,
            Key::F10 => 299,
            Key::F11 => 300,
            Key::F12 => 301,
            Key::F13 => 302,
            Key::F14 => 303,
            Key::F15 => 304,
            Key::F16 => 305,
            Key::F17 => 306,
            Key::F18 => 307,
            Key::F19 => 308,
            Key::F20 => 309,
            Key::F21 => 310,
            Key::F22 => 311,
            Key::F23 => 312,
            Key::F24 => 313,
            Key::F25 => 314,
            Key::Kp0 => 320,
            Key::Kp1 => 321,
            Key::Kp2 => 322,
            Key::Kp3 => 323,
            Key::Kp4 => 324,
            Key::Kp5 => 325,
            Key::Kp6 => 326,
            Key::Kp7 => 327,
            Key::Kp8 => 328,
            Key::Kp9 => 329,
            Key::KpDecimal => 330,
            Key::KpDivide => 331,
            Key::KpMultiply => 332,
            Key::KpSubtract => 333,
            Key::KpAdd => 334,
            Key::KpEnter => 335,
            Key::KpEqual => 336,
            Key::LeftShift => 340,
            Key::LeftControl => 341,
            Key::LeftAlt => 342,
            Key::LeftSuper => 343,
            Key::RightShift => 344,
            Key::RightControl => 345,
            Key::RightAlt => 346,
            Key::RightSuper => 347,
            Key::Menu => 348,
        }
    }
}

impl TryFrom<i32> for Key {
    type Error = ();

    /// Validates a raw native code against the table.
    fn try_from(value: i32) -> (r: Result<Self, ()>) {
        if value == 32 {
            Ok(Key::Space)
        } else if value == 39 {
            Ok(Key::Apostrophe)
        } else if value == 44 {
            Ok(Key::Comma)
        } else if value == 45 {
            Ok(Key::Minus)
        } else if value == 46 {
            Ok(Key::Period)
        } else if value == 47 {
            Ok(Key::Slash)
        } else if value == 48 {
            Ok(Key::Num0)
        } else if value == 49 {
            Ok(Key::Num1)
        } else if value == 50 {
            Ok(Key::Num2)
        } else if value == 51 {
            Ok(Key::Num3)
        } else if value == 52 {
            Ok(Key::Num4)
        } else if value == 53 {
            Ok(Key::Num5)
        } else if value == 54 {
            Ok(Key::Num6)
        } else if value == 55 {
            Ok(Key::Num7)
        } else if value == 56 {
            Ok(Key::Num8)
        } else if value == 57 {
            Ok(Key::Num9)
        } else if value == 59 {
            Ok(Key::Semicolon)
        } else if value == 61 {
            Ok(Key::Equal)
        } else if value == 65 {
            Ok(Key::A)
        } else if value == 66 {
            Ok(Key::B)
        } else if value == 67 {
            Ok(Key::C)
        } else if value == 68 {
            Ok(Key::D)
        } else if value == 69 {
            Ok(Key::E)
        } else if value == 70 {
            Ok(Key::F)
        } else if value == 71 {
            Ok(Key::G)
        } else if value == 72 {
            Ok(Key::H)
        } else if value == 73 {
            Ok(Key::I)
        } else if value == 74 {
            Ok(Key::J)
        } else if value == 75 {
            Ok(Key::K)
        } else if value == 76 {
            Ok(Key::L)
        } else if value == 77 {
            Ok(Key::M)
        } else if value == 78 {
            Ok(Key::N)
        } else if value == 79 {
            Ok(Key::O)
        } else if value == 80 {
            Ok(Key::P)
        } else if value == 81 {
            Ok(Key::Q)
        } else if value == 82 {
            Ok(Key::R)
        } else if value == 83 {
            Ok(Key::S)
        } else if value == 84 {
            Ok(Key::T)
        } else if value == 85 {
            Ok(Key::U)
        } else if value == 86 {
            Ok(Key::V)
        } else if value == 87 {
            Ok(Key::W)
        } else if value == 88 {
            Ok(Key::X)
        } else if value == 89 {
            Ok(Key::Y)
        } else if value == 90 {
            Ok(Key::Z)
        } else if value == 91 {
            Ok(Key::LeftBracket)
        } else if value == 92 {
            Ok(Key::Backslash)
        } else if value == 93 {
            Ok(Key::RightBracket)
        } else if value == 96 {
            Ok(Key::GraveAccent)
        } else if value == 161 {
            Ok(Key::World1)
        } else if value == 162 {
            Ok(Key::World2)
        } else if value == 256 {
            Ok(Key::Escape)
        } else if value == 257 {
            Ok(Key::Enter)
        } else if value == 258 {
            Ok(Key::Tab)
        } else if value == 259 {
            Ok(Key::Backspace)
        } else if value == 260 {
            Ok(Key::Insert)
        } else if value == 261 {
            Ok(Key::Delete)
        } else if value == 262 {
            Ok(Key::Right)
        } else if value == 263 {
            Ok(Key::Left)
        } else if value == 264 {
            Ok(Key::Down)
        } else if value == 265 {
            Ok(Key::Up)
        } else if value == 266 {
            Ok(Key::PageUp)
        } else if value == 267 {
            Ok(Key::PageDown)
        } else if value == 268 {
            Ok(Key::Home)
        } else if value == 269 {
            Ok(Key::End)
        } else if value == 280 {
            Ok(Key::CapsLock)
        } else if value == 281 {
            Ok(Key::ScrollLock)
        } else if value == 282 {
            Ok(Key::NumLock)
        } else if value == 283 {
            Ok(Key::PrintScreen)
        } else if value == 284 {
            Ok(Key::Pause)
        } else if value == 290 {
            Ok(Key::F1)
        } else if value == 291 {
            Ok(Key::F2)
        } else if value == 292 {
            Ok(Key::F3)
        } else if value == 293 {
            Ok(Key::F4)
        } else if value == 294 {
            Ok(Key::F5)
        } else if value == 295 {
            Ok(Key::F6)
        } else if value == 296 {
            Ok(Key::F7)
        } else if value == 297 {
            Ok(Key::F8)
        } else if value == 298 {
            Ok(Key::F9)
        } else if value == 299 {
            Ok(Key::F10)
        } else if value == 300 {
            Ok(Key::F11)
        } else if value == 301 {
            Ok(Key::F12)
        } else if value == 302 {
            Ok(Key::F13)
        } else if value == 303 {
            Ok(Key::F14)
        } else if value == 304 {
            Ok(Key::F15)
        } else if value == 305 {
            Ok(Key::F16)
        } else if value == 306 {
            Ok(Key::F17)
        } else if value == 307 {
            Ok(Key::F18)
        } else if value == 308 {
            Ok(Key::F19)
        } else if value == 309 {
            Ok(Key::F20)
        } else if value == 310 {
            Ok(Key::F21)
        } else if value == 311 {
            Ok(Key::F22)
        } else if value == 312 {
            Ok(Key::F23)
        } else if value == 313 {
            Ok(Key::F24)
        } else if value == 314 {
            Ok(Key::F25)
        } else if value == 320 {
            Ok(Key::Kp0)
        } else if value == 321 {
            Ok(Key::Kp1)
        } else if value == 322 {
            Ok(Key::Kp2)
        } else if value == 323 {
            Ok(Key::Kp3)
        } else if value == 324 {
            Ok(Key::Kp4)
        } else if value == 325 {
            Ok(Key::Kp5)
        } else if value == 326 {
            Ok(Key::Kp6)
        } else if value == 327 {
            Ok(Key::Kp7)
        } else if value == 328 {
            Ok(Key::Kp8)
        } else if value == 329 {
            Ok(Key::Kp9)
        } else if value == 330 {
            Ok(Key::KpDecimal)
        } else if value == 331 {
            Ok(Key::KpDivide)
        } else if value == 332 {
            Ok(Key::KpMultiply)
        } else if value == 333 {
            Ok(Key::KpSubtract)
        } else if value == 334 {
            Ok(Key::KpAdd)
        } else if value == 335 {
            Ok(Key::KpEnter)
        } else if value == 336 {
            Ok(Key::KpEqual)
        } else if value == 340 {
            Ok(Key::LeftShift)
        } else if value == 341 {
            Ok(Key::LeftControl)
        } else if value == 342 {
            Ok(Key::LeftAlt)
        } else if value == 343 {
            Ok(Key::LeftSuper)
        } else if value == 344 {
            Ok(Key::RightShift)
        } else if value == 345 {
            Ok(Key::RightControl)
        } else if value == 346 {
            Ok(Key::RightAlt)
        } else if value == 347 {
            Ok(Key::RightSuper)
        } else if value == 348 {
            Ok(Key::Menu)
        } else {
            Err(())
        }
    }
}

impl vstd::std_specs::convert::TryFromSpecImpl<i32> for Key {
    open spec fn obeys_try_from_spec() -> bool {
        true
    }

    open spec fn try_from_spec(value: i32) -> Result<Self, ()> {
        match Key::spec_from_code(value) {
            Some(v) => Ok(v),
            None => Err(()),
        }
    }
}


/// Modifier key bits attached to key and mouse-button events.
///
/// A hand-rolled bit set: shift 1, control 2, alt 4, super 8, caps-lock 16,
/// num-lock 32. Any combination of those six bits is valid.
#[derive(Debug, Clone, Copy, Eq, PartialEq, Hash, PartialOrd, Ord, Structural)]
pub struct Modifiers {
    pub bits: i32,
}

impl Modifiers {
    /// Only the six defined bits may be set.
    pub open spec fn wf(self) -> bool {
        0 <= self.bits <= 0x3F
    }

    /// Validates raw native modifier bits; values with unknown bits are
    /// rejected.
    pub fn from_bits(bits: i32) -> (r: Option<Modifiers>)
        ensures
            r == if 0 <= bits <= 0x3F {
                Some(Modifiers { bits })
            } else {
                None::<Modifiers>
            },
            r is Some ==> r->0.wf(),
    {
        if 0 <= bits && bits <= 0x3F {
            Some(Modifiers { bits })
        } else {
            None
        }
    }

    /// No modifier held.
    pub fn empty() -> (r: Modifiers)
        ensures
            r.bits == 0,
            r.wf(),
    {
        Modifiers { bits: 0 }
    }

    /// The raw bits.
    pub fn bits(self) -> (r: i32)
        ensures
            r == self.bits,
    {
        self.bits
    }

    /// Whether every bit of `other` is set in `self`.
    pub fn contains(self, other: Modifiers) -> (r: bool)
        ensures
            r == (self.bits & other.bits == other.bits),
    {
        self.bits & other.bits == other.bits
    }

    /// The shift modifier bit.
    pub fn shift() -> (r: Modifiers)
        ensures
            r.bits == 0x1,
            r.wf(),
    {
        Modifiers { bits: 0x1 }
    }

    /// The control modifier bit.
    pub fn control() -> (r: Modifiers)
        ensures
            r.bits == 0x2,
            r.wf(),
    {
        Modifiers { bits: 0x2 }
    }

    /// The alt modifier bit.
    pub fn alt() -> (r: Modifiers)
        ensures
            r.bits == 0x4,
            r.wf(),
    {
        Modifiers { bits: 0x4 }
    }

    /// The super (OS) modifier bit.
    pub fn super_key() -> (r: Modifiers)
        ensures
            r.bits == 0x8,
            r.wf(),
    {
        Modifiers { bits: 0x8 }
    }

    /// The caps-lock state bit (reported only when lock-key modifiers are
    /// enabled on the window).
    pub fn caps_lock() -> (r: Modifiers)
        ensures
            r.bits == 0x10,
            r.wf(),
    {
        Modifiers { bits: 0x10 }
    }

    /// The num-lock state bit (reported only when lock-key modifiers are
    /// enabled on the window).
    pub fn num_lock() -> (r: Modifiers)
        ensures
            r.bits == 0x20,
            r.wf(),
    {
        Modifiers { bits: 0x20 }
    }
}

/// The direction bits of one joystick hat: up 1, right 2, down 4, left 8.
/// All bits clear means centered.
#[derive(Debug, Clone, Copy, Eq, PartialEq, Hash, PartialOrd, Ord, Structural)]
pub struct JoystickHatState {
    pub bits: u8,
}

impl JoystickHatState {
    /// Only the four direction bits may be set.
    pub open spec fn wf(self) -> bool {
        self.bits <= 0xF
    }

    /// Validates raw native hat bits; values with unknown bits are rejected.
    pub fn from_bits(bits: u8) -> (r: Option<JoystickHatState>)
        ensures
            r == if bits <= 0xF {
                Some(JoystickHatState { bits })
            } else {
                None::<JoystickHatState>
            },
            r is Some ==> r->0.wf(),
    {
        if bits <= 0xF {
            Some(JoystickHatState { bits })
        } else {
            None
        }
    }

    /// The raw bits.
    pub fn bits(self) -> (r: u8)
        ensures
            r == self.bits,
    {
        self.bits
    }

    /// Whether every bit of `other` is set in `self`.
    pub fn contains(self, other: JoystickHatState) -> (r: bool)
        ensures
            r == (self.bits & other.bits == other.bits),
    {
        self.bits & other.bits == other.bits
    }
}

impl Default for JoystickHatState {
    /// The centered hat: no direction bit set.
    fn default() -> (r: Self)
        ensures
            r.bits == 0,
    {
        JoystickHatState { bits: 0 }
    }
}


/// The key table is self-consistent: every token's code maps back to that
/// token.
pub proof fn lemma_key_code_round_trip(k: Key)
    ensures
        Key::spec_from_code(k.spec_code()) == Some(k),
{
}

} // verus!
