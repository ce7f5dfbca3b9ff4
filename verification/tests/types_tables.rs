use glfw_rust::types::AnglePlatform;
use glfw_rust::types::ClientApi;
use glfw_rust::types::ContextCreationApi;
use glfw_rust::types::ContextReleaseBehavior;
use glfw_rust::types::CursorMode;
use glfw_rust::types::ErrorCode;
use glfw_rust::types::Joystick;
use glfw_rust::types::JoystickHatState;
use glfw_rust::types::Key;
use glfw_rust::types::Modifiers;
use glfw_rust::types::MouseButton;
use glfw_rust::types::OpenGLProfile;
use glfw_rust::types::Platform;
use glfw_rust::types::Robustness;
use glfw_rust::types::StdCursor;
use glfw_rust::version::Version;

#[test]
fn test_last_enums() {
    assert_eq!(348, Key::Menu.code());
    assert_eq!(7, MouseButton::Button8.code());
    assert_eq!(15, Joystick::Joystick16.code());
}

#[test]
fn error_code_table_round_trips() {
    assert_eq!(ErrorCode::from(0x00010001), ErrorCode::NotInitialized);
    assert_eq!(ErrorCode::from(0x00010008), ErrorCode::PlatformError);
    assert_eq!(ErrorCode::from(0x0001000E), ErrorCode::PlatformUnavailable);
    assert_eq!(ErrorCode::from(42), ErrorCode::Custom(42));
    assert_eq!(ErrorCode::NoCurrentContext.code(), 0x00010002);
    assert_eq!(ErrorCode::Custom(42).code(), 42);
}

#[test]
fn key_table_round_trips() {
    assert_eq!(Key::try_from(32), Ok(Key::Space));
    assert_eq!(Key::try_from(65), Ok(Key::A));
    assert_eq!(Key::try_from(290), Ok(Key::F1));
    assert_eq!(Key::try_from(348), Ok(Key::Menu));
    assert_eq!(Key::try_from(33), Err(()));
    assert_eq!(Key::try_from(-1), Err(()));
    assert_eq!(Key::Space.code(), 32);
    assert_eq!(Key::Kp9.code(), 329);
}

#[test]
fn mouse_button_and_joystick_tables() {
    assert_eq!(MouseButton::try_from(0), Ok(MouseButton::Left));
    assert_eq!(MouseButton::try_from(2), Ok(MouseButton::Middle));
    assert_eq!(MouseButton::try_from(8), Err(()));
    assert_eq!(Joystick::try_from(0), Ok(Joystick::Joystick1));
    assert_eq!(Joystick::try_from(15), Ok(Joystick::Joystick16));
    assert_eq!(Joystick::try_from(16), Err(()));
}

#[test]
fn platform_and_angle_tables() {
    assert_eq!(Platform::try_from(0x00060005), Ok(Platform::Null));
    assert_eq!(Platform::try_from(0x00060001), Ok(Platform::Win32));
    assert_eq!(Platform::try_from(7), Err(()));
    assert_eq!(Platform::Null.code(), 0x00060005);
    assert_eq!(AnglePlatform::try_from(0x00037007), Ok(AnglePlatform::Vulkan));
    assert_eq!(AnglePlatform::Metal.code(), 0x00037008);
}

#[test]
fn context_attribute_tables() {
    assert_eq!(CursorMode::try_from(0x00034002), Ok(CursorMode::Hidden));
    assert_eq!(CursorMode::try_from(0), Err(()));
    assert_eq!(CursorMode::default(), CursorMode::Normal);
    assert_eq!(ClientApi::try_from(0), Ok(ClientApi::NoAPI));
    assert_eq!(ClientApi::default().code(), 0x00030001);
    assert_eq!(ContextCreationApi::try_from(0x00036002), Ok(ContextCreationApi::Egl));
    assert_eq!(Robustness::try_from(0x00031002), Ok(Robustness::LoseContextOnReset));
    assert_eq!(
        ContextReleaseBehavior::try_from(0x00035002),
        Ok(ContextReleaseBehavior::NoFlush)
    );
    assert_eq!(OpenGLProfile::try_from(0x00032001), Ok(OpenGLProfile::Core));
    assert_eq!(StdCursor::NotAllowed.code(), 0x0003600A);
    assert_eq!(StdCursor::default(), StdCursor::Arrow);
}

#[test]
fn modifier_bits_validate() {
    let m = Modifiers::from_bits(0x3).unwrap();
    assert!(m.contains(Modifiers::shift()));
    assert!(m.contains(Modifiers::control()));
    assert!(!m.contains(Modifiers::alt()));
    assert_eq!(Modifiers::from_bits(0x40), None);
    assert_eq!(Modifiers::from_bits(-1), None);
    assert_eq!(Modifiers::empty().bits(), 0);
    assert_eq!(Modifiers::super_key().bits(), 8);
    assert_eq!(Modifiers::caps_lock().bits(), 16);
    assert_eq!(Modifiers::num_lock().bits(), 32);
}

#[test]
fn joystick_hat_bits_validate() {
    let h = JoystickHatState::from_bits(0x3).unwrap();
    assert!(h.contains(JoystickHatState::from_bits(0x1).unwrap()));
    assert!(!h.contains(JoystickHatState::from_bits(0x4).unwrap()));
    assert_eq!(JoystickHatState::from_bits(0x10), None);
    assert_eq!(JoystickHatState::default().bits(), 0);
}

#[test]
fn header_version_is_fixed() {
    let v = Version::get_header_version();
    assert_eq!(v.major, 3);
    assert_eq!(v.minor, 4);
    assert_eq!(v.revision, 0);
}
