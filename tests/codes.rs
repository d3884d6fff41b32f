use blob_raylib::codes::{
    BlendMode, GamepadAxis, GamepadButton, KeyboardKey, MouseButton, PixelFormat, TextureFilter,
    TraceLogLevel,
};
use blob_raylib::flags::{ConfigFlag, ConfigFlags, GestureFlag, GestureFlags};
use blob_raylib::input::last_button_pressed;
use std::convert::TryFrom;

#[test]
fn gamepad_button_codes() {
    assert_eq!(GamepadButton::try_from(0), Ok(GamepadButton::Unknown));
    assert_eq!(GamepadButton::try_from(7), Ok(GamepadButton::RightFaceDown));
    assert_eq!(GamepadButton::try_from(17), Ok(GamepadButton::RightThumb));
    assert_eq!(GamepadButton::RightTrigger2.code(), 12);
    for code in 0..18 {
        let b = GamepadButton::from_code(code).unwrap();
        assert_eq!(b.code(), code);
    }
}

#[test]
fn unassigned_button_and_axis_codes_are_unrecognised() {
    assert_eq!(GamepadButton::try_from(18), Err(()));
    assert_eq!(GamepadButton::try_from(-1), Err(()));
    assert_eq!(GamepadButton::from_code(1000), None);
    assert_eq!(GamepadAxis::try_from(6), Err(()));
    assert_eq!(GamepadAxis::try_from(5), Ok(GamepadAxis::AxisRightTrigger));
    assert_eq!(MouseButton::from_code(7), None);
    assert_eq!(MouseButton::from_code(6), Some(MouseButton::Back));
}

#[test]
fn last_button_pressed_codes() {
    assert_eq!(last_button_pressed(-1), None);
    assert_eq!(last_button_pressed(0), None);
    assert_eq!(last_button_pressed(17), Some(GamepadButton::RightThumb));
    assert_eq!(last_button_pressed(18), None);
    assert_eq!(last_button_pressed(3), Some(GamepadButton::LeftFaceDown));
}

#[test]
fn keyboard_codes() {
    assert_eq!(KeyboardKey::try_from(256), Ok(KeyboardKey::Escape));
    assert_eq!(KeyboardKey::try_from(65), Ok(KeyboardKey::A));
    assert_eq!(KeyboardKey::try_from(0), Ok(KeyboardKey::Null));
    assert_eq!(KeyboardKey::try_from(1), Err(()));
    assert_eq!(KeyboardKey::try_from(349), Err(()));
    assert_eq!(KeyboardKey::KpEqual.code(), 336);
    assert_eq!(KeyboardKey::VolumeDown.code(), 25);
}

#[test]
fn other_enumeration_codes() {
    assert_eq!(PixelFormat::from_code(0), None);
    assert_eq!(PixelFormat::from_code(1), Some(PixelFormat::UncompressedGrayscale));
    assert_eq!(PixelFormat::UncompressedR8g8b8a8.code(), 7);
    assert_eq!(PixelFormat::CompressedAstc8x8Rgba.code(), 24);
    assert_eq!(TextureFilter::Anisotropic16x.code(), 5);
    assert_eq!(BlendMode::CustomSeparate.code(), 7);
    assert_eq!(TraceLogLevel::Off.code(), 7);
    assert_eq!(TraceLogLevel::from_code(8), None);
}

#[test]
fn config_flag_masks() {
    let f: ConfigFlag = ConfigFlags::Msaa4xHint | ConfigFlags::WindowResizable;
    assert_eq!(f.value(), 0x24);
    let g: ConfigFlag = ConfigFlags::VsyncHint.into();
    assert_eq!(g.value(), 0x40);
    let mut h = f | g;
    assert_eq!(h.value(), 0x64);
    h &= ConfigFlag::from(ConfigFlags::VsyncHint);
    assert_eq!(h.value(), 0x40);
    h ^= ConfigFlag::from(ConfigFlags::InterlacedHint);
    assert_eq!(h.value(), 0x10040);
    assert_eq!((!ConfigFlags::FullscreenMode).value(), !0x2u32);
    assert_eq!((ConfigFlags::FullscreenMode & ConfigFlags::WindowHidden).value(), 0);
    assert_eq!(ConfigFlags::BorderlessWindowedMode.bits(), 0x8000);
}

#[test]
fn gesture_masks() {
    let g = GestureFlags::Tap | GestureFlags::PinchOut;
    assert_eq!(g.bits(), 513);
    assert_eq!(GestureFlag::try_from(-1i32), Err(()));
    assert_eq!(GestureFlag::try_from(12i32).unwrap().bits(), 12);
    assert_eq!(GestureFlag::try_from(7u32).unwrap().bits(), 7);
    assert_eq!(GestureFlags::NoGesture.bits(), 0);
    assert_eq!((GestureFlags::Drag ^ GestureFlags::Drag).bits(), 0);
}
