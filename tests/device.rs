use blob_raylib::codes::{GamepadButton, ShaderUniformDataType, TextureFilter, TextureWrap};
use blob_raylib::device::{DeviceError, DeviceState, DrawMode, ResourceKind, Window};
use blob_raylib::flags::{ConfigFlag, ConfigFlags};
use blob_raylib::handles::{
    AudioStream, Color, Font, RenderTexture, RenderTexture2D, Shader, ShaderLocation, Sound,
    Texture, Texture2D,
};
use blob_raylib::input::{ButtonQuery, Gamepad, Monitor};

fn open() -> Window {
    let (w, title) = Window::init(800, 450, "t").unwrap();
    assert_eq!(title.as_bytes_with_nul(), b"t\0");
    w
}

fn tex(id: u32) -> Texture {
    Texture { id, width: 64, height: 32, mipmaps: 1, format: 7 }
}

fn sound(buffer: u64) -> Sound {
    Sound {
        stream: AudioStream { buffer, processor: 0, sample_rate: 44100, sample_size: 16, channels: 2 },
        frame_count: 1000,
    }
}

fn font(texture_id: u32, glyphs: u64) -> Font {
    Font { base_size: 32, glyph_count: 95, glyph_padding: 4, texture: tex(texture_id), recs: glyphs + 8, glyphs }
}

#[test]
fn init_rejects_title_with_nul() {
    assert!(Window::init(800, 450, "bad\0title").is_err());
    let w = open();
    assert_eq!(w.state(), DeviceState::Ready);
    assert_eq!(w.live_count(), 0);
}

#[test]
fn frame_brackets() {
    let mut w = open();
    assert_eq!(w.end_drawing(), Err(DeviceError::NotDrawing));
    assert_eq!(w.begin_mode(DrawMode::Mode2D), Err(DeviceError::NotDrawing));
    assert_eq!(w.begin_drawing(), Ok(()));
    assert_eq!(w.state(), DeviceState::Drawing);
    assert_eq!(w.begin_drawing(), Err(DeviceError::AlreadyDrawing));
    assert_eq!(w.begin_mode(DrawMode::Mode3D), Ok(()));
    assert_eq!(w.begin_mode(DrawMode::Scissor), Ok(()));
    assert_eq!(w.end_mode(DrawMode::Mode3D), Err(DeviceError::ModeMismatch));
    assert_eq!(w.end_drawing(), Err(DeviceError::BracketOpen));
    assert_eq!(w.end_mode(DrawMode::Scissor), Ok(()));
    assert_eq!(w.end_mode(DrawMode::Mode3D), Ok(()));
    assert_eq!(w.end_mode(DrawMode::Mode3D), Err(DeviceError::ModeMismatch));
    assert_eq!(w.close(), Err(DeviceError::BracketOpen));
    assert_eq!(w.end_drawing(), Ok(()));
    assert_eq!(w.state(), DeviceState::Ready);
}

#[test]
fn closed_device_refuses_everything() {
    let mut w = open();
    assert_eq!(w.should_close(), Ok(()));
    assert_eq!(w.close(), Ok(vec![]));
    assert_eq!(w.state(), DeviceState::Closed);
    assert!(!w.is_open());
    assert_eq!(w.close(), Err(DeviceError::Closed));
    assert_eq!(w.should_close(), Err(DeviceError::Closed));
    assert_eq!(w.begin_drawing(), Err(DeviceError::Closed));
    assert_eq!(w.register(ResourceKind::Texture, 3), Err(DeviceError::Closed));
    assert_eq!(Texture2D::load(&mut w, tex(3)), Err(DeviceError::Closed));
    assert!(w.set_title("x").is_err());
}

#[test]
fn load_unload_balance() {
    let mut w = open();
    let mut loaded = Vec::new();
    for id in 1..=5u32 {
        loaded.push(Texture2D::load(&mut w, tex(id)).unwrap());
    }
    assert_eq!(w.live_count(), 5);
    for t in loaded {
        assert!(t.is_valid(&w));
        assert_eq!(t.unload(&mut w), Ok(true));
    }
    assert_eq!(w.live_count(), 0);
    assert_eq!(w.close(), Ok(vec![]));
}

#[test]
fn double_unload_is_detected() {
    let mut w = open();
    let t = Texture2D::load(&mut w, tex(9)).unwrap();
    let copy = Texture2D(t.0);
    assert_eq!(t.unload(&mut w), Ok(true));
    assert!(!copy.is_valid(&w));
    assert_eq!(copy.unload(&mut w), Err(DeviceError::NotLive));
}

#[test]
fn live_id_cannot_be_loaded_twice() {
    let mut w = open();
    let _a = Texture2D::load(&mut w, tex(4)).unwrap();
    assert_eq!(Texture2D::load(&mut w, tex(4)), Err(DeviceError::AlreadyLive));
    assert_eq!(w.live_count(), 1);
}

#[test]
fn leaks_are_reported_at_close() {
    let mut w = open();
    let _a = Texture2D::load(&mut w, tex(2)).unwrap();
    let s = Shader::load(&mut w, Shader { id: 3, locs: 0x1000 }).unwrap();
    assert!(s.is_valid(&w));
    let leaked = w.close().unwrap();
    assert_eq!(leaked.len(), 2);
    assert_eq!(leaked[0].kind, ResourceKind::Texture);
    assert_eq!(leaked[0].id, 2);
    assert_eq!(leaked[1].kind, ResourceKind::Shader);
    assert_eq!(leaked[1].id, 3);
}

#[test]
fn missing_texture_scenario() {
    let mut w = open();
    let missing = Texture2D::load(&mut w, Texture { id: 0, width: 0, height: 0, mipmaps: 0, format: 0 }).unwrap();
    assert!(!missing.is_valid(&w));
    assert_eq!(w.begin_drawing(), Ok(()));
    if missing.is_valid(&w) {
        missing.draw(&w, 0, 0, Color::new(255, 255, 255, 255)).unwrap();
    }
    assert_eq!(missing.draw(&w, 0, 0, Color::new(255, 255, 255, 255)), Err(DeviceError::NotLive));
    assert_eq!(w.end_drawing(), Ok(()));
    assert_eq!(missing.unload(&mut w), Ok(false));
    assert_eq!(w.close(), Ok(vec![]));
}

#[test]
fn fonts_loaded_from_memory_are_distinct() {
    let mut w = open();
    let a = Font::load(&mut w, font(11, 0x5000)).unwrap();
    let b = Font::load(&mut w, font(12, 0x6000)).unwrap();
    assert_ne!(a.texture.id, b.texture.id);
    assert_ne!(a.glyphs, b.glyphs);
    assert!(a.is_valid(&w) && b.is_valid(&w));
    assert_eq!(Font::load(&mut w, font(11, 0x7000)), Err(DeviceError::AlreadyLive));
    assert_eq!(Font::load(&mut w, font(13, 0x5000)), Err(DeviceError::AlreadyLive));
    assert_eq!(w.live_count(), 6);
    assert!(w.is_live(ResourceKind::FontGlyphs, 0x5000));
    assert!(w.is_live(ResourceKind::FontRecs, 0x6008));
    assert_eq!(a.unload(&mut w), Ok(true));
    assert_eq!(w.live_count(), 3);
    assert!(!w.is_live(ResourceKind::FontGlyphs, 0x5000));
    assert!(b.is_valid(&w));
    assert_eq!(b.unload(&mut w), Ok(true));
    assert_eq!(w.close(), Ok(vec![]));
}

#[test]
fn alias_unload_keeps_source() {
    let mut w = open();
    let src = Sound::load(&mut w, sound(0xA000)).unwrap();
    let alias = src.load_alias(&mut w, sound(0xB000)).unwrap();
    assert!(alias.is_valid(&w));
    assert_eq!(alias.unload_alias(&mut w), Ok(true));
    assert!(src.is_valid(&w));
    assert_eq!(src.unload(&mut w), Ok(true));
    assert_eq!(w.close(), Ok(vec![]));
}

#[test]
fn source_unload_retires_aliases() {
    let mut w = open();
    let src = Sound::load(&mut w, sound(0xA000)).unwrap();
    let other = Sound::load(&mut w, sound(0xC000)).unwrap();
    let a1 = src.load_alias(&mut w, sound(0xB000)).unwrap();
    let a2 = other.load_alias(&mut w, sound(0xD000)).unwrap();
    assert_eq!(w.live_count(), 4);
    assert_eq!(src.unload(&mut w), Ok(true));
    assert_eq!(w.live_count(), 2);
    assert!(!a1.is_valid(&w));
    assert_eq!(a1.unload_alias(&mut w), Err(DeviceError::NotLive));
    assert!(a2.is_valid(&w));
    assert!(other.is_valid(&w));
}

#[test]
fn alias_needs_live_source() {
    let mut w = open();
    let ghost = sound(0xE000);
    assert_eq!(ghost.load_alias(&mut w, sound(0xF000)), Err(DeviceError::NotLive));
    assert_eq!(w.register_alias(0xF000, 0xE000), Err(DeviceError::NotLive));
}

#[test]
fn texture_operations_are_gated() {
    let mut w = open();
    let t = Texture2D::load(&mut w, tex(5)).unwrap();
    assert_eq!(t.set_filter(&w, TextureFilter::Trilinear), Ok(2));
    assert_eq!(t.set_wrap(&w, TextureWrap::MirrorClamp), Ok(3));
    assert_eq!(t.update(&w, &[Color::new(1, 2, 3, 4)]), Err(DeviceError::BufferTooShort));
    let full = vec![Color::new(1, 2, 3, 4); 64 * 32];
    assert_eq!(t.update(&w, &full), Ok(()));
    assert_eq!(t.update(&w, &full[1..]), Err(DeviceError::BufferTooShort));
    assert_eq!(Texture2D::gen_mipmaps(&t, &w), Ok(()));
    assert_eq!(t.draw(&w, 1, 2, Color::new(0, 0, 0, 255)), Err(DeviceError::NotDrawing));
    w.begin_drawing().unwrap();
    assert_eq!(t.draw(&w, 1, 2, Color::new(0, 0, 0, 255)), Ok(()));
    w.end_drawing().unwrap();
    let stranger = Texture2D(tex(77));
    assert_eq!(stranger.set_filter(&w, TextureFilter::Point), Err(DeviceError::NotLive));
}

#[test]
fn render_texture_mode() {
    let mut w = open();
    let rt = RenderTexture2D::load(&mut w, RenderTexture { id: 8, texture: tex(9), depth: tex(10) }).unwrap();
    assert!(rt.valid(&w));
    assert_eq!(rt.begin_mode(&mut w), Err(DeviceError::NotDrawing));
    w.begin_drawing().unwrap();
    assert_eq!(rt.begin_mode(&mut w), Ok(()));
    assert_eq!(w.end_drawing(), Err(DeviceError::BracketOpen));
    assert_eq!(w.end_mode(DrawMode::Texture), Ok(()));
    w.end_drawing().unwrap();
    assert_eq!(rt.unload(&mut w), Ok(true));
    assert_eq!(w.live_count(), 0);
}

#[test]
fn shader_calls() {
    let mut w = open();
    let s = Shader::load(&mut w, Shader { id: 3, locs: 0x1000 }).unwrap();
    let name = s.uniform_location(&w, "colDiffuse").unwrap();
    assert_eq!(name.as_bytes_with_nul(), b"colDiffuse\0");
    assert!(matches!(s.attrib_location(&w, "bad\0name"), Err(DeviceError::InvalidString(_))));
    let loc = ShaderLocation::from_native(4).unwrap();
    assert_eq!(loc.index(), 4);
    assert_eq!(ShaderLocation::from_native(-1), None);
    assert_eq!(s.set(&w, &loc, &1.5f32, ShaderUniformDataType::Float), Ok(0));
    let values = [1.0f32, 2.0, 3.0];
    assert_eq!(s.set_vector(&w, &loc, &values, ShaderUniformDataType::Vec3), Ok(3));
    assert_eq!(s.end_mode(&mut w), Err(DeviceError::NotDrawing));
    w.begin_drawing().unwrap();
    assert_eq!(s.begin_mode(&mut w), Ok(()));
    assert_eq!(s.end_mode(&mut w), Ok(()));
    w.end_drawing().unwrap();
    let (vs, fs) = Shader::from_memory(&w, "void main(){}", "void main(){}").unwrap();
    assert_eq!(vs.as_bytes_with_nul().len(), 14);
    assert_eq!(fs.as_bytes_with_nul().last(), Some(&0u8));
    assert!(Shader::from_memory(&w, "a\0", "b").is_err());
    assert_eq!(s.unload(&mut w), Ok(true));
}

#[test]
fn window_string_and_flag_calls() {
    let mut w = open();
    assert_eq!(w.set_title("New title").unwrap().as_bytes_with_nul(), b"New title\0");
    assert_eq!(w.screenshot("shot.png").unwrap().len(), 8);
    assert!(matches!(w.open_url("http://a\0b"), Err(DeviceError::InvalidString(_))));
    let f: ConfigFlag = ConfigFlags::WindowTopmost.into();
    assert_eq!(w.set_state(f), Ok(0x1000));
    assert_eq!(w.clear_state(f), Ok(0x1000));
    w.close().unwrap();
    assert_eq!(w.set_state(f), Err(DeviceError::Closed));
}

#[test]
fn gamepad_slots() {
    let mut w = open();
    let mut pad = Gamepad::new(0);
    pad.prev();
    assert_eq!(pad.id(), 0);
    pad.next();
    pad.next();
    assert_eq!(pad.id(), 2);
    pad.prev();
    assert_eq!(pad.id(), 1);
    assert_eq!(pad.is_available(&w), Ok(1));
    assert_eq!(pad.get_axis_count(&w), Ok(1));
    assert_eq!(
        pad.is_button_pressed(&w, GamepadButton::RightFaceDown),
        Ok(ButtonQuery { gamepad: 1, button: 7 })
    );
    assert_eq!(pad.is_button_down(&w, GamepadButton::LeftThumb), Ok(ButtonQuery { gamepad: 1, button: 16 }));
    assert_eq!(pad.is_button_released(&w, GamepadButton::Middle), Ok(ButtonQuery { gamepad: 1, button: 14 }));
    assert_eq!(pad.is_button_up(&w, GamepadButton::Unknown), Ok(ButtonQuery { gamepad: 1, button: 0 }));
    assert_eq!(pad.name(Some(b"Xbox Controller\0")), Some("Xbox Controller".to_string()));
    assert_eq!(pad.name(None), None);
    assert_eq!(pad.name(Some(b"\xfe\0")), Some("\u{FFFD}".to_string()));
    w.close().unwrap();
    assert_eq!(pad.is_available(&w), Err(DeviceError::Closed));
}

#[test]
fn monitor_names() {
    let m = Monitor::from(1);
    assert_eq!(m.id, 1);
    assert_eq!(m.name(Some(b"DP-1\0")), "DP-1");
    assert_eq!(m.name(None), "");
    assert_eq!(m.name(Some(b"\xffA\0")), "\u{FFFD}A");
}

#[test]
fn color_constructor() {
    let c = Color::new(1, 2, 3, 4);
    assert_eq!((c.r, c.g, c.b, c.a), (1, 2, 3, 4));
}

#[test]
fn failed_font_load_records_nothing() {
    let mut w = open();
    let f = Font::load(&mut w, Font { base_size: 0, glyph_count: 0, glyph_padding: 0, texture: tex(0), recs: 0, glyphs: 0 }).unwrap();
    assert!(!f.is_valid(&w));
    assert_eq!(w.live_count(), 0);
    assert_eq!(f.unload(&mut w), Ok(false));
}

#[test]
fn texture_update_needs_known_format() {
    let mut w = open();
    let odd = Texture2D::load(&mut w, Texture { id: 6, width: 2, height: 2, mipmaps: 1, format: 99 }).unwrap();
    assert_eq!(odd.update(&w, &[Color::new(0, 0, 0, 0); 4]), Err(DeviceError::UnknownFormat));
    let gray = Texture2D::load(&mut w, Texture { id: 7, width: 4, height: 4, mipmaps: 1, format: 1 }).unwrap();
    assert_eq!(gray.update(&w, &[Color::new(0, 0, 0, 0); 4]), Ok(()));
    assert_eq!(gray.update(&w, &[Color::new(0, 0, 0, 0); 3]), Err(DeviceError::BufferTooShort));
}

#[test]
fn window_gates() {
    let mut w = open();
    assert_eq!(w.is_ready(), Ok(()));
    assert_eq!(w.is_fullscreen(), Ok(()));
    assert_eq!(w.is_hidden(), Ok(()));
    assert_eq!(w.toggle_fullscreen(), Ok(()));
    assert_eq!(w.set_position(10, 20), Ok(()));
    assert_eq!(w.set_size(640, 480), Ok(()));
    let m = Monitor { id: 2 };
    assert_eq!(m.width(&w), Ok(2));
    assert_eq!(m.refresh_rate(&w), Ok(2));
    w.close().unwrap();
    assert_eq!(w.is_focused(), Err(DeviceError::Closed));
    assert_eq!(w.minimize(), Err(DeviceError::Closed));
    assert_eq!(w.set_monitor(1), Err(DeviceError::Closed));
    assert_eq!(m.physical_height(&w), Err(DeviceError::Closed));
}
