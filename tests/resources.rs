use blob_raylib::device::{DeviceError, ResourceKind, Window};
use blob_raylib::codes::PixelFormat;
use blob_raylib::handles::{pixel_data_bytes, AudioStream, Image, Music, Sound, Wave};

fn open() -> Window {
    Window::init(320, 240, "resources").unwrap().0
}

fn stream(buffer: u64) -> AudioStream {
    AudioStream { buffer, processor: 0, sample_rate: 22050, sample_size: 16, channels: 1 }
}

#[test]
fn image_wave_music_balance() {
    let mut w = open();
    let img = Image::load(&mut w, Image { data: 0x100, width: 4, height: 4, mipmaps: 1, format: 7 }).unwrap();
    let wav = Wave::load(&mut w, Wave { frame_count: 10, sample_rate: 22050, sample_size: 16, channels: 1, data: 0x200 }).unwrap();
    let mus = Music::load(
        &mut w,
        Music { stream: stream(0x300), frame_count: 99, looping: true, ctx_type: 1, ctx_data: 0x400 },
    )
    .unwrap();
    assert!(img.is_valid(&w) && wav.is_valid(&w) && mus.is_valid(&w));
    assert_eq!(mus.control(&w), Ok(()));
    assert_eq!(w.live_count(), 3);
    assert!(w.is_live(ResourceKind::Wave, 0x200));
    assert_eq!(img.unload(&mut w), Ok(true));
    assert_eq!(wav.unload(&mut w), Ok(true));
    assert_eq!(mus.unload(&mut w), Ok(true));
    assert_eq!(w.close(), Ok(vec![]));
}

#[test]
fn failed_loads_are_never_valid() {
    let mut w = open();
    let img = Image::load(&mut w, Image { data: 0, width: 0, height: 0, mipmaps: 0, format: 0 }).unwrap();
    let mus = Music::load(
        &mut w,
        Music { stream: stream(0), frame_count: 0, looping: false, ctx_type: 0, ctx_data: 0 },
    )
    .unwrap();
    assert!(!img.is_valid(&w));
    assert_eq!(mus.control(&w), Err(DeviceError::NotLive));
    assert_eq!(img.unload(&mut w), Ok(false));
    assert_eq!(mus.unload(&mut w), Ok(false));
    assert_eq!(w.live_count(), 0);
}

#[test]
fn sound_update_counts_samples() {
    let mut w = open();
    let s = Sound::load(&mut w, Sound { stream: stream(0x900), frame_count: 4 }).unwrap();
    let samples: [i16; 4] = [0, 100, -100, 0];
    assert_eq!(s.update(&w, &samples), Ok(4));
    let stale = Sound { stream: stream(0x901), frame_count: 4 };
    assert_eq!(stale.update(&w, &samples), Err(DeviceError::NotLive));
    assert_eq!(s.unload(&mut w), Ok(true));
    assert_eq!(s_after_close(), Err(DeviceError::Closed));
}

fn s_after_close() -> Result<i32, DeviceError> {
    let mut w = open();
    let s = Sound::load(&mut w, Sound { stream: stream(0x10), frame_count: 1 }).unwrap();
    let _ = w.close();
    s.update(&w, &[1u8])
}

#[test]
fn pixel_data_sizes() {
    assert_eq!(pixel_data_bytes(64, 32, PixelFormat::UncompressedR8g8b8a8), 8192);
    assert_eq!(pixel_data_bytes(3, 3, PixelFormat::UncompressedR8g8b8), 27);
    assert_eq!(pixel_data_bytes(3, 1, PixelFormat::UncompressedR32g32b32a32), 48);
    assert_eq!(pixel_data_bytes(8, 8, PixelFormat::CompressedDxt1Rgb), 32);
    assert_eq!(pixel_data_bytes(2, 2, PixelFormat::CompressedDxt1Rgb), 16);
    assert_eq!(pixel_data_bytes(16, 16, PixelFormat::CompressedAstc8x8Rgba), 64);
    assert_eq!(pixel_data_bytes(-4, 4, PixelFormat::UncompressedGrayscale), 0);
    assert_eq!(pixel_data_bytes(i32::MAX, i32::MAX, PixelFormat::UncompressedR32g32b32a32), (i32::MAX as u128) * (i32::MAX as u128) * 16);
}
