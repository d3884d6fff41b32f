//! The device context: lifecycle of the window and graphics device, the
//! nesting of per-frame drawing brackets, and the registry of native
//! resources that are loaded and not yet unloaded.
use vstd::prelude::*;
use crate::marshal::{NativeString, NulError, to_native_string};
use vstd::utf8::encode_utf8;
use crate::flags::ConfigFlag;

verus! {

/// Where the device stands in its lifecycle.
#[derive(Debug, Clone, Copy, PartialEq, Eq, Structural)]
pub enum DeviceState {
    /// Open, between frames.
    Ready,
    /// Open, inside a `begin_drawing` / `end_drawing` bracket.
    Drawing,
    /// Torn down by `close`; nothing may use it any more.
    Closed,
}

/// A drawing mode bracket opened inside a frame.
#[derive(Debug, Clone, Copy, PartialEq, Eq, Structural)]
pub enum DrawMode {
    Mode2D,
    Mode3D,
    Texture,
    Shader,
    Blend,
    Scissor,
    VrStereo,
}

/// Kinds of native resources, each with its own unload call.
#[derive(Debug, Clone, Copy, PartialEq, Eq, Structural)]
pub enum ResourceKind {
    Image,
    Texture,
    RenderTexture,
    Font,
    /// The glyph array of a font, recorded with the font.
    FontGlyphs,
    /// The glyph rectangle array of a font, recorded with the font.
    FontRecs,
    Shader,
    Mesh,
    Material,
    Model,
    ModelAnimation,
    Wave,
    Sound,
    SoundAlias,
    Music,
    AudioStream,
}

/// A native resource that has been loaded and not yet unloaded.
#[derive(Debug, Clone, Copy, PartialEq, Eq, Structural)]
pub struct LiveHandle {
    pub kind: ResourceKind,
    /// The native id (or address) that tells it apart from others of its kind.
    pub id: u64,
    /// For a sound alias, the id of the sound whose samples it shares; else 0.
    pub source: u64,
}

/// Why the device refused an operation.
#[derive(Debug, Clone, PartialEq, Eq)]
pub enum DeviceError {
    /// The device has been closed.
    Closed,
    /// `begin_drawing` inside a frame: frames do not nest.
    AlreadyDrawing,
    /// The operation belongs inside a frame, and none is open.
    NotDrawing,
    /// `end_drawing` or `close` while a frame or mode bracket is still open.
    BracketOpen,
    /// `end_mode` for a mode other than the innermost open one.
    ModeMismatch,
    /// A freshly loaded resource carries the id of one that is still live.
    AlreadyLive,
    /// The handle is not live here: never loaded, or already unloaded.
    NotLive,
    /// A string argument holds a NUL byte.
    InvalidString(NulError),
    /// A buffer is longer than a native count can express.
    TooLong,
    /// A buffer holds fewer bytes than the native call reads from it.
    BufferTooShort,
    /// A texture carries a pixel format code that no format has.
    UnknownFormat,
}

/// What a device context holds, as the proofs see it.
pub struct DeviceView {
    pub state: DeviceState,
    /// Open mode brackets, the innermost last.
    pub modes: Seq<DrawMode>,
    /// Handles loaded through this device and not yet unloaded.
    pub live: Seq<LiveHandle>,
}

/// `live` holds a handle of `kind` with native id `id`.
pub open spec fn is_live(live: Seq<LiveHandle>, kind: ResourceKind, id: u64) -> bool {
    exists|i: int| 0 <= i < live.len() && live[i].kind == kind && live[i].id == id
}

/// Unloading the handle `(kind, id)` disposes of `h` too: `h` is that handle,
/// or `kind` is a sound and `h` an alias of it.
pub open spec fn released_by(h: LiveHandle, kind: ResourceKind, id: u64) -> bool {
    ||| h.kind == kind && h.id == id
    ||| kind == ResourceKind::Sound && h.kind == ResourceKind::SoundAlias && h.source == id
}

/// The registry after unloading `(kind, id)`.
pub open spec fn after_release(live: Seq<LiveHandle>, kind: ResourceKind, id: u64) -> Seq<
    LiveHandle,
> {
    live.filter(|h: LiveHandle| !released_by(h, kind, id))
}

/// A call that needs only an open device.
pub open spec fn open_result(view: DeviceView) -> Result<(), DeviceError> {
    if view.is_open() {
        Ok(())
    } else {
        Err(DeviceError::Closed)
    }
}

/// The registry entry of a resource of `kind` with native id `id`.
pub open spec fn handle_of(kind: ResourceKind, id: u64) -> LiveHandle {
    LiveHandle { kind, id, source: 0 }
}

/// Whether an operation may use the handle `(kind, id)` now.
pub open spec fn use_result(view: DeviceView, kind: ResourceKind, id: u64) -> Result<(), DeviceError> {
    if !view.is_open() {
        Err(DeviceError::Closed)
    } else if id == 0 || !is_live(view.live, kind, id) {
        Err(DeviceError::NotLive)
    } else {
        Ok(())
    }
}

/// Whether a drawing call may use the handle `(kind, id)` now: it also
/// needs an open frame.
pub open spec fn draw_result(view: DeviceView, kind: ResourceKind, id: u64) -> Result<(), DeviceError> {
    if !view.is_open() {
        Err(DeviceError::Closed)
    } else if view.state != DeviceState::Drawing {
        Err(DeviceError::NotDrawing)
    } else {
        use_result(view, kind, id)
    }
}

/// The registry entries of a font: its atlas texture, and its glyph and
/// rectangle arrays where they are not null.
pub open spec fn font_entries(texture: u64, glyphs: u64, recs: u64) -> Seq<LiveHandle> {
    seq![handle_of(ResourceKind::Font, texture)] + (if glyphs != 0 {
        seq![handle_of(ResourceKind::FontGlyphs, glyphs)]
    } else {
        Seq::empty()
    }) + (if recs != 0 {
        seq![handle_of(ResourceKind::FontRecs, recs)]
    } else {
        Seq::empty()
    })
}

/// What recording a freshly loaded font answers: `Ok(false)` for the zero
/// atlas of a failed load, `AlreadyLive` where any of its allocations is
/// live already.
pub open spec fn font_result(before: DeviceView, texture: u64, glyphs: u64, recs: u64) -> Result<
    bool,
    DeviceError,
> {
    if !before.is_open() {
        Err(DeviceError::Closed)
    } else if texture == 0 {
        Ok(false)
    } else if is_live(before.live, ResourceKind::Font, texture) || (glyphs != 0 && is_live(
        before.live,
        ResourceKind::FontGlyphs,
        glyphs,
    )) || (recs != 0 && is_live(before.live, ResourceKind::FontRecs, recs)) {
        Err(DeviceError::AlreadyLive)
    } else {
        Ok(true)
    }
}

/// The device after recording a font.
pub open spec fn after_font(before: DeviceView, texture: u64, glyphs: u64, recs: u64) -> DeviceView {
    if font_result(before, texture, glyphs, recs) == Ok::<bool, DeviceError>(true) {
        DeviceView {
            state: before.state,
            modes: before.modes,
            live: before.live + font_entries(texture, glyphs, recs),
        }
    } else {
        before
    }
}

/// The device after unloading a font: the atlas entry and, when it was
/// live, the glyph and rectangle entries with it.
pub open spec fn after_font_unload(before: DeviceView, texture: u64, glyphs: u64, recs: u64) -> DeviceView {
    if release_result(before, ResourceKind::Font, texture) == Ok::<bool, DeviceError>(true) {
        after_unload(
            after_unload(after_unload(before, ResourceKind::Font, texture), ResourceKind::FontGlyphs, glyphs),
            ResourceKind::FontRecs,
            recs,
        )
    } else {
        before
    }
}

/// What registering `h` answers on a device that stands at `before`.
pub open spec fn register_result(before: DeviceView, h: LiveHandle) -> Result<bool, DeviceError> {
    if !before.is_open() {
        Err(DeviceError::Closed)
    } else if h.id == 0 {
        Ok(false)
    } else if is_live(before.live, h.kind, h.id) {
        Err(DeviceError::AlreadyLive)
    } else {
        Ok(true)
    }
}

/// The device after registering `h`: `h` is added exactly when it is
/// accepted as a new live handle.
pub open spec fn after_register(before: DeviceView, h: LiveHandle) -> DeviceView {
    if register_result(before, h) == Ok::<bool, DeviceError>(true) {
        DeviceView { state: before.state, modes: before.modes, live: before.live.push(h) }
    } else {
        before
    }
}

/// The handle of the sound alias `id` whose samples belong to `source`.
pub open spec fn alias_handle(id: u64, source: u64) -> LiveHandle {
    LiveHandle { kind: ResourceKind::SoundAlias, id, source }
}

/// What registering a sound alias answers: its source must be live.
pub open spec fn alias_result(before: DeviceView, id: u64, source: u64) -> Result<bool, DeviceError> {
    if before.is_open() && !is_live(before.live, ResourceKind::Sound, source) {
        Err(DeviceError::NotLive)
    } else {
        register_result(before, alias_handle(id, source))
    }
}

/// The device after registering a sound alias.
pub open spec fn after_alias(before: DeviceView, id: u64, source: u64) -> DeviceView {
    if before.is_open() && !is_live(before.live, ResourceKind::Sound, source) {
        before
    } else {
        after_register(before, alias_handle(id, source))
    }
}

/// What unloading `(kind, id)` answers: `Ok(true)` when the native unload is
/// due, `Ok(false)` for the zero id of a failed load, and `NotLive` for a
/// handle that is not live (a second unload among them).
pub open spec fn release_result(before: DeviceView, kind: ResourceKind, id: u64) -> Result<
    bool,
    DeviceError,
> {
    if !before.is_open() {
        Err(DeviceError::Closed)
    } else if id == 0 {
        Ok(false)
    } else if !is_live(before.live, kind, id) {
        Err(DeviceError::NotLive)
    } else {
        Ok(true)
    }
}

/// The device after unloading `(kind, id)`.
pub open spec fn after_unload(before: DeviceView, kind: ResourceKind, id: u64) -> DeviceView {
    if release_result(before, kind, id) == Ok::<bool, DeviceError>(true) {
        DeviceView { state: before.state, modes: before.modes, live: after_release(before.live, kind, id) }
    } else {
        before
    }
}

impl DeviceView {
    pub open spec fn is_open(self) -> bool {
        self.state != DeviceState::Closed
    }

    /// Mode brackets are open only inside a frame, a closed device holds no
    /// live handle, and no live handle has the zero id of a failed load.
    pub open spec fn well_formed(self) -> bool {
        &&& self.state != DeviceState::Drawing ==> self.modes.len() == 0
        &&& self.state == DeviceState::Closed ==> self.live.len() == 0
        &&& forall|i: int| 0 <= i < self.live.len() ==> (#[trigger] self.live[i]).id != 0
    }
}

/// The device context. It exists only once `init` has run, so no operation
/// can come before initialisation; `close` ends it.
pub struct Window {
    state: DeviceState,
    modes: Vec<DrawMode>,
    live: Vec<LiveHandle>,
}

impl View for Window {
    type V = DeviceView;

    closed spec fn view(&self) -> DeviceView {
        DeviceView { state: self.state, modes: self.modes@, live: self.live@ }
    }
}

impl Window {
    /// Opens the device: checks and marshals the title for the native
    /// initialisation call and starts in `Ready` with nothing loaded.
    pub fn init(width: i32, height: i32, title: &str) -> (r: Result<(Window, NativeString), NulError>)
        ensures
            r is Ok <==> !encode_utf8(title@).contains(0u8),
            r matches Ok((w, t)) ==> {
                &&& w@.well_formed()
                &&& w@.state == DeviceState::Ready
                &&& w@.modes.len() == 0
                &&& w@.live.len() == 0
                &&& t@ == encode_utf8(title@).push(0u8)
            },
    {
        match to_native_string(title) {
            Ok(t) => Ok((Window { state: DeviceState::Ready, modes: Vec::new(), live: Vec::new() }, t)),
            Err(e) => Err(e),
        }
    }

    /// Where the device stands.
    pub fn state(&self) -> (r: DeviceState)
        ensures
            r == self@.state,
    {
        self.state
    }

    /// The device has not been closed.
    pub fn is_open(&self) -> (r: bool)
        ensures
            r == self@.is_open(),
    {
        self.state != DeviceState::Closed
    }

    /// Fails with `Closed` once the device is closed.
    pub fn require_open(&self) -> (r: Result<(), DeviceError>)
        ensures
            r == open_result(self@),
    {
        if self.state == DeviceState::Closed {
            Err(DeviceError::Closed)
        } else {
            Ok(())
        }
    }

    /// May the caller's loop poll the native close request? Only while open.
    pub fn should_close(&self) -> (r: Result<(), DeviceError>)
        ensures
            r == open_result(self@),
    {
        self.require_open()
    }

    /// Checks that the native "window ready" flag may be queried.
    pub fn is_ready(&self) -> (r: Result<(), DeviceError>)
        ensures
            r == open_result(self@),
    {
        self.require_open()
    }

    /// Checks that the native fullscreen flag may be queried.
    pub fn is_fullscreen(&self) -> (r: Result<(), DeviceError>)
        ensures
            r == open_result(self@),
    {
        self.require_open()
    }

    /// Checks that the native hidden flag may be queried.
    pub fn is_hidden(&self) -> (r: Result<(), DeviceError>)
        ensures
            r == open_result(self@),
    {
        self.require_open()
    }

    /// Checks that the native minimized flag may be queried.
    pub fn is_minimized(&self) -> (r: Result<(), DeviceError>)
        ensures
            r == open_result(self@),
    {
        self.require_open()
    }

    /// Checks that the native maximized flag may be queried.
    pub fn is_maximized(&self) -> (r: Result<(), DeviceError>)
        ensures
            r == open_result(self@),
    {
        self.require_open()
    }

    /// Checks that the native focus flag may be queried.
    pub fn is_focused(&self) -> (r: Result<(), DeviceError>)
        ensures
            r == open_result(self@),
    {
        self.require_open()
    }

    /// Checks that the native "resized last frame" flag may be queried.
    pub fn is_resized(&self) -> (r: Result<(), DeviceError>)
        ensures
            r == open_result(self@),
    {
        self.require_open()
    }

    /// Checks that fullscreen may be toggled.
    pub fn toggle_fullscreen(&self) -> (r: Result<(), DeviceError>)
        ensures
            r == open_result(self@),
    {
        self.require_open()
    }

    /// Checks that borderless windowed mode may be toggled.
    pub fn toggle_borderless_windowed(&self) -> (r: Result<(), DeviceError>)
        ensures
            r == open_result(self@),
    {
        self.require_open()
    }

    /// Checks that the window may be maximized.
    pub fn maximize(&self) -> (r: Result<(), DeviceError>)
        ensures
            r == open_result(self@),
    {
        self.require_open()
    }

    /// Checks that the window may be minimized.
    pub fn minimize(&self) -> (r: Result<(), DeviceError>)
        ensures
            r == open_result(self@),
    {
        self.require_open()
    }

    /// Checks that the window may be restored.
    pub fn restore(&self) -> (r: Result<(), DeviceError>)
        ensures
            r == open_result(self@),
    {
        self.require_open()
    }

    /// Checks that the window may take the focus.
    pub fn set_focused(&self) -> (r: Result<(), DeviceError>)
        ensures
            r == open_result(self@),
    {
        self.require_open()
    }

    /// Checks that the window may be moved.
    pub fn set_position(&self, x: i32, y: i32) -> (r: Result<(), DeviceError>)
        ensures
            r == open_result(self@),
    {
        self.require_open()
    }

    /// Checks that the window may move to another monitor.
    pub fn set_monitor(&self, monitor: i32) -> (r: Result<(), DeviceError>)
        ensures
            r == open_result(self@),
    {
        self.require_open()
    }

    /// Checks that the minimum size may be set.
    pub fn set_min_size(&self, width: i32, height: i32) -> (r: Result<(), DeviceError>)
        ensures
            r == open_result(self@),
    {
        self.require_open()
    }

    /// Checks that the maximum size may be set.
    pub fn set_max_size(&self, width: i32, height: i32) -> (r: Result<(), DeviceError>)
        ensures
            r == open_result(self@),
    {
        self.require_open()
    }

    /// Checks that the window may be resized.
    pub fn set_size(&self, width: i32, height: i32) -> (r: Result<(), DeviceError>)
        ensures
            r == open_result(self@),
    {
        self.require_open()
    }

    /// Marshals a string argument for a native call on the open device.
    fn string_argument(&self, s: &str) -> (r: Result<NativeString, DeviceError>)
        ensures
            !self@.is_open() ==> r == Err::<NativeString, DeviceError>(DeviceError::Closed),
            r is Ok <==> self@.is_open() && !encode_utf8(s@).contains(0u8),
            r matches Ok(n) ==> n@ == encode_utf8(s@).push(0u8),
            r matches Err(e) ==> e == DeviceError::Closed || e is InvalidString,
    {
        if self.state == DeviceState::Closed {
            return Err(DeviceError::Closed);
        }
        match to_native_string(s) {
            Ok(n) => Ok(n),
            Err(e) => Err(DeviceError::InvalidString(e)),
        }
    }

    /// Marshals a new window title.
    pub fn set_title(&self, title: &str) -> (r: Result<NativeString, DeviceError>)
        ensures
            !self@.is_open() ==> r == Err::<NativeString, DeviceError>(DeviceError::Closed),
            r is Ok <==> self@.is_open() && !encode_utf8(title@).contains(0u8),
            r matches Ok(n) ==> n@ == encode_utf8(title@).push(0u8),
            r matches Err(e) ==> e == DeviceError::Closed || e is InvalidString,
    {
        self.string_argument(title)
    }

    /// Marshals the file name of a screenshot.
    pub fn screenshot(&self, filename: &str) -> (r: Result<NativeString, DeviceError>)
        ensures
            !self@.is_open() ==> r == Err::<NativeString, DeviceError>(DeviceError::Closed),
            r is Ok <==> self@.is_open() && !encode_utf8(filename@).contains(0u8),
            r matches Ok(n) ==> n@ == encode_utf8(filename@).push(0u8),
            r matches Err(e) ==> e == DeviceError::Closed || e is InvalidString,
    {
        self.string_argument(filename)
    }

    /// Marshals a URL to open in the system browser.
    pub fn open_url(&self, url: &str) -> (r: Result<NativeString, DeviceError>)
        ensures
            !self@.is_open() ==> r == Err::<NativeString, DeviceError>(DeviceError::Closed),
            r is Ok <==> self@.is_open() && !encode_utf8(url@).contains(0u8),
            r matches Ok(n) ==> n@ == encode_utf8(url@).push(0u8),
            r matches Err(e) ==> e == DeviceError::Closed || e is InvalidString,
    {
        self.string_argument(url)
    }

    /// The native mask of window state flags to set.
    pub fn set_state(&self, flag: ConfigFlag) -> (r: Result<u32, DeviceError>)
        ensures
            self@.is_open() ==> r == Ok::<u32, DeviceError>(flag.flag),
            !self@.is_open() ==> r == Err::<u32, DeviceError>(DeviceError::Closed),
    {
        match self.require_open() {
            Ok(_) => Ok(flag.value()),
            Err(e) => Err(e),
        }
    }

    /// The native mask of window state flags to clear.
    pub fn clear_state(&self, flag: ConfigFlag) -> (r: Result<u32, DeviceError>)
        ensures
            self@.is_open() ==> r == Ok::<u32, DeviceError>(flag.flag),
            !self@.is_open() ==> r == Err::<u32, DeviceError>(DeviceError::Closed),
    {
        match self.require_open() {
            Ok(_) => Ok(flag.value()),
            Err(e) => Err(e),
        }
    }

    /// Opens a frame: `Ready` becomes `Drawing`.
    pub fn begin_drawing(&mut self) -> (r: Result<(), DeviceError>)
        ensures
            old(self)@.well_formed() ==> final(self)@.well_formed(),
            r is Ok <==> old(self)@.state == DeviceState::Ready,
            old(self)@.state == DeviceState::Drawing ==> r == Err::<(), DeviceError>(DeviceError::AlreadyDrawing),
            old(self)@.state == DeviceState::Closed ==> r == Err::<(), DeviceError>(DeviceError::Closed),
            r is Ok ==> final(self)@.state == DeviceState::Drawing,
            r is Err ==> final(self)@ == old(self)@,
            final(self)@.modes == old(self)@.modes,
            final(self)@.live == old(self)@.live,
    {
        match self.state {
            DeviceState::Ready => {
                self.state = DeviceState::Drawing;
                Ok(())
            },
            DeviceState::Drawing => Err(DeviceError::AlreadyDrawing),
            DeviceState::Closed => Err(DeviceError::Closed),
        }
    }

    /// Closes the frame: `Drawing` with no mode bracket open becomes `Ready`.
    pub fn end_drawing(&mut self) -> (r: Result<(), DeviceError>)
        ensures
            old(self)@.well_formed() ==> final(self)@.well_formed(),
            r is Ok <==> old(self)@.state == DeviceState::Drawing && old(self)@.modes.len() == 0,
            old(self)@.state == DeviceState::Ready ==> r == Err::<(), DeviceError>(DeviceError::NotDrawing),
            old(self)@.state == DeviceState::Closed ==> r == Err::<(), DeviceError>(DeviceError::Closed),
            old(self)@.state == DeviceState::Drawing && old(self)@.modes.len() > 0 ==> r == Err::<
                (),
                DeviceError,
            >(DeviceError::BracketOpen),
            r is Ok ==> final(self)@.state == DeviceState::Ready,
            r is Err ==> final(self)@ == old(self)@,
            final(self)@.modes == old(self)@.modes,
            final(self)@.live == old(self)@.live,
    {
        match self.state {
            DeviceState::Drawing => {
                if self.modes.len() > 0 {
                    Err(DeviceError::BracketOpen)
                } else {
                    self.state = DeviceState::Ready;
                    Ok(())
                }
            },
            DeviceState::Ready => Err(DeviceError::NotDrawing),
            DeviceState::Closed => Err(DeviceError::Closed),
        }
    }

    /// Opens a mode bracket inside the frame; brackets nest.
    pub fn begin_mode(&mut self, mode: DrawMode) -> (r: Result<(), DeviceError>)
        ensures
            old(self)@.well_formed() ==> final(self)@.well_formed(),
            r is Ok <==> old(self)@.state == DeviceState::Drawing,
            old(self)@.state == DeviceState::Ready ==> r == Err::<(), DeviceError>(DeviceError::NotDrawing),
            old(self)@.state == DeviceState::Closed ==> r == Err::<(), DeviceError>(DeviceError::Closed),
            r is Ok ==> final(self)@.modes == old(self)@.modes.push(mode),
            r is Err ==> final(self)@.modes == old(self)@.modes,
            final(self)@.state == old(self)@.state,
            final(self)@.live == old(self)@.live,
    {
        match self.state {
            DeviceState::Drawing => {
                self.modes.push(mode);
                Ok(())
            },
            DeviceState::Ready => Err(DeviceError::NotDrawing),
            DeviceState::Closed => Err(DeviceError::Closed),
        }
    }

    /// Closes the innermost mode bracket, which must be `mode`.
    pub fn end_mode(&mut self, mode: DrawMode) -> (r: Result<(), DeviceError>)
        ensures
            old(self)@.well_formed() ==> final(self)@.well_formed(),
            r is Ok <==> old(self)@.state == DeviceState::Drawing && old(self)@.modes.len() > 0
                && old(self)@.modes.last() == mode,
            old(self)@.state == DeviceState::Ready ==> r == Err::<(), DeviceError>(DeviceError::NotDrawing),
            old(self)@.state == DeviceState::Closed ==> r == Err::<(), DeviceError>(DeviceError::Closed),
            old(self)@.state == DeviceState::Drawing && !(old(self)@.modes.len() > 0
                && old(self)@.modes.last() == mode) ==> r == Err::<(), DeviceError>(
                DeviceError::ModeMismatch,
            ),
            r is Ok ==> final(self)@.modes == old(self)@.modes.drop_last(),
            r is Err ==> final(self)@.modes == old(self)@.modes,
            final(self)@.state == old(self)@.state,
            final(self)@.live == old(self)@.live,
    {
        match self.state {
            DeviceState::Drawing => {
                let n = self.modes.len();
                if n > 0 && self.modes[n - 1] == mode {
                    self.modes.pop();
                    Ok(())
                } else {
                    Err(DeviceError::ModeMismatch)
                }
            },
            DeviceState::Ready => Err(DeviceError::NotDrawing),
            DeviceState::Closed => Err(DeviceError::Closed),
        }
    }

    /// Tears the device down from `Ready` and hands back every handle that
    /// was never unloaded: an empty result means nothing leaked.
    pub fn close(&mut self) -> (r: Result<Vec<LiveHandle>, DeviceError>)
        ensures
            old(self)@.well_formed() ==> final(self)@.well_formed(),
            r is Ok <==> old(self)@.state == DeviceState::Ready,
            old(self)@.state == DeviceState::Drawing ==> (r matches Err(e) && e == DeviceError::BracketOpen),
            old(self)@.state == DeviceState::Closed ==> (r matches Err(e) && e == DeviceError::Closed),
            r matches Ok(leaked) ==> leaked@ == old(self)@.live && final(self)@.state
                == DeviceState::Closed && final(self)@.live.len() == 0,
            r is Err ==> final(self)@ == old(self)@,
    {
        match self.state {
            DeviceState::Ready => {
                let mut leaked: Vec<LiveHandle> = Vec::new();
                core::mem::swap(&mut leaked, &mut self.live);
                self.state = DeviceState::Closed;
                Ok(leaked)
            },
            DeviceState::Drawing => Err(DeviceError::BracketOpen),
            DeviceState::Closed => Err(DeviceError::Closed),
        }
    }

    /// Whether the handle `(kind, id)` is live in this device.
    pub fn is_live(&self, kind: ResourceKind, id: u64) -> (r: bool)
        ensures
            r == is_live(self@.live, kind, id),
    {
        let mut i: usize = 0;
        while i < self.live.len()
            invariant
                i <= self.live@.len(),
                forall|j: int| 0 <= j < i ==> !(self.live@[j].kind == kind && self.live@[j].id == id),
            decreases self.live@.len() - i,
        {
            if self.live[i].kind == kind && self.live[i].id == id {
                return true;
            }
            i = i + 1;
        }
        false
    }

    /// Fails unless a frame is open and `(kind, id)` is live.
    pub fn require_drawable(&self, kind: ResourceKind, id: u64) -> (r: Result<(), DeviceError>)
        ensures
            r == draw_result(self@, kind, id),
    {
        if self.state == DeviceState::Closed {
            Err(DeviceError::Closed)
        } else if self.state != DeviceState::Drawing {
            Err(DeviceError::NotDrawing)
        } else {
            self.require_live(kind, id)
        }
    }

    /// Number of live handles.
    pub fn live_count(&self) -> (r: usize)
        ensures
            r == self@.live.len(),
    {
        self.live.len()
    }

    /// Fails unless the device is open and `(kind, id)` is live in it.
    pub fn require_live(&self, kind: ResourceKind, id: u64) -> (r: Result<(), DeviceError>)
        ensures
            r == use_result(self@, kind, id),
    {
        if self.state == DeviceState::Closed {
            Err(DeviceError::Closed)
        } else if id != 0 && self.is_live(kind, id) {
            Ok(())
        } else {
            Err(DeviceError::NotLive)
        }
    }

    /// Records a resource that a native load has just returned. A zero id is
    /// the native sign of a failed load: nothing was allocated, nothing is
    /// recorded, and the result is `Ok(false)`.
    pub fn register(&mut self, kind: ResourceKind, id: u64) -> (r: Result<bool, DeviceError>)
        ensures
            r == register_result(old(self)@, LiveHandle { kind, id, source: 0 }),
            final(self)@ == after_register(old(self)@, LiveHandle { kind, id, source: 0 }),
            old(self)@.well_formed() ==> final(self)@.well_formed(),
    {
        self.add_handle(LiveHandle { kind, id, source: 0 })
    }

    /// Records a font that a native load returned, with each of its three
    /// allocations.
    pub fn register_font(&mut self, texture: u64, glyphs: u64, recs: u64) -> (r: Result<bool, DeviceError>)
        ensures
            r == font_result(old(self)@, texture, glyphs, recs),
            final(self)@ == after_font(old(self)@, texture, glyphs, recs),
            old(self)@.well_formed() ==> final(self)@.well_formed(),
    {
        if self.state == DeviceState::Closed {
            return Err(DeviceError::Closed);
        }
        if texture == 0 {
            return Ok(false);
        }
        if self.is_live(ResourceKind::Font, texture) || (glyphs != 0 && self.is_live(
            ResourceKind::FontGlyphs,
            glyphs,
        )) || (recs != 0 && self.is_live(ResourceKind::FontRecs, recs)) {
            return Err(DeviceError::AlreadyLive);
        }
        let ghost old_live = self.live@;
        self.live.push(LiveHandle { kind: ResourceKind::Font, id: texture, source: 0 });
        if glyphs != 0 {
            self.live.push(LiveHandle { kind: ResourceKind::FontGlyphs, id: glyphs, source: 0 });
        }
        if recs != 0 {
            self.live.push(LiveHandle { kind: ResourceKind::FontRecs, id: recs, source: 0 });
        }
        assert(self.live@ =~= old_live + font_entries(texture, glyphs, recs));
        Ok(true)
    }

    /// Records the unloading of a font; `Ok(true)` means the native unload is
    /// due, and then its glyph and rectangle entries go with it.
    pub fn release_font(&mut self, texture: u64, glyphs: u64, recs: u64) -> (r: Result<bool, DeviceError>)
        ensures
            r == release_result(old(self)@, ResourceKind::Font, texture),
            final(self)@ == after_font_unload(old(self)@, texture, glyphs, recs),
            old(self)@.well_formed() ==> final(self)@.well_formed(),
    {
        let r = self.release(ResourceKind::Font, texture);
        match r {
            Ok(true) => {
                let _ = self.release(ResourceKind::FontGlyphs, glyphs);
                let _ = self.release(ResourceKind::FontRecs, recs);
            },
            _ => {},
        }
        r
    }

    /// Records a sound alias that shares the samples of the live sound
    /// `source`.
    pub fn register_alias(&mut self, id: u64, source: u64) -> (r: Result<bool, DeviceError>)
        ensures
            r == alias_result(old(self)@, id, source),
            final(self)@ == after_alias(old(self)@, id, source),
            old(self)@.well_formed() ==> final(self)@.well_formed(),
    {
        if self.state != DeviceState::Closed && !self.is_live(ResourceKind::Sound, source) {
            return Err(DeviceError::NotLive);
        }
        self.add_handle(LiveHandle { kind: ResourceKind::SoundAlias, id, source })
    }

    fn add_handle(&mut self, h: LiveHandle) -> (r: Result<bool, DeviceError>)
        ensures
            r == register_result(old(self)@, h),
            final(self)@ == after_register(old(self)@, h),
            old(self)@.well_formed() ==> final(self)@.well_formed(),
    {
        if self.state == DeviceState::Closed {
            Err(DeviceError::Closed)
        } else if h.id == 0 {
            Ok(false)
        } else if self.is_live(h.kind, h.id) {
            Err(DeviceError::AlreadyLive)
        } else {
            self.live.push(h);
            Ok(true)
        }
    }

    /// Records the unloading of `(kind, id)`, so that the native unload call
    /// is made exactly once. Unloading a sound retires its aliases with it.
    /// A zero id was never allocated: `Ok(false)`, with nothing to free.
    pub fn release(&mut self, kind: ResourceKind, id: u64) -> (r: Result<bool, DeviceError>)
        ensures
            r == release_result(old(self)@, kind, id),
            final(self)@ == after_unload(old(self)@, kind, id),
            old(self)@.well_formed() ==> final(self)@.well_formed(),
    {
        if self.state == DeviceState::Closed {
            return Err(DeviceError::Closed);
        }
        if id == 0 {
            return Ok(false);
        }
        if !self.is_live(kind, id) {
            return Err(DeviceError::NotLive);
        }
        let ghost old_live = self.live@;
        let ghost keep = |h: LiveHandle| !released_by(h, kind, id);
        let mut kept: Vec<LiveHandle> = Vec::new();
        let mut i: usize = 0;
        while i < self.live.len()
            invariant
                i <= self.live@.len(),
                self.live@ == old_live,
                keep == (|h: LiveHandle| !released_by(h, kind, id)),
                kept@ == old_live.subrange(0, i as int).filter(keep),
            decreases self.live@.len() - i,
        {
            let h = self.live[i];
            proof {
                let s = old_live.subrange(0, i as int + 1);
                assert(s.drop_last() =~= old_live.subrange(0, i as int));
                assert(s.last() == h);
            }
            let gone = (h.kind == kind && h.id == id) || (kind == ResourceKind::Sound && h.kind
                == ResourceKind::SoundAlias && h.source == id);
            assert(gone == !keep(h));
            if !gone {
                kept.push(h);
            }
            proof {
                let s = old_live.subrange(0, i as int + 1);
                reveal(Seq::filter);
                assert(kept@ == s.filter(keep));
            }
            i = i + 1;
        }
        assert(old_live.subrange(0, old_live.len() as int) =~= old_live);
        proof {
            lemma_filter_facts(old_live, keep);
            assert forall|j: int| 0 <= j < kept@.len() implies old_live.contains(#[trigger] kept@[j]) by {
                assert(kept@[j] == old_live.filter(keep)[j]);
            }
        }
        self.live = kept;
        Ok(true)
    }
}

/// The device after loading fresh handles of `kind` with the ids `ids`, in
/// order.
pub open spec fn load_all(v: DeviceView, kind: ResourceKind, ids: Seq<u64>) -> DeviceView
    decreases ids.len(),
{
    if ids.len() == 0 {
        v
    } else {
        load_all(after_register(v, handle_of(kind, ids[0])), kind, ids.drop_first())
    }
}

/// Each of those loads is accepted as a new live handle.
pub open spec fn loads_accepted(v: DeviceView, kind: ResourceKind, ids: Seq<u64>) -> bool
    decreases ids.len(),
{
    ids.len() == 0 || (register_result(v, handle_of(kind, ids[0])) == Ok::<bool, DeviceError>(true)
        && loads_accepted(after_register(v, handle_of(kind, ids[0])), kind, ids.drop_first()))
}

/// The device after unloading the handles of `kind` with the ids `ids`, in
/// order.
pub open spec fn unload_all(v: DeviceView, kind: ResourceKind, ids: Seq<u64>) -> DeviceView
    decreases ids.len(),
{
    if ids.len() == 0 {
        v
    } else {
        unload_all(after_unload(v, kind, ids[0]), kind, ids.drop_first())
    }
}

/// Each of those unloads finds its handle live, so none is a double unload.
pub open spec fn unloads_due(v: DeviceView, kind: ResourceKind, ids: Seq<u64>) -> bool
    decreases ids.len(),
{
    ids.len() == 0 || (release_result(v, kind, ids[0]) == Ok::<bool, DeviceError>(true)
        && unloads_due(after_unload(v, kind, ids[0]), kind, ids.drop_first()))
}

/// The registry entries of the ids `ids` of `kind`.
pub open spec fn handles_of(kind: ResourceKind, ids: Seq<u64>) -> Seq<LiveHandle> {
    Seq::new(ids.len(), |i: int| handle_of(kind, ids[i]))
}

/// Filtering keeps exactly the elements that pass, and nothing else.
proof fn lemma_filter_facts(s: Seq<LiveHandle>, p: spec_fn(LiveHandle) -> bool)
    ensures
        forall|i: int| 0 <= i < s.filter(p).len() ==> p(#[trigger] s.filter(p)[i]) && s.contains(
            s.filter(p)[i],
        ),
        forall|i: int| 0 <= i < s.len() && p(s[i]) ==> #[trigger] s.filter(p).contains(s[i]),
    decreases s.len(),
{
    reveal(Seq::filter);
    #[allow(deprecated)]
    s.filter_lemma(p);
    if s.len() > 0 {
        let d = s.drop_last();
        lemma_filter_facts(d, p);
        assert forall|i: int| 0 <= i < s.filter(p).len() implies s.contains(s.filter(p)[i]) by {
            if i < d.filter(p).len() {
                assert(d.filter(p)[i] == s.filter(p)[i]);
                let j = choose|j: int| 0 <= j < d.len() && d[j] == d.filter(p)[i];
                assert(s[j] == d[j]);
            } else {
                assert(s.filter(p)[i] == s.last());
                assert(s[s.len() - 1] == s.last());
            }
        }
    }
}

/// Filtering with a predicate that every element passes changes nothing.
proof fn lemma_filter_keeps_all(s: Seq<LiveHandle>, p: spec_fn(LiveHandle) -> bool)
    requires
        forall|i: int| 0 <= i < s.len() ==> p(#[trigger] s[i]),
    ensures
        s.filter(p) == s,
    decreases s.len(),
{
    reveal(Seq::filter);
    if s.len() > 0 {
        let d = s.drop_last();
        assert forall|i: int| 0 <= i < d.len() implies p(#[trigger] d[i]) by {
            assert(d[i] == s[i]);
        }
        lemma_filter_keeps_all(d, p);
        assert(p(s[s.len() - 1]));
        assert(d.push(s.last()) =~= s);
    }
}

proof fn lemma_load_all(v: DeviceView, kind: ResourceKind, ids: Seq<u64>)
    requires
        v.is_open(),
        forall|i: int| 0 <= i < ids.len() ==> #[trigger] ids[i] != 0,
        forall|i: int, j: int| 0 <= i < j < ids.len() ==> ids[i] != ids[j],
        forall|i: int| 0 <= i < ids.len() ==> !is_live(v.live, kind, #[trigger] ids[i]),
    ensures
        loads_accepted(v, kind, ids),
        load_all(v, kind, ids) == (DeviceView {
            state: v.state,
            modes: v.modes,
            live: v.live + handles_of(kind, ids),
        }),
    decreases ids.len(),
{
    if ids.len() > 0 {
        let h = handle_of(kind, ids[0]);
        assert(ids[0] != 0);
        assert(!is_live(v.live, kind, ids[0]));
        let v1 = after_register(v, h);
        let rest = ids.drop_first();
        assert forall|i: int| 0 <= i < rest.len() implies !is_live(v1.live, kind, #[trigger] rest[i]) by {
            assert(rest[i] == ids[i + 1]);
            assert(ids[0] != ids[i + 1]);
            assert(!is_live(v.live, kind, ids[i + 1]));
            if is_live(v1.live, kind, rest[i]) {
                let j = choose|j: int| 0 <= j < v1.live.len() && v1.live[j].kind == kind && v1.live[j].id == rest[i];
                if j < v.live.len() {
                    assert(v.live[j] == v1.live[j]);
                }
            }
        }
        assert forall|i: int| 0 <= i < rest.len() implies #[trigger] rest[i] != 0 by {
            assert(rest[i] == ids[i + 1]);
        }
        assert forall|i: int, j: int| 0 <= i < j < rest.len() implies rest[i] != rest[j] by {
            assert(rest[i] == ids[i + 1] && rest[j] == ids[j + 1]);
        }
        lemma_load_all(v1, kind, rest);
        assert(v.live.push(h) + handles_of(kind, rest) =~= v.live + handles_of(kind, ids));
    }
}

proof fn lemma_unload_all(v: DeviceView, kind: ResourceKind, ids: Seq<u64>, base: Seq<LiveHandle>)
    requires
        v.is_open(),
        v.live == base + handles_of(kind, ids),
        forall|i: int| 0 <= i < ids.len() ==> #[trigger] ids[i] != 0,
        forall|i: int, j: int| 0 <= i < j < ids.len() ==> ids[i] != ids[j],
        forall|i: int, j: int|
            0 <= i < base.len() && 0 <= j < ids.len() ==> !released_by(#[trigger] base[i], kind, #[trigger] ids[j]),
    ensures
        unloads_due(v, kind, ids),
        unload_all(v, kind, ids) == (DeviceView { state: v.state, modes: v.modes, live: base }),
    decreases ids.len(),
{
    if ids.len() == 0 {
        assert(v.live =~= base);
    } else {
        let id = ids[0];
        let hs = handles_of(kind, ids);
        let rest = ids.drop_first();
        let p = |h: LiveHandle| !released_by(h, kind, id);
        assert(v.live[base.len() as int] == handle_of(kind, id));
        assert(is_live(v.live, kind, id));
        assert(ids[0] != 0);
        assert forall|i: int| 0 <= i < base.len() implies p(#[trigger] base[i]) by {
            assert(!released_by(base[i], kind, ids[0]));
        }
        lemma_filter_keeps_all(base, p);
        let tail = handles_of(kind, rest);
        assert forall|i: int| 0 <= i < tail.len() implies p(#[trigger] tail[i]) by {
            assert(rest[i] == ids[i + 1]);
            assert(ids[0] != ids[i + 1]);
        }
        lemma_filter_keeps_all(tail, p);
        assert(hs =~= seq![handle_of(kind, id)] + tail);
        reveal(Seq::filter);
        let one = seq![handle_of(kind, id)];
        assert(one.drop_last() =~= Seq::<LiveHandle>::empty());
        assert(one.last() == handle_of(kind, id));
        assert(!p(handle_of(kind, id)));
        assert(one.drop_last().filter(p) =~= Seq::<LiveHandle>::empty());
        assert(seq![handle_of(kind, id)].filter(p) =~= Seq::<LiveHandle>::empty());
        Seq::filter_distributes_over_add(seq![handle_of(kind, id)], tail, p);
        Seq::filter_distributes_over_add(base, hs, p);
        let v1 = after_unload(v, kind, id);
        assert(v1.live =~= base + tail);
        assert forall|i: int| 0 <= i < rest.len() implies #[trigger] rest[i] != 0 by {
            assert(rest[i] == ids[i + 1]);
        }
        assert forall|i: int, j: int| 0 <= i < j < rest.len() implies rest[i] != rest[j] by {
            assert(rest[i] == ids[i + 1] && rest[j] == ids[j + 1]);
        }
        assert forall|i: int, j: int|
            0 <= i < base.len() && 0 <= j < rest.len() implies !released_by(#[trigger] base[i], kind, #[trigger] rest[j]) by {
            assert(rest[j] == ids[j + 1]);
        }
        lemma_unload_all(v1, kind, rest, base);
    }
}

/// Load/unload balance: loading fresh handles of one kind and then
/// unloading each of them exactly once is accepted at every step (no load is
/// refused, no unload is a double unload) and leaves the device as it was,
/// with none of them left to leak.
pub proof fn lemma_load_unload_balance(v: DeviceView, kind: ResourceKind, ids: Seq<u64>)
    requires
        v.is_open(),
        forall|i: int| 0 <= i < ids.len() ==> #[trigger] ids[i] != 0,
        forall|i: int, j: int| 0 <= i < j < ids.len() ==> ids[i] != ids[j],
        forall|i: int, j: int|
            0 <= i < v.live.len() && 0 <= j < ids.len() ==> !released_by(#[trigger] v.live[i], kind, #[trigger] ids[j]),
    ensures
        loads_accepted(v, kind, ids),
        unloads_due(load_all(v, kind, ids), kind, ids),
        unload_all(load_all(v, kind, ids), kind, ids) == v,
{
    assert forall|i: int| 0 <= i < ids.len() implies !is_live(v.live, kind, #[trigger] ids[i]) by {
        if is_live(v.live, kind, ids[i]) {
            let j = choose|j: int| 0 <= j < v.live.len() && v.live[j].kind == kind && v.live[j].id == ids[i];
            assert(released_by(v.live[j], kind, ids[i]));
        }
    }
    lemma_load_all(v, kind, ids);
    lemma_unload_all(load_all(v, kind, ids), kind, ids, v.live);
}

/// Alias independence: unloading an alias leaves its sound live, and
/// unloading the sound retires its aliases, so that no alias of it is left
/// to unload afterwards.
pub proof fn lemma_alias_independence(v: DeviceView, alias: u64, source: u64)
    requires
        v.is_open(),
        alias != 0,
        source != 0,
        is_live(v.live, ResourceKind::Sound, source),
        is_live(v.live, ResourceKind::SoundAlias, alias),
        forall|i: int|
            0 <= i < v.live.len() && (#[trigger] v.live[i]).kind == ResourceKind::SoundAlias
                && v.live[i].id == alias ==> v.live[i].source == source,
    ensures
        release_result(v, ResourceKind::SoundAlias, alias) == Ok::<bool, DeviceError>(true),
        is_live(after_unload(v, ResourceKind::SoundAlias, alias).live, ResourceKind::Sound, source),
        release_result(v, ResourceKind::Sound, source) == Ok::<bool, DeviceError>(true),
        forall|i: int|
            0 <= i < after_unload(v, ResourceKind::Sound, source).live.len() ==> (
            #[trigger] after_unload(v, ResourceKind::Sound, source).live[i]).kind != ResourceKind::SoundAlias
                || after_unload(v, ResourceKind::Sound, source).live[i].source != source,
        release_result(after_unload(v, ResourceKind::Sound, source), ResourceKind::SoundAlias, alias)
            == Err::<bool, DeviceError>(DeviceError::NotLive),
{
    let pa = |h: LiveHandle| !released_by(h, ResourceKind::SoundAlias, alias);
    lemma_filter_facts(v.live, pa);
    let j = choose|j: int| 0 <= j < v.live.len() && v.live[j].kind == ResourceKind::Sound && v.live[j].id == source;
    assert(pa(v.live[j]));
    let la = v.live.filter(pa);
    assert(la.contains(v.live[j]));
    let k = choose|k: int| 0 <= k < la.len() && la[k] == v.live[j];
    assert(la[k].kind == ResourceKind::Sound && la[k].id == source);

    let ps = |h: LiveHandle| !released_by(h, ResourceKind::Sound, source);
    lemma_filter_facts(v.live, ps);
    let ls = v.live.filter(ps);
    assert forall|i: int| 0 <= i < ls.len() implies (#[trigger] ls[i]).kind != ResourceKind::SoundAlias
        || ls[i].source != source by {
        assert(ps(ls[i]));
    }
    if is_live(ls, ResourceKind::SoundAlias, alias) {
        let m = choose|m: int| 0 <= m < ls.len() && ls[m].kind == ResourceKind::SoundAlias && ls[m].id == alias;
        assert(v.live.contains(ls[m]));
        let n = choose|n: int| 0 <= n < v.live.len() && v.live[n] == ls[m];
        assert(v.live[n].source == source);
        assert(ps(ls[m]));
    }
}

/// Two loads accepted one after the other hold different native ids: a
/// second handle with a live id is refused, so accepted handles are distinct
/// allocations.
pub proof fn lemma_accepted_loads_distinct(v: DeviceView, kind: ResourceKind, a: u64, b: u64)
    requires
        register_result(v, handle_of(kind, a)) == Ok::<bool, DeviceError>(true),
        register_result(after_register(v, handle_of(kind, a)), handle_of(kind, b)) == Ok::<
            bool,
            DeviceError,
        >(true),
    ensures
        a != b,
        is_live(after_register(after_register(v, handle_of(kind, a)), handle_of(kind, b)).live, kind, a),
        is_live(after_register(after_register(v, handle_of(kind, a)), handle_of(kind, b)).live, kind, b),
{
    let v1 = after_register(v, handle_of(kind, a));
    let v2 = after_register(v1, handle_of(kind, b));
    assert(v1.live[v.live.len() as int] == handle_of(kind, a));
    assert(is_live(v1.live, kind, a));
    assert(v2.live[v.live.len() as int] == handle_of(kind, a));
    assert(v2.live[v1.live.len() as int] == handle_of(kind, b));
}

/// Two font loads accepted one after the other are distinct allocations:
/// their atlas textures differ, and so do their glyph and rectangle arrays
/// where both are present.
pub proof fn lemma_font_loads_distinct(
    v: DeviceView,
    t1: u64,
    g1: u64,
    r1: u64,
    t2: u64,
    g2: u64,
    r2: u64,
)
    requires
        font_result(v, t1, g1, r1) == Ok::<bool, DeviceError>(true),
        font_result(after_font(v, t1, g1, r1), t2, g2, r2) == Ok::<bool, DeviceError>(true),
    ensures
        t1 != t2,
        g1 != 0 && g2 != 0 ==> g1 != g2,
        r1 != 0 && r2 != 0 ==> r1 != r2,
{
    let v1 = after_font(v, t1, g1, r1);
    let e = font_entries(t1, g1, r1);
    let n = v.live.len() as int;
    assert(v1.live[n] == e[0]);
    assert(is_live(v1.live, ResourceKind::Font, t1));
    if g1 != 0 {
        assert(e[1] == handle_of(ResourceKind::FontGlyphs, g1));
        assert(v1.live[n + 1] == e[1]);
        assert(is_live(v1.live, ResourceKind::FontGlyphs, g1));
    }
    if r1 != 0 {
        let k: int = if g1 != 0 { 2 } else { 1 };
        assert(e[k] == handle_of(ResourceKind::FontRecs, r1));
        assert(v1.live[n + k] == e[k]);
        assert(is_live(v1.live, ResourceKind::FontRecs, r1));
    }
}

} // verus!
