//! Input devices and monitors, addressed by their native slot index.
use vstd::prelude::*;
use crate::codes::GamepadButton;
use crate::device::{DeviceError, Window};
use crate::marshal::{c_str_content, decoded_text, from_native_string};

verus! {

/// A gamepad slot. Making one allocates nothing; if no device sits in the
/// slot, queries on it simply report nothing pressed.
#[derive(Debug, Clone, Copy, PartialEq, Eq, Structural)]
pub struct Gamepad {
    pub id: i32,
}

/// The native arguments of a gamepad button query.
#[derive(Debug, Clone, Copy, PartialEq, Eq, Structural)]
pub struct ButtonQuery {
    pub gamepad: i32,
    pub button: i32,
}

/// The result of an input query: it needs an open device.
pub open spec fn query_result<T>(window_open: bool, value: T) -> Result<T, DeviceError> {
    if window_open {
        Ok(value)
    } else {
        Err(DeviceError::Closed)
    }
}

impl Gamepad {
    pub fn new(id: i32) -> (r: Gamepad)
        ensures
            r.id == id,
    {
        Gamepad { id }
    }

    /// Moves to the next slot.
    pub fn next(&mut self)
        requires
            old(self).id < i32::MAX,
        ensures
            final(self).id == old(self).id + 1,
    {
        self.id = self.id + 1;
    }

    /// Moves to the previous slot; slot 0 stays where it is.
    pub fn prev(&mut self)
        requires
            old(self).id > i32::MIN,
        ensures
            final(self).id == if old(self).id == 0 {
                0
            } else {
                old(self).id - 1
            },
    {
        if self.id == 0 {
            return ;
        }
        self.id = self.id - 1;
    }

    pub fn id(&self) -> (r: i32)
        ensures
            r == self.id,
    {
        self.id
    }

    /// The slot to ask the native side about.
    pub fn is_available(&self, window: &Window) -> (r: Result<i32, DeviceError>)
        ensures
            r == query_result(window@.is_open(), self.id),
    {
        if window.is_open() {
            Ok(self.id)
        } else {
            Err(DeviceError::Closed)
        }
    }

    /// The name the native side reported for this pad, copied with invalid
    /// UTF-8 replaced: `None` where it returned a null pointer (no pad).
    pub fn name(&self, raw: Option<&[u8]>) -> (r: Option<String>)
        ensures
            raw is None ==> r is None,
            raw matches Some(b) ==> (r matches Some(s) && s@ == decoded_text(c_str_content(b@))),
    {
        match raw {
            None => None,
            Some(_) => Some(from_native_string(raw)),
        }
    }

    fn button_query(&self, window: &Window, button: GamepadButton) -> (r: Result<
        ButtonQuery,
        DeviceError,
    >)
        ensures
            r == query_result(
                window@.is_open(),
                ButtonQuery { gamepad: self.id, button: button.spec_code() },
            ),
    {
        if window.is_open() {
            Ok(ButtonQuery { gamepad: self.id, button: button.code() })
        } else {
            Err(DeviceError::Closed)
        }
    }

    /// Arguments of the native "pressed once" query.
    pub fn is_button_pressed(&self, window: &Window, button: GamepadButton) -> (r: Result<
        ButtonQuery,
        DeviceError,
    >)
        ensures
            r == query_result(
                window@.is_open(),
                ButtonQuery { gamepad: self.id, button: button.spec_code() },
            ),
    {
        self.button_query(window, button)
    }

    /// Arguments of the native "held down" query.
    pub fn is_button_down(&self, window: &Window, button: GamepadButton) -> (r: Result<
        ButtonQuery,
        DeviceError,
    >)
        ensures
            r == query_result(
                window@.is_open(),
                ButtonQuery { gamepad: self.id, button: button.spec_code() },
            ),
    {
        self.button_query(window, button)
    }

    /// Arguments of the native "released once" query.
    pub fn is_button_released(&self, window: &Window, button: GamepadButton) -> (r: Result<
        ButtonQuery,
        DeviceError,
    >)
        ensures
            r == query_result(
                window@.is_open(),
                ButtonQuery { gamepad: self.id, button: button.spec_code() },
            ),
    {
        self.button_query(window, button)
    }

    /// Arguments of the native "not pressed" query.
    pub fn is_button_up(&self, window: &Window, button: GamepadButton) -> (r: Result<
        ButtonQuery,
        DeviceError,
    >)
        ensures
            r == query_result(
                window@.is_open(),
                ButtonQuery { gamepad: self.id, button: button.spec_code() },
            ),
    {
        self.button_query(window, button)
    }

    /// The slot whose axis count to ask for.
    pub fn get_axis_count(&self, window: &Window) -> (r: Result<i32, DeviceError>)
        ensures
            r == query_result(window@.is_open(), self.id),
    {
        self.is_available(window)
    }
}

/// The button the native side reports as last pressed. Zero (the code of
/// `Unknown`) and negative codes mean that none was pressed and give
/// `None`; a code that no button has is not taken for one either.
pub fn last_button_pressed(code: i32) -> (r: Option<GamepadButton>)
    ensures
        code <= 0 ==> r is None,
        code > 0 ==> r == GamepadButton::spec_from_code(code),
{
    if code <= 0 {
        None
    } else {
        GamepadButton::from_code(code)
    }
}

/// A recorded input event, replayed by frame.
#[derive(Debug, Clone, Copy)]
pub struct AutomationEvent {
    pub frame: u32,
    pub event_type: u32,
    pub params: [i32; 4],
}

/// A list of file paths that the native side allocated.
#[derive(Debug, Clone, Copy, PartialEq, Eq, Structural)]
pub struct FilePathList {
    pub capacity: u32,
    pub count: u32,
    /// Address of the native array of path pointers.
    pub paths: u64,
}

/// A monitor, by its native index.
#[derive(Debug, Clone, Copy, PartialEq, Eq, Structural)]
pub struct Monitor {
    pub id: i32,
}

impl Monitor {
    fn query(&self, window: &Window) -> (r: Result<i32, DeviceError>)
        ensures
            r == query_result(window@.is_open(), self.id),
    {
        if window.is_open() {
            Ok(self.id)
        } else {
            Err(DeviceError::Closed)
        }
    }

    /// The monitor to ask the native side for its screen width.
    pub fn width(&self, window: &Window) -> (r: Result<i32, DeviceError>)
        ensures
            r == query_result(window@.is_open(), self.id),
    {
        self.query(window)
    }

    /// The monitor to ask the native side for its screen height.
    pub fn height(&self, window: &Window) -> (r: Result<i32, DeviceError>)
        ensures
            r == query_result(window@.is_open(), self.id),
    {
        self.query(window)
    }

    /// The monitor to ask the native side for its physical width.
    pub fn physical_width(&self, window: &Window) -> (r: Result<i32, DeviceError>)
        ensures
            r == query_result(window@.is_open(), self.id),
    {
        self.query(window)
    }

    /// The monitor to ask the native side for its physical height.
    pub fn physical_height(&self, window: &Window) -> (r: Result<i32, DeviceError>)
        ensures
            r == query_result(window@.is_open(), self.id),
    {
        self.query(window)
    }

    /// The monitor to ask the native side for its refresh rate.
    pub fn refresh_rate(&self, window: &Window) -> (r: Result<i32, DeviceError>)
        ensures
            r == query_result(window@.is_open(), self.id),
    {
        self.query(window)
    }

    /// The name the native side reported for this monitor, copied with
    /// invalid UTF-8 replaced: empty where it returned a null pointer.
    pub fn name(&self, raw: Option<&[u8]>) -> (r: String)
        ensures
            raw is None ==> r@ == Seq::<char>::empty(),
            raw matches Some(b) ==> r@ == decoded_text(c_str_content(b@)),
    {
        from_native_string(raw)
    }
}

impl From<i32> for Monitor {
    fn from(id: i32) -> Monitor {
        Monitor { id }
    }
}

impl vstd::std_specs::convert::FromSpecImpl<i32> for Monitor {
    open spec fn obeys_from_spec() -> bool {
        true
    }

    open spec fn from_spec(id: i32) -> Monitor {
        Monitor { id }
    }
}

} // verus!
