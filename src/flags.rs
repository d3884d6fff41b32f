//! Bit sets of window configuration flags and touch gestures.
use vstd::prelude::*;

verus! {

/// A set of window configuration flags, as the native bit mask.
#[derive(Debug, Clone, Copy, PartialEq, Eq, Structural)]
pub struct ConfigFlag {
    pub flag: u32,
}

impl ConfigFlag {
    /// The native bit mask.
    pub open spec fn spec_value(&self) -> u32 {
        self.flag
    }

    /// The native bit mask.
    pub fn value(&self) -> (r: u32)
        ensures
            r == self.spec_value(),
    {
        self.flag
    }
}

impl core::ops::BitOr for ConfigFlag {
    type Output = ConfigFlag;

    fn bitor(self, rhs: ConfigFlag) -> ConfigFlag {
        ConfigFlag { flag: self.flag | rhs.flag }
    }
}

impl vstd::std_specs::ops::BitOrSpecImpl for ConfigFlag {
    open spec fn obeys_bitor_spec() -> bool {
        true
    }

    open spec fn bitor_req(self, rhs: ConfigFlag) -> bool {
        true
    }

    open spec fn bitor_spec(self, rhs: ConfigFlag) -> ConfigFlag {
        ConfigFlag { flag: self.flag | rhs.flag }
    }
}

impl core::ops::BitOrAssign for ConfigFlag {
    fn bitor_assign(&mut self, rhs: ConfigFlag) {
        self.flag = self.flag | rhs.flag;
    }
}

impl core::ops::BitAnd for ConfigFlag {
    type Output = ConfigFlag;

    fn bitand(self, rhs: ConfigFlag) -> ConfigFlag {
        ConfigFlag { flag: self.flag & rhs.flag }
    }
}

impl vstd::std_specs::ops::BitAndSpecImpl for ConfigFlag {
    open spec fn obeys_bitand_spec() -> bool {
        true
    }

    open spec fn bitand_req(self, rhs: ConfigFlag) -> bool {
        true
    }

    open spec fn bitand_spec(self, rhs: ConfigFlag) -> ConfigFlag {
        ConfigFlag { flag: self.flag & rhs.flag }
    }
}

impl core::ops::BitAndAssign for ConfigFlag {
    fn bitand_assign(&mut self, rhs: ConfigFlag) {
        self.flag = self.flag & rhs.flag;
    }
}

impl core::ops::BitXor for ConfigFlag {
    type Output = ConfigFlag;

    fn bitxor(self, rhs: ConfigFlag) -> ConfigFlag {
        ConfigFlag { flag: self.flag ^ rhs.flag }
    }
}

impl vstd::std_specs::ops::BitXorSpecImpl for ConfigFlag {
    open spec fn obeys_bitxor_spec() -> bool {
        true
    }

    open spec fn bitxor_req(self, rhs: ConfigFlag) -> bool {
        true
    }

    open spec fn bitxor_spec(self, rhs: ConfigFlag) -> ConfigFlag {
        ConfigFlag { flag: self.flag ^ rhs.flag }
    }
}

impl core::ops::BitXorAssign for ConfigFlag {
    fn bitxor_assign(&mut self, rhs: ConfigFlag) {
        self.flag = self.flag ^ rhs.flag;
    }
}

impl core::ops::Not for ConfigFlag {
    type Output = ConfigFlag;

    fn not(self) -> ConfigFlag {
        ConfigFlag { flag: !self.flag }
    }
}

impl vstd::std_specs::ops::NotSpecImpl for ConfigFlag {
    open spec fn obeys_not_spec() -> bool {
        true
    }

    open spec fn not_req(self) -> bool {
        true
    }

    open spec fn not_spec(self) -> ConfigFlag {
        ConfigFlag { flag: !self.flag }
    }
}

/// Single window configuration flags.
#[derive(Debug, Clone, Copy, PartialEq, Eq, Structural)]
pub enum ConfigFlags {
    VsyncHint,
    FullscreenMode,
    WindowResizable,
    WindowUndecorated,
    WindowHidden,
    WindowMinimized,
    WindowMaximized,
    WindowUnfocused,
    WindowTopmost,
    WindowAlwaysRun,
    WindowTransparent,
    WindowHighDPI,
    WindowMousePassthrough,
    BorderlessWindowedMode,
    Msaa4xHint,
    InterlacedHint,
}

impl ConfigFlags {
    /// The native bit value of this flag.
    pub open spec fn spec_bits(self) -> u32 {
        match self {
            ConfigFlags::VsyncHint => 0x40,
            ConfigFlags::FullscreenMode => 0x2,
            ConfigFlags::WindowResizable => 0x4,
            ConfigFlags::WindowUndecorated => 0x8,
            ConfigFlags::WindowHidden => 0x80,
            ConfigFlags::WindowMinimized => 0x200,
            ConfigFlags::WindowMaximized => 0x400,
            ConfigFlags::WindowUnfocused => 0x800,
            ConfigFlags::WindowTopmost => 0x1000,
            ConfigFlags::WindowAlwaysRun => 0x100,
            ConfigFlags::WindowTransparent => 0x10,
            ConfigFlags::WindowHighDPI => 0x2000,
            ConfigFlags::WindowMousePassthrough => 0x4000,
            ConfigFlags::BorderlessWindowedMode => 0x8000,
            ConfigFlags::Msaa4xHint => 0x20,
            ConfigFlags::InterlacedHint => 0x10000,
        }
    }

    /// The native bit value of this flag.
    pub fn bits(self) -> (r: u32)
        ensures
            r == self.spec_bits(),
    {
        match self {
            ConfigFlags::VsyncHint => 0x40,
            ConfigFlags::FullscreenMode => 0x2,
            ConfigFlags::WindowResizable => 0x4,
            ConfigFlags::WindowUndecorated => 0x8,
            ConfigFlags::WindowHidden => 0x80,
            ConfigFlags::WindowMinimized => 0x200,
            ConfigFlags::WindowMaximized => 0x400,
            ConfigFlags::WindowUnfocused => 0x800,
            ConfigFlags::WindowTopmost => 0x1000,
            ConfigFlags::WindowAlwaysRun => 0x100,
            ConfigFlags::WindowTransparent => 0x10,
            ConfigFlags::WindowHighDPI => 0x2000,
            ConfigFlags::WindowMousePassthrough => 0x4000,
            ConfigFlags::BorderlessWindowedMode => 0x8000,
            ConfigFlags::Msaa4xHint => 0x20,
            ConfigFlags::InterlacedHint => 0x10000,
        }
    }
}

impl From<ConfigFlags> for ConfigFlag {
    fn from(f: ConfigFlags) -> ConfigFlag {
        ConfigFlag { flag: f.bits() }
    }
}

impl vstd::std_specs::convert::FromSpecImpl<ConfigFlags> for ConfigFlag {
    open spec fn obeys_from_spec() -> bool {
        true
    }

    open spec fn from_spec(f: ConfigFlags) -> ConfigFlag {
        ConfigFlag { flag: f.spec_bits() }
    }
}

impl core::ops::BitOr for ConfigFlags {
    type Output = ConfigFlag;

    fn bitor(self, rhs: ConfigFlags) -> ConfigFlag {
        ConfigFlag { flag: self.bits() | rhs.bits() }
    }
}

impl core::ops::BitAnd for ConfigFlags {
    type Output = ConfigFlag;

    fn bitand(self, rhs: ConfigFlags) -> ConfigFlag {
        ConfigFlag { flag: self.bits() & rhs.bits() }
    }
}

impl core::ops::BitXor for ConfigFlags {
    type Output = ConfigFlag;

    fn bitxor(self, rhs: ConfigFlags) -> ConfigFlag {
        ConfigFlag { flag: self.bits() ^ rhs.bits() }
    }
}

impl vstd::std_specs::ops::BitOrSpecImpl for ConfigFlags {
    open spec fn obeys_bitor_spec() -> bool {
        true
    }

    open spec fn bitor_req(self, rhs: ConfigFlags) -> bool {
        true
    }

    open spec fn bitor_spec(self, rhs: ConfigFlags) -> ConfigFlag {
        ConfigFlag { flag: self.spec_bits() | rhs.spec_bits() }
    }
}

impl vstd::std_specs::ops::BitAndSpecImpl for ConfigFlags {
    open spec fn obeys_bitand_spec() -> bool {
        true
    }

    open spec fn bitand_req(self, rhs: ConfigFlags) -> bool {
        true
    }

    open spec fn bitand_spec(self, rhs: ConfigFlags) -> ConfigFlag {
        ConfigFlag { flag: self.spec_bits() & rhs.spec_bits() }
    }
}

impl vstd::std_specs::ops::BitXorSpecImpl for ConfigFlags {
    open spec fn obeys_bitxor_spec() -> bool {
        true
    }

    open spec fn bitxor_req(self, rhs: ConfigFlags) -> bool {
        true
    }

    open spec fn bitxor_spec(self, rhs: ConfigFlags) -> ConfigFlag {
        ConfigFlag { flag: self.spec_bits() ^ rhs.spec_bits() }
    }
}

impl vstd::std_specs::ops::NotSpecImpl for ConfigFlags {
    open spec fn obeys_not_spec() -> bool {
        true
    }

    open spec fn not_req(self) -> bool {
        true
    }

    open spec fn not_spec(self) -> ConfigFlag {
        ConfigFlag { flag: !self.spec_bits() }
    }
}

impl core::ops::Not for ConfigFlags {
    type Output = ConfigFlag;

    fn not(self) -> ConfigFlag {
        ConfigFlag { flag: !self.bits() }
    }
}

/// A set of touch gestures, as the native bit mask.
#[derive(Debug, Clone, Copy, PartialEq, Eq, Structural)]
pub struct GestureFlag {
    pub flag: u32,
}

impl GestureFlag {
    /// The native bit mask.
    pub open spec fn spec_bits(&self) -> u32 {
        self.flag
    }

    /// The native bit mask.
    pub fn bits(&self) -> (r: u32)
        ensures
            r == self.spec_bits(),
    {
        self.flag
    }
}

impl core::ops::BitOr for GestureFlag {
    type Output = GestureFlag;

    fn bitor(self, rhs: GestureFlag) -> GestureFlag {
        GestureFlag { flag: self.flag | rhs.flag }
    }
}

impl vstd::std_specs::ops::BitOrSpecImpl for GestureFlag {
    open spec fn obeys_bitor_spec() -> bool {
        true
    }

    open spec fn bitor_req(self, rhs: GestureFlag) -> bool {
        true
    }

    open spec fn bitor_spec(self, rhs: GestureFlag) -> GestureFlag {
        GestureFlag { flag: self.flag | rhs.flag }
    }
}

impl core::ops::BitOrAssign for GestureFlag {
    fn bitor_assign(&mut self, rhs: GestureFlag) {
        self.flag = self.flag | rhs.flag;
    }
}

impl core::ops::BitAnd for GestureFlag {
    type Output = GestureFlag;

    fn bitand(self, rhs: GestureFlag) -> GestureFlag {
        GestureFlag { flag: self.flag & rhs.flag }
    }
}

impl vstd::std_specs::ops::BitAndSpecImpl for GestureFlag {
    open spec fn obeys_bitand_spec() -> bool {
        true
    }

    open spec fn bitand_req(self, rhs: GestureFlag) -> bool {
        true
    }

    open spec fn bitand_spec(self, rhs: GestureFlag) -> GestureFlag {
        GestureFlag { flag: self.flag & rhs.flag }
    }
}

impl core::ops::BitAndAssign for GestureFlag {
    fn bitand_assign(&mut self, rhs: GestureFlag) {
        self.flag = self.flag & rhs.flag;
    }
}

impl core::ops::BitXor for GestureFlag {
    type Output = GestureFlag;

    fn bitxor(self, rhs: GestureFlag) -> GestureFlag {
        GestureFlag { flag: self.flag ^ rhs.flag }
    }
}

impl vstd::std_specs::ops::BitXorSpecImpl for GestureFlag {
    open spec fn obeys_bitxor_spec() -> bool {
        true
    }

    open spec fn bitxor_req(self, rhs: GestureFlag) -> bool {
        true
    }

    open spec fn bitxor_spec(self, rhs: GestureFlag) -> GestureFlag {
        GestureFlag { flag: self.flag ^ rhs.flag }
    }
}

impl core::ops::BitXorAssign for GestureFlag {
    fn bitxor_assign(&mut self, rhs: GestureFlag) {
        self.flag = self.flag ^ rhs.flag;
    }
}

impl core::ops::Not for GestureFlag {
    type Output = GestureFlag;

    fn not(self) -> GestureFlag {
        GestureFlag { flag: !self.flag }
    }
}

impl vstd::std_specs::ops::NotSpecImpl for GestureFlag {
    open spec fn obeys_not_spec() -> bool {
        true
    }

    open spec fn not_req(self) -> bool {
        true
    }

    open spec fn not_spec(self) -> GestureFlag {
        GestureFlag { flag: !self.flag }
    }
}

/// Single touch gestures; `NoGesture` is the empty mask.
#[derive(Debug, Clone, Copy, PartialEq, Eq, Structural)]
pub enum GestureFlags {
    NoGesture,
    Tap,
    DoubleTap,
    Hold,
    Drag,
    SwipeRight,
    SwipeLeft,
    SwipeUp,
    SwipeDown,
    PinchIn,
    PinchOut,
}

impl GestureFlags {
    /// The native bit value of this flag.
    pub open spec fn spec_bits(self) -> u32 {
        match self {
            GestureFlags::NoGesture => 0x0,
            GestureFlags::Tap => 0x1,
            GestureFlags::DoubleTap => 0x2,
            GestureFlags::Hold => 0x4,
            GestureFlags::Drag => 0x8,
            GestureFlags::SwipeRight => 0x10,
            GestureFlags::SwipeLeft => 0x20,
            GestureFlags::SwipeUp => 0x40,
            GestureFlags::SwipeDown => 0x80,
            GestureFlags::PinchIn => 0x100,
            GestureFlags::PinchOut => 0x200,
        }
    }

    /// The native bit value of this flag.
    pub fn bits(self) -> (r: u32)
        ensures
            r == self.spec_bits(),
    {
        match self {
            GestureFlags::NoGesture => 0x0,
            GestureFlags::Tap => 0x1,
            GestureFlags::DoubleTap => 0x2,
            GestureFlags::Hold => 0x4,
            GestureFlags::Drag => 0x8,
            GestureFlags::SwipeRight => 0x10,
            GestureFlags::SwipeLeft => 0x20,
            GestureFlags::SwipeUp => 0x40,
            GestureFlags::SwipeDown => 0x80,
            GestureFlags::PinchIn => 0x100,
            GestureFlags::PinchOut => 0x200,
        }
    }
}

impl From<GestureFlags> for GestureFlag {
    fn from(f: GestureFlags) -> GestureFlag {
        GestureFlag { flag: f.bits() }
    }
}

impl vstd::std_specs::convert::FromSpecImpl<GestureFlags> for GestureFlag {
    open spec fn obeys_from_spec() -> bool {
        true
    }

    open spec fn from_spec(f: GestureFlags) -> GestureFlag {
        GestureFlag { flag: f.spec_bits() }
    }
}

impl core::ops::BitOr for GestureFlags {
    type Output = GestureFlag;

    fn bitor(self, rhs: GestureFlags) -> GestureFlag {
        GestureFlag { flag: self.bits() | rhs.bits() }
    }
}

impl core::ops::BitAnd for GestureFlags {
    type Output = GestureFlag;

    fn bitand(self, rhs: GestureFlags) -> GestureFlag {
        GestureFlag { flag: self.bits() & rhs.bits() }
    }
}

impl core::ops::BitXor for GestureFlags {
    type Output = GestureFlag;

    fn bitxor(self, rhs: GestureFlags) -> GestureFlag {
        GestureFlag { flag: self.bits() ^ rhs.bits() }
    }
}

impl vstd::std_specs::ops::BitOrSpecImpl for GestureFlags {
    open spec fn obeys_bitor_spec() -> bool {
        true
    }

    open spec fn bitor_req(self, rhs: GestureFlags) -> bool {
        true
    }

    open spec fn bitor_spec(self, rhs: GestureFlags) -> GestureFlag {
        GestureFlag { flag: self.spec_bits() | rhs.spec_bits() }
    }
}

impl vstd::std_specs::ops::BitAndSpecImpl for GestureFlags {
    open spec fn obeys_bitand_spec() -> bool {
        true
    }

    open spec fn bitand_req(self, rhs: GestureFlags) -> bool {
        true
    }

    open spec fn bitand_spec(self, rhs: GestureFlags) -> GestureFlag {
        GestureFlag { flag: self.spec_bits() & rhs.spec_bits() }
    }
}

impl vstd::std_specs::ops::BitXorSpecImpl for GestureFlags {
    open spec fn obeys_bitxor_spec() -> bool {
        true
    }

    open spec fn bitxor_req(self, rhs: GestureFlags) -> bool {
        true
    }

    open spec fn bitxor_spec(self, rhs: GestureFlags) -> GestureFlag {
        GestureFlag { flag: self.spec_bits() ^ rhs.spec_bits() }
    }
}

impl vstd::std_specs::ops::NotSpecImpl for GestureFlags {
    open spec fn obeys_not_spec() -> bool {
        true
    }

    open spec fn not_req(self) -> bool {
        true
    }

    open spec fn not_spec(self) -> GestureFlag {
        GestureFlag { flag: !self.spec_bits() }
    }
}

impl core::ops::Not for GestureFlags {
    type Output = GestureFlag;

    fn not(self) -> GestureFlag {
        GestureFlag { flag: !self.bits() }
    }
}

impl TryFrom<u32> for GestureFlag {
    type Error = ();

    fn try_from(value: u32) -> (r: Result<GestureFlag, ()>) {
        Ok(GestureFlag { flag: value })
    }
}

impl vstd::std_specs::convert::TryFromSpecImpl<u32> for GestureFlag {
    open spec fn obeys_try_from_spec() -> bool {
        true
    }

    open spec fn try_from_spec(value: u32) -> Result<GestureFlag, ()> {
        Ok(GestureFlag { flag: value })
    }
}

impl TryFrom<i32> for GestureFlag {
    type Error = ();

    /// A negative native value is no gesture mask.
    fn try_from(value: i32) -> (r: Result<GestureFlag, ()>) {
        if value < 0 {
            Err(())
        } else {
            Ok(GestureFlag { flag: value as u32 })
        }
    }
}

impl vstd::std_specs::convert::TryFromSpecImpl<i32> for GestureFlag {
    open spec fn obeys_try_from_spec() -> bool {
        true
    }

    open spec fn try_from_spec(value: i32) -> Result<GestureFlag, ()> {
        if value < 0 {
            Err(())
        } else {
            Ok(GestureFlag { flag: value as u32 })
        }
    }
}

} // verus!
