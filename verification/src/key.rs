//! Keys of a Windows keyboard and their virtual-key codes.

use vstd::prelude::*;

verus! {

/// A Windows virtual-key code (the value that the Win32 API calls `VIRTUAL_KEY`).
#[derive(Debug, Clone, Copy, PartialEq, Eq, Structural)]
pub struct VirtualKey(pub u16);

/// A key of the keyboard. Every named variant stands for one virtual-key code;
/// `OtherKey` carries any other code as it is.
#[derive(Debug, Clone, Copy, PartialEq, Eq, Structural)]
pub enum Key {
    BackspaceKey,
    TabKey,
    EnterKey,
    EscapeKey,
    SpaceKey,
    PageUpKey,
    PageDownKey,
    EndKey,
    HomeKey,
    LeftKey,
    UpKey,
    RightKey,
    DownKey,
    InsertKey,
    DeleteKey,
    Numrow0Key,
    Numrow1Key,
    Numrow2Key,
    Numrow3Key,
    Numrow4Key,
    Numrow5Key,
    Numrow6Key,
    Numrow7Key,
    Numrow8Key,
    Numrow9Key,
    AKey,
    BKey,
    CKey,
    DKey,
    EKey,
    FKey,
    GKey,
    HKey,
    IKey,
    JKey,
    KKey,
    LKey,
    MKey,
    NKey,
    OKey,
    PKey,
    QKey,
    RKey,
    SKey,
    TKey,
    UKey,
    VKey,
    WKey,
    XKey,
    YKey,
    ZKey,
    LSuper,
    RSuper,
    Numpad0Key,
    Numpad1Key,
    Numpad2Key,
    Numpad3Key,
    Numpad4Key,
    Numpad5Key,
    Numpad6Key,
    Numpad7Key,
    Numpad8Key,
    Numpad9Key,
    F1Key,
    F2Key,
    F3Key,
    F4Key,
    F5Key,
    F6Key,
    F7Key,
    F8Key,
    F9Key,
    F10Key,
    F11Key,
    F12Key,
    F13Key,
    F14Key,
    F15Key,
    F16Key,
    F17Key,
    F18Key,
    F19Key,
    F20Key,
    F21Key,
    F22Key,
    F23Key,
    F24Key,
    NumLockKey,
    ScrollLockKey,
    CapsLockKey,
    LShiftKey,
    RShiftKey,
    LControlKey,
    RControlKey,
    LAltKey,
    RAltKey,
    BrowserBackKey,
    BrowserForwardKey,
    BrowserRefreshKey,
    VolumeMuteKey,
    VolumeDownKey,
    VolumeUpKey,
    MediaNextTrackKey,
    MediaPrevTrackKey,
    MediaStopKey,
    MediaPlayPauseKey,
    BackquoteKey,
    SlashKey,
    BackslashKey,
    CommaKey,
    PeriodKey,
    MinusKey,
    QuoteKey,
    SemicolonKey,
    LBracketKey,
    RBracketKey,
    EqualKey,
    OtherKey(u16),
}

impl Key {
    /// Whether this is one of the named keys (every variant but `OtherKey`).
    pub open spec fn is_named(self) -> bool {
        !(self is OtherKey)
    }

    /// The virtual-key code of a key, as Windows defines it.
    pub open spec fn vk_code(self) -> u16 {
        match self {
            Key::BackspaceKey => 0x08,
            Key::TabKey => 0x09,
            Key::EnterKey => 0x0D,
            Key::EscapeKey => 0x1B,
            Key::SpaceKey => 0x20,
            Key::PageUpKey => 0x21,
            Key::PageDownKey => 0x22,
            Key::EndKey => 0x23,
            Key::HomeKey => 0x24,
            Key::LeftKey => 0x25,
            Key::UpKey => 0x26,
            Key::RightKey => 0x27,
            Key::DownKey => 0x28,
            Key::InsertKey => 0x2D,
            Key::DeleteKey => 0x2E,
            Key::Numrow0Key => 0x30,
            Key::Numrow1Key => 0x31,
            Key::Numrow2Key => 0x32,
            Key::Numrow3Key => 0x33,
            Key::Numrow4Key => 0x34,
            Key::Numrow5Key => 0x35,
            Key::Numrow6Key => 0x36,
            Key::Numrow7Key => 0x37,
            Key::Numrow8Key => 0x38,
            Key::Numrow9Key => 0x39,
            Key::AKey => 0x41,
            Key::BKey => 0x42,
            Key::CKey => 0x43,
            Key::DKey => 0x44,
            Key::EKey => 0x45,
            Key::FKey => 0x46,
            Key::GKey => 0x47,
            Key::HKey => 0x48,
            Key::IKey => 0x49,
            Key::JKey => 0x4A,
            Key::KKey => 0x4B,
            Key::LKey => 0x4C,
            Key::MKey => 0x4D,
            Key::NKey => 0x4E,
            Key::OKey => 0x4F,
            Key::PKey => 0x50,
            Key::QKey => 0x51,
            Key::RKey => 0x52,
            Key::SKey => 0x53,
            Key::TKey => 0x54,
            Key::UKey => 0x55,
            Key::VKey => 0x56,
            Key::WKey => 0x57,
            Key::XKey => 0x58,
            Key::YKey => 0x59,
            Key::ZKey => 0x5A,
            Key::LSuper => 0x5B,
            Key::RSuper => 0x5C,
            Key::Numpad0Key => 0x60,
            Key::Numpad1Key => 0x61,
            Key::Numpad2Key => 0x62,
            Key::Numpad3Key => 0x63,
            Key::Numpad4Key => 0x64,
            Key::Numpad5Key => 0x65,
            Key::Numpad6Key => 0x66,
            Key::Numpad7Key => 0x67,
            Key::Numpad8Key => 0x68,
            Key::Numpad9Key => 0x69,
            Key::F1Key => 0x70,
            Key::F2Key => 0x71,
            Key::F3Key => 0x72,
            Key::F4Key => 0x73,
            Key::F5Key => 0x74,
            Key::F6Key => 0x75,
            Key::F7Key => 0x76,
            Key::F8Key => 0x77,
            Key::F9Key => 0x78,
            Key::F10Key => 0x79,
            Key::F11Key => 0x7A,
            Key::F12Key => 0x7B,
            Key::F13Key => 0x7C,
            Key::F14Key => 0x7D,
            Key::F15Key => 0x7E,
            Key::F16Key => 0x7F,
            Key::F17Key => 0x80,
            Key::F18Key => 0x81,
            Key::F19Key => 0x82,
            Key::F20Key => 0x83,
            Key::F21Key => 0x84,
            Key::F22Key => 0x85,
            Key::F23Key => 0x86,
            Key::F24Key => 0x87,
            Key::NumLockKey => 0x90,
            Key::ScrollLockKey => 0x91,
            Key::CapsLockKey => 0x14,
            Key::LShiftKey => 0xA0,
            Key::RShiftKey => 0xA1,
            Key::LControlKey => 0xA2,
            Key::RControlKey => 0xA3,
            Key::LAltKey => 0xA4,
            Key::RAltKey => 0xA5,
            Key::BrowserBackKey => 0xA6,
            Key::BrowserForwardKey => 0xA7,
            Key::BrowserRefreshKey => 0xA8,
            Key::VolumeMuteKey => 0xAD,
            Key::VolumeDownKey => 0xAE,
            Key::VolumeUpKey => 0xAF,
            Key::MediaNextTrackKey => 0xB0,
            Key::MediaPrevTrackKey => 0xB1,
            Key::MediaStopKey => 0xB2,
            Key::MediaPlayPauseKey => 0xB3,
            Key::BackquoteKey => 0xC0,
            Key::SlashKey => 0xBF,
            Key::BackslashKey => 0xDC,
            Key::CommaKey => 0xBC,
            Key::PeriodKey => 0xBE,
            Key::MinusKey => 0xBD,
            Key::QuoteKey => 0xDE,
            Key::SemicolonKey => 0xBA,
            Key::LBracketKey => 0xDB,
            Key::RBracketKey => 0xDD,
            Key::EqualKey => 0xBB,
            Key::OtherKey(c) => c,
        }
    }

    /// The key that a virtual-key code stands for: the named key with that code,
    /// where there is one, and `OtherKey` of the code otherwise.
    pub open spec fn of_vk_code(code: u16) -> Key {
        if exists|k: Key| k.is_named() && #[trigger] k.vk_code() == code {
            choose|k: Key| k.is_named() && #[trigger] k.vk_code() == code
        } else {
            Key::OtherKey(code)
        }
    }

    /// The numeric keys: the digit row and the numeric keypad.
    pub open spec fn spec_is_numeric(self) -> bool {
        match self {

            Key::Numrow0Key |
            Key::Numrow1Key |
            Key::Numrow2Key |
            Key::Numrow3Key |
            Key::Numrow4Key |
            Key::Numrow5Key |
            Key::Numrow6Key |
            Key::Numrow7Key |
            Key::Numrow8Key |
            Key::Numrow9Key |
            Key::Numpad0Key |
            Key::Numpad1Key |
            Key::Numpad2Key |
            Key::Numpad3Key |
            Key::Numpad4Key |
            Key::Numpad5Key |
            Key::Numpad6Key |
            Key::Numpad7Key |
            Key::Numpad8Key |
            Key::Numpad9Key => true,
            _ => false,
        }
    }

    /// The letter keys `A` to `Z`.
    pub open spec fn spec_is_alphabetic(self) -> bool {
        match self {

            Key::AKey |
            Key::BKey |
            Key::CKey |
            Key::DKey |
            Key::EKey |
            Key::FKey |
            Key::GKey |
            Key::HKey |
            Key::IKey |
            Key::JKey |
            Key::KKey |
            Key::LKey |
            Key::MKey |
            Key::NKey |
            Key::OKey |
            Key::PKey |
            Key::QKey |
            Key::RKey |
            Key::SKey |
            Key::TKey |
            Key::UKey |
            Key::VKey |
            Key::WKey |
            Key::XKey |
            Key::YKey |
            Key::ZKey => true,
            _ => false,
        }
    }

    /// The keys that type a symbol or a space.
    pub open spec fn spec_is_symbol(self) -> bool {
        match self {

            Key::SpaceKey |
            Key::BackquoteKey |
            Key::SlashKey |
            Key::BackslashKey |
            Key::CommaKey |
            Key::PeriodKey |
            Key::MinusKey |
            Key::QuoteKey |
            Key::SemicolonKey |
            Key::LBracketKey |
            Key::RBracketKey |
            Key::EqualKey => true,
            _ => false,
        }
    }


    /// The virtual-key code of this key.
    pub fn to_vk(self) -> (vk: VirtualKey)
        ensures
            vk.0 == self.vk_code(),
    {
        let raw_vk: u16 = match self {
            Key::BackspaceKey => 0x08,
            Key::TabKey => 0x09,
            Key::EnterKey => 0x0D,
            Key::EscapeKey => 0x1B,
            Key::SpaceKey => 0x20,
            Key::PageUpKey => 0x21,
            Key::PageDownKey => 0x22,
            Key::EndKey => 0x23,
            Key::HomeKey => 0x24,
            Key::LeftKey => 0x25,
            Key::UpKey => 0x26,
            Key::RightKey => 0x27,
            Key::DownKey => 0x28,
            Key::InsertKey => 0x2D,
            Key::DeleteKey => 0x2E,
            Key::Numrow0Key => 0x30,
            Key::Numrow1Key => 0x31,
            Key::Numrow2Key => 0x32,
            Key::Numrow3Key => 0x33,
            Key::Numrow4Key => 0x34,
            Key::Numrow5Key => 0x35,
            Key::Numrow6Key => 0x36,
            Key::Numrow7Key => 0x37,
            Key::Numrow8Key => 0x38,
            Key::Numrow9Key => 0x39,
            Key::AKey => 0x41,
            Key::BKey => 0x42,
            Key::CKey => 0x43,
            Key::DKey => 0x44,
            Key::EKey => 0x45,
            Key::FKey => 0x46,
            Key::GKey => 0x47,
            Key::HKey => 0x48,
            Key::IKey => 0x49,
            Key::JKey => 0x4A,
            Key::KKey => 0x4B,
            Key::LKey => 0x4C,
            Key::MKey => 0x4D,
            Key::NKey => 0x4E,
            Key::OKey => 0x4F,
            Key::PKey => 0x50,
            Key::QKey => 0x51,
            Key::RKey => 0x52,
            Key::SKey => 0x53,
            Key::TKey => 0x54,
            Key::UKey => 0x55,
            Key::VKey => 0x56,
            Key::WKey => 0x57,
            Key::XKey => 0x58,
            Key::YKey => 0x59,
            Key::ZKey => 0x5A,
            Key::LSuper => 0x5B,
            Key::RSuper => 0x5C,
            Key::Numpad0Key => 0x60,
            Key::Numpad1Key => 0x61,
            Key::Numpad2Key => 0x62,
            Key::Numpad3Key => 0x63,
            Key::Numpad4Key => 0x64,
            Key::Numpad5Key => 0x65,
            Key::Numpad6Key => 0x66,
            Key::Numpad7Key => 0x67,
            Key::Numpad8Key => 0x68,
            Key::Numpad9Key => 0x69,
            Key::F1Key => 0x70,
            Key::F2Key => 0x71,
            Key::F3Key => 0x72,
            Key::F4Key => 0x73,
            Key::F5Key => 0x74,
            Key::F6Key => 0x75,
            Key::F7Key => 0x76,
            Key::F8Key => 0x77,
            Key::F9Key => 0x78,
            Key::F10Key => 0x79,
            Key::F11Key => 0x7A,
            Key::F12Key => 0x7B,
            Key::F13Key => 0x7C,
            Key::F14Key => 0x7D,
            Key::F15Key => 0x7E,
            Key::F16Key => 0x7F,
            Key::F17Key => 0x80,
            Key::F18Key => 0x81,
            Key::F19Key => 0x82,
            Key::F20Key => 0x83,
            Key::F21Key => 0x84,
            Key::F22Key => 0x85,
            Key::F23Key => 0x86,
            Key::F24Key => 0x87,
            Key::NumLockKey => 0x90,
            Key::ScrollLockKey => 0x91,
            Key::CapsLockKey => 0x14,
            Key::LShiftKey => 0xA0,
            Key::RShiftKey => 0xA1,
            Key::LControlKey => 0xA2,
            Key::RControlKey => 0xA3,
            Key::LAltKey => 0xA4,
            Key::RAltKey => 0xA5,
            Key::BrowserBackKey => 0xA6,
            Key::BrowserForwardKey => 0xA7,
            Key::BrowserRefreshKey => 0xA8,
            Key::VolumeMuteKey => 0xAD,
            Key::VolumeDownKey => 0xAE,
            Key::VolumeUpKey => 0xAF,
            Key::MediaNextTrackKey => 0xB0,
            Key::MediaPrevTrackKey => 0xB1,
            Key::MediaStopKey => 0xB2,
            Key::MediaPlayPauseKey => 0xB3,
            Key::BackquoteKey => 0xC0,
            Key::SlashKey => 0xBF,
            Key::BackslashKey => 0xDC,
            Key::CommaKey => 0xBC,
            Key::PeriodKey => 0xBE,
            Key::MinusKey => 0xBD,
            Key::QuoteKey => 0xDE,
            Key::SemicolonKey => 0xBA,
            Key::LBracketKey => 0xDB,
            Key::RBracketKey => 0xDD,
            Key::EqualKey => 0xBB,
            Key::OtherKey(code) => code,
        };
        VirtualKey(raw_vk)
    }

    /// The key that a virtual-key code stands for.
    pub fn from_vk(vk: VirtualKey) -> (key: Key)
        ensures
            key == Key::of_vk_code(vk.0),
            key.vk_code() == vk.0,
    {
        proof {
            lemma_of_vk_code_is_table(vk.0);
        }
        match vk.0 {
            0x08 => Key::BackspaceKey,
            0x09 => Key::TabKey,
            0x0D => Key::EnterKey,
            0x1B => Key::EscapeKey,
            0x20 => Key::SpaceKey,
            0x21 => Key::PageUpKey,
            0x22 => Key::PageDownKey,
            0x23 => Key::EndKey,
            0x24 => Key::HomeKey,
            0x25 => Key::LeftKey,
            0x26 => Key::UpKey,
            0x27 => Key::RightKey,
            0x28 => Key::DownKey,
            0x2D => Key::InsertKey,
            0x2E => Key::DeleteKey,
            0x30 => Key::Numrow0Key,
            0x31 => Key::Numrow1Key,
            0x32 => Key::Numrow2Key,
            0x33 => Key::Numrow3Key,
            0x34 => Key::Numrow4Key,
            0x35 => Key::Numrow5Key,
            0x36 => Key::Numrow6Key,
            0x37 => Key::Numrow7Key,
            0x38 => Key::Numrow8Key,
            0x39 => Key::Numrow9Key,
            0x41 => Key::AKey,
            0x42 => Key::BKey,
            0x43 => Key::CKey,
            0x44 => Key::DKey,
            0x45 => Key::EKey,
            0x46 => Key::FKey,
            0x47 => Key::GKey,
            0x48 => Key::HKey,
            0x49 => Key::IKey,
            0x4A => Key::JKey,
            0x4B => Key::KKey,
            0x4C => Key::LKey,
            0x4D => Key::MKey,
            0x4E => Key::NKey,
            0x4F => Key::OKey,
            0x50 => Key::PKey,
            0x51 => Key::QKey,
            0x52 => Key::RKey,
            0x53 => Key::SKey,
            0x54 => Key::TKey,
            0x55 => Key::UKey,
            0x56 => Key::VKey,
            0x57 => Key::WKey,
            0x58 => Key::XKey,
            0x59 => Key::YKey,
            0x5A => Key::ZKey,
            0x5B => Key::LSuper,
            0x5C => Key::RSuper,
            0x60 => Key::Numpad0Key,
            0x61 => Key::Numpad1Key,
            0x62 => Key::Numpad2Key,
            0x63 => Key::Numpad3Key,
            0x64 => Key::Numpad4Key,
            0x65 => Key::Numpad5Key,
            0x66 => Key::Numpad6Key,
            0x67 => Key::Numpad7Key,
            0x68 => Key::Numpad8Key,
            0x69 => Key::Numpad9Key,
            0x70 => Key::F1Key,
            0x71 => Key::F2Key,
            0x72 => Key::F3Key,
            0x73 => Key::F4Key,
            0x74 => Key::F5Key,
            0x75 => Key::F6Key,
            0x76 => Key::F7Key,
            0x77 => Key::F8Key,
            0x78 => Key::F9Key,
            0x79 => Key::F10Key,
            0x7A => Key::F11Key,
            0x7B => Key::F12Key,
            0x7C => Key::F13Key,
            0x7D => Key::F14Key,
            0x7E => Key::F15Key,
            0x7F => Key::F16Key,
            0x80 => Key::F17Key,
            0x81 => Key::F18Key,
            0x82 => Key::F19Key,
            0x83 => Key::F20Key,
            0x84 => Key::F21Key,
            0x85 => Key::F22Key,
            0x86 => Key::F23Key,
            0x87 => Key::F24Key,
            0x90 => Key::NumLockKey,
            0x91 => Key::ScrollLockKey,
            0x14 => Key::CapsLockKey,
            0xA0 => Key::LShiftKey,
            0xA1 => Key::RShiftKey,
            0xA2 => Key::LControlKey,
            0xA3 => Key::RControlKey,
            0xA4 => Key::LAltKey,
            0xA5 => Key::RAltKey,
            0xA6 => Key::BrowserBackKey,
            0xA7 => Key::BrowserForwardKey,
            0xA8 => Key::BrowserRefreshKey,
            0xAD => Key::VolumeMuteKey,
            0xAE => Key::VolumeDownKey,
            0xAF => Key::VolumeUpKey,
            0xB0 => Key::MediaNextTrackKey,
            0xB1 => Key::MediaPrevTrackKey,
            0xB2 => Key::MediaStopKey,
            0xB3 => Key::MediaPlayPauseKey,
            0xC0 => Key::BackquoteKey,
            0xBF => Key::SlashKey,
            0xDC => Key::BackslashKey,
            0xBC => Key::CommaKey,
            0xBE => Key::PeriodKey,
            0xBD => Key::MinusKey,
            0xDE => Key::QuoteKey,
            0xBA => Key::SemicolonKey,
            0xDB => Key::LBracketKey,
            0xDD => Key::RBracketKey,
            0xBB => Key::EqualKey,
            other => Key::OtherKey(other),
        }
    }


    /// Whether this is a numeric key (digit row or keypad).
    pub fn is_numeric(&self) -> (b: bool)
        ensures
            b == self.spec_is_numeric(),
    {
        match self {

            Key::Numrow0Key |
            Key::Numrow1Key |
            Key::Numrow2Key |
            Key::Numrow3Key |
            Key::Numrow4Key |
            Key::Numrow5Key |
            Key::Numrow6Key |
            Key::Numrow7Key |
            Key::Numrow8Key |
            Key::Numrow9Key |
            Key::Numpad0Key |
            Key::Numpad1Key |
            Key::Numpad2Key |
            Key::Numpad3Key |
            Key::Numpad4Key |
            Key::Numpad5Key |
            Key::Numpad6Key |
            Key::Numpad7Key |
            Key::Numpad8Key |
            Key::Numpad9Key => true,
            _ => false,
        }
    }


    /// Whether this is a letter key.
    pub fn is_alphabetic(&self) -> (b: bool)
        ensures
            b == self.spec_is_alphabetic(),
    {
        match self {

            Key::AKey |
            Key::BKey |
            Key::CKey |
            Key::DKey |
            Key::EKey |
            Key::FKey |
            Key::GKey |
            Key::HKey |
            Key::IKey |
            Key::JKey |
            Key::KKey |
            Key::LKey |
            Key::MKey |
            Key::NKey |
            Key::OKey |
            Key::PKey |
            Key::QKey |
            Key::RKey |
            Key::SKey |
            Key::TKey |
            Key::UKey |
            Key::VKey |
            Key::WKey |
            Key::XKey |
            Key::YKey |
            Key::ZKey => true,
            _ => false,
        }
    }


    /// Whether this key types a symbol or a space.
    pub fn is_symbol(&self) -> (b: bool)
        ensures
            b == self.spec_is_symbol(),
    {
        match self {

            Key::SpaceKey |
            Key::BackquoteKey |
            Key::SlashKey |
            Key::BackslashKey |
            Key::CommaKey |
            Key::PeriodKey |
            Key::MinusKey |
            Key::QuoteKey |
            Key::SemicolonKey |
            Key::LBracketKey |
            Key::RBracketKey |
            Key::EqualKey => true,
            _ => false,
        }
    }


    /// Whether this is a letter or a numeric key.
    pub fn is_alphanumeric(&self) -> (b: bool)
        ensures
            b == (self.spec_is_alphabetic() || self.spec_is_numeric()),
    {
        self.is_alphabetic() || self.is_numeric()
    }

    /// Whether this is a letter, numeric or symbol key.
    pub fn is_alphanumeric_symbol(&self) -> (b: bool)
        ensures
            b == (self.spec_is_alphabetic() || self.spec_is_numeric() || self.spec_is_symbol()),
    {
        self.is_alphanumeric() || self.is_symbol()
    }
}

/// The key that the code table gives for a code; `OtherKey` where the table has none.
closed spec fn table_key(code: u16) -> Key {
    match code {
        0x08 => Key::BackspaceKey,
        0x09 => Key::TabKey,
        0x0D => Key::EnterKey,
        0x1B => Key::EscapeKey,
        0x20 => Key::SpaceKey,
        0x21 => Key::PageUpKey,
        0x22 => Key::PageDownKey,
        0x23 => Key::EndKey,
        0x24 => Key::HomeKey,
        0x25 => Key::LeftKey,
        0x26 => Key::UpKey,
        0x27 => Key::RightKey,
        0x28 => Key::DownKey,
        0x2D => Key::InsertKey,
        0x2E => Key::DeleteKey,
        0x30 => Key::Numrow0Key,
        0x31 => Key::Numrow1Key,
        0x32 => Key::Numrow2Key,
        0x33 => Key::Numrow3Key,
        0x34 => Key::Numrow4Key,
        0x35 => Key::Numrow5Key,
        0x36 => Key::Numrow6Key,
        0x37 => Key::Numrow7Key,
        0x38 => Key::Numrow8Key,
        0x39 => Key::Numrow9Key,
        0x41 => Key::AKey,
        0x42 => Key::BKey,
        0x43 => Key::CKey,
        0x44 => Key::DKey,
        0x45 => Key::EKey,
        0x46 => Key::FKey,
        0x47 => Key::GKey,
        0x48 => Key::HKey,
        0x49 => Key::IKey,
        0x4A => Key::JKey,
        0x4B => Key::KKey,
        0x4C => Key::LKey,
        0x4D => Key::MKey,
        0x4E => Key::NKey,
        0x4F => Key::OKey,
        0x50 => Key::PKey,
        0x51 => Key::QKey,
        0x52 => Key::RKey,
        0x53 => Key::SKey,
        0x54 => Key::TKey,
        0x55 => Key::UKey,
        0x56 => Key::VKey,
        0x57 => Key::WKey,
        0x58 => Key::XKey,
        0x59 => Key::YKey,
        0x5A => Key::ZKey,
        0x5B => Key::LSuper,
        0x5C => Key::RSuper,
        0x60 => Key::Numpad0Key,
        0x61 => Key::Numpad1Key,
        0x62 => Key::Numpad2Key,
        0x63 => Key::Numpad3Key,
        0x64 => Key::Numpad4Key,
        0x65 => Key::Numpad5Key,
        0x66 => Key::Numpad6Key,
        0x67 => Key::Numpad7Key,
        0x68 => Key::Numpad8Key,
        0x69 => Key::Numpad9Key,
        0x70 => Key::F1Key,
        0x71 => Key::F2Key,
        0x72 => Key::F3Key,
        0x73 => Key::F4Key,
        0x74 => Key::F5Key,
        0x75 => Key::F6Key,
        0x76 => Key::F7Key,
        0x77 => Key::F8Key,
        0x78 => Key::F9Key,
        0x79 => Key::F10Key,
        0x7A => Key::F11Key,
        0x7B => Key::F12Key,
        0x7C => Key::F13Key,
        0x7D => Key::F14Key,
        0x7E => Key::F15Key,
        0x7F => Key::F16Key,
        0x80 => Key::F17Key,
        0x81 => Key::F18Key,
        0x82 => Key::F19Key,
        0x83 => Key::F20Key,
        0x84 => Key::F21Key,
        0x85 => Key::F22Key,
        0x86 => Key::F23Key,
        0x87 => Key::F24Key,
        0x90 => Key::NumLockKey,
        0x91 => Key::ScrollLockKey,
        0x14 => Key::CapsLockKey,
        0xA0 => Key::LShiftKey,
        0xA1 => Key::RShiftKey,
        0xA2 => Key::LControlKey,
        0xA3 => Key::RControlKey,
        0xA4 => Key::LAltKey,
        0xA5 => Key::RAltKey,
        0xA6 => Key::BrowserBackKey,
        0xA7 => Key::BrowserForwardKey,
        0xA8 => Key::BrowserRefreshKey,
        0xAD => Key::VolumeMuteKey,
        0xAE => Key::VolumeDownKey,
        0xAF => Key::VolumeUpKey,
        0xB0 => Key::MediaNextTrackKey,
        0xB1 => Key::MediaPrevTrackKey,
        0xB2 => Key::MediaStopKey,
        0xB3 => Key::MediaPlayPauseKey,
        0xC0 => Key::BackquoteKey,
        0xBF => Key::SlashKey,
        0xDC => Key::BackslashKey,
        0xBC => Key::CommaKey,
        0xBE => Key::PeriodKey,
        0xBD => Key::MinusKey,
        0xDE => Key::QuoteKey,
        0xBA => Key::SemicolonKey,
        0xDB => Key::LBracketKey,
        0xDD => Key::RBracketKey,
        0xBB => Key::EqualKey,
        other => Key::OtherKey(other),
    }
}

proof fn lemma_table_key_inverts_code(k: Key)
    requires
        k.is_named(),
    ensures
        table_key(k.vk_code()) == k,
{
}

proof fn lemma_table_key_has_code(code: u16)
    ensures
        table_key(code).vk_code() == code,
{
}

proof fn lemma_of_vk_code_is_table(code: u16)
    ensures
        Key::of_vk_code(code) == table_key(code),
{
    lemma_table_key_has_code(code);
    if exists|k: Key| k.is_named() && #[trigger] k.vk_code() == code {
        let k = choose|k: Key| k.is_named() && #[trigger] k.vk_code() == code;
        lemma_table_key_inverts_code(k);
    } else {
        if table_key(code).is_named() {
            assert(table_key(code).is_named() && table_key(code).vk_code() == code);
        }
    }
}

/// Reading a code back from the key that it stands for gives the code again.
pub proof fn lemma_code_key_code(code: u16)
    ensures
        Key::of_vk_code(code).vk_code() == code,
{
    lemma_of_vk_code_is_table(code);
    lemma_table_key_has_code(code);
}

/// A named key is the key that its own code stands for.
pub proof fn lemma_key_code_key(k: Key)
    requires
        k.is_named(),
    ensures
        Key::of_vk_code(k.vk_code()) == k,
{
    lemma_of_vk_code_is_table(k.vk_code());
    lemma_table_key_inverts_code(k);
}

/// No two named keys share a code.
pub proof fn lemma_named_codes_distinct(a: Key, b: Key)
    requires
        a.is_named(),
        b.is_named(),
        a.vk_code() == b.vk_code(),
    ensures
        a == b,
{
    lemma_key_code_key(a);
    lemma_key_code_key(b);
}

/// The numeric, letter and symbol keys are three disjoint groups of named keys.
pub proof fn lemma_key_groups_disjoint(k: Key)
    ensures
        !(k.spec_is_numeric() && k.spec_is_alphabetic()),
        !(k.spec_is_numeric() && k.spec_is_symbol()),
        !(k.spec_is_alphabetic() && k.spec_is_symbol()),
        (k.spec_is_numeric() || k.spec_is_alphabetic() || k.spec_is_symbol()) ==> k.is_named(),
{
}

/// The codes are Windows' virtual-key constants: the numeric keypad's digits lie
/// `0x30` above the digit row's (`VK_NUMPAD0` is `0x60`), `F1` to `F24` run from
/// `0x70` on, and every other named key has the code of its `VK_*` constant
/// (`VK_OEM_1` `0xBA` for `;`, `VK_OEM_PLUS` `0xBB`, `VK_OEM_COMMA` `0xBC`,
/// `VK_OEM_MINUS` `0xBD`, `VK_OEM_PERIOD` `0xBE`, `VK_OEM_2` `0xBF` for `/`,
/// `VK_OEM_3` `0xC0` for the backquote, `VK_OEM_4` to `VK_OEM_7` `0xDB` to `0xDE`
/// for `[`, backslash, `]` and the quote). The letter and digit-row keys are tied to
/// their ASCII characters by `lemma_letter_and_digit_key_codes` in `char_sender`.
pub proof fn lemma_windows_vk_codes()
    ensures
        Key::Numpad0Key.vk_code() == Key::Numrow0Key.vk_code() + 0x30,
        Key::Numpad1Key.vk_code() == Key::Numrow1Key.vk_code() + 0x30,
        Key::Numpad2Key.vk_code() == Key::Numrow2Key.vk_code() + 0x30,
        Key::Numpad3Key.vk_code() == Key::Numrow3Key.vk_code() + 0x30,
        Key::Numpad4Key.vk_code() == Key::Numrow4Key.vk_code() + 0x30,
        Key::Numpad5Key.vk_code() == Key::Numrow5Key.vk_code() + 0x30,
        Key::Numpad6Key.vk_code() == Key::Numrow6Key.vk_code() + 0x30,
        Key::Numpad7Key.vk_code() == Key::Numrow7Key.vk_code() + 0x30,
        Key::Numpad8Key.vk_code() == Key::Numrow8Key.vk_code() + 0x30,
        Key::Numpad9Key.vk_code() == Key::Numrow9Key.vk_code() + 0x30,
        Key::F1Key.vk_code() == 0x6F + 1,
        Key::F2Key.vk_code() == 0x6F + 2,
        Key::F3Key.vk_code() == 0x6F + 3,
        Key::F4Key.vk_code() == 0x6F + 4,
        Key::F5Key.vk_code() == 0x6F + 5,
        Key::F6Key.vk_code() == 0x6F + 6,
        Key::F7Key.vk_code() == 0x6F + 7,
        Key::F8Key.vk_code() == 0x6F + 8,
        Key::F9Key.vk_code() == 0x6F + 9,
        Key::F10Key.vk_code() == 0x6F + 10,
        Key::F11Key.vk_code() == 0x6F + 11,
        Key::F12Key.vk_code() == 0x6F + 12,
        Key::F13Key.vk_code() == 0x6F + 13,
        Key::F14Key.vk_code() == 0x6F + 14,
        Key::F15Key.vk_code() == 0x6F + 15,
        Key::F16Key.vk_code() == 0x6F + 16,
        Key::F17Key.vk_code() == 0x6F + 17,
        Key::F18Key.vk_code() == 0x6F + 18,
        Key::F19Key.vk_code() == 0x6F + 19,
        Key::F20Key.vk_code() == 0x6F + 20,
        Key::F21Key.vk_code() == 0x6F + 21,
        Key::F22Key.vk_code() == 0x6F + 22,
        Key::F23Key.vk_code() == 0x6F + 23,
        Key::F24Key.vk_code() == 0x6F + 24,
        Key::BackspaceKey.vk_code() == 0x08,
        Key::TabKey.vk_code() == 0x09,
        Key::EnterKey.vk_code() == 0x0D,
        Key::EscapeKey.vk_code() == 0x1B,
        Key::SpaceKey.vk_code() == 0x20,
        Key::PageUpKey.vk_code() == 0x21,
        Key::PageDownKey.vk_code() == 0x22,
        Key::EndKey.vk_code() == 0x23,
        Key::HomeKey.vk_code() == 0x24,
        Key::LeftKey.vk_code() == 0x25,
        Key::UpKey.vk_code() == 0x26,
        Key::RightKey.vk_code() == 0x27,
        Key::DownKey.vk_code() == 0x28,
        Key::InsertKey.vk_code() == 0x2D,
        Key::DeleteKey.vk_code() == 0x2E,
        Key::LSuper.vk_code() == 0x5B,
        Key::RSuper.vk_code() == 0x5C,
        Key::NumLockKey.vk_code() == 0x90,
        Key::ScrollLockKey.vk_code() == 0x91,
        Key::CapsLockKey.vk_code() == 0x14,
        Key::LShiftKey.vk_code() == 0xA0,
        Key::RShiftKey.vk_code() == 0xA1,
        Key::LControlKey.vk_code() == 0xA2,
        Key::RControlKey.vk_code() == 0xA3,
        Key::LAltKey.vk_code() == 0xA4,
        Key::RAltKey.vk_code() == 0xA5,
        Key::BrowserBackKey.vk_code() == 0xA6,
        Key::BrowserForwardKey.vk_code() == 0xA7,
        Key::BrowserRefreshKey.vk_code() == 0xA8,
        Key::VolumeMuteKey.vk_code() == 0xAD,
        Key::VolumeDownKey.vk_code() == 0xAE,
        Key::VolumeUpKey.vk_code() == 0xAF,
        Key::MediaNextTrackKey.vk_code() == 0xB0,
        Key::MediaPrevTrackKey.vk_code() == 0xB1,
        Key::MediaStopKey.vk_code() == 0xB2,
        Key::MediaPlayPauseKey.vk_code() == 0xB3,
        Key::BackquoteKey.vk_code() == 0xC0,
        Key::SlashKey.vk_code() == 0xBF,
        Key::BackslashKey.vk_code() == 0xDC,
        Key::CommaKey.vk_code() == 0xBC,
        Key::PeriodKey.vk_code() == 0xBE,
        Key::MinusKey.vk_code() == 0xBD,
        Key::QuoteKey.vk_code() == 0xDE,
        Key::SemicolonKey.vk_code() == 0xBA,
        Key::LBracketKey.vk_code() == 0xDB,
        Key::RBracketKey.vk_code() == 0xDD,
        Key::EqualKey.vk_code() == 0xBB,
{
}

/// The groups by Windows code: the numeric keys are the digit row and the keypad
/// digits (`0x30..=0x39`, `0x60..=0x69`), the letter keys are `0x41..=0x5A`, and the
/// symbol keys are the space (`0x20`) and the punctuation keys (`VK_OEM_1` to
/// `VK_OEM_3`, `0xBA..=0xC0`, and `VK_OEM_4` to `VK_OEM_7`, `0xDB..=0xDE`).
pub proof fn lemma_key_groups_by_code(k: Key)
    requires
        k.is_named(),
    ensures
        k.spec_is_numeric() <==> (0x30 <= k.vk_code() <= 0x39 || 0x60 <= k.vk_code() <= 0x69),
        k.spec_is_alphabetic() <==> 0x41 <= k.vk_code() <= 0x5A,
        k.spec_is_symbol() <==> (k.vk_code() == 0x20 || 0xBA <= k.vk_code() <= 0xC0 || 0xDB
            <= k.vk_code() <= 0xDE),
{
}

/// Whether the state that Windows reports for a key (`GetAsyncKeyState`) says that the
/// key is down: its most significant bit is set.
pub fn key_state_is_down(state: i16) -> (down: bool)
    ensures
        down == (state < 0),
{
    assert(((state >> 15u32) != 0) == (state < 0)) by (bit_vector);
    (state >> 15u32) != 0
}

} // verus!
