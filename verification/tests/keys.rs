use windows::Win32::UI::Input::KeyboardAndMouse as km;
use witer::window::input::key::Key;

/// Every key and the virtual key that the Windows API gives it.
fn key_to_virtual_key() -> Vec<(Key, km::VIRTUAL_KEY)> {
    vec![
        (Key::_1, km::VK_1),
        (Key::_2, km::VK_2),
        (Key::_3, km::VK_3),
        (Key::_4, km::VK_4),
        (Key::_5, km::VK_5),
        (Key::_6, km::VK_6),
        (Key::_7, km::VK_7),
        (Key::_8, km::VK_8),
        (Key::_9, km::VK_9),
        (Key::_0, km::VK_0),
        (Key::A, km::VK_A),
        (Key::B, km::VK_B),
        (Key::C, km::VK_C),
        (Key::D, km::VK_D),
        (Key::E, km::VK_E),
        (Key::F, km::VK_F),
        (Key::G, km::VK_G),
        (Key::H, km::VK_H),
        (Key::I, km::VK_I),
        (Key::J, km::VK_J),
        (Key::K, km::VK_K),
        (Key::L, km::VK_L),
        (Key::M, km::VK_M),
        (Key::N, km::VK_N),
        (Key::O, km::VK_O),
        (Key::P, km::VK_P),
        (Key::Q, km::VK_Q),
        (Key::R, km::VK_R),
        (Key::S, km::VK_S),
        (Key::T, km::VK_T),
        (Key::U, km::VK_U),
        (Key::V, km::VK_V),
        (Key::W, km::VK_W),
        (Key::X, km::VK_X),
        (Key::Y, km::VK_Y),
        (Key::Z, km::VK_Z),
        (Key::Escape, km::VK_ESCAPE),
        (Key::F1, km::VK_F1),
        (Key::F2, km::VK_F2),
        (Key::F3, km::VK_F3),
        (Key::F4, km::VK_F4),
        (Key::F5, km::VK_F5),
        (Key::F6, km::VK_F6),
        (Key::F7, km::VK_F7),
        (Key::F8, km::VK_F8),
        (Key::F9, km::VK_F9),
        (Key::F10, km::VK_F10),
        (Key::F11, km::VK_F11),
        (Key::F12, km::VK_F12),
        (Key::F13, km::VK_F13),
        (Key::F14, km::VK_F14),
        (Key::F15, km::VK_F15),
        (Key::F16, km::VK_F16),
        (Key::F17, km::VK_F17),
        (Key::F18, km::VK_F18),
        (Key::F19, km::VK_F19),
        (Key::F20, km::VK_F20),
        (Key::F21, km::VK_F21),
        (Key::F22, km::VK_F22),
        (Key::F23, km::VK_F23),
        (Key::F24, km::VK_F24),
        (Key::PrintScreen, km::VK_SNAPSHOT),
        (Key::ScrollLock, km::VK_SCROLL),
        (Key::Pause, km::VK_PAUSE),
        (Key::Insert, km::VK_INSERT),
        (Key::Home, km::VK_HOME),
        (Key::Delete, km::VK_DELETE),
        (Key::End, km::VK_END),
        (Key::PageDown, km::VK_NEXT),
        (Key::PageUp, km::VK_PRIOR),
        (Key::Left, km::VK_LEFT),
        (Key::Up, km::VK_UP),
        (Key::Right, km::VK_RIGHT),
        (Key::Down, km::VK_DOWN),
        (Key::Backspace, km::VK_BACK),
        (Key::Enter, km::VK_RETURN),
        (Key::Space, km::VK_SPACE),
        (Key::NumLock, km::VK_NUMLOCK),
        (Key::Num0, km::VK_NUMPAD0),
        (Key::Num1, km::VK_NUMPAD1),
        (Key::Num2, km::VK_NUMPAD2),
        (Key::Num3, km::VK_NUMPAD3),
        (Key::Num4, km::VK_NUMPAD4),
        (Key::Num5, km::VK_NUMPAD5),
        (Key::Num6, km::VK_NUMPAD6),
        (Key::Num7, km::VK_NUMPAD7),
        (Key::Num8, km::VK_NUMPAD8),
        (Key::Num9, km::VK_NUMPAD9),
        (Key::NumPlus, km::VK_ADD),
        (Key::NumMinus, km::VK_SUBTRACT),
        (Key::NumMultiply, km::VK_MULTIPLY),
        (Key::NumDivide, km::VK_DIVIDE),
        (Key::NumPeriod, km::VK_DECIMAL),
        (Key::AbntC1, km::VK_ABNT_C1),
        (Key::AbntC2, km::VK_ABNT_C2),
        (Key::Apostrophe, km::VK_OEM_7),
        (Key::Menu, km::VK_APPS),
        (Key::Ax, km::VK_OEM_AX),
        (Key::BackSlash, km::VK_OEM_5),
        (Key::CapsLock, km::VK_CAPITAL),
        (Key::Comma, km::VK_OEM_COMMA),
        (Key::Convert, km::VK_CONVERT),
        (Key::Equals, km::VK_OEM_PLUS),
        (Key::Accent, km::VK_OEM_3),
        (Key::Kana, km::VK_KANA),
        (Key::Kanji, km::VK_KANJI),
        (Key::LeftAlt, km::VK_LMENU),
        (Key::LeftBracket, km::VK_OEM_4),
        (Key::LeftControl, km::VK_LCONTROL),
        (Key::LeftShift, km::VK_LSHIFT),
        (Key::LeftSuper, km::VK_LWIN),
        (Key::Mail, km::VK_LAUNCH_MAIL),
        (Key::MediaSelect, km::VK_LAUNCH_MEDIA_SELECT),
        (Key::MediaStop, km::VK_MEDIA_STOP),
        (Key::Minus, km::VK_OEM_MINUS),
        (Key::VolumeMute, km::VK_VOLUME_MUTE),
        (Key::MediaNextTrack, km::VK_MEDIA_NEXT_TRACK),
        (Key::NoConvert, km::VK_NONCONVERT),
        (Key::OEM102, km::VK_OEM_102),
        (Key::Period, km::VK_OEM_PERIOD),
        (Key::MediaPlayPause, km::VK_MEDIA_PLAY_PAUSE),
        (Key::MediaPrevTrack, km::VK_MEDIA_PREV_TRACK),
        (Key::RightAlt, km::VK_RMENU),
        (Key::RightBracket, km::VK_OEM_6),
        (Key::RightControl, km::VK_RCONTROL),
        (Key::RightShift, km::VK_RSHIFT),
        (Key::RightSuper, km::VK_RWIN),
        (Key::Semicolon, km::VK_OEM_1),
        (Key::ForwardSlash, km::VK_OEM_2),
        (Key::Sleep, km::VK_SLEEP),
        (Key::Tab, km::VK_TAB),
        (Key::NoName, km::VK_NONAME),
        (Key::VolumeDown, km::VK_VOLUME_DOWN),
        (Key::VolumeUp, km::VK_VOLUME_UP),
        (Key::WebBack, km::VK_BROWSER_BACK),
        (Key::WebFavorites, km::VK_BROWSER_FAVORITES),
        (Key::WebForward, km::VK_BROWSER_FORWARD),
        (Key::WebHome, km::VK_BROWSER_HOME),
        (Key::WebRefresh, km::VK_BROWSER_REFRESH),
        (Key::WebSearch, km::VK_BROWSER_SEARCH),
        (Key::WebStop, km::VK_BROWSER_STOP),
        (Key::Copy, km::VK_OEM_COPY),
        (Key::NumEnter, km::VK_RETURN),
        (Key::NumComma, km::VK_OEM_COMMA),
        (Key::NumEquals, km::VK_OEM_PLUS),
        (Key::Unknown, km::VIRTUAL_KEY(0)),
    ]
}

/// Every virtual key of the Windows API that names a key, and that key.
fn virtual_key_to_key() -> Vec<(km::VIRTUAL_KEY, Key)> {
    vec![
        (km::VK_1, Key::_1),
        (km::VK_2, Key::_2),
        (km::VK_3, Key::_3),
        (km::VK_4, Key::_4),
        (km::VK_5, Key::_5),
        (km::VK_6, Key::_6),
        (km::VK_7, Key::_7),
        (km::VK_8, Key::_8),
        (km::VK_9, Key::_9),
        (km::VK_0, Key::_0),
        (km::VK_A, Key::A),
        (km::VK_B, Key::B),
        (km::VK_C, Key::C),
        (km::VK_D, Key::D),
        (km::VK_E, Key::E),
        (km::VK_F, Key::F),
        (km::VK_G, Key::G),
        (km::VK_H, Key::H),
        (km::VK_I, Key::I),
        (km::VK_J, Key::J),
        (km::VK_K, Key::K),
        (km::VK_L, Key::L),
        (km::VK_M, Key::M),
        (km::VK_N, Key::N),
        (km::VK_O, Key::O),
        (km::VK_P, Key::P),
        (km::VK_Q, Key::Q),
        (km::VK_R, Key::R),
        (km::VK_S, Key::S),
        (km::VK_T, Key::T),
        (km::VK_U, Key::U),
        (km::VK_V, Key::V),
        (km::VK_W, Key::W),
        (km::VK_X, Key::X),
        (km::VK_Y, Key::Y),
        (km::VK_Z, Key::Z),
        (km::VK_ESCAPE, Key::Escape),
        (km::VK_F1, Key::F1),
        (km::VK_F2, Key::F2),
        (km::VK_F3, Key::F3),
        (km::VK_F4, Key::F4),
        (km::VK_F5, Key::F5),
        (km::VK_F6, Key::F6),
        (km::VK_F7, Key::F7),
        (km::VK_F8, Key::F8),
        (km::VK_F9, Key::F9),
        (km::VK_F10, Key::F10),
        (km::VK_F11, Key::F11),
        (km::VK_F12, Key::F12),
        (km::VK_F13, Key::F13),
        (km::VK_F14, Key::F14),
        (km::VK_F15, Key::F15),
        (km::VK_F16, Key::F16),
        (km::VK_F17, Key::F17),
        (km::VK_F18, Key::F18),
        (km::VK_F19, Key::F19),
        (km::VK_F20, Key::F20),
        (km::VK_F21, Key::F21),
        (km::VK_F22, Key::F22),
        (km::VK_F23, Key::F23),
        (km::VK_F24, Key::F24),
        (km::VK_SNAPSHOT, Key::PrintScreen),
        (km::VK_SCROLL, Key::ScrollLock),
        (km::VK_PAUSE, Key::Pause),
        (km::VK_INSERT, Key::Insert),
        (km::VK_HOME, Key::Home),
        (km::VK_DELETE, Key::Delete),
        (km::VK_END, Key::End),
        (km::VK_NEXT, Key::PageDown),
        (km::VK_PRIOR, Key::PageUp),
        (km::VK_LEFT, Key::Left),
        (km::VK_UP, Key::Up),
        (km::VK_RIGHT, Key::Right),
        (km::VK_DOWN, Key::Down),
        (km::VK_BACK, Key::Backspace),
        (km::VK_RETURN, Key::Enter),
        (km::VK_SPACE, Key::Space),
        (km::VK_NUMLOCK, Key::NumLock),
        (km::VK_NUMPAD0, Key::Num0),
        (km::VK_NUMPAD1, Key::Num1),
        (km::VK_NUMPAD2, Key::Num2),
        (km::VK_NUMPAD3, Key::Num3),
        (km::VK_NUMPAD4, Key::Num4),
        (km::VK_NUMPAD5, Key::Num5),
        (km::VK_NUMPAD6, Key::Num6),
        (km::VK_NUMPAD7, Key::Num7),
        (km::VK_NUMPAD8, Key::Num8),
        (km::VK_NUMPAD9, Key::Num9),
        (km::VK_ADD, Key::NumPlus),
        (km::VK_SUBTRACT, Key::NumMinus),
        (km::VK_MULTIPLY, Key::NumMultiply),
        (km::VK_DIVIDE, Key::NumDivide),
        (km::VK_DECIMAL, Key::NumPeriod),
        (km::VK_ABNT_C1, Key::AbntC1),
        (km::VK_ABNT_C2, Key::AbntC2),
        (km::VK_OEM_7, Key::Apostrophe),
        (km::VK_APPS, Key::Menu),
        (km::VK_OEM_AX, Key::Ax),
        (km::VK_OEM_5, Key::BackSlash),
        (km::VK_CAPITAL, Key::CapsLock),
        (km::VK_OEM_COMMA, Key::Comma),
        (km::VK_CONVERT, Key::Convert),
        (km::VK_OEM_PLUS, Key::Equals),
        (km::VK_OEM_3, Key::Accent),
        (km::VK_KANA, Key::Kana),
        (km::VK_KANJI, Key::Kanji),
        (km::VK_LMENU, Key::LeftAlt),
        (km::VK_OEM_4, Key::LeftBracket),
        (km::VK_LCONTROL, Key::LeftControl),
        (km::VK_LSHIFT, Key::LeftShift),
        (km::VK_LWIN, Key::LeftSuper),
        (km::VK_LAUNCH_MAIL, Key::Mail),
        (km::VK_LAUNCH_MEDIA_SELECT, Key::MediaSelect),
        (km::VK_MEDIA_STOP, Key::MediaStop),
        (km::VK_OEM_MINUS, Key::Minus),
        (km::VK_VOLUME_MUTE, Key::VolumeMute),
        (km::VK_MEDIA_NEXT_TRACK, Key::MediaNextTrack),
        (km::VK_NONCONVERT, Key::NoConvert),
        (km::VK_OEM_102, Key::OEM102),
        (km::VK_OEM_PERIOD, Key::Period),
        (km::VK_MEDIA_PLAY_PAUSE, Key::MediaPlayPause),
        (km::VK_MEDIA_PREV_TRACK, Key::MediaPrevTrack),
        (km::VK_RMENU, Key::RightAlt),
        (km::VK_OEM_6, Key::RightBracket),
        (km::VK_RCONTROL, Key::RightControl),
        (km::VK_RSHIFT, Key::RightShift),
        (km::VK_RWIN, Key::RightSuper),
        (km::VK_OEM_1, Key::Semicolon),
        (km::VK_OEM_2, Key::ForwardSlash),
        (km::VK_SLEEP, Key::Sleep),
        (km::VK_TAB, Key::Tab),
        (km::VK_NONAME, Key::NoName),
        (km::VK_VOLUME_DOWN, Key::VolumeDown),
        (km::VK_VOLUME_UP, Key::VolumeUp),
        (km::VK_BROWSER_BACK, Key::WebBack),
        (km::VK_BROWSER_FAVORITES, Key::WebFavorites),
        (km::VK_BROWSER_FORWARD, Key::WebForward),
        (km::VK_BROWSER_HOME, Key::WebHome),
        (km::VK_BROWSER_REFRESH, Key::WebRefresh),
        (km::VK_BROWSER_SEARCH, Key::WebSearch),
        (km::VK_BROWSER_STOP, Key::WebStop),
        (km::VK_OEM_COPY, Key::Copy),
    ]
}

#[test]
fn every_key_has_its_windows_virtual_key() {
    let pairs = key_to_virtual_key();
    assert_eq!(pairs.len(), 146);
    for (key, vk) in pairs {
        assert_eq!(key.to_virtual_key(), vk.0, "{key:?}");
        assert_eq!(km::VIRTUAL_KEY::from(key), vk, "{key:?}");
    }
}

#[test]
fn every_windows_virtual_key_names_its_key() {
    let pairs = virtual_key_to_key();
    assert_eq!(pairs.len(), 142);
    for (vk, key) in &pairs {
        assert_eq!(Key::from(*vk), *key, "{vk:?}");
        assert_eq!(Key::from_virtual_key(vk.0), *key, "{vk:?}");
    }
    for code in 0..=u16::MAX {
        if !pairs.iter().any(|(vk, _)| vk.0 == code) {
            assert_eq!(Key::from_virtual_key(code), Key::Unknown, "{code}");
            assert_eq!(Key::from(km::VIRTUAL_KEY(code)), Key::Unknown, "{code}");
        }
    }
}
