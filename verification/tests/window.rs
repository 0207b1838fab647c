use cursor_icon::CursorIcon;
use witer::win32;
use witer::window::command::{fullscreen_bounds, Command, COMMAND_MESSAGE_ID};
use witer::window::data::{
    char_message, clip_needs_update, dpi_changed_message, is_client_hit, message_or_empty,
    move_message, raw_keyboard_message, raw_mouse_messages, resolve_theme, wheel_message,
    CursorMode, Data, Flow, Fullscreen, IterationStart, PhysicalPosition, PhysicalSize, Rect,
    TakenReaction, Theme, Visibility,
};
use witer::window::frame::Style;
use witer::window::input::key::Key;
use witer::window::input::mouse::Mouse;
use witer::window::input::state::{ButtonState, KeyState, RawKeyState};
use witer::window::message::{
    get_cursor_move_kind, keyboard_scan_codes, mouse_position, route, CursorMoveKind, Focus,
    LoopMessage, Message, RawInputMessage, Route,
};
use witer::window::settings::WindowSettings;
use witer::window::stage::Stage;
use witer::window::state::StyleInfo;
use witer::window::sync::{Response, ThreadCommand, ThreadMessage};
use witer::window::window_loop::WindowLoop;
use witer::window::window_message::{
    Message as RawWindowMessage, MessagePriority, MouseMessage, WindowMessage, WindowMode,
};

fn new_data(settings: &WindowSettings) -> Data {
    Data::new("Window".to_string(), Style::from_settings(settings), settings, CursorIcon::Default)
}

fn key_lparam(scan_code: u32, extended: bool, repeat: bool, up: bool, count: u32) -> isize {
    let mut flags = scan_code;
    if extended {
        flags |= 0x0100;
    }
    if repeat {
        flags |= 0x4000;
    }
    if up {
        flags |= 0x8000;
    }
    ((flags << 16) | count) as i32 as isize
}

#[test]
fn keyboard_messages() {
    let l = key_lparam(0x1E, false, false, false, 1);
    assert_eq!(keyboard_scan_codes(l), (0x1E, 0xE01E));
    assert_eq!(
        Message::new_keyboard_message(l, 0, 0x41),
        Message::Key { key: Key::A, state: KeyState::Pressed, scan_code: 0x1E, is_extended_key: false }
    );
    let held = key_lparam(0x1E, false, true, false, 7);
    assert_eq!(
        Message::new_keyboard_message(held, 0, 0x41),
        Message::Key { key: Key::A, state: KeyState::Held(7), scan_code: 0x1E, is_extended_key: false }
    );
    let up = key_lparam(0x1E, false, true, true, 1);
    assert!(Message::new_keyboard_message(up, 0, 0x41).is_key(Key::A, KeyState::Released));
    // an extended key takes the key and scan code of its extended scan code
    let right_ctrl = key_lparam(0x1D, true, false, false, 1);
    assert_eq!(
        Message::new_keyboard_message(right_ctrl, 0xA3, 0xA2),
        Message::Key {
            key: Key::RightControl,
            state: KeyState::Pressed,
            scan_code: 0xE01D,
            is_extended_key: true
        }
    );
    // unless the extended scan code maps to no key
    assert_eq!(
        Message::new_keyboard_message(right_ctrl, 0, 0xA2),
        Message::Key {
            key: Key::LeftControl,
            state: KeyState::Pressed,
            scan_code: 0x1D,
            is_extended_key: true
        }
    );
}

#[test]
fn mouse_button_messages() {
    let l = ((20u32 << 16) | 10) as isize;
    assert_eq!(
        Message::new_mouse_button_message(win32::WM_LBUTTONDOWN, win32::MK_LBUTTON as usize, l),
        Message::MouseButton {
            button: Mouse::Left,
            state: ButtonState::Pressed,
            position: PhysicalPosition::new(10, 20),
            is_double_click: false
        }
    );
    let up = Message::new_mouse_button_message(win32::WM_RBUTTONUP, 0, l);
    assert!(up.is_mouse_button(Mouse::Right, ButtonState::Released));
    // a down message whose flags do not hold the button down reports it released
    let odd = Message::new_mouse_button_message(win32::WM_MBUTTONDOWN, 0, l);
    assert!(odd.is_mouse_button(Mouse::Middle, ButtonState::Released));
    let back = Message::new_mouse_button_message(
        win32::WM_XBUTTONDBLCLK,
        (1usize << 16) | win32::MK_XBUTTON1 as usize,
        l,
    );
    assert_eq!(
        back,
        Message::MouseButton {
            button: Mouse::Back,
            state: ButtonState::Pressed,
            position: PhysicalPosition::new(10, 20),
            is_double_click: true
        }
    );
    let forward = Message::new_mouse_button_message(win32::WM_XBUTTONUP, 2usize << 16, l);
    assert!(forward.is_mouse_button(Mouse::Forward, ButtonState::Released));
    assert!(!forward.is_mouse_button(Mouse::Back, ButtonState::Released));
    assert!(!forward.is_key(Key::A, KeyState::Pressed));
}

#[test]
fn mouse_positions_are_signed() {
    let l = ((0xFFFEu32 << 16) | 0xFFFF) as i32 as isize;
    assert_eq!(mouse_position(l), PhysicalPosition::new(-1, -2));
}

#[test]
fn cursor_move_kinds() {
    let rect = Some(Rect { left: 0, top: 0, right: 100, bottom: 50 });
    assert_eq!(get_cursor_move_kind(rect, false, 10, 10), CursorMoveKind::Entered);
    assert_eq!(get_cursor_move_kind(rect, true, 100, 10), CursorMoveKind::Left);
    assert_eq!(get_cursor_move_kind(rect, true, 99, 49), CursorMoveKind::Inside);
    assert_eq!(get_cursor_move_kind(rect, false, -1, 10), CursorMoveKind::Inside);
    assert_eq!(get_cursor_move_kind(None, true, -1, -1), CursorMoveKind::Inside);
}

#[test]
fn routes() {
    assert_eq!(COMMAND_MESSAGE_ID, 1024 + 69);
    assert_eq!(route(COMMAND_MESSAGE_ID, false), Route::Command);
    assert_eq!(route(COMMAND_MESSAGE_ID, true), Route::Command);
    assert_eq!(route(win32::WM_NCCREATE, false), Route::NcCreate);
    assert_eq!(route(win32::WM_CREATE, false), Route::Create);
    assert_eq!(route(win32::WM_DESTROY, false), Route::Destroy);
    assert_eq!(route(win32::WM_DESTROY, true), Route::Default);
    assert_eq!(route(win32::WM_CLOSE, false), Route::Default);
    assert_eq!(route(win32::WM_CLOSE, true), Route::Close);
    assert_eq!(route(win32::WM_SYSKEYUP, true), Route::Key);
    assert_eq!(route(win32::WM_MOUSEMOVE, true), Route::MouseMove);
    assert_eq!(route(win32::WM_MOUSEWHEEL, true), Route::MouseWheel);
    assert_eq!(route(win32::WM_XBUTTONDOWN, true), Route::MouseButton);
    assert_eq!(route(win32::WM_MOUSELEAVE, true), Route::MouseLeave);
    assert_eq!(route(0x9999, true), Route::Default);
}

#[test]
fn window_thread_messages() {
    assert_eq!(move_message(((7u32 << 16) | 0xFFFF) as isize), Message::Moved(PhysicalPosition::new(65535, 7)));
    assert_eq!(dpi_changed_message((144usize << 16) | 144), Message::ScaleFactorChanged(144));
    assert_eq!(
        wheel_message((0xFF88usize) << 16, false),
        Message::MouseWheel { delta_x: 0, delta_y: -120 }
    );
    assert_eq!(wheel_message(120usize << 16, true), Message::MouseWheel { delta_x: 120, delta_y: 0 });
    assert!(is_client_hit(((0x0201u32 << 16) | 1) as isize));
    assert!(!is_client_hit(2));
    assert_eq!(char_message('é' as usize), Message::Text("é".to_string()));
    assert_eq!(char_message(0xD800), Message::Text("\0".to_string()));
    assert_eq!(message_or_empty(None), Message::Loop(LoopMessage::Empty));
    assert!(message_or_empty(None).is_empty());
    assert_eq!(message_or_empty(Some(Message::Paint)), Message::Paint);
}

#[test]
fn raw_input_messages() {
    let messages = raw_mouse_messages(0, 0x0001 | 0x0200, 3, -4);
    assert_eq!(
        messages,
        vec![
            Message::RawInput(RawInputMessage::MouseMove { delta_x: 3, delta_y: -4 }),
            Message::RawInput(RawInputMessage::MouseButton { button: Mouse::Left, state: ButtonState::Pressed }),
            Message::RawInput(RawInputMessage::MouseButton { button: Mouse::Forward, state: ButtonState::Released }),
        ]
    );
    assert_eq!(raw_mouse_messages(0, 0, 0, 0), vec![]);
    assert_eq!(
        raw_keyboard_message(Key::A, win32::WM_SYSKEYDOWN),
        Some(Message::RawInput(RawInputMessage::Keyboard { key: Key::A, state: RawKeyState::Pressed }))
    );
    assert_eq!(
        raw_keyboard_message(Key::A, win32::WM_KEYUP),
        Some(Message::RawInput(RawInputMessage::Keyboard { key: Key::A, state: RawKeyState::Released }))
    );
    assert_eq!(raw_keyboard_message(Key::A, win32::WM_CHAR), None);
}

#[test]
fn settings_and_style() {
    let settings = WindowSettings::default()
        .with_close_on_x(false)
        .with_flow(Flow::Poll)
        .with_visible(false)
        .with_decorations(false)
        .with_fullscreen(Some(Fullscreen::Borderless))
        .with_cursor_mode(CursorMode::Confined)
        .with_theme(Theme::Dark)
        .with_resizeable(false);
    assert_eq!(settings.flow, Flow::Poll);
    assert_eq!(settings.visibility, Visibility::Hidden);
    assert_eq!(settings.decorations, Visibility::Hidden);
    assert!(!settings.close_on_x && !settings.resizeable);
    let style = Style::from_settings(&settings);
    assert_eq!(style.fullscreen, Some(Fullscreen::Borderless));
    assert!(!style.minimized && !style.maximized && !style.focused && !style.active);
    assert_eq!(style.window_style(), 0x8600_0000);
    assert_eq!(style.window_ex_style(), win32::WS_EX_APPWINDOW);
    assert_eq!(WindowSettings::new(), WindowSettings::default());
    let info = StyleInfo { visibility: Visibility::Shown, decorations: Visibility::Shown, fullscreen: None, resizeable: true };
    assert_eq!(info.fullscreen, None);
}

#[test]
fn window_stages() {
    let settings = WindowSettings::default();
    let mut data = new_data(&settings);
    assert_eq!(data.stage, Stage::Setup);
    assert!(!data.wants_message());
    assert_eq!(data.begin_iteration(), IterationStart::NotReady);
    data.mark_ready();
    assert_eq!(data.stage, Stage::Ready);
    assert_eq!(data.begin_iteration(), IterationStart::Started);
    assert_eq!(data.stage, Stage::Looping);
    assert!(data.wants_message());
    assert!(data.should_wait(false));
    assert!(!data.should_wait(true));
    // a close request closes a window that closes on its X button, once
    let reaction = data.on_taken_message(&Message::CloseRequested);
    assert_eq!(reaction, TakenReaction { post_exit: true, skip_wait: false });
    assert_eq!(data.stage, Stage::Closing);
    assert!(data.is_closing());
    assert!(data.wants_message());
    assert!(!data.close());
    assert_eq!(data.on_taken_message(&Message::CloseRequested).post_exit, false);
    // the exit message ends the iteration
    let reaction = data.on_taken_message(&Message::Loop(LoopMessage::Exit));
    assert_eq!(reaction, TakenReaction { post_exit: false, skip_wait: true });
    assert_eq!(data.stage, Stage::ExitLoop);
    assert!(!data.wants_message());
    assert_eq!(data.begin_iteration(), IterationStart::AlreadyExited);
    assert!(data.begin_destroy());
    assert!(!data.begin_destroy());
}

#[test]
fn close_on_x_can_be_turned_off() {
    let settings = WindowSettings::default().with_close_on_x(false).with_flow(Flow::Poll);
    let mut data = new_data(&settings);
    data.stage = Stage::Looping;
    assert!(!data.should_wait(false));
    assert_eq!(data.on_taken_message(&Message::CloseRequested), TakenReaction { post_exit: false, skip_wait: false });
    assert_eq!(data.stage, Stage::Looping);
    assert!(data.close());
    assert_eq!(data.stage, Stage::Closing);
}

#[test]
fn setters_post_once() {
    let settings = WindowSettings::default();
    let mut data = new_data(&settings);
    assert_eq!(data.set_visibility(Visibility::Shown), None);
    assert_eq!(data.set_visibility(Visibility::Hidden), Some(Command::SetVisibility(Visibility::Hidden)));
    assert_eq!(data.set_visibility(Visibility::Hidden), None);
    assert_eq!(data.set_decorations(Visibility::Hidden), Some(Command::SetDecorations(Visibility::Hidden)));
    assert_eq!(data.set_decorations(Visibility::Hidden), None);
    assert_eq!(
        data.set_fullscreen(Some(Fullscreen::Borderless)),
        Some(Command::SetFullscreen(Some(Fullscreen::Borderless)))
    );
    assert_eq!(data.set_fullscreen(Some(Fullscreen::Borderless)), None);
    assert_eq!(data.set_cursor_mode(CursorMode::Confined), Some(Command::SetCursorMode(CursorMode::Confined)));
    assert_eq!(data.set_cursor_mode(CursorMode::Confined), None);
    assert_eq!(
        data.set_cursor_visibility(Visibility::Hidden),
        Some(Command::SetCursorVisibility(Visibility::Hidden))
    );
    assert_eq!(data.set_cursor_visibility(Visibility::Hidden), None);
    assert_eq!(data.set_cursor_icon(CursorIcon::Default), None);
    assert_eq!(data.set_cursor_icon(CursorIcon::Pointer), Some(Command::SetCursorIcon(CursorIcon::Pointer)));
    assert_eq!(data.request_redraw(), Some(Command::Redraw));
    assert_eq!(data.request_redraw(), None);
    assert_eq!(data.on_paint(), Message::Paint);
    assert_eq!(data.request_redraw(), Some(Command::Redraw));
}

#[test]
fn titles() {
    let settings = WindowSettings::default();
    let mut data = new_data(&settings);
    assert_eq!(data.set_title("Window"), None);
    assert_eq!(data.set_title("App"), Some(Command::SetWindowText("App".to_string())));
    assert_eq!(data.set_subtitle(" - 60 fps"), Some(Command::SetWindowText("App - 60 fps".to_string())));
    assert_eq!(data.set_subtitle(" - 60 fps"), None);
    assert_eq!(data.set_title("Game"), Some(Command::SetWindowText("Game - 60 fps".to_string())));
    assert_eq!(data.title, "Game");
    assert_eq!(data.subtitle, " - 60 fps");
}

#[test]
fn themes() {
    assert_eq!(resolve_theme(Theme::Auto, true, false), Theme::Dark);
    assert_eq!(resolve_theme(Theme::Auto, false, true), Theme::Light);
    assert_eq!(resolve_theme(Theme::Dark, false, true), Theme::Dark);
    assert_eq!(resolve_theme(Theme::Dark, true, false), Theme::Light);
    assert_eq!(resolve_theme(Theme::Light, true, true), Theme::Light);
    let settings = WindowSettings::default();
    let mut data = new_data(&settings);
    assert_eq!(data.theme, Theme::Auto);
    assert_eq!(data.set_theme(Theme::Auto, true, true), None);
    assert_eq!(data.set_theme(Theme::Dark, false, true), Some(true));
    assert_eq!(data.theme, Theme::Dark);
    assert_eq!(data.set_theme(Theme::Dark, false, true), None);
    // `Auto` resolves to a concrete theme, so it is set anew each time
    assert_eq!(data.set_theme(Theme::Auto, false, true), Some(false));
    assert_eq!(data.set_theme(Theme::Auto, false, true), Some(false));
    // the creation theme is applied even where it equals the current one
    let mut fresh = new_data(&settings);
    assert!(fresh.init_theme(Theme::Auto, true, false));
    assert_eq!(fresh.theme, Theme::Dark);
    assert!(!fresh.init_theme(Theme::Dark, true, false));
    assert_eq!(fresh.theme, Theme::Light);
}

#[test]
fn window_procedure_state() {
    let settings = WindowSettings::default();
    let mut data = new_data(&settings);
    let (windowed, resized) = data.on_size(win32::SIZE_MAXIMIZED as usize, ((600u32 << 16) | 800) as isize);
    assert!(windowed);
    assert!(data.style.maximized);
    assert_eq!(resized, Message::Resized(PhysicalSize::new(800, 600)));
    data.on_size(0, 0);
    assert!(!data.style.maximized);
    assert_eq!(
        data.on_window_pos_changed(-8, 10, 816, -1),
        (true, Message::BoundsChanged { outer_position: PhysicalPosition::new(-8, 10), outer_size: PhysicalSize::new(816, u32::MAX) })
    );
    data.on_nc_activate(1);
    assert_eq!(data.on_focus(true), Message::Focus(Focus::Gained));
    assert!(data.has_focus());
    data.on_nc_activate(0);
    assert!(!data.has_focus());
    assert_eq!(data.on_sys_command(win32::SC_MINIMIZE as usize), Message::SystemCommand);
    assert!(data.style.minimized);
    data.on_sys_command(win32::SC_RESTORE as usize);
    assert!(!data.style.minimized);
    assert_eq!(data.on_focus(false), Message::Focus(Focus::Lost));
    let messages = data.on_key(key_lparam(0x2A, false, false, false, 1), 0, 0xA0);
    assert_eq!(
        messages,
        vec![Message::Key { key: Key::LeftShift, state: KeyState::Pressed, scan_code: 0x2A, is_extended_key: false }]
    );
    assert_eq!(data.input.key(Key::LeftShift), KeyState::Pressed);
    // the modifiers are derived before the key is recorded, so the next key
    // message reports the shift
    let messages = data.on_key(key_lparam(0x1E, false, false, false, 1), 0, 0x41);
    assert_eq!(messages.len(), 2);
    assert_eq!(
        messages[0],
        Message::ModifiersChanged {
            shift: ButtonState::Pressed,
            ctrl: ButtonState::Released,
            alt: ButtonState::Released,
            win: ButtonState::Released,
        }
    );
    assert_eq!(data.input.shift(), ButtonState::Pressed);
    let click = data.on_mouse_button(win32::WM_LBUTTONDOWN, 1, 0);
    assert!(click.is_mouse_button(Mouse::Left, ButtonState::Pressed));
    assert_eq!(data.input.mouse(Mouse::Left), ButtonState::Pressed);
}

#[test]
fn cursor_moves() {
    let settings = WindowSettings::default();
    let mut data = new_data(&settings);
    let rect = Some(Rect { left: 0, top: 0, right: 100, bottom: 100 });
    let l = ((5u32 << 16) | 5) as isize;
    let entered = data.on_mouse_move(l, rect);
    assert!(entered.track_leave && entered.refresh_cursor);
    assert_eq!(entered.message, Some(Message::CursorMove { position: PhysicalPosition::new(5, 5), kind: CursorMoveKind::Entered }));
    assert!(data.cursor.inside_window);
    // the same position inside sends nothing
    let same = data.on_mouse_move(l, rect);
    assert_eq!(same.message, None);
    assert!(!same.track_leave && !same.refresh_cursor);
    let out = data.on_mouse_move(((5u32 << 16) | 200) as isize, rect);
    assert_eq!(out.message, Some(Message::CursorMove { position: PhysicalPosition::new(200, 5), kind: CursorMoveKind::Left }));
    assert!(!data.cursor.inside_window);
    assert_eq!(
        data.on_mouse_leave(),
        Message::CursorMove { position: PhysicalPosition::new(200, 5), kind: CursorMoveKind::Left }
    );
    assert_eq!(data.cursor_visibility_to_apply(), Visibility::Shown);
}

#[test]
fn commands_and_cursor_clip() {
    let settings = WindowSettings::default().with_cursor_mode(CursorMode::Confined);
    let mut data = new_data(&settings);
    data.record_command(&Command::SetCursorIcon(CursorIcon::Text));
    data.record_command(&Command::SetCursorVisibility(Visibility::Hidden));
    data.record_command(&Command::SetCursorMode(CursorMode::Confined));
    data.record_command(&Command::Redraw);
    assert_eq!(data.cursor.selected_icon, CursorIcon::Text);
    assert_eq!(data.cursor.visibility, Visibility::Hidden);
    let client = Rect { left: 0, top: 0, right: 101, bottom: 51 };
    let corner = PhysicalPosition::new(-100, 10);
    assert_eq!(data.desired_cursor_clip(client, corner), None);
    data.style.focused = true;
    data.style.active = true;
    // a hidden confined cursor is held at the centre; -99 / 2 rounds toward zero
    assert_eq!(
        data.desired_cursor_clip(client, corner),
        Some(Some(Rect { left: -49, right: -48, top: 35, bottom: 36 }))
    );
    // on the right of the origin the held cursor lies inside the client area
    let inside = data.desired_cursor_clip(client, PhysicalPosition::new(100, 10));
    assert_eq!(inside, Some(Some(Rect { left: 150, right: 151, top: 35, bottom: 36 })));
    // a thin client area left of the origin holds it one pixel past its edge
    let thin = Rect { left: 0, top: 0, right: 1, bottom: 51 };
    assert_eq!(
        data.desired_cursor_clip(thin, PhysicalPosition::new(-3, 10)),
        Some(Some(Rect { left: -2, right: -1, top: 35, bottom: 36 }))
    );
    data.record_command(&Command::SetCursorVisibility(Visibility::Shown));
    assert_eq!(
        data.desired_cursor_clip(client, corner),
        Some(Some(Rect { left: -100, top: 10, right: 1, bottom: 61 }))
    );
    data.record_command(&Command::SetCursorMode(CursorMode::Normal));
    assert_eq!(data.desired_cursor_clip(client, corner), Some(None));
    let desktop = Rect { left: 0, top: 0, right: 1920, bottom: 1080 };
    assert!(!clip_needs_update(desktop, desktop, None));
    assert!(clip_needs_update(desktop, desktop, Some(client)));
    assert!(!clip_needs_update(client, desktop, Some(client)));
    assert!(clip_needs_update(client, desktop, None));
    assert!(Command::Exit.is_handled(true));
    assert!(!Command::Exit.is_handled(false));
    assert!(Command::Destroy.is_handled(false));
    assert!(!Command::Destroy.is_handled(true));
    let monitor = Some(Rect { left: 1920, top: 0, right: 3840, bottom: 1080 });
    let pos = PhysicalPosition::new(10, 20);
    let size = PhysicalSize::new(800, 600);
    assert_eq!(fullscreen_bounds(Some(Fullscreen::Borderless), monitor, pos, size), Some((1920, 0, 1920, 1080)));
    assert_eq!(fullscreen_bounds(Some(Fullscreen::Borderless), None, pos, size), None);
    assert_eq!(fullscreen_bounds(None, monitor, pos, size), Some((10, 20, 800, 600)));
}

#[test]
fn positions_and_sizes() {
    let p = PhysicalPosition::new(3, -4);
    assert!(!p.is_positive() && !p.is_negative() && !p.is_zero());
    assert!(PhysicalPosition::new(1, 1).is_positive());
    assert!(PhysicalPosition::new(-1, -1).is_negative());
    assert!(PhysicalPosition::default().is_zero());
    assert_eq!(<(i32, i32)>::from(p), (3, -4));
    assert_eq!(<(u32, u32)>::from(p), (3, u32::MAX - 3));
    assert_eq!(<[i32; 2]>::from(p), [3, -4]);
    assert_eq!(<[u32; 2]>::from(p), [3, u32::MAX - 3]);
    assert_eq!(PhysicalPosition::from((3, -4)), p);
    assert_eq!(PhysicalPosition::from([3, -4]), p);
    let s = PhysicalSize::new(0, 5);
    assert!(s.is_any_zero() && !s.is_all_zero());
    assert!(PhysicalSize::default().is_all_zero());
    assert_eq!(<(u32, u32)>::from(s), (0, 5));
    assert_eq!(<(i32, i32)>::from(PhysicalSize::new(u32::MAX, 1)), (-1, 1));
    assert_eq!(<[u32; 2]>::from(s), [0, 5]);
    assert_eq!(<[i32; 2]>::from(s), [0, 5]);
    assert_eq!(PhysicalSize::from((0, 5)), s);
    assert_eq!(PhysicalSize::from([0, 5]), s);
    let rect = Rect { left: 10, top: 20, right: 110, bottom: 70 };
    assert_eq!(PhysicalSize::from_rect(rect), PhysicalSize::new(100, 50));
    assert_eq!(PhysicalPosition::from_rect(rect), PhysicalPosition::new(10, 20));
    assert!(rect.contains(10, 20) && !rect.contains(110, 20));
}

#[test]
fn sorted_window_messages() {
    assert_eq!(RawWindowMessage::new(1, win32::WM_CLOSE, 0, 0, 0, 0), RawWindowMessage::CloseRequested);
    assert_eq!(RawWindowMessage::new(1, win32::WM_DESTROY, 0, 0, 0, 0), RawWindowMessage::Closing);
    assert_eq!(
        RawWindowMessage::new(1, win32::WM_SIZING, win32::SIZE_MINIMIZED as usize, 0, 0, 0),
        RawWindowMessage::Window(WindowMessage::Resizing { size_state: WindowMode::Minimized })
    );
    assert_eq!(
        RawWindowMessage::new(1, win32::WM_SIZING, 0, 0, 0, 0),
        RawWindowMessage::Window(WindowMessage::Resizing { size_state: WindowMode::Normal })
    );
    assert_eq!(
        RawWindowMessage::new(1, win32::WM_KEYDOWN, 0, key_lparam(0x1E, false, false, false, 1), 0, 0x41),
        RawWindowMessage::Keyboard { key: Key::A, state: KeyState::Pressed, scan_code: 0x1E, is_extended_key: false }
    );
    assert_eq!(
        RawWindowMessage::new(1, win32::WM_MOUSEMOVE, 0, ((0xFFFFu32 << 16) | 3) as isize, 0, 0),
        RawWindowMessage::Mouse(MouseMessage::Cursor { x: 3, y: -1 })
    );
    assert_eq!(
        RawWindowMessage::new(1, win32::WM_MOUSEHWHEEL, 240usize << 16, 0, 0, 0),
        RawWindowMessage::Mouse(MouseMessage::Scroll { x: 240, y: 0 })
    );
    assert_eq!(
        RawWindowMessage::new(1, win32::WM_RBUTTONDOWN, win32::MK_RBUTTON as usize, 0, 0, 0),
        RawWindowMessage::Mouse(MouseMessage::Button { button: Mouse::Right, state: ButtonState::Pressed, x: 0, y: 0, is_double_click: false })
    );
    assert_eq!(
        RawWindowMessage::new(7, 0x9999, 1, 2, 0, 0),
        RawWindowMessage::Other { hwnd: 7, message: 0x9999, wparam: 1, lparam: 2 }
    );
    assert_eq!(RawWindowMessage::default(), RawWindowMessage::Empty);
    assert!(MessagePriority::Low < MessagePriority::High);
}

#[test]
fn thread_messages() {
    assert_eq!(ThreadMessage::try_from(win32::WM_APP), Ok(ThreadMessage::Empty));
    assert_eq!(ThreadMessage::try_from(win32::WM_APP + 4), Ok(ThreadMessage::RequestRedraw));
    assert_eq!(ThreadMessage::try_from(win32::WM_APP + 5), Err(()));
    assert_eq!(ThreadMessage::ShowWindow.code(), win32::WM_APP + 2);
    assert_eq!(Response::NextFrame, Response::NextFrame);
    assert_eq!(ThreadCommand::SetWindowText("a".to_string()), ThreadCommand::SetWindowText("a".to_string()));
    assert_eq!(WindowLoop::new(), WindowLoop::default());
    for message in [
        ThreadMessage::Empty,
        ThreadMessage::CloseConfirmed,
        ThreadMessage::ShowWindow,
        ThreadMessage::SetWindowText,
        ThreadMessage::RequestRedraw,
    ] {
        assert_eq!(ThreadMessage::try_from(message.code()), Ok(message));
    }
}
