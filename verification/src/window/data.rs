//! The window's state and the value types it is made of.

use cursor_icon::CursorIcon;
use vstd::prelude::*;
use vstd::std_specs::convert::{FromSpec, FromSpecImpl};
use vstd::string::StringExecFns;

use super::command::Command;
use super::cursor::{cursor_icons_equal, Cursor};
use super::frame::Style;
use super::input::key::Key;
use super::input::mouse::{mouse_button_states, raw_button_flags, Mouse};
use super::input::state::{spec_state_from_flag, ButtonState, KeyState, RawKeyState};
use super::input::{spec_modifier_state, Input, InputView};
use super::message::{
    get_cursor_move_kind, mouse_position, spec_keyboard_message, spec_mouse_button_message,
    spec_mouse_position, CursorMoveKind, Focus, Message, RawInputMessage,
};
use super::settings::WindowSettings;
use super::stage::Stage;
use crate::utilities::{hi_word, is_flag_set, is_flag_set_u16, lo_word, signed_hi_word};
use crate::win32;

verus! {

/// The fullscreen mode of a window.
#[derive(Debug, Copy, Clone, PartialEq, Eq, Structural, Hash)]
pub enum Fullscreen {
    Borderless,
}

/// Whether the cursor is kept inside the window's client area.
#[derive(Default, Debug, Copy, Clone, PartialEq, Eq, Structural, Hash)]
pub enum CursorMode {
    #[default]
    Normal,
    Confined,
}

/// The wait behaviour of the window.
#[derive(Default, Debug, Copy, Clone, PartialEq, Eq, Structural, Hash)]
pub enum Flow {
    /// Window will block if there are no new messages.
    #[default]
    Wait,
    /// Window will send an artificial [`LoopMessage::Empty`](crate::LoopMessage::Empty)
    /// when there are no new messages and will not block.
    Poll,
}

/// Whether something is shown or hidden.
#[derive(Default, Debug, Copy, Clone, PartialEq, Eq, Structural, Hash)]
pub enum Visibility {
    #[default]
    Shown,
    Hidden,
}

/// The colour theme of a window.
#[derive(Default, Debug, Copy, Clone, PartialEq, Eq, Structural, Hash)]
pub enum Theme {
    #[default]
    Auto,
    Dark,
    Light,
}


/// A position in physical pixels.
#[derive(Debug, Default, Copy, Clone, Eq, PartialEq, Structural, Hash)]
pub struct PhysicalPosition {
    pub x: i32,
    pub y: i32,
}

impl PhysicalPosition {
    pub fn new(x: i32, y: i32) -> (position: Self)
        ensures
            position.x == x,
            position.y == y,
    {
        Self { x, y }
    }

    /// Whether both coordinates are positive.
    pub fn is_positive(&self) -> (positive: bool)
        ensures
            positive == (self.x > 0 && self.y > 0),
    {
        self.x > 0 && self.y > 0
    }

    /// Whether both coordinates are negative.
    pub fn is_negative(&self) -> (negative: bool)
        ensures
            negative == (self.x < 0 && self.y < 0),
    {
        self.x < 0 && self.y < 0
    }

    /// Whether both coordinates are zero.
    pub fn is_zero(&self) -> (zero: bool)
        ensures
            zero == (self.x == 0 && self.y == 0),
    {
        self.x == 0 && self.y == 0
    }

    /// The top-left corner of a rectangle.
    pub fn from_rect(rect: Rect) -> (position: Self)
        ensures
            position.x == rect.left,
            position.y == rect.top,
    {
        Self { x: rect.left, y: rect.top }
    }
}

/// A size in physical pixels.
#[derive(Debug, Default, Copy, Clone, Eq, PartialEq, Structural, Hash)]
pub struct PhysicalSize {
    pub width: u32,
    pub height: u32,
}

impl PhysicalSize {
    pub fn new(width: u32, height: u32) -> (size: Self)
        ensures
            size.width == width,
            size.height == height,
    {
        Self { width, height }
    }

    /// Whether the width or the height is zero.
    pub fn is_any_zero(&self) -> (zero: bool)
        ensures
            zero == (self.width == 0 || self.height == 0),
    {
        self.width == 0 || self.height == 0
    }

    /// Whether both the width and the height are zero.
    pub fn is_all_zero(&self) -> (zero: bool)
        ensures
            zero == (self.width == 0 && self.height == 0),
    {
        self.width == 0 && self.height == 0
    }

    /// The size of a rectangle: its extents taken as unsigned 32-bit numbers.
    pub fn from_rect(rect: Rect) -> (size: Self)
        requires
            i32::MIN <= rect.right - rect.left <= i32::MAX,
            i32::MIN <= rect.bottom - rect.top <= i32::MAX,
        ensures
            size.width == (rect.right - rect.left) as u32,
            size.height == (rect.bottom - rect.top) as u32,
    {
        Self {
            width: (rect.right - rect.left) as u32,
            height: (rect.bottom - rect.top) as u32,
        }
    }
}

impl From<PhysicalPosition> for (u32, u32) {
    fn from(val: PhysicalPosition) -> (converted: Self) {
        (#[verifier::truncate] (val.x as u32), #[verifier::truncate] (val.y as u32))
    }
}

impl FromSpecImpl<PhysicalPosition> for (u32, u32) {
    open spec fn obeys_from_spec() -> bool {
        true
    }

    open spec fn from_spec(val: PhysicalPosition) -> Self {
        (val.x as u32, val.y as u32)
    }
}

impl From<PhysicalPosition> for (i32, i32) {
    fn from(val: PhysicalPosition) -> (converted: Self) {
        (val.x, val.y)
    }
}

impl FromSpecImpl<PhysicalPosition> for (i32, i32) {
    open spec fn obeys_from_spec() -> bool {
        true
    }

    open spec fn from_spec(val: PhysicalPosition) -> Self {
        (val.x, val.y)
    }
}

impl From<PhysicalPosition> for [u32; 2] {
    fn from(val: PhysicalPosition) -> (converted: Self) {
        [#[verifier::truncate] (val.x as u32), #[verifier::truncate] (val.y as u32)]
    }
}

impl FromSpecImpl<PhysicalPosition> for [u32; 2] {
    open spec fn obeys_from_spec() -> bool {
        true
    }

    open spec fn from_spec(val: PhysicalPosition) -> Self {
        [val.x as u32, val.y as u32]
    }
}

impl From<PhysicalPosition> for [i32; 2] {
    fn from(val: PhysicalPosition) -> (converted: Self) {
        [val.x, val.y]
    }
}

impl FromSpecImpl<PhysicalPosition> for [i32; 2] {
    open spec fn obeys_from_spec() -> bool {
        true
    }

    open spec fn from_spec(val: PhysicalPosition) -> Self {
        [val.x, val.y]
    }
}

impl From<(i32, i32)> for PhysicalPosition {
    fn from(val: (i32, i32)) -> (converted: Self) {
        PhysicalPosition { x: val.0, y: val.1 }
    }
}

impl FromSpecImpl<(i32, i32)> for PhysicalPosition {
    open spec fn obeys_from_spec() -> bool {
        true
    }

    open spec fn from_spec(val: (i32, i32)) -> Self {
        PhysicalPosition { x: val.0, y: val.1 }
    }
}

impl From<[i32; 2]> for PhysicalPosition {
    fn from(val: [i32; 2]) -> (converted: Self) {
        PhysicalPosition { x: val[0], y: val[1] }
    }
}

impl FromSpecImpl<[i32; 2]> for PhysicalPosition {
    open spec fn obeys_from_spec() -> bool {
        true
    }

    open spec fn from_spec(val: [i32; 2]) -> Self {
        PhysicalPosition { x: val[0], y: val[1] }
    }
}

impl From<PhysicalSize> for (u32, u32) {
    fn from(val: PhysicalSize) -> (converted: Self) {
        (val.width, val.height)
    }
}

impl FromSpecImpl<PhysicalSize> for (u32, u32) {
    open spec fn obeys_from_spec() -> bool {
        true
    }

    open spec fn from_spec(val: PhysicalSize) -> Self {
        (val.width, val.height)
    }
}

impl From<PhysicalSize> for (i32, i32) {
    fn from(val: PhysicalSize) -> (converted: Self) {
        (#[verifier::truncate] (val.width as i32), #[verifier::truncate] (val.height as i32))
    }
}

impl FromSpecImpl<PhysicalSize> for (i32, i32) {
    open spec fn obeys_from_spec() -> bool {
        true
    }

    open spec fn from_spec(val: PhysicalSize) -> Self {
        (val.width as i32, val.height as i32)
    }
}

impl From<PhysicalSize> for [u32; 2] {
    fn from(val: PhysicalSize) -> (converted: Self) {
        [val.width, val.height]
    }
}

impl FromSpecImpl<PhysicalSize> for [u32; 2] {
    open spec fn obeys_from_spec() -> bool {
        true
    }

    open spec fn from_spec(val: PhysicalSize) -> Self {
        [val.width, val.height]
    }
}

impl From<PhysicalSize> for [i32; 2] {
    fn from(val: PhysicalSize) -> (converted: Self) {
        [#[verifier::truncate] (val.width as i32), #[verifier::truncate] (val.height as i32)]
    }
}

impl FromSpecImpl<PhysicalSize> for [i32; 2] {
    open spec fn obeys_from_spec() -> bool {
        true
    }

    open spec fn from_spec(val: PhysicalSize) -> Self {
        [val.width as i32, val.height as i32]
    }
}

impl From<(u32, u32)> for PhysicalSize {
    fn from(val: (u32, u32)) -> (converted: Self) {
        PhysicalSize { width: val.0, height: val.1 }
    }
}

impl FromSpecImpl<(u32, u32)> for PhysicalSize {
    open spec fn obeys_from_spec() -> bool {
        true
    }

    open spec fn from_spec(val: (u32, u32)) -> Self {
        PhysicalSize { width: val.0, height: val.1 }
    }
}

impl From<[u32; 2]> for PhysicalSize {
    fn from(val: [u32; 2]) -> (converted: Self) {
        PhysicalSize { width: val[0], height: val[1] }
    }
}

impl FromSpecImpl<[u32; 2]> for PhysicalSize {
    open spec fn obeys_from_spec() -> bool {
        true
    }

    open spec fn from_spec(val: [u32; 2]) -> Self {
        PhysicalSize { width: val[0], height: val[1] }
    }
}

/// A rectangle in physical pixels, by its edges; `right` and `bottom` lie just
/// outside it.
#[derive(Debug, Default, Copy, Clone, Eq, PartialEq, Structural, Hash)]
pub struct Rect {
    pub left: i32,
    pub top: i32,
    pub right: i32,
    pub bottom: i32,
}

impl Rect {
    /// Whether the point lies inside the rectangle: `left <= x < right` and
    /// `top <= y < bottom`.
    pub open spec fn spec_contains(self, x: i32, y: i32) -> bool {
        self.left <= x < self.right && self.top <= y < self.bottom
    }

    /// Whether the point `(x, y)` lies inside the rectangle.
    pub fn contains(&self, x: i32, y: i32) -> (inside: bool)
        ensures
            inside == self.spec_contains(x, y),
    {
        self.left <= x && x < self.right && self.top <= y && y < self.bottom
    }
}


/// The state that a window shares between the thread that runs its message
/// loop and the thread that iterates over its messages.
pub struct Data {
    pub title: String,
    pub subtitle: String,
    pub theme: Theme,
    pub flow: Flow,
    pub close_on_x: bool,
    pub stage: Stage,
    pub style: Style,
    pub input: Input,
    pub cursor: Cursor,
    pub requested_redraw: bool,
}

/// Whether a window in `stage` is closing or gone.
pub open spec fn spec_is_closing(stage: Stage) -> bool {
    stage is Closing || stage is ExitLoop || stage is Destroyed
}

/// How a request to iterate over a window's messages began.
#[derive(Debug, Copy, Clone, PartialEq, Eq, Structural)]
pub enum IterationStart {
    /// The window was ready and now loops over its messages.
    Started,
    /// The window had already left its message loop.
    AlreadyExited,
    /// The window was not in the ready stage; its stage is unchanged.
    NotReady,
}

/// What the message loop does after it took a message.
#[derive(Debug, Copy, Clone, PartialEq, Eq, Structural)]
pub struct TakenReaction {
    /// Post [`Command::Exit`] to the window thread.
    pub post_exit: bool,
    /// Stop making the window thread wait for the next frame.
    pub skip_wait: bool,
}

/// What the window procedure does after a cursor move.
#[derive(Debug, Clone, PartialEq)]
pub struct MouseMoveReaction {
    /// Ask the system to report when the cursor leaves the window.
    pub track_leave: bool,
    /// Refresh the system cursor's clip and visibility.
    pub refresh_cursor: bool,
    /// The message to send to the main thread.
    pub message: Option<Message>,
}

/// Half of `x`, rounded toward zero.
pub open spec fn spec_trunc_half(x: int) -> int {
    if x >= 0 {
        x / 2
    } else {
        -((-x) / 2)
    }
}

/// Whether the system cursor's clip is to be set: the active clip (none where
/// it spans the whole desktop) differs from the desired one.
pub fn clip_needs_update(active: Rect, desktop: Rect, desired: Option<Rect>) -> (update: bool)
    ensures
        update == ((if desktop == active {
            None::<Rect>
        } else {
            Some(active)
        }) != desired),
{
    let active_clip = if desktop == active {
        None
    } else {
        Some(active)
    };
    match (active_clip, desired) {
        (None, None) => false,
        (Some(a), Some(d)) => a != d,
        _ => true,
    }
}

/// The theme that a requested theme resolves to: the system's mode for
/// `Auto`, dark only where dark mode is supported, light otherwise.
pub open spec fn spec_resolve_theme(theme: Theme, system_dark: bool, dark_supported: bool) -> Theme {
    match theme {
        Theme::Auto => if system_dark {
            Theme::Dark
        } else {
            Theme::Light
        },
        Theme::Dark => if dark_supported {
            Theme::Dark
        } else {
            Theme::Light
        },
        Theme::Light => Theme::Light,
    }
}

/// The theme that `theme` resolves to (see [`spec_resolve_theme`]).
/// `system_dark` is read only for `Auto`, `dark_supported` only for `Dark`.
pub fn resolve_theme(theme: Theme, system_dark: bool, dark_supported: bool) -> (resolved: Theme)
    ensures
        resolved == spec_resolve_theme(theme, system_dark, dark_supported),
{
    match theme {
        Theme::Auto => {
            if system_dark {
                Theme::Dark
            } else {
                Theme::Light
            }
        },
        Theme::Dark => {
            if dark_supported {
                Theme::Dark
            } else {
                Theme::Light
            }
        },
        Theme::Light => Theme::Light,
    }
}

/// The message that the loop hands out: the pending one, or
/// [`LoopMessage::Empty`](super::message::LoopMessage::Empty) where there is
/// none.
pub fn message_or_empty(taken: Option<Message>) -> (message: Message)
    ensures
        message == (match taken {
            Some(m) => m,
            None => Message::Loop(super::message::LoopMessage::Empty),
        }),
{
    match taken {
        Some(m) => m,
        None => Message::Loop(super::message::LoopMessage::Empty),
    }
}

/// `char::from_u32`: the char whose code is `code`, where `code` is a Unicode
/// scalar value (below `0xD800`, or from `0xE000` to `0x10FFFF`), else `None`.
#[verifier::external_body]
fn char_from_u32(code: u32) -> (c: Option<char>)
    ensures
        c == (if code < 0xD800 || (0xE000 <= code && code <= 0x10FFFF) {
            Some(code as char)
        } else {
            None::<char>
        }),
{
    char::from_u32(code)
}

/// `char::to_string`: the string that holds exactly the char `c`.
#[verifier::external_body]
fn char_to_string(c: char) -> (s: String)
    ensures
        s@ == seq![c],
{
    c.to_string()
}

/// The char that a character message's `wParam` carries: the char with that
/// (32-bit) code, or `'\0'` where the code is no Unicode scalar value.
pub open spec fn spec_char_of(w_param: usize) -> char {
    let code = w_param as u32;
    if code < 0xD800 || (0xE000 <= code && code <= 0x10FFFF) {
        code as char
    } else {
        '\0'
    }
}

/// The text message of a character message: the char it carries.
pub fn char_message(w_param: usize) -> (message: Message)
    ensures
        message matches Message::Text(text) && text@ == seq![spec_char_of(w_param)],
{
    let code = #[verifier::truncate] (w_param as u32);
    let c = match char_from_u32(code) {
        Some(c) => c,
        None => '\0',
    };
    Message::Text(char_to_string(c))
}

/// The size message of a size message's `lParam`: the client area's new width
/// and height, its low and high words.
pub open spec fn spec_resized_message(l_param: isize) -> Message {
    Message::Resized(
        PhysicalSize {
            width: ((l_param as u32) % 65536) as u32,
            height: ((l_param as u32) / 65536) as u32,
        },
    )
}

/// The move message of a move message's `lParam`: the client area's new
/// position, its low and high words (read unsigned).
pub fn move_message(l_param: isize) -> (message: Message)
    ensures
        message == Message::Moved(
            PhysicalPosition {
                x: ((l_param as u32) % 65536) as i32,
                y: ((l_param as u32) / 65536) as i32,
            },
        ),
{
    let low = #[verifier::truncate] (l_param as u32);
    Message::Moved(PhysicalPosition::new(lo_word(low) as i32, hi_word(low) as i32))
}

/// The message of a DPI change: the new DPI, the low word of `wParam`.
pub fn dpi_changed_message(w_param: usize) -> (message: Message)
    ensures
        message == Message::ScaleFactorChanged((((w_param as u32) % 65536) as u32)),
{
    let low = #[verifier::truncate] (w_param as u32);
    Message::ScaleFactorChanged(lo_word(low) as u32)
}

/// The wheel message of a (horizontal or vertical) wheel message: the wheel's
/// delta is the high word of `wParam`, read as a signed value.
pub fn wheel_message(w_param: usize, horizontal: bool) -> (message: Message)
    ensures
        message == (if horizontal {
            Message::MouseWheel {
                delta_x: ((((w_param as i32) as int) / 65536) as i16),
                delta_y: 0,
            }
        } else {
            Message::MouseWheel {
                delta_x: 0,
                delta_y: ((((w_param as i32) as int) / 65536) as i16),
            }
        }),
{
    let w = #[verifier::truncate] (w_param as i32);
    let delta = signed_hi_word(w);
    if horizontal {
        Message::MouseWheel { delta_x: delta, delta_y: 0 }
    } else {
        Message::MouseWheel { delta_x: 0, delta_y: delta }
    }
}

/// Whether a set-cursor message's `lParam` says that the cursor is over the
/// client area: its low word is the client hit-test code.
pub fn is_client_hit(l_param: isize) -> (client: bool)
    ensures
        client == ((l_param as u32) % 65536 == win32::HTCLIENT),
{
    let low = #[verifier::truncate] (l_param as u32);
    lo_word(low) as u32 == win32::HTCLIENT
}

/// The raw-input messages of the mouse buttons from index `i` to the last one
/// (index 4) whose flags report a state change, in order.
pub open spec fn spec_raw_button_messages(button_flags: u16, i: nat) -> Seq<Message>
    decreases 5 - i,
{
    if i >= 5 {
        Seq::empty()
    } else {
        let rest = spec_raw_button_messages(button_flags, i + 1);
        match spec_state_from_flag(
            button_flags,
            raw_button_flags(i as int).0,
            raw_button_flags(i as int).1,
        ) {
            Some(state) => seq![
                Message::RawInput(
                    RawInputMessage::MouseButton { button: spec_button_at(i as int), state },
                ),
            ] + rest,
            None => rest,
        }
    }
}

/// The button at index `i` of the raw-input button list.
pub open spec fn spec_button_at(i: int) -> Mouse {
    if i == 0 {
        Mouse::Left
    } else if i == 1 {
        Mouse::Right
    } else if i == 2 {
        Mouse::Middle
    } else if i == 3 {
        Mouse::Back
    } else if i == 4 {
        Mouse::Forward
    } else {
        Mouse::Unknown
    }
}

/// The raw-input button at index `i` is Windows button number `i + 1`, whose
/// flags [`raw_button_flags`] gives at that index: the middle button (number
/// 3) is reported by the `RI_MOUSE_BUTTON_3` flags, the back button (number 4)
/// by the `RI_MOUSE_BUTTON_4` flags.
pub proof fn lemma_raw_buttons_by_number(i: int)
    requires
        0 <= i < 5,
    ensures
        spec_button_at(i).spec_code() == i + 1,
        spec_button_at(2) == Mouse::Middle,
        spec_button_at(3) == Mouse::Back,
{
}

/// The messages of a raw mouse report with the given flags and motion: a
/// relative motion that is not zero, then each button whose flags report a
/// state change.
pub open spec fn spec_raw_mouse_messages(us_flags: u16, button_flags: u16, last_x: i32, last_y: i32) -> Seq<Message> {
    let motion = if us_flags & win32::MOUSE_MOVE_RELATIVE == win32::MOUSE_MOVE_RELATIVE && (
    last_x != 0 || last_y != 0) {
        seq![Message::RawInput(RawInputMessage::MouseMove { delta_x: last_x, delta_y: last_y })]
    } else {
        Seq::empty()
    };
    motion + spec_raw_button_messages(button_flags, 0)
}

/// The messages of a raw mouse report (see [`spec_raw_mouse_messages`]).
pub fn raw_mouse_messages(us_flags: u16, button_flags: u16, last_x: i32, last_y: i32) -> (messages: Vec<Message>)
    ensures
        messages@ == spec_raw_mouse_messages(us_flags, button_flags, last_x, last_y),
{
    let mut messages: Vec<Message> = Vec::new();
    if is_flag_set_u16(us_flags, win32::MOUSE_MOVE_RELATIVE) {
        if last_x != 0 || last_y != 0 {
            messages.push(
                Message::RawInput(RawInputMessage::MouseMove { delta_x: last_x, delta_y: last_y }),
            );
        }
    }
    let ghost motion = messages@;
    let states = mouse_button_states(button_flags);
    let mut i: usize = 0;
    while i < 5
        invariant
            i <= 5,
            forall|j: int|
                0 <= j < 5 ==> #[trigger] states@[j] == spec_state_from_flag(
                    button_flags,
                    raw_button_flags(j).0,
                    raw_button_flags(j).1,
                ),
            messages@ + spec_raw_button_messages(button_flags, i as nat) == motion
                + spec_raw_button_messages(button_flags, 0),
        decreases 5 - i,
    {
        let ghost before = messages@;
        if let Some(state) = states[i] {
            let button = Mouse::from_state(i);
            assert(button == spec_button_at(i as int));
            messages.push(Message::RawInput(RawInputMessage::MouseButton { button, state }));
            assert(messages@ + spec_raw_button_messages(button_flags, (i + 1) as nat) =~= before
                + spec_raw_button_messages(button_flags, i as nat));
        } else {
            assert(messages@ + spec_raw_button_messages(button_flags, (i + 1) as nat) =~= before
                + spec_raw_button_messages(button_flags, i as nat));
        }
        i = i + 1;
    }
    assert(messages@ =~= messages@ + spec_raw_button_messages(button_flags, 5));
    messages
}

/// The raw keyboard message of a key report with the given window message: the
/// key went down on a (system) key-down, up on a (system) key-up; any other
/// report gives no message.
pub fn raw_keyboard_message(key: Key, message: u32) -> (raw: Option<Message>)
    ensures
        raw == (if message == win32::WM_KEYDOWN || message == win32::WM_SYSKEYDOWN {
            Some(Message::RawInput(RawInputMessage::Keyboard { key, state: RawKeyState::Pressed }))
        } else if message == win32::WM_KEYUP || message == win32::WM_SYSKEYUP {
            Some(Message::RawInput(RawInputMessage::Keyboard { key, state: RawKeyState::Released }))
        } else {
            None::<Message>
        }),
{
    let pressed = message == win32::WM_KEYDOWN || message == win32::WM_SYSKEYDOWN;
    let released = message == win32::WM_KEYUP || message == win32::WM_SYSKEYUP;
    match RawKeyState::from_bools(pressed, released) {
        Some(state) => Some(Message::RawInput(RawInputMessage::Keyboard { key, state })),
        None => None,
    }
}


impl Data {
    /// The state after a close request (see [`Data::close`]).
    pub open spec fn spec_close(self) -> Data {
        if spec_is_closing(self.stage) {
            self
        } else {
            Data { stage: Stage::Closing, ..self }
        }
    }

    /// The state after the window's destruction began (see
    /// [`Data::begin_destroy`]).
    pub open spec fn spec_destroy(self) -> Data {
        Data { stage: Stage::Destroyed, ..self }
    }

    /// The state after the window was shown or hidden.
    pub open spec fn spec_set_visibility(self, visibility: Visibility) -> Data {
        if visibility == self.style.visibility {
            self
        } else {
            Data { style: Style { visibility, ..self.style }, ..self }
        }
    }

    /// The state after the window's decorations were shown or hidden.
    pub open spec fn spec_set_decorations(self, visibility: Visibility) -> Data {
        if visibility == self.style.decorations {
            self
        } else {
            Data { style: Style { decorations: visibility, ..self.style }, ..self }
        }
    }

    /// The state after the fullscreen mode was set.
    pub open spec fn spec_set_fullscreen(self, fullscreen: Option<Fullscreen>) -> Data {
        if fullscreen == self.style.fullscreen {
            self
        } else {
            Data { style: Style { fullscreen, ..self.style }, ..self }
        }
    }

    /// The state after the cursor mode was set.
    pub open spec fn spec_set_cursor_mode(self, cursor_mode: CursorMode) -> Data {
        if cursor_mode == self.cursor.mode {
            self
        } else {
            Data { cursor: Cursor { mode: cursor_mode, ..self.cursor }, ..self }
        }
    }

    /// The state after the cursor was shown or hidden.
    pub open spec fn spec_set_cursor_visibility(self, cursor_visibility: Visibility) -> Data {
        if cursor_visibility == self.cursor.visibility {
            self
        } else {
            Data { cursor: Cursor { visibility: cursor_visibility, ..self.cursor }, ..self }
        }
    }

    /// The state after a redraw request: a redraw is pending.
    pub open spec fn spec_request_redraw(self) -> Data {
        if self.requested_redraw {
            self
        } else {
            Data { requested_redraw: true, ..self }
        }
    }

    /// The state after a paint: no redraw is pending.
    pub open spec fn spec_on_paint(self) -> Data {
        Data { requested_redraw: false, ..self }
    }

    /// The state after a theme request: where the requested theme differs
    /// from the current one, the resolved theme.
    pub open spec fn spec_set_theme(self, theme: Theme, system_dark: bool, dark_supported: bool) -> Data {
        if theme == self.theme {
            self
        } else {
            Data { theme: spec_resolve_theme(theme, system_dark, dark_supported), ..self }
        }
    }
    /// The state of a window that is being created with `title`, `style` and
    /// `settings`: no subtitle, automatic theme, the settings' flow, X-button
    /// behaviour and cursor mode, in the setup stage, with fresh input, a
    /// shown cursor outside the window showing `icon`, and no redraw pending.
    pub fn new(title: String, style: Style, settings: &WindowSettings, icon: CursorIcon) -> (data: Self)
        ensures
            data.title == title,
            data.subtitle@ == Seq::<char>::empty(),
            data.theme == Theme::Auto,
            data.flow == settings.flow,
            data.close_on_x == settings.close_on_x,
            data.stage == Stage::Setup,
            data.style == style,
            data.input@.keys == Map::<u16, KeyState>::empty(),
            data.input@.mouse_buttons == Map::<u16, ButtonState>::empty(),
            data.input@.shift == ButtonState::Released,
            data.input@.ctrl == ButtonState::Released,
            data.input@.alt == ButtonState::Released,
            data.input@.win == ButtonState::Released,
            data.cursor.mode == settings.cursor_mode,
            data.cursor.visibility == Visibility::Shown,
            !data.cursor.inside_window,
            data.cursor.last_position == (PhysicalPosition { x: 0, y: 0 }),
            data.cursor.selected_icon == icon,
            !data.requested_redraw,
    {
        Data {
            title,
            subtitle: String::new(),
            theme: Theme::Auto,
            flow: settings.flow,
            close_on_x: settings.close_on_x,
            stage: Stage::Setup,
            style,
            input: Input::new(),
            cursor: Cursor::new(settings.cursor_mode, icon),
            requested_redraw: false,
        }
    }

    /// Whether the window is closing or gone (see [`spec_is_closing`]).
    pub fn is_closing(&self) -> (closing: bool)
        ensures
            closing == spec_is_closing(self.stage),
    {
        match self.stage {
            Stage::Closing | Stage::ExitLoop | Stage::Destroyed => true,
            _ => false,
        }
    }

    /// Requests that the window be closed: unless it already is closing, it
    /// enters the closing stage and an exit command is to be posted (the
    /// result says whether).
    pub fn close(&mut self) -> (post_exit: bool)
        ensures
            post_exit == !spec_is_closing(old(self).stage),
            *final(self) == old(self).spec_close(),
    {
        if self.is_closing() {
            return false;  // already closing
        }
        self.stage = Stage::Closing;
        true
    }

    /// Begins an iteration over the window's messages: a ready window starts
    /// looping; in any other stage the window is unchanged.
    pub fn begin_iteration(&mut self) -> (start: IterationStart)
        ensures
            start == (match old(self).stage {
                Stage::Ready => IterationStart::Started,
                Stage::ExitLoop => IterationStart::AlreadyExited,
                _ => IterationStart::NotReady,
            }),
            *final(self) == (if old(self).stage is Ready {
                Data { stage: Stage::Looping, ..*old(self) }
            } else {
                *old(self)
            }),
    {
        match self.stage {
            Stage::Ready => {
                self.stage = Stage::Looping;
                IterationStart::Started
            },
            Stage::ExitLoop => IterationStart::AlreadyExited,
            _ => IterationStart::NotReady,
        }
    }

    /// Whether the iteration takes another message: only while the window
    /// loops or closes. In any other stage the iteration has ended.
    pub open spec fn spec_wants_message(self) -> bool {
        self.stage is Looping || self.stage is Closing
    }

    /// Whether the iteration takes another message (see
    /// [`Data::spec_wants_message`]).
    pub fn wants_message(&self) -> (wants: bool)
        ensures
            wants == self.spec_wants_message(),
    {
        match self.stage {
            Stage::Looping | Stage::Closing => true,
            _ => false,
        }
    }

    /// Whether taking a message waits for a new one: only with the waiting
    /// flow and no pending message.
    pub open spec fn spec_should_wait(self, pending: bool) -> bool {
        self.flow == Flow::Wait && !pending
    }

    /// Whether taking a message waits for a new one (see
    /// [`Data::spec_should_wait`]).
    pub fn should_wait(&self, pending: bool) -> (wait: bool)
        ensures
            wait == self.spec_should_wait(pending),
    {
        self.flow == Flow::Wait && !pending
    }

    /// Reacts to the message that the iteration took: a close request closes
    /// the window where it closes on its X button; the exit message ends the
    /// loop and stops the window thread from waiting for frames.
    pub fn on_taken_message(&mut self, message: &Message) -> (reaction: TakenReaction)
        ensures
            match *message {
                Message::CloseRequested => {
                    &&& reaction.post_exit == (old(self).close_on_x && !spec_is_closing(
                        old(self).stage,
                    ))
                    &&& !reaction.skip_wait
                    &&& *final(self) == (if reaction.post_exit {
                        Data { stage: Stage::Closing, ..*old(self) }
                    } else {
                        *old(self)
                    })
                },
                Message::Loop(super::message::LoopMessage::Exit) => {
                    &&& !reaction.post_exit
                    &&& reaction.skip_wait
                    &&& *final(self) == (Data { stage: Stage::ExitLoop, ..*old(self) })
                },
                _ => {
                    &&& !reaction.post_exit
                    &&& !reaction.skip_wait
                    &&& *final(self) == *old(self)
                },
            },
    {
        match message {
            Message::CloseRequested => {
                let post_exit = if self.close_on_x {
                    self.close()
                } else {
                    false
                };
                TakenReaction { post_exit, skip_wait: false }
            },
            Message::Loop(super::message::LoopMessage::Exit) => {
                self.stage = Stage::ExitLoop;
                TakenReaction { post_exit: false, skip_wait: true }
            },
            _ => TakenReaction { post_exit: false, skip_wait: false },
        }
    }

    /// Begins the window's destruction: unless it already is destroyed, it
    /// enters the destroyed stage and is to be torn down (the result says
    /// whether).
    pub fn begin_destroy(&mut self) -> (destroy: bool)
        ensures
            destroy == !(old(self).stage is Destroyed),
            *final(self) == old(self).spec_destroy(),
    {
        if let Stage::Destroyed = self.stage {
            return false;
        }
        self.stage = Stage::Destroyed;
        true
    }

    // SETTERS
    /// Shows or hides the window: where the visibility changes, it is recorded
    /// and the matching command is to be posted.
    pub fn set_visibility(&mut self, visibility: Visibility) -> (command: Option<Command>)
        ensures
            *final(self) == old(self).spec_set_visibility(visibility),
            command == (if visibility == old(self).style.visibility {
                None::<Command>
            } else {
                Some(Command::SetVisibility(visibility))
            }),
    {
        if visibility == self.style.visibility {
            return None;
        }
        self.style.visibility = visibility;
        Some(Command::SetVisibility(visibility))
    }

    /// Shows or hides the window's decorations: where they change, the change
    /// is recorded and the matching command is to be posted.
    pub fn set_decorations(&mut self, visibility: Visibility) -> (command: Option<Command>)
        ensures
            *final(self) == old(self).spec_set_decorations(visibility),
            command == (if visibility == old(self).style.decorations {
                None::<Command>
            } else {
                Some(Command::SetDecorations(visibility))
            }),
    {
        if visibility == self.style.decorations {
            return None;
        }
        self.style.decorations = visibility;
        Some(Command::SetDecorations(visibility))
    }

    /// Sets the fullscreen mode: where it changes, it is recorded and the
    /// matching command is to be posted.
    pub fn set_fullscreen(&mut self, fullscreen: Option<Fullscreen>) -> (command: Option<Command>)
        ensures
            *final(self) == old(self).spec_set_fullscreen(fullscreen),
            command == (if fullscreen == old(self).style.fullscreen {
                None::<Command>
            } else {
                Some(Command::SetFullscreen(fullscreen))
            }),
    {
        if fullscreen == self.style.fullscreen {
            return None;
        }
        self.style.fullscreen = fullscreen;
        Some(Command::SetFullscreen(fullscreen))
    }

    /// Sets the cursor mode: where it changes, it is recorded and the matching
    /// command is to be posted.
    pub fn set_cursor_mode(&mut self, cursor_mode: CursorMode) -> (command: Option<Command>)
        ensures
            *final(self) == old(self).spec_set_cursor_mode(cursor_mode),
            command == (if cursor_mode == old(self).cursor.mode {
                None::<Command>
            } else {
                Some(Command::SetCursorMode(cursor_mode))
            }),
    {
        if cursor_mode == self.cursor.mode {
            return None;
        }
        self.cursor.mode = cursor_mode;
        Some(Command::SetCursorMode(cursor_mode))
    }

    /// Shows or hides the cursor: where its visibility changes, it is recorded
    /// and the matching command is to be posted.
    pub fn set_cursor_visibility(&mut self, cursor_visibility: Visibility) -> (command: Option<Command>)
        ensures
            *final(self) == old(self).spec_set_cursor_visibility(cursor_visibility),
            command == (if cursor_visibility == old(self).cursor.visibility {
                None::<Command>
            } else {
                Some(Command::SetCursorVisibility(cursor_visibility))
            }),
    {
        if cursor_visibility == self.cursor.visibility {
            return None;
        }
        self.cursor.visibility = cursor_visibility;
        Some(Command::SetCursorVisibility(cursor_visibility))
    }

    /// Selects a cursor icon: where it differs from the selected one, the
    /// matching command is to be posted (the window thread records it).
    pub fn set_cursor_icon(&self, cursor_icon: CursorIcon) -> (command: Option<Command>)
        ensures
            command == (if cursor_icon == self.cursor.selected_icon {
                None::<Command>
            } else {
                Some(Command::SetCursorIcon(cursor_icon))
            }),
    {
        if cursor_icons_equal(self.cursor.selected_icon, cursor_icon) {
            return None;
        }
        Some(Command::SetCursorIcon(cursor_icon))
    }

    /// Requests a redraw: unless one is pending, it is recorded as pending and
    /// the redraw command is to be posted.
    pub fn request_redraw(&mut self) -> (command: Option<Command>)
        ensures
            *final(self) == old(self).spec_request_redraw(),
            command == (if old(self).requested_redraw {
                None::<Command>
            } else {
                Some(Command::Redraw)
            }),
    {
        if self.requested_redraw {
            return None;
        }
        self.requested_redraw = true;
        Some(Command::Redraw)
    }

    /// Finishes the window's creation: the window is ready to be iterated
    /// over, and nothing else changes.
    pub fn mark_ready(&mut self)
        ensures
            *final(self) == (Data { stage: Stage::Ready, ..*old(self) }),
    {
        self.stage = Stage::Ready;
    }

    /// Applies the theme that the window is created with: the resolved theme
    /// (see [`spec_resolve_theme`]) is recorded whatever the current one, and
    /// the result says whether the window's frame is to be dark.
    pub fn init_theme(&mut self, theme: Theme, system_dark: bool, dark_supported: bool) -> (dark: bool)
        ensures
            *final(self) == (Data {
                theme: spec_resolve_theme(theme, system_dark, dark_supported),
                ..*old(self)
            }),
            dark == (spec_resolve_theme(theme, system_dark, dark_supported) == Theme::Dark),
    {
        let resolved = resolve_theme(theme, system_dark, dark_supported);
        self.theme = resolved;
        resolved == Theme::Dark
    }

    /// Sets the theme: where the requested theme differs from the current one,
    /// the resolved theme (see [`spec_resolve_theme`]) is recorded and the
    /// result says whether the window's frame is to be dark.
    pub fn set_theme(&mut self, theme: Theme, system_dark: bool, dark_supported: bool) -> (dark: Option<bool>)
        ensures
            *final(self) == old(self).spec_set_theme(theme, system_dark, dark_supported),
            dark == (if theme == old(self).theme {
                None::<bool>
            } else {
                Some(spec_resolve_theme(theme, system_dark, dark_supported) == Theme::Dark)
            }),
    {
        if theme == self.theme {
            return None;
        }
        let resolved = resolve_theme(theme, system_dark, dark_supported);
        self.theme = resolved;
        Some(resolved == Theme::Dark)
    }

    /// Sets the title: where it differs from the current one, it is recorded
    /// and the window text, the title followed by the subtitle, is to be set.
    pub fn set_title(&mut self, title: &str) -> (command: Option<Command>)
        ensures
            if title@ == old(self).title@ {
                command is None && *final(self) == *old(self)
            } else {
                &&& final(self).title@ == title@
                &&& *final(self) == (Data { title: final(self).title, ..*old(self) })
                &&& command matches Some(Command::SetWindowText(text)) && text@ == title@ + old(
                    self,
                ).subtitle@
            },
    {
        let title = String::from_str(title);
        if title == self.title {
            return None;
        }
        self.title = title;
        let text = self.title.clone().concat(self.subtitle.as_str());
        Some(Command::SetWindowText(text))
    }

    /// Sets the subtitle, the text that follows the title: where it differs
    /// from the current one, it is recorded and the window text, the title
    /// followed by the subtitle, is to be set.
    pub fn set_subtitle(&mut self, subtitle: &str) -> (command: Option<Command>)
        ensures
            if subtitle@ == old(self).subtitle@ {
                command is None && *final(self) == *old(self)
            } else {
                &&& final(self).subtitle@ == subtitle@
                &&& *final(self) == (Data { subtitle: final(self).subtitle, ..*old(self) })
                &&& command matches Some(Command::SetWindowText(text)) && text@ == old(
                    self,
                ).title@ + subtitle@
            },
    {
        let subtitle = String::from_str(subtitle);
        if subtitle == self.subtitle {
            return None;
        }
        self.subtitle = subtitle;
        let text = self.title.clone().concat(self.subtitle.as_str());
        Some(Command::SetWindowText(text))
    }

    // WINDOW PROCEDURE
    /// A paint message: the pending redraw is done.
    pub fn on_paint(&mut self) -> (message: Message)
        ensures
            message == Message::Paint,
            *final(self) == old(self).spec_on_paint(),
    {
        self.requested_redraw = false;
        Message::Paint
    }

    /// A size message: the window is maximized exactly when `wParam` says so.
    /// Returns whether the window is windowed (so that its windowed bounds are
    /// to be recorded) and the resize message.
    pub fn on_size(&mut self, w_param: usize, l_param: isize) -> (reaction: (bool, Message))
        ensures
            *final(self) == (Data {
                style: Style {
                    maximized: (w_param as u32) & win32::SIZE_MAXIMIZED == win32::SIZE_MAXIMIZED,
                    ..old(self).style
                },
                ..*old(self)
            }),
            reaction.0 == old(self).style.fullscreen is None,
            reaction.1 == spec_resized_message(l_param),
    {
        let w = #[verifier::truncate] (w_param as u32);
        self.style.maximized = is_flag_set(w, win32::SIZE_MAXIMIZED);
        let is_windowed = self.style.fullscreen.is_none();

        let low = #[verifier::truncate] (l_param as u32);
        let width = lo_word(low) as u32;
        let height = hi_word(low) as u32;

        (is_windowed, Message::Resized(PhysicalSize::new(width, height)))
    }

    /// A window-position change to the outer bounds `(x, y, cx, cy)`: returns
    /// whether the window is windowed (so that its windowed bounds are to be
    /// recorded) and the bounds message.
    pub fn on_window_pos_changed(&self, x: i32, y: i32, cx: i32, cy: i32) -> (reaction: (
        bool,
        Message,
    ))
        ensures
            reaction.0 == self.style.fullscreen is None,
            reaction.1 == (Message::BoundsChanged {
                outer_position: PhysicalPosition { x, y },
                outer_size: PhysicalSize { width: cx as u32, height: cy as u32 },
            }),
    {
        let is_windowed = self.style.fullscreen.is_none();
        (
            is_windowed,
            Message::BoundsChanged {
                outer_position: PhysicalPosition::new(x, y),
                outer_size: PhysicalSize::new(
                    #[verifier::truncate] (cx as u32),
                    #[verifier::truncate] (cy as u32),
                ),
            },
        )
    }

    /// A non-client activation message: the window is active exactly when
    /// `wParam` is `TRUE` (1).
    pub fn on_nc_activate(&mut self, w_param: usize)
        ensures
            *final(self) == (Data {
                style: Style { active: w_param == 1, ..old(self).style },
                ..*old(self)
            }),
    {
        self.style.active = w_param == 1;
    }

    /// The window gained or lost the keyboard focus: it is recorded, and the
    /// focus message is to be sent.
    pub fn on_focus(&mut self, gained: bool) -> (message: Message)
        ensures
            *final(self) == (Data {
                style: Style { focused: gained, ..old(self).style },
                ..*old(self)
            }),
            message == Message::Focus(
                if gained {
                    Focus::Gained
                } else {
                    Focus::Lost
                },
            ),
    {
        self.style.focused = gained;
        if gained {
            Message::Focus(Focus::Gained)
        } else {
            Message::Focus(Focus::Lost)
        }
    }

    /// A system command: minimizing and restoring are recorded.
    pub fn on_sys_command(&mut self, w_param: usize) -> (message: Message)
        ensures
            message == Message::SystemCommand,
            *final(self) == (if w_param as u32 == win32::SC_MINIMIZE {
                Data { style: Style { minimized: true, ..old(self).style }, ..*old(self) }
            } else if w_param as u32 == win32::SC_RESTORE {
                Data { style: Style { minimized: false, ..old(self).style }, ..*old(self) }
            } else {
                *old(self)
            }),
    {
        let w = #[verifier::truncate] (w_param as u32);
        if w == win32::SC_MINIMIZE {
            self.style.minimized = true;
        } else if w == win32::SC_RESTORE {
            self.style.minimized = false;
        }
        Message::SystemCommand
    }

    /// A key message, given the virtual keys that its scan codes map to (see
    /// [`spec_keyboard_message`]): the modifiers are derived anew from the
    /// keys; where one changed, a modifiers message comes first; then the key
    /// message, whose state is recorded for its key.
    pub fn on_key(&mut self, l_param: isize, extended_vk: u16, vk: u16) -> (messages: Vec<Message>)
        ensures
            ({
                let key_message = spec_keyboard_message(l_param, extended_vk, vk);
                let updated = old(self).input@.spec_update_modifiers();
                &&& messages@ == (if old(self).input@.spec_modifiers_change() {
                    seq![
                        Message::ModifiersChanged {
                            shift: updated.shift,
                            ctrl: updated.ctrl,
                            alt: updated.alt,
                            win: updated.win,
                        },
                        key_message,
                    ]
                } else {
                    seq![key_message]
                })
                &&& *final(self) == (Data { input: final(self).input, ..*old(self) })
                &&& final(self).input@ == (InputView {
                    keys: match key_message {
                        Message::Key { key, state, .. } => updated.keys.insert(
                            key.spec_code(),
                            state,
                        ),
                        _ => updated.keys,
                    },
                    ..updated
                })
            }),
    {
        let mut messages: Vec<Message> = Vec::new();
        let (changed, shift, ctrl, alt, win) = self.input.update_modifiers_state();
        if changed {
            messages.push(Message::ModifiersChanged { shift, ctrl, alt, win });
        }
        let message = Message::new_keyboard_message(l_param, extended_vk, vk);
        if let Message::Key { key, state, .. } = &message {
            self.input.update_key_state(*key, *state);
        }
        messages.push(message);
        messages
    }
    /// A cursor move to the position that `lParam` carries, given the client
    /// area (`None` where it could not be read); see [`get_cursor_move_kind`].
    /// On entering, the cursor is inside and the system is to report when it
    /// leaves; on leaving, it is outside. A move message is sent on entering,
    /// on leaving, and inside where the position changed; then the position is
    /// recorded. The system cursor is to be refreshed after any of these.
    pub fn on_mouse_move(&mut self, l_param: isize, client_rect: Option<Rect>) -> (reaction: MouseMoveReaction)
        ensures
            ({
                let position = spec_mouse_position(l_param);
                let kind = match client_rect {
                    None => CursorMoveKind::Inside,
                    Some(rect) => if !old(self).cursor.inside_window && rect.spec_contains(
                        position.x,
                        position.y,
                    ) {
                        CursorMoveKind::Entered
                    } else if old(self).cursor.inside_window && !rect.spec_contains(
                        position.x,
                        position.y,
                    ) {
                        CursorMoveKind::Left
                    } else {
                        CursorMoveKind::Inside
                    },
                };
                let inside = match kind {
                    CursorMoveKind::Entered => true,
                    CursorMoveKind::Left => false,
                    CursorMoveKind::Inside => old(self).cursor.inside_window,
                };
                let send = !(kind is Inside) || old(self).cursor.last_position != position;
                &&& reaction.track_leave == (kind is Entered)
                &&& reaction.refresh_cursor == send
                &&& reaction.message == (if send {
                    Some(Message::CursorMove { position, kind })
                } else {
                    None::<Message>
                })
                &&& *final(self) == (Data {
                    cursor: Cursor {
                        inside_window: inside,
                        last_position: if send {
                            position
                        } else {
                            old(self).cursor.last_position
                        },
                        ..old(self).cursor
                    },
                    ..*old(self)
                })
            }),
    {
        let position = mouse_position(l_param);
        let kind = get_cursor_move_kind(
            client_rect,
            self.cursor.inside_window,
            position.x,
            position.y,
        );

        let send_message = match kind {
            CursorMoveKind::Entered => {
                self.cursor.inside_window = true;
                true
            },
            CursorMoveKind::Left => {
                self.cursor.inside_window = false;
                true
            },
            CursorMoveKind::Inside => self.cursor.last_position != position,
        };

        let track_leave = match kind {
            CursorMoveKind::Entered => true,
            _ => false,
        };

        if send_message {
            self.cursor.last_position = position;
            MouseMoveReaction {
                track_leave,
                refresh_cursor: true,
                message: Some(Message::CursorMove { position, kind }),
            }
        } else {
            MouseMoveReaction { track_leave, refresh_cursor: false, message: None }
        }
    }

    /// The cursor left the window: it is outside, and the move message reports
    /// that it left from its last position.
    pub fn on_mouse_leave(&mut self) -> (message: Message)
        ensures
            *final(self) == (Data {
                cursor: Cursor { inside_window: false, ..old(self).cursor },
                ..*old(self)
            }),
            message == (Message::CursorMove {
                position: old(self).cursor.last_position,
                kind: CursorMoveKind::Left,
            }),
    {
        self.cursor.inside_window = false;
        Message::CursorMove { position: self.cursor.last_position, kind: CursorMoveKind::Left }
    }

    /// A mouse button message (see [`spec_mouse_button_message`]): the
    /// button's state is recorded, and the message is to be sent.
    pub fn on_mouse_button(&mut self, message: u32, w_param: usize, l_param: isize) -> (msg: Message)
        ensures
            msg == spec_mouse_button_message(message, w_param, l_param),
            *final(self) == (Data { input: final(self).input, ..*old(self) }),
            final(self).input@ == (match msg {
                Message::MouseButton { button, state, .. } => InputView {
                    mouse_buttons: old(self).input@.mouse_buttons.insert(
                        button.spec_code(),
                        state,
                    ),
                    ..old(self).input@
                },
                _ => old(self).input@,
            }),
    {
        let msg = Message::new_mouse_button_message(message, w_param, l_param);
        if let Message::MouseButton { button, state, .. } = &msg {
            self.input.update_mouse_button_state(*button, *state);
        }
        msg
    }

    /// Records what a command changes in the window's state, once the window
    /// thread carries it out: the selected cursor icon, the cursor mode, the
    /// cursor visibility. Other commands change nothing here.
    pub fn record_command(&mut self, command: &Command)
        ensures
            *final(self) == (match *command {
                Command::SetCursorIcon(icon) => Data {
                    cursor: Cursor { selected_icon: icon, ..old(self).cursor },
                    ..*old(self)
                },
                Command::SetCursorMode(mode) => Data {
                    cursor: Cursor { mode, ..old(self).cursor },
                    ..*old(self)
                },
                Command::SetCursorVisibility(visibility) => Data {
                    cursor: Cursor { visibility, ..old(self).cursor },
                    ..*old(self)
                },
                _ => *old(self),
            }),
    {
        match command {
            Command::SetCursorIcon(icon) => {
                self.cursor.selected_icon = *icon;
            },
            Command::SetCursorMode(mode) => {
                self.cursor.mode = *mode;
            },
            Command::SetCursorVisibility(visibility) => {
                self.cursor.visibility = *visibility;
            },
            _ => {},
        }
    }

    /// The visibility that the system cursor is to take: the window's cursor
    /// visibility while the cursor is inside the window, shown otherwise.
    pub fn cursor_visibility_to_apply(&self) -> (visibility: Visibility)
        ensures
            visibility == (if self.cursor.inside_window {
                self.cursor.visibility
            } else {
                Visibility::Shown
            }),
    {
        if self.cursor.inside_window {
            self.cursor.visibility
        } else {
            Visibility::Shown
        }
    }

    /// The clip rectangle that the system cursor is to take, given the client
    /// area and the screen position of its top-left corner: `None` where the
    /// window is not focused (the clip is left alone); otherwise the client
    /// area on the screen for a confined cursor, shrunk to the one pixel at its
    /// centre while the cursor is hidden (so that it cannot activate the
    /// taskbar), and no clip (`Some(None)`) for a normal cursor.
    pub fn desired_cursor_clip(&self, client_rect: Rect, top_left: PhysicalPosition) -> (clip: Option<
        Option<Rect>,
    >)
        requires
            i32::MIN <= client_rect.left + top_left.x <= i32::MAX,
            i32::MIN <= client_rect.right + top_left.x <= i32::MAX,
            i32::MIN <= client_rect.top + top_left.y <= i32::MAX,
            i32::MIN <= client_rect.bottom + top_left.y <= i32::MAX,
            i32::MIN <= (client_rect.left + top_left.x) + (client_rect.right + top_left.x)
                <= i32::MAX,
            i32::MIN <= (client_rect.top + top_left.y) + (client_rect.bottom + top_left.y)
                <= i32::MAX,
            spec_trunc_half((client_rect.left + top_left.x) + (client_rect.right + top_left.x))
                < i32::MAX,
            spec_trunc_half((client_rect.top + top_left.y) + (client_rect.bottom + top_left.y))
                < i32::MAX,
        ensures
            ({
                let screen = Rect {
                    left: (client_rect.left + top_left.x) as i32,
                    top: (client_rect.top + top_left.y) as i32,
                    right: (client_rect.right + top_left.x) as i32,
                    bottom: (client_rect.bottom + top_left.y) as i32,
                };
                let cx = spec_trunc_half(screen.left + screen.right);
                let cy = spec_trunc_half(screen.top + screen.bottom);
                clip == (if !(self.style.focused && self.style.active) {
                    None::<Option<Rect>>
                } else if self.cursor.mode is Confined {
                    if self.cursor.visibility is Hidden {
                        Some(
                            Some(
                                Rect {
                                    left: cx as i32,
                                    right: (cx + 1) as i32,
                                    top: cy as i32,
                                    bottom: (cy + 1) as i32,
                                },
                            ),
                        )
                    } else {
                        Some(Some(screen))
                    }
                } else {
                    Some(None::<Rect>)
                })
            }),
    {
        let screen = Rect {
            left: client_rect.left + top_left.x,
            top: client_rect.top + top_left.y,
            right: client_rect.right + top_left.x,
            bottom: client_rect.bottom + top_left.y,
        };
        if !self.has_focus() {
            return None;
        }
        match self.cursor.mode {
            CursorMode::Confined => {
                if let Visibility::Hidden = self.cursor.visibility {
                    let cx = (screen.left + screen.right) / 2;
                    let cy = (screen.top + screen.bottom) / 2;
                    Some(Some(Rect { left: cx, right: cx + 1, top: cy, bottom: cy + 1 }))
                } else {
                    Some(Some(screen))
                }
            },
            CursorMode::Normal => Some(None),
        }
    }

    /// Whether the window has the keyboard focus and is active.
    pub fn has_focus(&self) -> (focus: bool)
        ensures
            focus == (self.style.focused && self.style.active),
    {
        self.style.has_focus()
    }
}

// LAWS
/// A window is closed once: after a close request the window is closing, so
/// a further request posts no exit and changes nothing.
pub proof fn lemma_close_once(data: Data)
    ensures
        spec_is_closing(data.spec_close().stage),
        data.spec_close().spec_close() == data.spec_close(),
{
}

/// The exit message ends the iteration: once the loop took it, the window
/// takes no further message, and a new iteration reports that the loop has
/// already exited.
pub proof fn lemma_exit_ends_iteration(data: Data)
    ensures
        ({
            let after = Data { stage: Stage::ExitLoop, ..data };
            &&& !after.spec_wants_message()
            &&& spec_is_closing(after.stage)
        }),
{
}

/// Closing a looping window changes nothing but its stage, to closing, and
/// the iteration still takes messages until the exit message arrives.
pub proof fn lemma_close_keeps_looping(data: Data)
    requires
        data.stage is Looping,
    ensures
        data.spec_close() == (Data { stage: Stage::Closing, ..data }),
        data.spec_close().spec_wants_message(),
{
}

/// The one-pixel clip of a hidden, confined cursor lies inside the client
/// area on the screen, along either axis whose extent `lo..hi` is not empty and
/// whose coordinates do not sum below zero.
pub proof fn lemma_hidden_cursor_clip_inside(lo: int, hi: int)
    requires
        lo < hi,
        lo + hi >= 0,
    ensures
        lo <= spec_trunc_half(lo + hi),
        spec_trunc_half(lo + hi) + 1 <= hi,
{
}

/// A window is destroyed once: after its destruction began, a second attempt
/// reports that it is already destroyed.
pub proof fn lemma_destroy_once(data: Data)
    ensures
        data.spec_destroy().stage is Destroyed,
        data.spec_destroy().spec_destroy() == data.spec_destroy(),
{
}

/// A polling window never waits for a message; a waiting one waits exactly
/// when no message is pending.
pub proof fn lemma_poll_never_waits(data: Data, pending: bool)
    ensures
        data.flow == Flow::Poll ==> !data.spec_should_wait(pending),
        data.flow == Flow::Wait ==> (data.spec_should_wait(pending) <==> !pending),
{
}

/// Setting a window property to the value it already has changes nothing and
/// posts nothing: setting it twice posts one command.
pub proof fn lemma_setters_idempotent(
    data: Data,
    visibility: Visibility,
    fullscreen: Option<Fullscreen>,
    cursor_mode: CursorMode,
)
    ensures
        data.spec_set_visibility(visibility).spec_set_visibility(visibility) == data.spec_set_visibility(visibility),
        data.spec_set_visibility(visibility).style.visibility == visibility,
        data.spec_set_decorations(visibility).spec_set_decorations(visibility) == data.spec_set_decorations(visibility),
        data.spec_set_decorations(visibility).style.decorations == visibility,
        data.spec_set_fullscreen(fullscreen).spec_set_fullscreen(fullscreen) == data.spec_set_fullscreen(fullscreen),
        data.spec_set_fullscreen(fullscreen).style.fullscreen == fullscreen,
        data.spec_set_cursor_mode(cursor_mode).spec_set_cursor_mode(cursor_mode) == data.spec_set_cursor_mode(cursor_mode),
        data.spec_set_cursor_mode(cursor_mode).cursor.mode == cursor_mode,
        data.spec_set_cursor_visibility(visibility).spec_set_cursor_visibility(visibility) == data.spec_set_cursor_visibility(visibility),
        data.spec_set_cursor_visibility(visibility).cursor.visibility == visibility,
{
}

/// At most one redraw is pending: after a request, further requests post
/// nothing until a paint, after which a request posts again.
pub proof fn lemma_redraw_cycle(data: Data)
    ensures
        data.spec_request_redraw().requested_redraw,
        data.spec_request_redraw().spec_request_redraw() == data.spec_request_redraw(),
        !data.spec_request_redraw().spec_on_paint().requested_redraw,
{
}

/// Setting a theme that resolves to itself twice changes nothing the second
/// time. (`Auto` always resolves to `Dark` or `Light`, so it is set anew each
/// time it is requested.)
pub proof fn lemma_set_theme_idempotent(data: Data, theme: Theme, system_dark: bool, dark_supported: bool)
    requires
        spec_resolve_theme(theme, system_dark, dark_supported) == theme,
    ensures
        data.spec_set_theme(theme, system_dark, dark_supported).theme == theme,
        data.spec_set_theme(theme, system_dark, dark_supported).spec_set_theme(
            theme,
            system_dark,
            dark_supported,
        ) == data.spec_set_theme(theme, system_dark, dark_supported),
{
}

/// Converting a position to a pair of signed coordinates and back gives the
/// position, and so does converting a size to a pair of unsigned extents and
/// back.
pub proof fn lemma_conversions_round_trip(position: PhysicalPosition, size: PhysicalSize)
    ensures
        <PhysicalPosition as FromSpec<(i32, i32)>>::from_spec(
            <(i32, i32) as FromSpec<PhysicalPosition>>::from_spec(position),
        ) == position,
        <PhysicalPosition as FromSpec<[i32; 2]>>::from_spec(
            <[i32; 2] as FromSpec<PhysicalPosition>>::from_spec(position),
        ) == position,
        <PhysicalSize as FromSpec<(u32, u32)>>::from_spec(
            <(u32, u32) as FromSpec<PhysicalSize>>::from_spec(size),
        ) == size,
        <PhysicalSize as FromSpec<[u32; 2]>>::from_spec(
            <[u32; 2] as FromSpec<PhysicalSize>>::from_spec(size),
        ) == size,
{
}

} // verus!
