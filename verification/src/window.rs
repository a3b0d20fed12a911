//! What the window knows between two polls: keys, buttons, pointer, size.
//!
//! The window system delivers events; this module keeps the state that
//! follows from them.

use vstd::prelude::*;

pub mod buttons;

pub use buttons::ButtonState;
pub use buttons::Buttons;

use buttons::all_settled;
use buttons::reported;

verus! {

/// Where the pointer is, in logical pixels.
#[derive(Clone, Copy, Debug, PartialEq, Eq, Structural)]
pub struct MousePos {
    pub x: i32,
    pub y: i32,
}

/// How far the pointer moved.
#[derive(Clone, Copy, Debug, PartialEq, Eq, Structural)]
pub struct MouseDelta {
    pub x: i32,
    pub y: i32,
}

impl MouseDelta {
    /// Whether the pointer did not move at all.
    pub fn is_none(&self) -> (r: bool)
        ensures
            r == (self.x == 0 && self.y == 0),
    {
        self.x == 0 && self.y == 0
    }
}

/// How far the wheel turned.
#[derive(Clone, Copy, Debug, PartialEq, Eq, Structural)]
pub struct ScrollDelta {
    pub x: i32,
    pub y: i32,
}

/// A size in logical pixels.
#[derive(Clone, Copy, Debug, PartialEq, Eq, Structural)]
pub struct Size {
    pub w: u32,
    pub h: u32,
}

/// A key, by the code the window system gives it.
#[derive(Clone, Copy, Debug, PartialEq, Eq, Structural)]
pub struct Key {
    pub code: u32,
}

/// A button of the mouse.
#[derive(Clone, Copy, Debug, PartialEq, Eq, Structural)]
pub enum Mouse {
    Left,
    Right,
    Middle,
    Other(u8),
}

impl Mouse {
    /// The code under which the button's state is kept; no two buttons share
    /// one.
    pub open spec fn spec_code(self) -> u32 {
        match self {
            Mouse::Left => 0,
            Mouse::Right => 1,
            Mouse::Middle => 2,
            Mouse::Other(n) => (3 + n) as u32,
        }
    }

    /// The code under which the button's state is kept.
    #[verifier::when_used_as_spec(spec_code)]
    pub fn code(self) -> (c: u32)
        ensures
            c == self.spec_code(),
    {
        match self {
            Mouse::Left => 0,
            Mouse::Right => 1,
            Mouse::Middle => 2,
            Mouse::Other(n) => 3 + (n as u32),
        }
    }
}

/// How a window is to be made.
#[derive(Clone, Copy, Debug, PartialEq, Eq)]
pub struct Conf {
    pub width: u32,
    pub height: u32,
    pub title: &'static str,
    pub hidpi: bool,
    pub resizable: bool,
    pub fullscreen: bool,
    pub always_on_top: bool,
    pub multi_touch: bool,
    pub borderless: bool,
    pub transparent: bool,
    pub vsync: bool,
    pub hide_title: bool,
    pub hide_titlebar_buttons: bool,
    pub fullsize_content: bool,
}

impl Conf {
    /// The settings of a window that is made with nothing said: 640 by 480,
    /// no title, at the display's density, and every switch off.
    pub open spec fn spec_default() -> Conf {
        Conf {
            width: 640,
            height: 480,
            title: "",
            hidpi: true,
            resizable: false,
            fullscreen: false,
            always_on_top: false,
            multi_touch: false,
            borderless: false,
            transparent: false,
            vsync: false,
            hide_title: false,
            hide_titlebar_buttons: false,
            fullsize_content: false,
        }
    }

    /// The default settings with the given title and size.
    pub fn basic(title: &'static str, width: u32, height: u32) -> (c: Conf)
        ensures
            c == (Conf { title, width, height, ..Conf::spec_default() }),
    {
        let d = Conf::default();
        Conf { title, width, height, ..d }
    }
}

impl Default for Conf {
    fn default() -> (c: Conf)
        ensures
            c == Conf::spec_default(),
    {
        Conf {
            width: 640,
            height: 480,
            title: "",
            hidpi: true,
            resizable: false,
            fullscreen: false,
            always_on_top: false,
            multi_touch: false,
            borderless: false,
            transparent: false,
            vsync: false,
            hide_title: false,
            hide_titlebar_buttons: false,
            fullsize_content: false,
        }
    }
}

/// Something the window system reports.
#[derive(Clone, Copy, Debug, PartialEq, Eq)]
pub enum Event {
    CloseRequested,
    ReceivedCharacter(char),
    CursorMoved(MousePos),
    MouseWheel(ScrollDelta),
    MouseInput { button: Mouse, pressed: bool },
    /// A key went down or came up; `key` is missing where the window system
    /// has no name for it.
    KeyboardInput { key: Option<Key>, pressed: bool },
    Resized(Size),
    /// The mouse itself moved, whether or not the pointer did.
    MouseMotion(MouseDelta),
    /// Anything else.
    Other,
}

/// What a batch of events comes to: whether the window is to close, the
/// characters typed, and the last report of each other kind.
pub struct Gathered {
    pub quit: bool,
    pub key_input: Option<(Option<Key>, bool)>,
    pub mouse_input: Option<(Mouse, bool)>,
    pub mouse_pos: Option<MousePos>,
    pub scroll_delta: Option<ScrollDelta>,
    pub text_input: Option<Seq<char>>,
    pub device_mouse_delta: Option<MouseDelta>,
    pub resized: Option<Size>,
}

impl Gathered {
    /// What no events come to.
    pub open spec fn nothing() -> Gathered {
        Gathered {
            quit: false,
            key_input: None,
            mouse_input: None,
            mouse_pos: None,
            scroll_delta: None,
            text_input: None,
            device_mouse_delta: None,
            resized: None,
        }
    }

    /// `self` with one more event taken in: a typed character is added to the
    /// text, a request to close is remembered, and any other report replaces
    /// the one of its kind.
    pub open spec fn noted(self, e: Event) -> Gathered {
        match e {
            Event::CloseRequested => Gathered { quit: true, ..self },
            Event::ReceivedCharacter(ch) => Gathered {
                text_input: Some(
                    match self.text_input {
                        Some(t) => t.push(ch),
                        None => seq![ch],
                    },
                ),
                ..self
            },
            Event::CursorMoved(p) => Gathered { mouse_pos: Some(p), ..self },
            Event::MouseWheel(d) => Gathered { scroll_delta: Some(d), ..self },
            Event::MouseInput { button, pressed } => Gathered {
                mouse_input: Some((button, pressed)),
                ..self
            },
            Event::KeyboardInput { key, pressed } => Gathered {
                key_input: Some((key, pressed)),
                ..self
            },
            Event::Resized(s) => Gathered { resized: Some(s), ..self },
            Event::MouseMotion(d) => Gathered { device_mouse_delta: Some(d), ..self },
            Event::Other => self,
        }
    }
}

/// What `events` come to, taken in first to last.
pub open spec fn gathered(events: Seq<Event>) -> Gathered
    decreases events.len(),
{
    if events.len() == 0 {
        Gathered::nothing()
    } else {
        gathered(events.drop_last()).noted(events.last())
    }
}

/// What a [`Window`] holds.
pub struct WindowView {
    pub keys: Map<u32, ButtonState>,
    pub rpressed_key: Option<Key>,
    pub text_input: Option<Seq<char>>,
    pub mouse_pos: MousePos,
    pub mouse_delta: Option<MouseDelta>,
    pub scroll_delta: Option<ScrollDelta>,
    pub buttons: Map<u32, ButtonState>,
    pub resized: Option<Size>,
    pub fullscreen: bool,
    pub relative: bool,
    pub running: bool,
    pub fps_cap: u32,
}

/// How far the pointer moved from `from` to `to`, each coordinate wrapping
/// around where the difference does not fit.
pub open spec fn moved(from: MousePos, to: MousePos) -> MouseDelta {
    MouseDelta { x: to.x.wrapping_sub(from.x), y: to.y.wrapping_sub(from.y) }
}

impl WindowView {
    /// The window after a poll that brought `g`, none of it a request to
    /// close.
    ///
    /// Every key and button lets the poll pass, and then the last key and the
    /// last button reported take their report. The key that repeats is the
    /// key reported pressed, if one was. Text, wheel and new size are those
    /// of this poll, or none. The pointer is where it was last reported; its
    /// movement is what the mouse itself reported, else the way from the old
    /// position to the new one where that changes both coordinates, else
    /// none.
    pub open spec fn polled(self, g: Gathered) -> WindowView {
        let keys = all_settled(self.keys);
        let buttons = all_settled(self.buttons);
        WindowView {
            keys: match g.key_input {
                Some((Some(k), pressed)) => reported(keys, k.code, pressed),
                _ => keys,
            },
            rpressed_key: match g.key_input {
                Some((Some(k), true)) => Some(k),
                _ => None,
            },
            text_input: g.text_input,
            mouse_pos: match g.mouse_pos {
                Some(p) => p,
                None => self.mouse_pos,
            },
            mouse_delta: match g.device_mouse_delta {
                Some(d) => Some(d),
                None => match g.mouse_pos {
                    Some(p) => {
                        let d = moved(self.mouse_pos, p);
                        if d.x != 0 && d.y != 0 {
                            Some(d)
                        } else {
                            None
                        }
                    },
                    None => None,
                },
            },
            scroll_delta: g.scroll_delta,
            buttons: match g.mouse_input {
                Some((b, pressed)) => reported(buttons, b.spec_code(), pressed),
                None => buttons,
            },
            resized: g.resized,
            ..self
        }
    }
}

/// What an optional string holds.
pub open spec fn text_view(t: Option<String>) -> Option<Seq<char>> {
    match t {
        Some(s) => Some(s@),
        None => None,
    }
}

/// `String::push` of the standard library: `c` is added at the end of `s`.
#[verifier::external_body]
fn push_char(s: &mut String, c: char)
    ensures
        final(s)@ == old(s)@.push(c),
{
    s.push(c)
}

/// The state of a window: what its keys and buttons are doing, where the
/// pointer is and what the last poll brought.
pub struct Window {
    key_states: Buttons,
    rpressed_key: Option<Key>,
    text_input: Option<String>,
    mouse_pos: MousePos,
    mouse_delta: Option<MouseDelta>,
    scroll_delta: Option<ScrollDelta>,
    mouse_states: Buttons,
    resized: Option<Size>,
    fullscreen: bool,
    relative: bool,
    running: bool,
    fps_cap: u32,
}

impl View for Window {
    type V = WindowView;

    closed spec fn view(&self) -> WindowView {
        WindowView {
            keys: self.key_states@,
            rpressed_key: self.rpressed_key,
            text_input: text_view(self.text_input),
            mouse_pos: self.mouse_pos,
            mouse_delta: self.mouse_delta,
            scroll_delta: self.scroll_delta,
            buttons: self.mouse_states@,
            resized: self.resized,
            fullscreen: self.fullscreen,
            relative: self.relative,
            running: self.running,
            fps_cap: self.fps_cap,
        }
    }
}

impl Window {
    /// The invariant of the window's state.
    pub closed spec fn wf(&self) -> bool {
        self.key_states.wf() && self.mouse_states.wf()
    }

    /// A window of which nothing is known yet: no key or button has a state,
    /// the pointer is at the origin, and the frame rate is capped at 60.
    pub fn new() -> (w: Window)
        ensures
            w.wf(),
            w@ == (WindowView {
                keys: Map::empty(),
                rpressed_key: None,
                text_input: None,
                mouse_pos: MousePos { x: 0, y: 0 },
                mouse_delta: None,
                scroll_delta: None,
                buttons: Map::empty(),
                resized: None,
                fullscreen: false,
                relative: false,
                running: false,
                fps_cap: 60,
            }),
    {
        Window {
            key_states: Buttons::new(),
            rpressed_key: None,
            text_input: None,
            mouse_pos: MousePos { x: 0, y: 0 },
            mouse_delta: None,
            scroll_delta: None,
            mouse_states: Buttons::new(),
            resized: None,
            fullscreen: false,
            relative: false,
            running: false,
            fps_cap: 60,
        }
    }

    /// Takes in the events of one poll. Where one of them asks the window to
    /// close, returns `false` and leaves the state as it was; else returns
    /// `true`, and the state is what [`WindowView::polled`] says.
    pub fn poll(&mut self, events: &[Event]) -> (r: bool)
        requires
            old(self).wf(),
        ensures
            final(self).wf(),
            r == !gathered(events@).quit,
            !r ==> final(self)@ == old(self)@,
            r ==> final(self)@ == old(self)@.polled(gathered(events@)),
    {
        let mut quit = false;
        let mut key_input: Option<(Option<Key>, bool)> = None;
        let mut mouse_input: Option<(Mouse, bool)> = None;
        let mut mouse_pos: Option<MousePos> = None;
        let mut scroll_delta: Option<ScrollDelta> = None;
        let mut text_input: Option<String> = None;
        let mut device_mouse_delta: Option<MouseDelta> = None;
        let mut resized: Option<Size> = None;
        let mut i: usize = 0;
        while i < events.len()
            invariant
                i <= events@.len(),
                gathered(events@.take(i as int)) == (Gathered {
                    quit,
                    key_input,
                    mouse_input,
                    mouse_pos,
                    scroll_delta,
                    text_input: text_view(text_input),
                    device_mouse_delta,
                    resized,
                }),
            decreases events@.len() - i,
        {
            proof {
                assert(events@.take(i + 1).drop_last() == events@.take(i as int));
                assert(events@.take(i + 1).last() == events@[i as int]);
            }
            match events[i] {
                Event::CloseRequested => {
                    quit = true;
                },
                Event::ReceivedCharacter(ch) => {
                    let mut text = match text_input {
                        Some(t) => t,
                        None => String::new(),
                    };
                    push_char(&mut text, ch);
                    text_input = Some(text);
                    assert(Seq::<char>::empty().push(ch) == seq![ch]);
                },
                Event::CursorMoved(p) => {
                    mouse_pos = Some(p);
                },
                Event::MouseWheel(d) => {
                    scroll_delta = Some(d);
                },
                Event::MouseInput { button, pressed } => {
                    mouse_input = Some((button, pressed));
                },
                Event::KeyboardInput { key, pressed } => {
                    key_input = Some((key, pressed));
                },
                Event::Resized(s) => {
                    resized = Some(s);
                },
                Event::MouseMotion(d) => {
                    device_mouse_delta = Some(d);
                },
                Event::Other => {},
            }
            i = i + 1;
        }
        assert(events@.take(events@.len() as int) == events@);
        if quit {
            return false;
        }
        self.key_states.settle();
        self.mouse_states.settle();
        self.rpressed_key = None;
        self.mouse_delta = None;
        self.scroll_delta = scroll_delta;
        self.resized = resized;
        self.text_input = text_input;
        match mouse_pos {
            Some(p) => {
                let prev = self.mouse_pos;
                self.mouse_pos = p;
                let delta = MouseDelta { x: p.x.wrapping_sub(prev.x), y: p.y.wrapping_sub(prev.y) };
                if delta.x != 0 && delta.y != 0 {
                    self.mouse_delta = Some(delta);
                }
            },
            None => {},
        }
        match device_mouse_delta {
            Some(d) => {
                self.mouse_delta = Some(d);
            },
            None => {},
        }
        match key_input {
            Some((Some(k), pressed)) => {
                if pressed {
                    self.rpressed_key = Some(k);
                }
                self.key_states.report(k.code, pressed);
            },
            _ => {},
        }
        match mouse_input {
            Some((b, pressed)) => {
                self.mouse_states.report(b.code(), pressed);
            },
            None => {},
        }
        true
    }

    /// Notes that the window is, or is no longer, full screen.
    pub fn set_fullscreen(&mut self, b: bool)
        ensures
            final(self)@ == (WindowView { fullscreen: b, ..old(self)@ }),
            final(self).wf() == old(self).wf(),
    {
        self.fullscreen = b;
    }

    /// Whether the window is full screen.
    pub fn is_fullscreen(&self) -> (b: bool)
        ensures
            b == self@.fullscreen,
    {
        self.fullscreen
    }

    /// Notes the opposite of what is noted of full screen.
    pub fn toggle_fullscreen(&mut self)
        ensures
            final(self)@ == (WindowView { fullscreen: !old(self)@.fullscreen, ..old(self)@ }),
            final(self).wf() == old(self).wf(),
    {
        if self.is_fullscreen() {
            self.set_fullscreen(false);
        } else {
            self.set_fullscreen(true);
        }
    }

    /// Notes that the pointer is, or is no longer, hidden and kept inside the
    /// window.
    pub fn set_relative(&mut self, b: bool)
        ensures
            final(self)@ == (WindowView { relative: b, ..old(self)@ }),
            final(self).wf() == old(self).wf(),
    {
        self.relative = b;
    }

    /// Whether the pointer is hidden and kept inside the window.
    pub fn is_relative(&self) -> (b: bool)
        ensures
            b == self@.relative,
    {
        self.relative
    }

    /// Notes the opposite of what is noted of the pointer.
    pub fn toggle_relative(&mut self)
        ensures
            final(self)@ == (WindowView { relative: !old(self)@.relative, ..old(self)@ }),
            final(self).wf() == old(self).wf(),
    {
        if self.is_relative() {
            self.set_relative(false);
        } else {
            self.set_relative(true);
        }
    }

    /// The keys that are held down, each once, in no particular order.
    pub fn down_keys(&self) -> (r: Vec<Key>)
        requires
            self.wf(),
        ensures
            r@.no_duplicates(),
            forall|k: Key|
                r@.contains(k) <==> self@.keys.contains_key(k.code) && self@.keys[k.code]
                    == ButtonState::Down,
    {
        let codes = self.key_states.held();
        let mut r: Vec<Key> = Vec::new();
        let mut i: usize = 0;
        while i < codes.len()
            invariant
                i <= codes@.len(),
                r@.len() == i,
                forall|j: int| 0 <= j < i ==> (#[trigger] r@[j]).code == codes@[j],
            decreases codes@.len() - i,
        {
            r.push(Key { code: codes[i] });
            i = i + 1;
        }
        proof {
            assert forall|a: int, b: int| 0 <= a < r@.len() && 0 <= b < r@.len() && a != b implies r@[a]
                != r@[b] by {
                assert(codes@[a] != codes@[b]);
            }
            assert forall|k: Key|
                r@.contains(k) <==> self@.keys.contains_key(k.code) && self@.keys[k.code]
                    == ButtonState::Down by {
                if r@.contains(k) {
                    let j = r@.index_of(k);
                    assert(codes@[j] == k.code);
                    assert(codes@.contains(k.code));
                }
                if codes@.contains(k.code) {
                    let j = codes@.index_of(k.code);
                    assert(r@[j] == k);
                }
            }
        }
        r
    }

    /// Whether `key` is held down.
    pub fn key_down(&self, key: Key) -> (r: bool)
        requires
            self.wf(),
        ensures
            r == (self@.keys.contains_key(key.code) && self@.keys[key.code] == ButtonState::Down),
    {
        match self.key_states.get(key.code) {
            Some(s) => s == ButtonState::Down,
            None => false,
        }
    }

    /// Whether `key` went down since the poll before the last.
    pub fn key_pressed(&self, key: Key) -> (r: bool)
        requires
            self.wf(),
        ensures
            r == (self@.keys.contains_key(key.code) && self@.keys[key.code]
                == ButtonState::Pressed),
    {
        match self.key_states.get(key.code) {
            Some(s) => s == ButtonState::Pressed,
            None => false,
        }
    }

    /// Whether `key` came up since the poll before the last.
    pub fn key_released(&self, key: Key) -> (r: bool)
        requires
            self.wf(),
        ensures
            r == (self@.keys.contains_key(key.code) && self@.keys[key.code]
                == ButtonState::Released),
    {
        match self.key_states.get(key.code) {
            Some(s) => s == ButtonState::Released,
            None => false,
        }
    }

    /// Whether `key` is the key that the last poll reported pressed, be it
    /// for the first time or as a repeat.
    pub fn key_rpressed(&self, key: Key) -> (r: bool)
        ensures
            r == (self@.rpressed_key == Some(key)),
    {
        match self.rpressed_key {
            Some(k) => k == key,
            None => false,
        }
    }

    /// The key that the last poll reported pressed, if it reported one.
    pub fn rpressed_key(&self) -> (r: Option<Key>)
        ensures
            r == self@.rpressed_key,
    {
        self.rpressed_key
    }

    /// The text that was typed since the poll before the last, if any was.
    pub fn text_input(&self) -> (r: Option<String>)
        ensures
            text_view(r) == self@.text_input,
    {
        match &self.text_input {
            Some(t) => Some(t.clone()),
            None => None,
        }
    }

    /// Whether the button `mouse` is held down.
    pub fn mouse_down(&self, mouse: Mouse) -> (r: bool)
        requires
            self.wf(),
        ensures
            r == (self@.buttons.contains_key(mouse.spec_code()) && self@.buttons[mouse.spec_code()]
                == ButtonState::Down),
    {
        match self.mouse_states.get(mouse.code()) {
            Some(s) => s == ButtonState::Down,
            None => false,
        }
    }

    /// Whether the button `mouse` went down since the poll before the last.
    pub fn mouse_pressed(&self, mouse: Mouse) -> (r: bool)
        requires
            self.wf(),
        ensures
            r == (self@.buttons.contains_key(mouse.spec_code()) && self@.buttons[mouse.spec_code()]
                == ButtonState::Pressed),
    {
        match self.mouse_states.get(mouse.code()) {
            Some(s) => s == ButtonState::Pressed,
            None => false,
        }
    }

    /// Whether the button `mouse` came up since the poll before the last.
    pub fn mouse_released(&self, mouse: Mouse) -> (r: bool)
        requires
            self.wf(),
        ensures
            r == (self@.buttons.contains_key(mouse.spec_code()) && self@.buttons[mouse.spec_code()]
                == ButtonState::Released),
    {
        match self.mouse_states.get(mouse.code()) {
            Some(s) => s == ButtonState::Released,
            None => false,
        }
    }

    /// Where the pointer is.
    pub fn mouse_pos(&self) -> (r: MousePos)
        ensures
            r == self@.mouse_pos,
    {
        self.mouse_pos
    }

    /// How far the pointer moved since the poll before the last, if it did.
    pub fn mouse_delta(&self) -> (r: Option<MouseDelta>)
        ensures
            r == self@.mouse_delta,
    {
        self.mouse_delta
    }

    /// How far the wheel turned since the poll before the last, if it did.
    pub fn scroll_delta(&self) -> (r: Option<ScrollDelta>)
        ensures
            r == self@.scroll_delta,
    {
        self.scroll_delta
    }

    /// The window's new size, if the last poll brought one.
    pub fn resized(&self) -> (r: Option<Size>)
        ensures
            r == self@.resized,
    {
        self.resized
    }

    /// Caps the frame rate at `cap` frames a second.
    pub fn cap_fps(&mut self, cap: u32)
        ensures
            final(self)@ == (WindowView { fps_cap: cap, ..old(self)@ }),
            final(self).wf() == old(self).wf(),
    {
        self.fps_cap = cap;
    }

    /// The cap of the frame rate, in frames a second.
    pub fn fps_cap(&self) -> (cap: u32)
        ensures
            cap == self@.fps_cap,
    {
        self.fps_cap
    }

    /// Notes that the frame loop runs.
    pub fn start(&mut self)
        ensures
            final(self)@ == (WindowView { running: true, ..old(self)@ }),
            final(self).wf() == old(self).wf(),
    {
        self.running = true;
    }

    /// Asks the frame loop to stop after the running frame.
    pub fn quit(&mut self)
        ensures
            final(self)@ == (WindowView { running: false, ..old(self)@ }),
            final(self).wf() == old(self).wf(),
    {
        self.running = false;
    }

    /// Whether the frame loop is to go on.
    pub fn is_running(&self) -> (b: bool)
        ensures
            b == self@.running,
    {
        self.running
    }
}

} // verus!
