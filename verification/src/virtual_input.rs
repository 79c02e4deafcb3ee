use vstd::prelude::*;

verus! {

/// Event type number of a synchronization report on the virtual device.
pub const EV_SYN: u32 = 0;

/// Event type number of a key event on the virtual device.
pub const EV_KEY: u32 = 1;

/// Code of the synchronization report that follows every key event.
pub const SYN_REPORT: u32 = 0;

/// The keys the virtual keyboard can press.
#[derive(Debug, PartialEq, Eq, Structural, Clone, Copy)]
pub enum Key {
    A,
    B,
    C,
    D,
    E,
    F,
    G,
    H,
    I,
    J,
    K,
    L,
    M,
    N,
    O,
    P,
    Q,
    R,
    S,
    T,
    U,
    V,
    W,
    X,
    Y,
    Z,
    One,
    Two,
    Three,
    Four,
    Five,
    Six,
    Seven,
    Eight,
    Nine,
    Zero,
    F1,
    F2,
    F3,
    F4,
    F5,
    F6,
    F7,
    F8,
    F9,
    F10,
    F11,
    F12,
    LeftControl,
    LeftShift,
    LeftAlt,
    LeftMeta,
    RightControl,
    RightShift,
    RightAlt,
    RightMeta,
    Space,
    Tab,
    Enter,
    CapsLock,
    PageUp,
    PageDown,
    LeftArrow,
    RightArrow,
    UpArrow,
    DownArrow,
    Slash,
    Backslash,
    Backspace,
    Comma,
    Period,
    Semicolon,
    Apostrophe,
    Minus,
    Equals,
    Backquote,
    Escape,
}

/// The platform key code each key is written with.
pub open spec fn key_code(k: Key) -> u32 {
    match k {
        Key::A => 30,
        Key::B => 48,
        Key::C => 46,
        Key::D => 32,
        Key::E => 18,
        Key::F => 33,
        Key::G => 34,
        Key::H => 35,
        Key::I => 23,
        Key::J => 36,
        Key::K => 37,
        Key::L => 38,
        Key::M => 50,
        Key::N => 49,
        Key::O => 24,
        Key::P => 25,
        Key::Q => 16,
        Key::R => 19,
        Key::S => 31,
        Key::T => 20,
        Key::U => 22,
        Key::V => 47,
        Key::W => 17,
        Key::X => 45,
        Key::Y => 21,
        Key::Z => 44,
        Key::One => 2,
        Key::Two => 3,
        Key::Three => 4,
        Key::Four => 5,
        Key::Five => 6,
        Key::Six => 7,
        Key::Seven => 8,
        Key::Eight => 9,
        Key::Nine => 10,
        Key::Zero => 11,
        Key::F1 => 59,
        Key::F2 => 60,
        Key::F3 => 61,
        Key::F4 => 62,
        Key::F5 => 63,
        Key::F6 => 64,
        Key::F7 => 65,
        Key::F8 => 66,
        Key::F9 => 67,
        Key::F10 => 68,
        Key::F11 => 87,
        Key::F12 => 88,
        Key::LeftControl => 29,
        Key::LeftShift => 42,
        Key::LeftAlt => 56,
        Key::LeftMeta => 125,
        Key::RightControl => 97,
        Key::RightShift => 54,
        Key::RightAlt => 100,
        Key::RightMeta => 126,
        Key::Space => 57,
        Key::Tab => 15,
        Key::Enter => 28,
        Key::CapsLock => 58,
        Key::PageUp => 104,
        Key::PageDown => 109,
        Key::LeftArrow => 105,
        Key::RightArrow => 106,
        Key::UpArrow => 103,
        Key::DownArrow => 108,
        Key::Slash => 53,
        Key::Backslash => 43,
        Key::Backspace => 14,
        Key::Comma => 51,
        Key::Period => 52,
        Key::Semicolon => 39,
        Key::Apostrophe => 40,
        Key::Minus => 12,
        Key::Equals => 13,
        Key::Backquote => 41,
        Key::Escape => 1,
    }
}

impl Key {
    /// The platform key code of this key.
    pub fn code(self) -> (r: u32)
        ensures
            r == key_code(self),
    {
        match self {
            Key::A => 30,
            Key::B => 48,
            Key::C => 46,
            Key::D => 32,
            Key::E => 18,
            Key::F => 33,
            Key::G => 34,
            Key::H => 35,
            Key::I => 23,
            Key::J => 36,
            Key::K => 37,
            Key::L => 38,
            Key::M => 50,
            Key::N => 49,
            Key::O => 24,
            Key::P => 25,
            Key::Q => 16,
            Key::R => 19,
            Key::S => 31,
            Key::T => 20,
            Key::U => 22,
            Key::V => 47,
            Key::W => 17,
            Key::X => 45,
            Key::Y => 21,
            Key::Z => 44,
            Key::One => 2,
            Key::Two => 3,
            Key::Three => 4,
            Key::Four => 5,
            Key::Five => 6,
            Key::Six => 7,
            Key::Seven => 8,
            Key::Eight => 9,
            Key::Nine => 10,
            Key::Zero => 11,
            Key::F1 => 59,
            Key::F2 => 60,
            Key::F3 => 61,
            Key::F4 => 62,
            Key::F5 => 63,
            Key::F6 => 64,
            Key::F7 => 65,
            Key::F8 => 66,
            Key::F9 => 67,
            Key::F10 => 68,
            Key::F11 => 87,
            Key::F12 => 88,
            Key::LeftControl => 29,
            Key::LeftShift => 42,
            Key::LeftAlt => 56,
            Key::LeftMeta => 125,
            Key::RightControl => 97,
            Key::RightShift => 54,
            Key::RightAlt => 100,
            Key::RightMeta => 126,
            Key::Space => 57,
            Key::Tab => 15,
            Key::Enter => 28,
            Key::CapsLock => 58,
            Key::PageUp => 104,
            Key::PageDown => 109,
            Key::LeftArrow => 105,
            Key::RightArrow => 106,
            Key::UpArrow => 103,
            Key::DownArrow => 108,
            Key::Slash => 53,
            Key::Backslash => 43,
            Key::Backspace => 14,
            Key::Comma => 51,
            Key::Period => 52,
            Key::Semicolon => 39,
            Key::Apostrophe => 40,
            Key::Minus => 12,
            Key::Equals => 13,
            Key::Backquote => 41,
            Key::Escape => 1,
        }
    }
}

/// One record to write to the virtual device: event type, code, value.
#[derive(Debug, PartialEq, Eq, Structural, Clone, Copy)]
pub struct UinputEvent {
    pub event_type: u32,
    pub code: u32,
    pub value: i32,
}

/// The key event for pressing (value one) or releasing (value zero) a key.
pub open spec fn key_event(k: Key, pressed: bool) -> UinputEvent {
    UinputEvent { event_type: EV_KEY, code: key_code(k), value: if pressed { 1 } else { 0 } }
}

/// The synchronization report written after every key event.
pub open spec fn syn_event() -> UinputEvent {
    UinputEvent { event_type: EV_SYN, code: SYN_REPORT, value: 0 }
}

/// The records written for one pass over the keys: each key event,
/// followed by its synchronization report, in key order.
pub open spec fn press_release_events(keys: Seq<Key>, pressed: bool) -> Seq<UinputEvent>
    decreases keys.len(),
{
    if keys.len() == 0 {
        Seq::empty()
    } else {
        seq![key_event(keys.first(), pressed), syn_event()] + press_release_events(
            keys.drop_first(),
            pressed,
        )
    }
}

/// One more key at the back appends its two records at the back.
pub proof fn lemma_press_release_snoc(keys: Seq<Key>, k: Key, pressed: bool)
    ensures
        press_release_events(keys.push(k), pressed) == press_release_events(keys, pressed)
            + seq![key_event(k, pressed), syn_event()],
    decreases keys.len(),
{
    if keys.len() == 0 {
        assert(keys.push(k).first() == k);
        assert(keys.push(k).drop_first() =~= keys);
        assert(press_release_events(keys.push(k), pressed) =~= press_release_events(keys, pressed)
            + seq![key_event(k, pressed), syn_event()]);
    } else {
        assert(keys.push(k).first() == keys.first());
        assert(keys.push(k).drop_first() =~= keys.drop_first().push(k));
        lemma_press_release_snoc(keys.drop_first(), k, pressed);
        assert(press_release_events(keys.push(k), pressed) =~= press_release_events(keys, pressed)
            + seq![key_event(k, pressed), syn_event()]);
    }
}

/// A virtual keyboard. It computes the exact record sequences to feed the
/// kernel's virtual-device queue; the open device itself lives with the
/// host, which writes what these methods return.
pub struct VirtualInput {
    pub virtual_device_name: String,
}

impl VirtualInput {
    /// A virtual keyboard under the given device name.
    pub fn new(device_name: &str) -> (r: VirtualInput)
        ensures
            r.virtual_device_name@ == device_name@,
    {
        VirtualInput { virtual_device_name: device_name.to_owned() }
    }

    /// One pass over the keys: presses them all when `pressed`, releases
    /// them all otherwise, each key event followed by its
    /// synchronization report.
    pub fn press_release(&mut self, keys: &[Key], pressed: bool) -> (r: Vec<UinputEvent>)
        ensures
            *final(self) == *old(self),
            r@ == press_release_events(keys@, pressed),
    {
        let mut r: Vec<UinputEvent> = Vec::new();
        let mut i: usize = 0;
        proof {
            assert(keys@.take(0) =~= Seq::<Key>::empty());
        }
        while i < keys.len()
            invariant
                i <= keys@.len(),
                r@ == press_release_events(keys@.take(i as int), pressed),
            decreases keys@.len() - i,
        {
            proof {
                assert(keys@.take(i as int + 1) =~= keys@.take(i as int).push(keys@[i as int]));
                lemma_press_release_snoc(keys@.take(i as int), keys@[i as int], pressed);
            }
            let key = keys[i];
            let value: i32 = if pressed {
                1
            } else {
                0
            };
            r.push(UinputEvent { event_type: EV_KEY, code: key.code(), value });
            r.push(UinputEvent { event_type: EV_SYN, code: SYN_REPORT, value: 0 });
            proof {
                assert(r@ =~= press_release_events(keys@.take(i as int), pressed) + seq![
                    key_event(keys@[i as int], pressed),
                    syn_event(),
                ]);
            }
            i = i + 1;
        }
        proof {
            assert(keys@.take(keys@.len() as int) =~= keys@);
        }
        r
    }

    /// Presses and then releases the keys: the press pass over all keys,
    /// followed by the release pass. The release pass is emitted whatever
    /// the flag says, so a pressed key is never left hanging.
    pub fn press(&mut self, keys: &[Key], release: bool) -> (r: Vec<UinputEvent>)
        ensures
            *final(self) == *old(self),
            r@ == press_release_events(keys@, true) + press_release_events(keys@, false),
    {
        let _ = release;
        let mut r = self.press_release(keys, true);
        let mut rel = self.press_release(keys, false);
        r.append(&mut rel);
        r
    }

    /// Releases the keys: one release pass.
    pub fn release(&mut self, keys: &[Key]) -> (r: Vec<UinputEvent>)
        ensures
            *final(self) == *old(self),
            r@ == press_release_events(keys@, false),
    {
        self.press_release(keys, false)
    }
}

} // verus!

