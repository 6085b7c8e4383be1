use vstd::prelude::*;

verus! {

/// A key of the keyboard.
#[derive(Clone, Copy, Debug, PartialEq, Eq, Structural)]
pub enum Key {
    Escape,
    F1,
    F2,
    F3,
    F4,
    F5,
    F6,
    F7,
    F8,
    F9,
    F10,
    F11,
    F12,
    Backquote,
    LeftParen,
    RightParen,
    Key1,
    Key2,
    Key3,
    Key4,
    Key5,
    Key6,
    Key7,
    Key8,
    Key9,
    Key0,
    Hyphen,
    Underscore,
    Equals,
    Plus,
    Tab,
    Q,
    W,
    E,
    R,
    T,
    Y,
    U,
    I,
    O,
    P,
    A,
    S,
    D,
    F,
    G,
    H,
    J,
    K,
    L,
    Z,
    X,
    C,
    V,
    B,
    N,
    M,
    LeftSquare,
    RightSquare,
    LeftBracket,
    RightBracket,
    CapsLock,
    Colon,
    Semicolon,
    Apostrophe,
    At,
    Hash,
    Tilde,
    Pipe,
    Backslash,
    LeftAngle,
    RightAngle,
    Period,
    Comma,
    Slash,
    Question,
    LeftShift,
    RightShift,
    LeftControl,
    RightControl,
    LeftSuper,
    RightSuper,
    LeftAlt,
    RightAlt,
    Up,
    Down,
    Left,
    Right,
    Space,
}

/// `c` with an ASCII upper-case letter turned into its lower-case form.
pub open spec fn ascii_lower(c: char) -> char {
    if 'A' <= c && c <= 'Z' {
        ((c as u32) + 32) as char
    } else {
        c
    }
}

/// The key that types the lower-case character `c`, if any.
pub open spec fn key_for(c: char) -> Option<Key> {
    match c {
        '`' => Some(Key::Backquote),
        '(' => Some(Key::LeftParen),
        ')' => Some(Key::RightParen),
        '1' => Some(Key::Key1),
        '2' => Some(Key::Key2),
        '3' => Some(Key::Key3),
        '4' => Some(Key::Key4),
        '5' => Some(Key::Key5),
        '6' => Some(Key::Key6),
        '7' => Some(Key::Key7),
        '8' => Some(Key::Key8),
        '9' => Some(Key::Key9),
        '0' => Some(Key::Key0),
        '-' => Some(Key::Hyphen),
        '_' => Some(Key::Underscore),
        '=' => Some(Key::Equals),
        '+' => Some(Key::Plus),
        '\t' => Some(Key::Tab),
        'q' => Some(Key::Q),
        'w' => Some(Key::W),
        'e' => Some(Key::E),
        'r' => Some(Key::R),
        't' => Some(Key::T),
        'y' => Some(Key::Y),
        'u' => Some(Key::U),
        'i' => Some(Key::I),
        'o' => Some(Key::O),
        'p' => Some(Key::P),
        'a' => Some(Key::A),
        's' => Some(Key::S),
        'd' => Some(Key::D),
        'f' => Some(Key::F),
        'g' => Some(Key::G),
        'h' => Some(Key::H),
        'j' => Some(Key::J),
        'k' => Some(Key::K),
        'l' => Some(Key::L),
        'z' => Some(Key::Z),
        'x' => Some(Key::X),
        'c' => Some(Key::C),
        'v' => Some(Key::V),
        'b' => Some(Key::B),
        'n' => Some(Key::N),
        'm' => Some(Key::M),
        '[' => Some(Key::LeftSquare),
        ']' => Some(Key::RightSquare),
        '{' => Some(Key::LeftBracket),
        '}' => Some(Key::RightBracket),
        ':' => Some(Key::Colon),
        ';' => Some(Key::Semicolon),
        '\'' => Some(Key::Apostrophe),
        '@' => Some(Key::At),
        '#' => Some(Key::Hash),
        '~' => Some(Key::Tilde),
        '|' => Some(Key::Pipe),
        '\\' => Some(Key::Backslash),
        '<' => Some(Key::LeftAngle),
        '>' => Some(Key::RightAngle),
        '.' => Some(Key::Period),
        ',' => Some(Key::Comma),
        '/' => Some(Key::Slash),
        '?' => Some(Key::Question),
        ' ' => Some(Key::Space),
        _ => None,
    }
}

/// Relies on `char::to_ascii_lowercase`: ASCII letters 'A' to 'Z' become 'a' to
/// 'z', and every other character stays as it is.
pub assume_specification[ char::to_ascii_lowercase ](c: &char) -> (r: char)
    ensures
        r == ascii_lower(*c),
;

impl Key {
    /// The key that types `c`, letters of either case giving the same key.
    pub fn from_char(c: char) -> (r: Option<Self>)
        ensures
            r == key_for(ascii_lower(c)),
    {
        match c.to_ascii_lowercase() {
            '`' => Some(Key::Backquote),
            '(' => Some(Key::LeftParen),
            ')' => Some(Key::RightParen),
            '1' => Some(Key::Key1),
            '2' => Some(Key::Key2),
            '3' => Some(Key::Key3),
            '4' => Some(Key::Key4),
            '5' => Some(Key::Key5),
            '6' => Some(Key::Key6),
            '7' => Some(Key::Key7),
            '8' => Some(Key::Key8),
            '9' => Some(Key::Key9),
            '0' => Some(Key::Key0),
            '-' => Some(Key::Hyphen),
            '_' => Some(Key::Underscore),
            '=' => Some(Key::Equals),
            '+' => Some(Key::Plus),
            '\t' => Some(Key::Tab),
            'q' => Some(Key::Q),
            'w' => Some(Key::W),
            'e' => Some(Key::E),
            'r' => Some(Key::R),
            't' => Some(Key::T),
            'y' => Some(Key::Y),
            'u' => Some(Key::U),
            'i' => Some(Key::I),
            'o' => Some(Key::O),
            'p' => Some(Key::P),
            'a' => Some(Key::A),
            's' => Some(Key::S),
            'd' => Some(Key::D),
            'f' => Some(Key::F),
            'g' => Some(Key::G),
            'h' => Some(Key::H),
            'j' => Some(Key::J),
            'k' => Some(Key::K),
            'l' => Some(Key::L),
            'z' => Some(Key::Z),
            'x' => Some(Key::X),
            'c' => Some(Key::C),
            'v' => Some(Key::V),
            'b' => Some(Key::B),
            'n' => Some(Key::N),
            'm' => Some(Key::M),
            '[' => Some(Key::LeftSquare),
            ']' => Some(Key::RightSquare),
            '{' => Some(Key::LeftBracket),
            '}' => Some(Key::RightBracket),
            ':' => Some(Key::Colon),
            ';' => Some(Key::Semicolon),
            '\'' => Some(Key::Apostrophe),
            '@' => Some(Key::At),
            '#' => Some(Key::Hash),
            '~' => Some(Key::Tilde),
            '|' => Some(Key::Pipe),
            '\\' => Some(Key::Backslash),
            '<' => Some(Key::LeftAngle),
            '>' => Some(Key::RightAngle),
            '.' => Some(Key::Period),
            ',' => Some(Key::Comma),
            '/' => Some(Key::Slash),
            '?' => Some(Key::Question),
            ' ' => Some(Key::Space),
            _ => None,
        }
    }
}

/// A change of a key's state.
#[derive(Clone, Copy, Debug, PartialEq, Eq, Structural)]
pub enum Event {
    KeyPress(Key),
    KeyRelease(Key),
}

/// No key is listed twice.
pub open spec fn no_repeats(keys: Seq<Key>) -> bool {
    forall|i: int, j: int| 0 <= i < j < keys.len() ==> keys[i] != keys[j]
}

/// The keys held down after `event`, from the keys `down` held before it.
pub open spec fn after_event(down: Seq<Key>, event: Event) -> Seq<Key> {
    match event {
        Event::KeyPress(k) => if down.contains(k) {
            down
        } else {
            down.push(k)
        },
        Event::KeyRelease(k) => without(down, k),
    }
}

/// `keys` with the first occurrence of `k` taken out, if there is one.
pub open spec fn without(keys: Seq<Key>, k: Key) -> Seq<Key>
    decreases keys.len(),
{
    if keys.len() == 0 {
        keys
    } else if keys[0] == k {
        keys.drop_first()
    } else {
        seq![keys[0]] + without(keys.drop_first(), k)
    }
}

proof fn lemma_without_at(keys: Seq<Key>, k: Key, i: int)
    requires
        0 <= i <= keys.len(),
        forall|j: int| 0 <= j < i ==> keys[j] != k,
        i < keys.len() ==> keys[i] == k,
    ensures
        without(keys, k) == (if i < keys.len() {
            keys.remove(i)
        } else {
            keys
        }),
    decreases keys.len(),
{
    if keys.len() > 0 && keys[0] != k {
        let rest = keys.drop_first();
        assert forall|j: int| 0 <= j < i - 1 implies rest[j] != k by {
            assert(rest[j] == keys[j + 1]);
        }
        lemma_without_at(rest, k, i - 1);
        if i < keys.len() {
            assert(seq![keys[0]] + rest.remove(i - 1) =~= keys.remove(i));
        } else {
            assert(seq![keys[0]] + rest =~= keys);
        }
    } else if keys.len() > 0 {
        assert(keys.drop_first() =~= keys.remove(0));
    }
}

/// The keys that are held down, in the order in which they went down.
#[derive(Debug)]
pub struct Window {
    down: Vec<Key>,
}

impl Window {
    /// The keys held down, in the order in which they went down.
    pub closed spec fn down(&self) -> Seq<Key> {
        self.down@
    }

    /// No key is listed twice.
    pub open spec fn wf(&self) -> bool {
        no_repeats(self.down())
    }

    /// A window with no key held down.
    pub fn new() -> (r: Self)
        ensures
            r.wf(),
            r.down() == Seq::<Key>::empty(),
    {
        Window { down: Vec::new() }
    }

    /// Whether `key` is held down.
    pub fn is_down(&self, key: Key) -> (r: bool)
        ensures
            r == self.down().contains(key),
    {
        let mut i: usize = 0;
        while i < self.down.len()
            invariant
                0 <= i <= self.down@.len(),
                forall|j: int| 0 <= j < i ==> self.down@[j] != key,
            decreases self.down@.len() - i,
        {
            if self.down[i] == key {
                return true;
            }
            i = i + 1;
        }
        false
    }

    /// Applies `event`: a pressed key is added once, at the end; a released key
    /// is taken out.
    pub fn submit(&mut self, event: Event)
        requires
            old(self).wf(),
        ensures
            final(self).wf(),
            final(self).down() == after_event(old(self).down(), event),
    {
        match event {
            Event::KeyPress(key) => {
                if !self.is_down(key) {
                    self.down.push(key);
                    proof {
                        assert forall|i: int, j: int|
                            0 <= i < j < self.down@.len() implies self.down@[i] != self.down@[j] by {
                            if j == self.down@.len() - 1 {
                                assert(!old(self).down@.contains(key));
                                assert(self.down@[i] == old(self).down@[i]);
                            }
                        }
                    }
                }
            },
            Event::KeyRelease(key) => {
                let mut i: usize = 0;
                while i < self.down.len() && self.down[i] != key
                    invariant
                        0 <= i <= self.down@.len(),
                        self.down@ == old(self).down@,
                        forall|j: int| 0 <= j < i ==> self.down@[j] != key,
                    decreases self.down@.len() - i,
                {
                    i = i + 1;
                }
                proof {
                    lemma_without_at(self.down@, key, i as int);
                }
                if i < self.down.len() {
                    self.down.remove(i);
                    proof {
                        let before = old(self).down@;
                        assert forall|a: int, b: int|
                            0 <= a < b < self.down@.len() implies self.down@[a] != self.down@[b] by {
                            let a2 = if a < i { a } else { a + 1 };
                            let b2 = if b < i { b } else { b + 1 };
                            assert(self.down@[a] == before[a2]);
                            assert(self.down@[b] == before[b2]);
                        }
                    }
                }
            },
        }
    }
}

} // verus!
