//! Key bindings: which key press stands for which user intent.

use vstd::prelude::*;

verus! {

/// What the user asks for with a bound key.
#[derive(Clone, Copy, Debug, PartialEq, Eq, Structural)]
pub enum Intent {
    EnterCommandMode,
    Cancel,
    Help,
    NextPane,
    PreviousPane,
    Activate,
    MoveUp,
    MoveDown,
    MoveLeft,
    MoveRight,
    Search,
}

/// A key that a binding can name.
#[derive(Clone, Copy, Debug, PartialEq, Eq, Structural)]
pub enum Key {
    Char(char),
    Esc,
    Enter,
    Tab,
    BackTab,
    Up,
    Down,
    Left,
    Right,
}

/// The key of a key press, as the terminal reports it.
#[derive(Clone, Copy, Debug, PartialEq, Eq, Structural)]
pub enum KeyCode {
    Char(char),
    Esc,
    Enter,
    Tab,
    BackTab,
    Up,
    Down,
    Left,
    Right,
    Backspace,
    PageUp,
    PageDown,
    F(u8),
    Other,
}

/// The modifier keys held during a key press, one bit each: Shift, Control,
/// Alt, Super, Hyper and Meta, from the lowest bit up.
#[derive(Clone, Copy, Debug, PartialEq, Eq, Structural)]
pub struct Modifiers {
    pub bits: u8,
}

/// The bit of the Shift key.
pub const SHIFT_BIT: u8 = 1;

/// The bit of the Control key.
pub const CONTROL_BIT: u8 = 2;

/// The bit of the Alt key.
pub const ALT_BIT: u8 = 4;

impl Modifiers {
    /// No modifier held.
    pub fn none() -> (m: Modifiers)
        ensures
            m.bits == 0,
    {
        Modifiers { bits: 0 }
    }

    /// Shift alone.
    pub fn shift() -> (m: Modifiers)
        ensures
            m.bits == SHIFT_BIT,
    {
        Modifiers { bits: SHIFT_BIT }
    }

    /// Control alone.
    pub fn control() -> (m: Modifiers)
        ensures
            m.bits == CONTROL_BIT,
    {
        Modifiers { bits: CONTROL_BIT }
    }

    /// Alt alone.
    pub fn alt() -> (m: Modifiers)
        ensures
            m.bits == ALT_BIT,
    {
        Modifiers { bits: ALT_BIT }
    }

    /// The same modifiers with Shift released.
    pub open spec fn without_shift_spec(self) -> Modifiers {
        Modifiers { bits: self.bits & 0xfe }
    }
}

/// A key press.
#[derive(Clone, Copy, Debug, PartialEq, Eq, Structural)]
pub struct KeyEvent {
    pub code: KeyCode,
    pub modifiers: Modifiers,
}

impl KeyEvent {
    /// A press of `code` with `modifiers` held.
    pub fn new(code: KeyCode, modifiers: Modifiers) -> (e: KeyEvent)
        ensures
            e.code == code,
            e.modifiers == modifiers,
    {
        KeyEvent { code, modifiers }
    }
}

/// A key together with the modifiers that must be held.
#[derive(Clone, Copy, Debug, PartialEq, Eq, Structural)]
pub struct KeyPattern {
    pub key: Key,
    pub modifiers: Modifiers,
}

/// A pattern bound to an intent, with its label and description for the
/// footer and the help.
#[derive(Clone, Copy, Debug)]
pub struct KeyBinding {
    pub pattern: KeyPattern,
    pub intent: Intent,
    pub label: &'static str,
    pub description: &'static str,
}

/// Whether the terminal key `actual` is the key `expected`.
pub open spec fn key_matches_spec(expected: Key, actual: KeyCode) -> bool {
    match (expected, actual) {
        (Key::Char(e), KeyCode::Char(a)) => e == a,
        (Key::Esc, KeyCode::Esc) => true,
        (Key::Enter, KeyCode::Enter) => true,
        (Key::Tab, KeyCode::Tab) => true,
        (Key::BackTab, KeyCode::BackTab) => true,
        (Key::Up, KeyCode::Up) => true,
        (Key::Down, KeyCode::Down) => true,
        (Key::Left, KeyCode::Left) => true,
        (Key::Right, KeyCode::Right) => true,
        _ => false,
    }
}

/// A pattern matches a key press when the key is the same and the modifiers
/// are the same once Shift is set aside (Shift is part of the character).
pub open spec fn pattern_matches(p: KeyPattern, e: KeyEvent) -> bool {
    key_matches_spec(p.key, e.code) && e.modifiers.without_shift_spec() == p.modifiers
}

/// The intent of the first binding in `bs` whose pattern matches `e`.
pub open spec fn first_intent(bs: Seq<KeyBinding>, e: KeyEvent) -> Option<Intent>
    decreases bs.len(),
{
    if bs.len() == 0 {
        None
    } else if pattern_matches(bs[0].pattern, e) {
        Some(bs[0].intent)
    } else {
        first_intent(bs.drop_first(), e)
    }
}

/// The bindings of `bs` whose pattern is not `p`, in order.
pub open spec fn without_pattern(bs: Seq<KeyBinding>, p: KeyPattern) -> Seq<KeyBinding> {
    bs.filter(|b: KeyBinding| b.pattern != p)
}

/// A binding of `key` with `modifiers` to `intent`.
pub open spec fn binding_spec(
    key: Key,
    modifiers: Modifiers,
    intent: Intent,
    label: &'static str,
    description: &'static str,
) -> KeyBinding {
    KeyBinding { pattern: KeyPattern { key, modifiers }, intent, label, description }
}

/// The bindings that every screen of the interface shares, in the order the
/// footer and the help list them.
pub open spec fn common_bindings() -> Seq<KeyBinding> {
    let none = Modifiers { bits: 0 };
    seq![
        binding_spec(Key::Char(':'), none, Intent::EnterCommandMode, ":", "command mode"),
        binding_spec(Key::Esc, none, Intent::Cancel, "Esc", "cancel transient UI"),
        binding_spec(Key::Char('?'), none, Intent::Help, "?", "help"),
        binding_spec(Key::Tab, none, Intent::NextPane, "Tab", "next pane"),
        binding_spec(Key::BackTab, none, Intent::PreviousPane, "Shift-Tab", "previous pane"),
        binding_spec(Key::Enter, none, Intent::Activate, "Enter", "activate"),
        binding_spec(Key::Up, none, Intent::MoveUp, "Up", "move up"),
        binding_spec(Key::Down, none, Intent::MoveDown, "Down", "move down"),
        binding_spec(Key::Left, none, Intent::MoveLeft, "Left", "move left"),
        binding_spec(Key::Right, none, Intent::MoveRight, "Right", "move right"),
        binding_spec(Key::Char('/'), none, Intent::Search, "/", "search"),
    ]
}

/// An ordered list of key bindings; the first one that matches a key press
/// decides its intent.
#[derive(Clone, Debug)]
pub struct Keymap {
    pub bindings: Vec<KeyBinding>,
}

impl Default for Keymap {
    fn default() -> (k: Keymap)
        ensures
            k.bindings@ == common_bindings(),
    {
        Keymap::common()
    }
}

/// A binding of `key` with `modifiers` to `intent`.
pub fn binding(
    key: Key,
    modifiers: Modifiers,
    intent: Intent,
    label: &'static str,
    description: &'static str,
) -> (b: KeyBinding)
    ensures
        b == binding_spec(key, modifiers, intent, label, description),
{
    KeyBinding { pattern: KeyPattern { key, modifiers }, intent, label, description }
}

impl Keymap {
    /// The common bindings.
    pub fn common() -> (k: Keymap)
        ensures
            k.bindings@ == common_bindings(),
    {
        let none = Modifiers::none();
        let bindings = vec![
            binding(Key::Char(':'), none, Intent::EnterCommandMode, ":", "command mode"),
            binding(Key::Esc, none, Intent::Cancel, "Esc", "cancel transient UI"),
            binding(Key::Char('?'), none, Intent::Help, "?", "help"),
            binding(Key::Tab, none, Intent::NextPane, "Tab", "next pane"),
            binding(Key::BackTab, none, Intent::PreviousPane, "Shift-Tab", "previous pane"),
            binding(Key::Enter, none, Intent::Activate, "Enter", "activate"),
            binding(Key::Up, none, Intent::MoveUp, "Up", "move up"),
            binding(Key::Down, none, Intent::MoveDown, "Down", "move down"),
            binding(Key::Left, none, Intent::MoveLeft, "Left", "move left"),
            binding(Key::Right, none, Intent::MoveRight, "Right", "move right"),
            binding(Key::Char('/'), none, Intent::Search, "/", "search"),
        ];
        assert(bindings@ =~= common_bindings());
        Keymap { bindings }
    }

    /// The keymap with `binding` in place of any binding of the same pattern,
    /// placed last.
    pub fn with_binding(self, binding: KeyBinding) -> (k: Keymap)
        ensures
            k.bindings@ == without_pattern(self.bindings@, binding.pattern).push(binding),
    {
        let mut k = self.without_key(binding.pattern);
        k.bindings.push(binding);
        k
    }

    /// The keymap without the bindings of `pattern`.
    pub fn without_key(self, pattern: KeyPattern) -> (k: Keymap)
        ensures
            k.bindings@ == without_pattern(self.bindings@, pattern),
    {
        let mut kept: Vec<KeyBinding> = Vec::new();
        let mut i: usize = 0;
        while i < self.bindings.len()
            invariant
                i <= self.bindings@.len(),
                kept@ == without_pattern(self.bindings@.take(i as int), pattern),
            decreases self.bindings@.len() - i,
        {
            let b = self.bindings[i];
            proof {
                let s = self.bindings@;
                assert(s.take(i + 1) =~= s.take(i as int).push(s[i as int]));
                s.take(i as int).lemma_filter_push(
                    s[i as int],
                    |b: KeyBinding| b.pattern != pattern,
                );
            }
            if b.pattern != pattern {
                kept.push(b);
            }
            i = i + 1;
        }
        assert(self.bindings@.take(i as int) =~= self.bindings@);
        Keymap { bindings: kept }
    }

    /// The intent of the first binding that matches `key`, if any.
    pub fn intent_for(&self, key: KeyEvent) -> (r: Option<Intent>)
        ensures
            r == first_intent(self.bindings@, key),
    {
        let mut i: usize = 0;
        assert(self.bindings@.skip(0) =~= self.bindings@);
        while i < self.bindings.len()
            invariant
                i <= self.bindings@.len(),
                first_intent(self.bindings@, key) == first_intent(
                    self.bindings@.skip(i as int),
                    key,
                ),
            decreases self.bindings@.len() - i,
        {
            let b = self.bindings[i];
            assert(self.bindings@.skip(i as int).drop_first() =~= self.bindings@.skip(i + 1));
            if b.pattern.matches(key) {
                return Some(b.intent);
            }
            i = i + 1;
        }
        None
    }

    /// The bindings, in order.
    pub fn bindings(&self) -> (r: &[KeyBinding])
        ensures
            r@ == self.bindings@,
    {
        self.bindings.as_slice()
    }
}

impl KeyPattern {
    /// Whether this pattern matches the key press `event`.
    pub fn matches(self, event: KeyEvent) -> (b: bool)
        ensures
            b == pattern_matches(self, event),
    {
        key_matches(self.key, event.code) && normalized_modifiers(event.modifiers) == self.modifiers
    }
}

/// Whether the modifiers leave a key press as plain text input: nothing held
/// but, possibly, Shift.
pub fn text_input_modifiers(modifiers: Modifiers) -> (b: bool)
    ensures
        b == (modifiers.without_shift_spec().bits == 0),
{
    normalized_modifiers(modifiers).bits == 0
}

fn key_matches(expected: Key, actual: KeyCode) -> (b: bool)
    ensures
        b == key_matches_spec(expected, actual),
{
    match (expected, actual) {
        (Key::Char(e), KeyCode::Char(a)) => e == a,
        (Key::Esc, KeyCode::Esc) => true,
        (Key::Enter, KeyCode::Enter) => true,
        (Key::Tab, KeyCode::Tab) => true,
        (Key::BackTab, KeyCode::BackTab) => true,
        (Key::Up, KeyCode::Up) => true,
        (Key::Down, KeyCode::Down) => true,
        (Key::Left, KeyCode::Left) => true,
        (Key::Right, KeyCode::Right) => true,
        _ => false,
    }
}

fn normalized_modifiers(modifiers: Modifiers) -> (m: Modifiers)
    ensures
        m == modifiers.without_shift_spec(),
{
    Modifiers { bits: modifiers.bits & 0xfe }
}

// ---- Laws ----

/// Two different patterns never match the same key press.
pub proof fn lemma_patterns_disjoint(p: KeyPattern, q: KeyPattern, e: KeyEvent)
    requires
        pattern_matches(p, e),
        pattern_matches(q, e),
    ensures
        p == q,
{
}

/// No binding of `bs` whose pattern is `p` matches, then the first match of
/// `bs` without them is the first match of `bs`, for a press that `p` does not
/// match; and for one that `p` matches, nothing of `bs` without them matches.
proof fn lemma_first_intent_without(bs: Seq<KeyBinding>, p: KeyPattern, e: KeyEvent)
    ensures
        !pattern_matches(p, e) ==> first_intent(without_pattern(bs, p), e) == first_intent(bs, e),
        pattern_matches(p, e) ==> first_intent(without_pattern(bs, p), e) is None,
    decreases bs.len(),
{
    let f = |b: KeyBinding| b.pattern != p;
    if bs.len() == 0 {
        assert(without_pattern(bs, p) =~= Seq::<KeyBinding>::empty());
    } else {
        lemma_first_intent_without(bs.drop_first(), p, e);
        assert(bs =~= seq![bs[0]] + bs.drop_first());
        Seq::<KeyBinding>::filter_distributes_over_add(seq![bs[0]], bs.drop_first(), f);
        assert(seq![bs[0]].filter(f) =~= (if f(bs[0]) { seq![bs[0]] } else { Seq::empty() })) by {
            reveal_with_fuel(Seq::filter, 2);
            assert(seq![bs[0]].drop_last() =~= Seq::<KeyBinding>::empty());
            assert(Seq::<KeyBinding>::empty().push(bs[0]) =~= seq![bs[0]]);
            assert(seq![bs[0]].drop_last() =~= Seq::<KeyBinding>::empty());
        }
        let rest = without_pattern(bs.drop_first(), p);
        if f(bs[0]) {
            assert((seq![bs[0]] + rest).drop_first() =~= rest);
            if pattern_matches(bs[0].pattern, e) && pattern_matches(p, e) {
                lemma_patterns_disjoint(bs[0].pattern, p, e);
            }
        } else {
            assert(Seq::<KeyBinding>::empty() + rest =~= rest);
        }
    }
}

/// The first match of `bs` followed by `b`, for a press that `b` matches and
/// nothing of `bs` does, is `b`'s intent.
proof fn lemma_first_intent_push(bs: Seq<KeyBinding>, b: KeyBinding, e: KeyEvent)
    ensures
        first_intent(bs.push(b), e) == (match first_intent(bs, e) {
            Some(i) => Some(i),
            None => if pattern_matches(b.pattern, e) {
                Some(b.intent)
            } else {
                None
            },
        }),
    decreases bs.len(),
{
    if bs.len() == 0 {
        assert(bs.push(b).drop_first() =~= Seq::<KeyBinding>::empty());
        assert(bs.push(b)[0] == b);
        assert(first_intent(bs.push(b).drop_first(), e) is None);
    } else {
        assert(bs.push(b).drop_first() =~= bs.drop_first().push(b));
        assert(bs.push(b)[0] == bs[0]);
        lemma_first_intent_push(bs.drop_first(), b, e);
    }
}

/// Binding a pattern anew: a press that the new binding's pattern matches
/// now gives the new intent, and every other press gives what it gave before.
pub proof fn lemma_with_binding_intent(k: Keymap, b: KeyBinding, e: KeyEvent)
    ensures
        pattern_matches(b.pattern, e) ==> first_intent(
            without_pattern(k.bindings@, b.pattern).push(b),
            e,
        ) == Some(b.intent),
        !pattern_matches(b.pattern, e) ==> first_intent(
            without_pattern(k.bindings@, b.pattern).push(b),
            e,
        ) == first_intent(k.bindings@, e),
{
    lemma_first_intent_without(k.bindings@, b.pattern, e);
    lemma_first_intent_push(without_pattern(k.bindings@, b.pattern), b, e);
}

/// Unbinding a pattern: no press that it matches has an intent any more, and
/// every other press gives what it gave before.
pub proof fn lemma_without_key_intent(k: Keymap, p: KeyPattern, e: KeyEvent)
    ensures
        pattern_matches(p, e) ==> first_intent(without_pattern(k.bindings@, p), e) is None,
        !pattern_matches(p, e) ==> first_intent(without_pattern(k.bindings@, p), e)
            == first_intent(k.bindings@, e),
{
    lemma_first_intent_without(k.bindings@, p, e);
}

/// What each key press means in the common keymap: with no modifier but
/// Shift, `:` opens the command line, Esc cancels, `?` asks for help, Tab and
/// Shift-Tab move between panes, Enter activates, the arrow keys move in
/// their own direction, and `/` searches; every other press means nothing.
pub proof fn lemma_common_keymap_intents(e: KeyEvent)
    ensures
        first_intent(common_bindings(), e) == if e.modifiers.without_shift_spec().bits != 0 {
            None
        } else {
            match e.code {
                KeyCode::Char(c) => if c == ':' {
                    Some(Intent::EnterCommandMode)
                } else if c == '?' {
                    Some(Intent::Help)
                } else if c == '/' {
                    Some(Intent::Search)
                } else {
                    None
                },
                KeyCode::Esc => Some(Intent::Cancel),
                KeyCode::Tab => Some(Intent::NextPane),
                KeyCode::BackTab => Some(Intent::PreviousPane),
                KeyCode::Enter => Some(Intent::Activate),
                KeyCode::Up => Some(Intent::MoveUp),
                KeyCode::Down => Some(Intent::MoveDown),
                KeyCode::Left => Some(Intent::MoveLeft),
                KeyCode::Right => Some(Intent::MoveRight),
                _ => None,
            }
        },
{
    let bs = common_bindings();
    reveal_with_fuel(first_intent, 12);
    assert(bs.drop_first().drop_first().drop_first().drop_first().drop_first().drop_first()
        .drop_first().drop_first().drop_first().drop_first().drop_first() =~= Seq::<KeyBinding>::empty());
}

} // verus!
