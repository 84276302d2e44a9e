//! Configurable keybindings: key chords, how a key event matches one, and how
//! `[keybinds]` strings become chords.
use vstd::prelude::*;
use crate::text::{
    chars_of, trimmed, trim, lower, upper, lower_char, is_ascii_upper, is_ascii_lower,
    is_ascii_digit, is_ascii_alpha, eq_ignore_case, strip_prefix, strip_prefix_str,
    str_eq_ignore_case, str_eq, push_char, owned, opt_view,
};
use crate::config::KeybindsSection;

verus! {

/// A key as the terminal reports it.
#[derive(Debug, Clone, Copy, PartialEq, Eq, Structural)]
pub enum KeyCode {
    Backspace,
    Enter,
    Left,
    Right,
    Up,
    Down,
    Home,
    End,
    PageUp,
    PageDown,
    Tab,
    BackTab,
    Delete,
    Insert,
    F(u8),
    Char(char),
    Null,
    Esc,
    /// Any other key (media keys, lock keys, …).
    Other,
}

/// Modifier keys held with a key.
#[derive(Debug, Clone, Copy, PartialEq, Eq, Structural, Default)]
pub struct KeyModifiers {
    pub shift: bool,
    pub control: bool,
    pub alt: bool,
    pub super_key: bool,
    pub hyper: bool,
    pub meta: bool,
}

impl KeyModifiers {
    pub open spec fn none_spec() -> KeyModifiers {
        KeyModifiers { shift: false, control: false, alt: false, super_key: false, hyper: false, meta: false }
    }

    /// No modifier held.
    pub fn empty() -> (r: KeyModifiers)
        ensures r == KeyModifiers::none_spec(),
    {
        KeyModifiers { shift: false, control: false, alt: false, super_key: false, hyper: false, meta: false }
    }

    /// Shift alone.
    pub fn shift_only() -> (r: KeyModifiers)
        ensures r == (KeyModifiers { shift: true, ..KeyModifiers::none_spec() }),
    {
        KeyModifiers { shift: true, control: false, alt: false, super_key: false, hyper: false, meta: false }
    }

    /// Control alone.
    pub fn control_only() -> (r: KeyModifiers)
        ensures r == (KeyModifiers { control: true, ..KeyModifiers::none_spec() }),
    {
        KeyModifiers { shift: false, control: true, alt: false, super_key: false, hyper: false, meta: false }
    }

    /// Control and Shift.
    pub fn control_shift() -> (r: KeyModifiers)
        ensures r == (KeyModifiers { control: true, shift: true, ..KeyModifiers::none_spec() }),
    {
        KeyModifiers { shift: true, control: true, alt: false, super_key: false, hyper: false, meta: false }
    }

    /// Every modifier that either holds.
    pub fn union(self, other: KeyModifiers) -> (r: KeyModifiers)
        ensures
            r.shift == (self.shift || other.shift),
            r.control == (self.control || other.control),
            r.alt == (self.alt || other.alt),
            r.super_key == (self.super_key || other.super_key),
            r.hyper == (self.hyper || other.hyper),
            r.meta == (self.meta || other.meta),
    {
        KeyModifiers {
            shift: self.shift || other.shift,
            control: self.control || other.control,
            alt: self.alt || other.alt,
            super_key: self.super_key || other.super_key,
            hyper: self.hyper || other.hyper,
            meta: self.meta || other.meta,
        }
    }

    pub open spec fn is_none(self) -> bool {
        !self.shift && !self.control && !self.alt && !self.super_key && !self.hyper && !self.meta
    }

    /// Every modifier of `other` is held in `self`.
    pub open spec fn holds_all(self, other: KeyModifiers) -> bool {
        &&& (other.shift ==> self.shift)
        &&& (other.control ==> self.control)
        &&& (other.alt ==> self.alt)
        &&& (other.super_key ==> self.super_key)
        &&& (other.hyper ==> self.hyper)
        &&& (other.meta ==> self.meta)
    }

    pub fn is_empty(&self) -> (r: bool)
        ensures r == self.is_none(),
    {
        !self.shift && !self.control && !self.alt && !self.super_key && !self.hyper && !self.meta
    }

    /// All modifiers of `other` are held.
    pub fn contains(&self, other: &KeyModifiers) -> (r: bool)
        ensures r == self.holds_all(*other),
    {
        (!other.shift || self.shift) && (!other.control || self.control) && (!other.alt || self.alt)
            && (!other.super_key || self.super_key) && (!other.hyper || self.hyper) && (!other.meta || self.meta)
    }
}

pub open spec fn shift_mods() -> KeyModifiers {
    KeyModifiers { shift: true, ..KeyModifiers::none_spec() }
}

pub open spec fn control_mods() -> KeyModifiers {
    KeyModifiers { control: true, ..KeyModifiers::none_spec() }
}

pub open spec fn control_shift_mods() -> KeyModifiers {
    KeyModifiers { control: true, shift: true, ..KeyModifiers::none_spec() }
}

/// A single key combination (code + optional modifiers).
#[derive(Debug, Clone, Copy, PartialEq, Eq, Structural)]
pub struct KeySpec {
    pub code: KeyCode,
    pub modifiers: KeyModifiers,
}

pub open spec fn plain(code: KeyCode) -> KeySpec {
    KeySpec { code, modifiers: KeyModifiers::none_spec() }
}

pub open spec fn with_mods(code: KeyCode, modifiers: KeyModifiers) -> KeySpec {
    KeySpec { code, modifiers }
}

/// US-keyboard shifted symbol for a digit (Shift+1 → `!`, etc.).
pub open spec fn shifted_digit(d: char) -> Option<char> {
    if d == '1' { Some('!') }
    else if d == '2' { Some('@') }
    else if d == '3' { Some('#') }
    else if d == '4' { Some('$') }
    else if d == '5' { Some('%') }
    else if d == '0' { Some(')') }
    else { None }
}

/// US-keyboard shifted symbol for a digit (Shift+1 → `!`, etc.).
pub fn shift_digit_symbol(digit: char) -> (r: Option<char>)
    ensures r == shifted_digit(digit),
{
    if digit == '1' { Some('!') }
    else if digit == '2' { Some('@') }
    else if digit == '3' { Some('#') }
    else if digit == '4' { Some('$') }
    else if digit == '5' { Some('%') }
    else if digit == '0' { Some(')') }
    else { None }
}

/// The two lenient forms a key chord also accepts: an uppercase letter with no modifier
/// bit for Shift+letter, and for Shift+digit the digit with Shift or the US shifted
/// symbol without Control or Alt.
pub open spec fn lenient_match(k: KeySpec, code: KeyCode, mods: KeyModifiers) -> bool {
    match (k.code, code) {
        (KeyCode::Char(sc), KeyCode::Char(kc)) => {
            ||| (k.modifiers == shift_mods() && is_ascii_lower(sc) && mods.is_none()
                && is_ascii_upper(kc) && lower(kc) == sc)
            ||| (k.modifiers == shift_mods() && is_ascii_digit(sc) && kc == sc && mods.shift)
            ||| (k.modifiers == shift_mods() && is_ascii_digit(sc)
                && (shifted_digit(sc) matches Some(ch) && kc == ch) && !mods.control && !mods.alt)
        },
        _ => false,
    }
}

/// The key as compared: an uppercase letter sent with Shift counts as its lowercase.
pub open spec fn normalized(code: KeyCode, mods: KeyModifiers) -> KeyCode {
    match code {
        KeyCode::Char(c) => if is_ascii_upper(c) && mods.shift { KeyCode::Char(lower(c)) } else { code },
        _ => code,
    }
}

/// When a key event `(code, mods)` triggers chord `k`.
pub open spec fn key_matches(k: KeySpec, code: KeyCode, mods: KeyModifiers) -> bool {
    if k.code == KeyCode::BackTab {
        code == KeyCode::BackTab
    } else if lenient_match(k, code, mods) {
        true
    } else if k.code != normalized(code, mods) {
        false
    } else if k.modifiers.is_none() {
        mods.is_none()
    } else {
        mods.holds_all(k.modifiers)
    }
}

fn is_upper_char(c: char) -> (r: bool)
    ensures r == is_ascii_upper(c),
{
    'A' <= c && c <= 'Z'
}

fn is_lower_char(c: char) -> (r: bool)
    ensures r == is_ascii_lower(c),
{
    'a' <= c && c <= 'z'
}

fn is_digit_char(c: char) -> (r: bool)
    ensures r == is_ascii_digit(c),
{
    '0' <= c && c <= '9'
}

fn upper_char(c: char) -> (r: char)
    ensures r == upper(c),
{
    if 'a' <= c && c <= 'z' {
        let b: u8 = c as u8;
        ((b - 32) as char)
    } else {
        c
    }
}

impl KeySpec {
    fn new(code: KeyCode) -> (r: KeySpec)
        ensures r == plain(code),
    {
        KeySpec { code, modifiers: KeyModifiers::empty() }
    }

    /// Returns true when `(code, mods)` matches this spec.
    ///
    /// Shift+letter chords are stored as lowercase `char` + Shift. Many terminals
    /// send an uppercase letter plus Shift instead; those are normalized here.
    ///
    /// Shift+digit defaults bind the shifted symbol (`!` for Shift+1 on US layouts) because
    /// most terminals never deliver `Char('1')` + Shift.
    pub fn matches(&self, code: KeyCode, mods: KeyModifiers) -> (r: bool)
        ensures r == key_matches(*self, code, mods),
    {
        if self.code == KeyCode::BackTab {
            return code == KeyCode::BackTab;
        }
        if let (KeyCode::Char(sc), KeyCode::Char(kc)) = (self.code, code) {
            let shift_alone = self.modifiers == KeyModifiers::shift_only();
            if shift_alone && is_lower_char(sc) && mods.is_empty() && is_upper_char(kc) && lower_char(kc) == sc {
                return true;
            }
            if shift_alone && is_digit_char(sc) {
                if kc == sc && mods.shift {
                    return true;
                }
                if let Some(ch) = shift_digit_symbol(sc) {
                    if kc == ch && !mods.control && !mods.alt {
                        return true;
                    }
                }
            }
        }
        let code = match code {
            KeyCode::Char(k) => if is_upper_char(k) && mods.shift { KeyCode::Char(lower_char(k)) } else { code },
            c => c,
        };
        if self.code != code {
            return false;
        }
        if self.modifiers.is_empty() {
            return mods.is_empty();
        }
        mods.contains(&self.modifiers)
    }
}

/// Default rating key: the character most terminals emit for Shift+digit (US layout).
pub open spec fn rate_default_spec(digit: char) -> KeySpec {
    plain(KeyCode::Char(match shifted_digit(digit) { Some(c) => c, None => digit }))
}

fn rate_default(digit: char) -> (r: KeySpec)
    ensures r == rate_default_spec(digit),
{
    let ch = match shift_digit_symbol(digit) { Some(c) => c, None => digit };
    KeySpec::new(KeyCode::Char(ch))
}

pub open spec fn either_prefix(t: Seq<char>, a: Seq<char>, b: Seq<char>) -> Option<Seq<char>> {
    match strip_prefix(t, a) {
        Some(r) => Some(r),
        None => strip_prefix(t, b),
    }
}

/// What a key name means when it is not a modifier chord.
pub open spec fn named_key(t: Seq<char>) -> Option<KeySpec> {
    if t == "Tab"@ { Some(plain(KeyCode::Tab)) }
    else if t == "Enter"@ { Some(plain(KeyCode::Enter)) }
    else if t == "Esc"@ { Some(plain(KeyCode::Esc)) }
    else if t == "Left"@ { Some(plain(KeyCode::Left)) }
    else if t == "Right"@ { Some(plain(KeyCode::Right)) }
    else if t == "Up"@ { Some(plain(KeyCode::Up)) }
    else if t == "Down"@ { Some(plain(KeyCode::Down)) }
    else if t == "Space"@ { Some(plain(KeyCode::Char(' '))) }
    else if t == "Backspace"@ { Some(plain(KeyCode::Backspace)) }
    else { None }
}

/// The chord a user-supplied key string names (such as `"j"`, `"Shift+a"`, `"Tab"`,
/// `"Left"`), or `None` when it names none.
pub open spec fn parse_key_spec(s: Seq<char>) -> Option<KeySpec> {
    let t = trim(s);
    match either_prefix(t, "Shift+"@, "shift+"@) {
        Some(rest) => if rest.len() == 1 && (rest[0] as u32) < 128 {
            Some(with_mods(KeyCode::Char(lower(rest[0])), shift_mods()))
        } else {
            None
        },
        None => if t.len() == 1 {
            if is_ascii_upper(t[0]) {
                Some(with_mods(KeyCode::Char(lower(t[0])), shift_mods()))
            } else {
                Some(plain(KeyCode::Char(t[0])))
            }
        } else {
            match either_prefix(t, "Ctrl+Shift+"@, "ctrl+shift+"@) {
                Some(rest) => if rest.len() == 1 {
                    Some(with_mods(KeyCode::Char(lower(rest[0])), control_shift_mods()))
                } else {
                    None
                },
                None => match either_prefix(t, "Ctrl+"@, "ctrl+"@) {
                    Some(rest) => if eq_ignore_case(rest, "space"@) {
                        Some(with_mods(KeyCode::Char(' '), control_mods()))
                    } else if rest.len() == 1 {
                        Some(with_mods(KeyCode::Char(lower(rest[0])), control_mods()))
                    } else {
                        None
                    },
                    None => named_key(t),
                },
            }
        },
    }
}

fn strip_either<'a>(t: &'a str, a: &str, b: &str) -> (r: Option<&'a str>)
    ensures
        match r {
            Some(x) => either_prefix(t@, a@, b@) == Some(x@),
            None => either_prefix(t@, a@, b@) is None,
        },
{
    match strip_prefix_str(t, a) {
        Some(x) => Some(x),
        None => strip_prefix_str(t, b),
    }
}

fn named(t: &str) -> (r: Option<KeySpec>)
    ensures r == named_key(t@),
{
    if str_eq(t, "Tab") { Some(KeySpec::new(KeyCode::Tab)) }
    else if str_eq(t, "Enter") { Some(KeySpec::new(KeyCode::Enter)) }
    else if str_eq(t, "Esc") { Some(KeySpec::new(KeyCode::Esc)) }
    else if str_eq(t, "Left") { Some(KeySpec::new(KeyCode::Left)) }
    else if str_eq(t, "Right") { Some(KeySpec::new(KeyCode::Right)) }
    else if str_eq(t, "Up") { Some(KeySpec::new(KeyCode::Up)) }
    else if str_eq(t, "Down") { Some(KeySpec::new(KeyCode::Down)) }
    else if str_eq(t, "Space") { Some(KeySpec::new(KeyCode::Char(' '))) }
    else if str_eq(t, "Backspace") { Some(KeySpec::new(KeyCode::Backspace)) }
    else { None }
}

/// Parse a user-supplied key string such as `"j"`, `"Shift+a"`, `"Tab"`, `"Left"`.
pub fn parse_key(s: &str) -> (r: Option<KeySpec>)
    ensures r == parse_key_spec(s@),
{
    let t = trimmed(s);
    let tv = chars_of(t);
    if let Some(rest) = strip_either(t, "Shift+", "shift+") {
        let rv = chars_of(rest);
        if rv.len() == 1 && (rv[0] as u32) < 128 {
            return Some(KeySpec { code: KeyCode::Char(lower_char(rv[0])), modifiers: KeyModifiers::shift_only() });
        }
        return None;
    }
    if tv.len() == 1 {
        let c = tv[0];
        if is_upper_char(c) {
            return Some(KeySpec { code: KeyCode::Char(lower_char(c)), modifiers: KeyModifiers::shift_only() });
        }
        return Some(KeySpec::new(KeyCode::Char(c)));
    }
    if let Some(rest) = strip_either(t, "Ctrl+Shift+", "ctrl+shift+") {
        let rv = chars_of(rest);
        if rv.len() == 1 {
            return Some(KeySpec { code: KeyCode::Char(lower_char(rv[0])), modifiers: KeyModifiers::control_shift() });
        }
        return None;
    }
    if let Some(rest) = strip_either(t, "Ctrl+", "ctrl+") {
        if str_eq_ignore_case(rest, "space") {
            return Some(KeySpec { code: KeyCode::Char(' '), modifiers: KeyModifiers::control_only() });
        }
        let rv = chars_of(rest);
        if rv.len() == 1 {
            return Some(KeySpec { code: KeyCode::Char(lower_char(rv[0])), modifiers: KeyModifiers::control_only() });
        }
        return None;
    }
    named(t)
}

/// A single uppercase letter in the config means Shift plus that letter: `"N"` and
/// `"Shift+n"` (or `"Shift+N"`) name the same chord.
pub proof fn uppercase_letter_is_shift_letter(c: char)
    requires is_ascii_upper(c),
    ensures
        parse_key_spec(seq![c]) == Some(with_mods(KeyCode::Char(lower(c)), shift_mods())),
        parse_key_spec("Shift+"@ + seq![lower(c)]) == parse_key_spec(seq![c]),
        parse_key_spec("Shift+"@ + seq![c]) == parse_key_spec(seq![c]),
{
    reveal_strlit("Shift+");
    reveal_strlit("shift+");
    let one = seq![c];
    assert(!crate::text::is_white(c));
    assert(crate::text::trim_start(one) == one);
    assert(crate::text::trim_end(one) == one);
    assert(strip_prefix(one, "Shift+"@) is None);
    assert(strip_prefix(one, "shift+"@) is None);
    assert forall|x: char| is_ascii_lower(x) || is_ascii_upper(x) implies {
        let s = "Shift+"@ + seq![x];
        &&& crate::text::trim(s) == s
        &&& either_prefix(s, "Shift+"@, "shift+"@) == Some(seq![x])
    } by {
        let s = "Shift+"@ + seq![x];
        assert(s[0] == 'S');
        assert(!crate::text::is_white(s[0]));
        assert(crate::text::trim_start(s) == s);
        assert(s.last() == x);
        assert(!crate::text::is_white(x));
        assert(crate::text::trim_end(s) == s);
        assert(s.take(6) =~= "Shift+"@);
        assert(s.skip(6) =~= seq![x]);
    }
    assert(is_ascii_lower(lower(c)));
    assert(lower(lower(c)) == lower(c));
}

/// A Shift+letter chord is triggered by the lowercase letter with Shift, and by the
/// uppercase letter with or without a Shift bit (terminals differ).
pub proof fn shift_letter_matches_either_case(l: char, mods: KeyModifiers)
    requires is_ascii_lower(l),
    ensures
        key_matches(with_mods(KeyCode::Char(l), shift_mods()), KeyCode::Char(l), shift_mods()),
        key_matches(with_mods(KeyCode::Char(l), shift_mods()), KeyCode::Char(upper(l)), shift_mods()),
        key_matches(with_mods(KeyCode::Char(l), shift_mods()), KeyCode::Char(upper(l)), KeyModifiers::none_spec()),
        !key_matches(with_mods(KeyCode::Char(l), shift_mods()), KeyCode::Char(l), KeyModifiers::none_spec()),
{
    assert(lower(upper(l)) == l);
}

/// The default rating keys are the US shifted symbols (`!` for Shift+1 …, `)` for
/// Shift+0); a configured `Shift+<digit>` is triggered both by the digit with Shift and by
/// that symbol without Control or Alt.
pub proof fn shift_digit_chords(d: char, mods: KeyModifiers)
    requires shifted_digit(d) is Some,
    ensures
        key_matches(rate_default_spec(d), KeyCode::Char(shifted_digit(d)->0), KeyModifiers::none_spec()),
        mods.shift ==> key_matches(with_mods(KeyCode::Char(d), shift_mods()), KeyCode::Char(d), mods),
        !mods.control && !mods.alt ==> key_matches(with_mods(KeyCode::Char(d), shift_mods()),
            KeyCode::Char(shifted_digit(d)->0), mods),
{
}

/// A chord with modifiers other than Shift alone (Ctrl+r, Alt+x, Ctrl+Shift+k, …) is
/// triggered only when every one of its modifiers is held: plain `r` never triggers
/// Ctrl+r. A chord without modifiers is triggered only when no modifier is held.
pub proof fn chord_needs_its_modifiers(k: KeySpec, code: KeyCode, mods: KeyModifiers)
    requires k.code != KeyCode::BackTab,
    ensures
        !k.modifiers.is_none() && k.modifiers != shift_mods() && key_matches(k, code, mods)
            ==> mods.holds_all(k.modifiers),
        k.modifiers.is_none() && key_matches(k, code, mods) ==> mods.is_none(),
        code != KeyCode::BackTab ==> !key_matches(with_mods(code, control_mods()), code, KeyModifiers::none_spec()),
{
}

/// A chord is triggered by its own key with its own modifiers, and a chord with modifiers
/// also when further modifiers are held besides them (a key that is not an uppercase
/// letter, which Shift would turn into its lowercase).
pub proof fn chord_matches_its_own_key(k: KeySpec, mods: KeyModifiers)
    requires !(k.code matches KeyCode::Char(c) && is_ascii_upper(c)),
    ensures
        key_matches(k, k.code, k.modifiers),
        !k.modifiers.is_none() && mods.holds_all(k.modifiers) ==> key_matches(k, k.code, mods),
{
}

/// The display name of a key.
pub open spec fn key_name(code: KeyCode) -> Seq<char> {
    match code {
        KeyCode::Char(c) => if c == ' ' {
            "Space"@
        } else if is_ascii_alpha(c) {
            seq![lower(c)]
        } else {
            seq![c]
        },
        KeyCode::Tab => "Tab"@,
        KeyCode::Enter => "Enter"@,
        KeyCode::Esc => "Esc"@,
        KeyCode::Left => "←"@,
        KeyCode::Right => "→"@,
        KeyCode::Up => "↑"@,
        KeyCode::Down => "↓"@,
        KeyCode::Backspace => "Backspace"@,
        KeyCode::PageUp => "PgUp"@,
        KeyCode::PageDown => "PgDn"@,
        _ => "?"@,
    }
}

/// A chord written as its modifiers then its key.
pub open spec fn format_general(k: KeySpec) -> Seq<char> {
    let m = k.modifiers;
    (if m.control { "Ctrl+"@ } else { Seq::empty() })
        + (if m.shift && k.code is Char { "Shift+"@ } else { Seq::empty() })
        + (if m.alt { "Alt+"@ } else { Seq::empty() })
        + (if m.super_key { "Super+"@ } else { Seq::empty() })
        + key_name(k.code)
}

/// Human-readable key chord (e.g. `Ctrl+Shift+r`, `N`, `` ` ``): a lone Shift+letter shows
/// as the uppercase letter.
pub open spec fn format_key(k: KeySpec) -> Seq<char> {
    if k.code == KeyCode::BackTab {
        "Shift+Tab"@
    } else {
        match k.code {
            KeyCode::Char(c) => if is_ascii_lower(c) && k.modifiers == shift_mods() {
                seq![upper(c)]
            } else {
                format_general(k)
            },
            _ => format_general(k),
        }
    }
}

fn key_name_string(code: KeyCode) -> (r: String)
    ensures r@ == key_name(code),
{
    match code {
        KeyCode::Char(c) => {
            let mut s = String::new();
            if c == ' ' {
                return String::from_str("Space");
            } else if is_upper_char(c) || is_lower_char(c) {
                push_char(&mut s, lower_char(c));
            } else {
                push_char(&mut s, c);
            }
            s
        },
        KeyCode::Tab => String::from_str("Tab"),
        KeyCode::Enter => String::from_str("Enter"),
        KeyCode::Esc => String::from_str("Esc"),
        KeyCode::Left => String::from_str("←"),
        KeyCode::Right => String::from_str("→"),
        KeyCode::Up => String::from_str("↑"),
        KeyCode::Down => String::from_str("↓"),
        KeyCode::Backspace => String::from_str("Backspace"),
        KeyCode::PageUp => String::from_str("PgUp"),
        KeyCode::PageDown => String::from_str("PgDn"),
        _ => String::from_str("?"),
    }
}

/// Human-readable key chord (e.g. `Ctrl+Shift+r`, `N`, `` ` ``).
pub fn format_spec(spec: &KeySpec) -> (r: String)
    ensures r@ == format_key(*spec),
{
    if spec.code == KeyCode::BackTab {
        return String::from_str("Shift+Tab");
    }
    let m = spec.modifiers;
    if let KeyCode::Char(c) = spec.code {
        if is_lower_char(c) && m == KeyModifiers::shift_only() {
            let mut s = String::new();
            push_char(&mut s, upper_char(c));
            return s;
        }
    }
    let mut p = String::new();
    if m.control {
        p.append("Ctrl+");
    }
    let is_char = match spec.code { KeyCode::Char(_) => true, _ => false };
    if m.shift && is_char {
        p.append("Shift+");
    }
    if m.alt {
        p.append("Alt+");
    }
    if m.super_key {
        p.append("Super+");
    }
    let key = key_name_string(spec.code);
    p.append(key.as_str());
    assert(p@ =~= format_key(*spec));
    p
}

/// Two chords joined by `sep`.
pub fn format_pair(a: &KeySpec, sep: &str, b: &KeySpec) -> (r: String)
    ensures r@ == format_key(*a) + sep@ + format_key(*b),
{
    let mut s = format_spec(a);
    s.append(sep);
    let t = format_spec(b);
    s.append(t.as_str());
    s
}

/// A chord, or `—` when the binding is disabled.
pub fn format_optional(spec: &Option<KeySpec>) -> (r: String)
    ensures
        r@ == match spec {
            Some(k) => format_key(*k),
            None => "—"@,
        },
{
    match spec {
        Some(k) => format_spec(k),
        None => String::from_str("—"),
    }
}

/// Every chord of the player, resolved from `[keybinds]`.
#[derive(Debug, Clone)]
pub struct Keybinds {
    pub scroll_up: KeySpec,
    pub scroll_down: KeySpec,
    pub column_left: KeySpec,
    pub column_right: KeySpec,
    pub play_pause: KeySpec,
    pub next_track: KeySpec,
    pub prev_track: KeySpec,
    pub seek_forward: KeySpec,
    pub seek_backward: KeySpec,
    pub add_track: KeySpec,
    pub add_all: KeySpec,
    pub add_all_replace_album: Option<KeySpec>,
    pub add_all_replace_artist: Option<KeySpec>,
    pub add_all_prepend: Option<KeySpec>,
    pub shuffle: KeySpec,
    pub unshuffle: KeySpec,
    pub toggle_queue_loop: KeySpec,
    pub instant_mix: Option<KeySpec>,
    pub toggle_radio: KeySpec,
    pub np_focus_queue: KeySpec,
    pub clear_queue: KeySpec,
    pub remove_from_queue: KeySpec,
    pub search: KeySpec,
    pub volume_up: KeySpec,
    pub volume_down: KeySpec,
    pub tab_switch: KeySpec,
    /// Reverse tab cycle (Backtick by default)
    pub tab_switch_reverse: KeySpec,
    /// Jump to Home tab (default: '1')
    pub go_to_home: KeySpec,
    /// Jump to Browser tab (default: '2')
    pub go_to_browser: KeySpec,
    /// Jump to NowPlaying tab (default: '3')
    pub go_to_nowplaying: KeySpec,
    pub quit: KeySpec,
    /// Fuzzy library picker (`None` = disabled).
    pub library_fzf: Option<KeySpec>,
    /// Force library index refresh (`None` = disabled).
    pub library_refresh: Option<KeySpec>,
    /// Ping Subsonic and refresh online/offline mode (`None` = disabled).
    pub connection_check: Option<KeySpec>,
    /// Append entire metadata index to queue after y/n (`None` = disabled).
    pub library_index_append_queue: Option<KeySpec>,
    pub toggle_help: KeySpec,
    pub toggle_dynamic_theme: KeySpec,
    pub toggle_lyrics: KeySpec,
    /// Primary visualizer toggle (default Shift+v).
    pub toggle_visualizer: KeySpec,
    /// Browser: open/close playlist overlay (default Shift+p).
    pub playlist_overlay: KeySpec,
    /// Browser: add focused track to playlist (`>`).
    pub browser_add_to_playlist: KeySpec,
    /// Playlist overlay (tracks pane): remove highlighted track (`<`).
    pub remove_from_playlist: KeySpec,
    pub home_section_next: KeySpec,
    pub home_section_prev: KeySpec,
    pub home_refresh: KeySpec,
    /// `None` = disabled — folder toggle from keybinds
    pub toggle_folder_browse: Option<KeySpec>,
    /// Toggle favorite on focused or playing item (Subsonic star API).
    pub toggle_favorite: KeySpec,
    /// Browser: favorites overlay. Default: Shift+f (`F`)
    pub favorites_overlay: KeySpec,
    /// Rate focused/playing song 1–5 via Subsonic `setRating`.
    pub rate_song_1: KeySpec,
    pub rate_song_2: KeySpec,
    pub rate_song_3: KeySpec,
    pub rate_song_4: KeySpec,
    pub rate_song_5: KeySpec,
    /// Clear song rating (`setRating` with 0).
    pub rate_song_clear: KeySpec,
}

/// A configured chord, or `default` when unset or unparsable.
pub open spec fn resolve_spec(opt: Option<String>, default: KeySpec) -> KeySpec {
    match opt {
        Some(s) => match parse_key_spec(s@) {
            Some(k) => k,
            None => default,
        },
        None => default,
    }
}

/// An optional chord: unset gives `default`, an empty string disables it, otherwise the
/// parsed chord (none when unparsable).
pub open spec fn resolve_opt_spec(opt: Option<Seq<char>>, default: Option<KeySpec>) -> Option<KeySpec> {
    match opt {
        None => default,
        Some(s) => if trim(s).len() == 0 { None } else { parse_key_spec(s) },
    }
}

pub open spec fn is_ctrl_r(k: Option<KeySpec>) -> bool {
    k matches Some(spec) && spec.code == KeyCode::Char('r') && spec.modifiers == control_mods()
}

/// The index-refresh string in effect: a stale `Ctrl+r` (while album replace is also
/// `Ctrl+r`) and `Ctrl+space` (which many terminals never deliver) count as unset.
pub open spec fn library_refresh_config(opt: Option<String>, album: Option<KeySpec>) -> Option<Seq<char>> {
    match opt {
        None => None,
        Some(s) => {
            let t = trim(s@);
            if t.len() == 0 {
                Some(t)
            } else if eq_ignore_case(t, "ctrl+space"@) {
                None
            } else if eq_ignore_case(t, "ctrl+r"@) && is_ctrl_r(album) {
                None
            } else {
                Some(t)
            }
        },
    }
}

fn resolve(opt: &Option<String>, default: KeySpec) -> (r: KeySpec)
    ensures r == resolve_spec(*opt, default),
{
    match opt {
        Some(s) => match parse_key(s.as_str()) {
            Some(k) => k,
            None => default,
        },
        None => default,
    }
}

fn resolve_opt(opt: Option<&str>, default: Option<KeySpec>) -> (r: Option<KeySpec>)
    ensures
        r == resolve_opt_spec(match opt { Some(s) => Some(s@), None => None }, default),
{
    match opt {
        None => default,
        Some(s) => if trimmed(s).is_empty() { None } else { parse_key(s) },
    }
}

fn opt_str(opt: &Option<String>) -> (r: Option<&str>)
    ensures
        match r { Some(x) => opt_view(*opt) == Some(x@), None => opt is None },
{
    match opt {
        Some(s) => Some(s.as_str()),
        None => None,
    }
}

fn library_refresh_config_str<'a>(sec: &'a KeybindsSection, album: &Option<KeySpec>) -> (r: Option<&'a str>)
    ensures
        match r {
            Some(x) => library_refresh_config(sec.library_refresh, *album) == Some(x@),
            None => library_refresh_config(sec.library_refresh, *album) is None,
        },
{
    match &sec.library_refresh {
        None => None,
        Some(s) => {
            let t = trimmed(s.as_str());
            if t.is_empty() {
                Some(t)
            } else if str_eq_ignore_case(t, "ctrl+space") {
                None
            } else if str_eq_ignore_case(t, "ctrl+r") && match album {
                Some(k) => k.code == KeyCode::Char('r') && k.modifiers == KeyModifiers::control_only(),
                None => false,
            } {
                None
            } else {
                Some(t)
            }
        },
    }
}

impl Keybinds {
    /// The chords `[keybinds]` sets, each unset one at its default.
    pub fn from_section(sec: &KeybindsSection) -> (r: Keybinds)
        ensures
            r.scroll_up == resolve_spec(sec.scroll_up, with_mods(KeyCode::Char('k'), KeyModifiers::none_spec())),
            r.scroll_down == resolve_spec(sec.scroll_down, with_mods(KeyCode::Char('j'), KeyModifiers::none_spec())),
            r.column_left == resolve_spec(sec.column_left, with_mods(KeyCode::Char('h'), KeyModifiers::none_spec())),
            r.column_right == resolve_spec(sec.column_right, with_mods(KeyCode::Char('l'), KeyModifiers::none_spec())),
            r.play_pause == resolve_spec(sec.play_pause, with_mods(KeyCode::Char('p'), KeyModifiers::none_spec())),
            r.next_track == resolve_spec(sec.next_track, with_mods(KeyCode::Char('n'), KeyModifiers::none_spec())),
            r.prev_track == resolve_spec(sec.prev_track, with_mods(KeyCode::Char('n'), shift_mods())),
            r.seek_forward == resolve_spec(sec.seek_forward, with_mods(KeyCode::Right, KeyModifiers::none_spec())),
            r.seek_backward == resolve_spec(sec.seek_backward, with_mods(KeyCode::Left, KeyModifiers::none_spec())),
            r.add_track == resolve_spec(sec.add_track, with_mods(KeyCode::Char('a'), KeyModifiers::none_spec())),
            r.add_all == resolve_spec(sec.add_all, with_mods(KeyCode::Char('a'), shift_mods())),
            r.add_all_replace_album == resolve_opt_spec(opt_view(sec.add_all_replace_album), Some(with_mods(KeyCode::Char('r'), control_mods()))),
            r.add_all_replace_artist == resolve_opt_spec(opt_view(sec.add_all_replace_artist), Some(with_mods(KeyCode::Char('r'), control_shift_mods()))),
            r.add_all_prepend == resolve_opt_spec(opt_view(sec.add_all_prepend), Some(with_mods(KeyCode::Char('p'), control_shift_mods()))),
            r.shuffle == resolve_spec(sec.shuffle, with_mods(KeyCode::Char('x'), KeyModifiers::none_spec())),
            r.unshuffle == resolve_spec(sec.unshuffle, with_mods(KeyCode::Char('z'), KeyModifiers::none_spec())),
            r.toggle_queue_loop == resolve_spec(sec.toggle_queue_loop, with_mods(KeyCode::Char('q'), shift_mods())),
            r.instant_mix == resolve_opt_spec(opt_view(sec.instant_mix), Some(with_mods(KeyCode::Char('m'), KeyModifiers::none_spec()))),
            r.toggle_radio == resolve_spec(sec.toggle_radio, with_mods(KeyCode::Char('r'), shift_mods())),
            r.np_focus_queue == resolve_spec(sec.np_focus_queue, with_mods(KeyCode::Char('g'), control_mods())),
            r.clear_queue == resolve_spec(sec.clear_queue, with_mods(KeyCode::Char('d'), shift_mods())),
            r.remove_from_queue == resolve_spec(sec.remove_from_queue, with_mods(KeyCode::Char('d'), KeyModifiers::none_spec())),
            r.search == resolve_spec(sec.search, with_mods(KeyCode::Char('/'), KeyModifiers::none_spec())),
            r.volume_up == resolve_spec(sec.volume_up, with_mods(KeyCode::Char('+'), KeyModifiers::none_spec())),
            r.volume_down == resolve_spec(sec.volume_down, with_mods(KeyCode::Char('-'), KeyModifiers::none_spec())),
            r.tab_switch == resolve_spec(sec.tab_switch, with_mods(KeyCode::Tab, KeyModifiers::none_spec())),
            r.tab_switch_reverse == resolve_spec(sec.tab_switch_reverse, with_mods(KeyCode::Char('`'), KeyModifiers::none_spec())),
            r.go_to_home == resolve_spec(sec.go_to_home, with_mods(KeyCode::Char('1'), KeyModifiers::none_spec())),
            r.go_to_browser == resolve_spec(sec.go_to_browser, with_mods(KeyCode::Char('2'), KeyModifiers::none_spec())),
            r.go_to_nowplaying == resolve_spec(sec.go_to_nowplaying, with_mods(KeyCode::Char('3'), KeyModifiers::none_spec())),
            r.quit == resolve_spec(sec.quit, with_mods(KeyCode::Char('q'), KeyModifiers::none_spec())),
            r.library_fzf == resolve_opt_spec(opt_view(sec.library_fzf), Some(with_mods(KeyCode::Char('f'), control_mods()))),
            r.library_refresh == resolve_opt_spec(library_refresh_config(sec.library_refresh, r.add_all_replace_album), Some(with_mods(KeyCode::Char('g'), control_mods()))),
            r.connection_check == resolve_opt_spec(opt_view(sec.connection_check), Some(with_mods(KeyCode::Char('c'), shift_mods()))),
            r.library_index_append_queue == resolve_opt_spec(opt_view(sec.library_index_append_queue), Some(with_mods(KeyCode::Char('a'), control_mods()))),
            r.toggle_help == resolve_spec(sec.toggle_help, with_mods(KeyCode::Char('i'), KeyModifiers::none_spec())),
            r.toggle_dynamic_theme == resolve_spec(sec.toggle_dynamic_theme, with_mods(KeyCode::Char('t'), KeyModifiers::none_spec())),
            r.toggle_lyrics == resolve_spec(sec.toggle_lyrics, with_mods(KeyCode::Char('l'), shift_mods())),
            r.toggle_visualizer == resolve_spec(sec.toggle_visualizer, with_mods(KeyCode::Char('v'), shift_mods())),
            r.playlist_overlay == resolve_spec(sec.playlist_overlay, with_mods(KeyCode::Char('p'), shift_mods())),
            r.browser_add_to_playlist == resolve_spec(sec.browser_add_to_playlist, with_mods(KeyCode::Char('>'), KeyModifiers::none_spec())),
            r.remove_from_playlist == resolve_spec(sec.remove_from_playlist, with_mods(KeyCode::Char('<'), KeyModifiers::none_spec())),
            r.home_section_next == resolve_spec(sec.home_section_next, with_mods(KeyCode::Char('j'), shift_mods())),
            r.home_section_prev == resolve_spec(sec.home_section_prev, with_mods(KeyCode::Char('k'), shift_mods())),
            r.home_refresh == resolve_spec(sec.home_refresh, with_mods(KeyCode::Char('r'), KeyModifiers::none_spec())),
            r.toggle_folder_browse == resolve_opt_spec(opt_view(sec.toggle_folder_browse), Some(with_mods(KeyCode::Char('b'), control_mods()))),
            r.toggle_favorite == resolve_spec(sec.toggle_favorite, with_mods(KeyCode::Char('f'), KeyModifiers::none_spec())),
            r.favorites_overlay == resolve_spec(sec.favorites_overlay, with_mods(KeyCode::Char('f'), shift_mods())),
            r.rate_song_1 == resolve_spec(sec.rate_song_1, rate_default_spec('1')),
            r.rate_song_2 == resolve_spec(sec.rate_song_2, rate_default_spec('2')),
            r.rate_song_3 == resolve_spec(sec.rate_song_3, rate_default_spec('3')),
            r.rate_song_4 == resolve_spec(sec.rate_song_4, rate_default_spec('4')),
            r.rate_song_5 == resolve_spec(sec.rate_song_5, rate_default_spec('5')),
            r.rate_song_clear == resolve_spec(sec.rate_song_clear, rate_default_spec('0')),
    {
        let scroll_up = resolve(&sec.scroll_up, KeySpec { code: KeyCode::Char('k'), modifiers: KeyModifiers::empty() });
        let scroll_down = resolve(&sec.scroll_down, KeySpec { code: KeyCode::Char('j'), modifiers: KeyModifiers::empty() });
        let column_left = resolve(&sec.column_left, KeySpec { code: KeyCode::Char('h'), modifiers: KeyModifiers::empty() });
        let column_right = resolve(&sec.column_right, KeySpec { code: KeyCode::Char('l'), modifiers: KeyModifiers::empty() });
        let play_pause = resolve(&sec.play_pause, KeySpec { code: KeyCode::Char('p'), modifiers: KeyModifiers::empty() });
        let next_track = resolve(&sec.next_track, KeySpec { code: KeyCode::Char('n'), modifiers: KeyModifiers::empty() });
        let prev_track = resolve(&sec.prev_track, KeySpec { code: KeyCode::Char('n'), modifiers: KeyModifiers::shift_only() });
        let seek_forward = resolve(&sec.seek_forward, KeySpec { code: KeyCode::Right, modifiers: KeyModifiers::empty() });
        let seek_backward = resolve(&sec.seek_backward, KeySpec { code: KeyCode::Left, modifiers: KeyModifiers::empty() });
        let add_track = resolve(&sec.add_track, KeySpec { code: KeyCode::Char('a'), modifiers: KeyModifiers::empty() });
        let add_all = resolve(&sec.add_all, KeySpec { code: KeyCode::Char('a'), modifiers: KeyModifiers::shift_only() });
        let add_all_replace_album = resolve_opt(opt_str(&sec.add_all_replace_album), Some(KeySpec { code: KeyCode::Char('r'), modifiers: KeyModifiers::control_only() }));
        let add_all_replace_artist = resolve_opt(opt_str(&sec.add_all_replace_artist), Some(KeySpec { code: KeyCode::Char('r'), modifiers: KeyModifiers::control_shift() }));
        let add_all_prepend = resolve_opt(opt_str(&sec.add_all_prepend), Some(KeySpec { code: KeyCode::Char('p'), modifiers: KeyModifiers::control_shift() }));
        let shuffle = resolve(&sec.shuffle, KeySpec { code: KeyCode::Char('x'), modifiers: KeyModifiers::empty() });
        let unshuffle = resolve(&sec.unshuffle, KeySpec { code: KeyCode::Char('z'), modifiers: KeyModifiers::empty() });
        let toggle_queue_loop = resolve(&sec.toggle_queue_loop, KeySpec { code: KeyCode::Char('q'), modifiers: KeyModifiers::shift_only() });
        let instant_mix = resolve_opt(opt_str(&sec.instant_mix), Some(KeySpec { code: KeyCode::Char('m'), modifiers: KeyModifiers::empty() }));
        let toggle_radio = resolve(&sec.toggle_radio, KeySpec { code: KeyCode::Char('r'), modifiers: KeyModifiers::shift_only() });
        let np_focus_queue = resolve(&sec.np_focus_queue, KeySpec { code: KeyCode::Char('g'), modifiers: KeyModifiers::control_only() });
        let clear_queue = resolve(&sec.clear_queue, KeySpec { code: KeyCode::Char('d'), modifiers: KeyModifiers::shift_only() });
        let remove_from_queue = resolve(&sec.remove_from_queue, KeySpec { code: KeyCode::Char('d'), modifiers: KeyModifiers::empty() });
        let search = resolve(&sec.search, KeySpec { code: KeyCode::Char('/'), modifiers: KeyModifiers::empty() });
        let volume_up = resolve(&sec.volume_up, KeySpec { code: KeyCode::Char('+'), modifiers: KeyModifiers::empty() });
        let volume_down = resolve(&sec.volume_down, KeySpec { code: KeyCode::Char('-'), modifiers: KeyModifiers::empty() });
        let tab_switch = resolve(&sec.tab_switch, KeySpec { code: KeyCode::Tab, modifiers: KeyModifiers::empty() });
        let tab_switch_reverse = resolve(&sec.tab_switch_reverse, KeySpec { code: KeyCode::Char('`'), modifiers: KeyModifiers::empty() });
        let go_to_home = resolve(&sec.go_to_home, KeySpec { code: KeyCode::Char('1'), modifiers: KeyModifiers::empty() });
        let go_to_browser = resolve(&sec.go_to_browser, KeySpec { code: KeyCode::Char('2'), modifiers: KeyModifiers::empty() });
        let go_to_nowplaying = resolve(&sec.go_to_nowplaying, KeySpec { code: KeyCode::Char('3'), modifiers: KeyModifiers::empty() });
        let quit = resolve(&sec.quit, KeySpec { code: KeyCode::Char('q'), modifiers: KeyModifiers::empty() });
        let library_fzf = resolve_opt(opt_str(&sec.library_fzf), Some(KeySpec { code: KeyCode::Char('f'), modifiers: KeyModifiers::control_only() }));
        let library_refresh = resolve_opt(library_refresh_config_str(sec, &add_all_replace_album), Some(KeySpec { code: KeyCode::Char('g'), modifiers: KeyModifiers::control_only() }));
        let connection_check = resolve_opt(opt_str(&sec.connection_check), Some(KeySpec { code: KeyCode::Char('c'), modifiers: KeyModifiers::shift_only() }));
        let library_index_append_queue = resolve_opt(opt_str(&sec.library_index_append_queue), Some(KeySpec { code: KeyCode::Char('a'), modifiers: KeyModifiers::control_only() }));
        let toggle_help = resolve(&sec.toggle_help, KeySpec { code: KeyCode::Char('i'), modifiers: KeyModifiers::empty() });
        let toggle_dynamic_theme = resolve(&sec.toggle_dynamic_theme, KeySpec { code: KeyCode::Char('t'), modifiers: KeyModifiers::empty() });
        let toggle_lyrics = resolve(&sec.toggle_lyrics, KeySpec { code: KeyCode::Char('l'), modifiers: KeyModifiers::shift_only() });
        let toggle_visualizer = resolve(&sec.toggle_visualizer, KeySpec { code: KeyCode::Char('v'), modifiers: KeyModifiers::shift_only() });
        let playlist_overlay = resolve(&sec.playlist_overlay, KeySpec { code: KeyCode::Char('p'), modifiers: KeyModifiers::shift_only() });
        let browser_add_to_playlist = resolve(&sec.browser_add_to_playlist, KeySpec { code: KeyCode::Char('>'), modifiers: KeyModifiers::empty() });
        let remove_from_playlist = resolve(&sec.remove_from_playlist, KeySpec { code: KeyCode::Char('<'), modifiers: KeyModifiers::empty() });
        let home_section_next = resolve(&sec.home_section_next, KeySpec { code: KeyCode::Char('j'), modifiers: KeyModifiers::shift_only() });
        let home_section_prev = resolve(&sec.home_section_prev, KeySpec { code: KeyCode::Char('k'), modifiers: KeyModifiers::shift_only() });
        let home_refresh = resolve(&sec.home_refresh, KeySpec { code: KeyCode::Char('r'), modifiers: KeyModifiers::empty() });
        let toggle_folder_browse = resolve_opt(opt_str(&sec.toggle_folder_browse), Some(KeySpec { code: KeyCode::Char('b'), modifiers: KeyModifiers::control_only() }));
        let toggle_favorite = resolve(&sec.toggle_favorite, KeySpec { code: KeyCode::Char('f'), modifiers: KeyModifiers::empty() });
        let favorites_overlay = resolve(&sec.favorites_overlay, KeySpec { code: KeyCode::Char('f'), modifiers: KeyModifiers::shift_only() });
        let rate_song_1 = resolve(&sec.rate_song_1, rate_default('1'));
        let rate_song_2 = resolve(&sec.rate_song_2, rate_default('2'));
        let rate_song_3 = resolve(&sec.rate_song_3, rate_default('3'));
        let rate_song_4 = resolve(&sec.rate_song_4, rate_default('4'));
        let rate_song_5 = resolve(&sec.rate_song_5, rate_default('5'));
        let rate_song_clear = resolve(&sec.rate_song_clear, rate_default('0'));
        Keybinds {
            scroll_up,
            scroll_down,
            column_left,
            column_right,
            play_pause,
            next_track,
            prev_track,
            seek_forward,
            seek_backward,
            add_track,
            add_all,
            add_all_replace_album,
            add_all_replace_artist,
            add_all_prepend,
            shuffle,
            unshuffle,
            toggle_queue_loop,
            instant_mix,
            toggle_radio,
            np_focus_queue,
            clear_queue,
            remove_from_queue,
            search,
            volume_up,
            volume_down,
            tab_switch,
            tab_switch_reverse,
            go_to_home,
            go_to_browser,
            go_to_nowplaying,
            quit,
            library_fzf,
            library_refresh,
            connection_check,
            library_index_append_queue,
            toggle_help,
            toggle_dynamic_theme,
            toggle_lyrics,
            toggle_visualizer,
            playlist_overlay,
            browser_add_to_playlist,
            remove_from_playlist,
            home_section_next,
            home_section_prev,
            home_refresh,
            toggle_folder_browse,
            toggle_favorite,
            favorites_overlay,
            rate_song_1,
            rate_song_2,
            rate_song_3,
            rate_song_4,
            rate_song_5,
            rate_song_clear,
        }
    }
}

} // verus!
