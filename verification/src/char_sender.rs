//! Typing characters: which keystrokes produce a character, and the key events
//! that press and release them.

use crate::handler::MAGIC_CONST;
use crate::key::Key;
use vstd::prelude::*;

verus! {

/// The keys that type a character on a Polish (programmer) layout, where the
/// layout has them; the shift for upper case is not part of the table.
/// `'~'` is listed with no keys: on that layout it waits for another key.
pub open spec fn key_mapping(c: char) -> Option<Seq<Key>> {
    match c {
        'a' => Some(seq![Key::AKey]),
        'b' => Some(seq![Key::BKey]),
        'c' => Some(seq![Key::CKey]),
        'd' => Some(seq![Key::DKey]),
        'e' => Some(seq![Key::EKey]),
        'f' => Some(seq![Key::FKey]),
        'g' => Some(seq![Key::GKey]),
        'h' => Some(seq![Key::HKey]),
        'i' => Some(seq![Key::IKey]),
        'j' => Some(seq![Key::JKey]),
        'k' => Some(seq![Key::KKey]),
        'l' => Some(seq![Key::LKey]),
        'm' => Some(seq![Key::MKey]),
        'n' => Some(seq![Key::NKey]),
        'o' => Some(seq![Key::OKey]),
        'p' => Some(seq![Key::PKey]),
        'q' => Some(seq![Key::QKey]),
        'r' => Some(seq![Key::RKey]),
        's' => Some(seq![Key::SKey]),
        't' => Some(seq![Key::TKey]),
        'u' => Some(seq![Key::UKey]),
        'v' => Some(seq![Key::VKey]),
        'w' => Some(seq![Key::WKey]),
        'x' => Some(seq![Key::XKey]),
        'y' => Some(seq![Key::YKey]),
        'z' => Some(seq![Key::ZKey]),
        '0' => Some(seq![Key::Numrow0Key]),
        '1' => Some(seq![Key::Numrow1Key]),
        '2' => Some(seq![Key::Numrow2Key]),
        '3' => Some(seq![Key::Numrow3Key]),
        '4' => Some(seq![Key::Numrow4Key]),
        '5' => Some(seq![Key::Numrow5Key]),
        '6' => Some(seq![Key::Numrow6Key]),
        '7' => Some(seq![Key::Numrow7Key]),
        '8' => Some(seq![Key::Numrow8Key]),
        '9' => Some(seq![Key::Numrow9Key]),
        'ą' => Some(seq![Key::RAltKey, Key::AKey]),
        'ć' => Some(seq![Key::RAltKey, Key::CKey]),
        'ę' => Some(seq![Key::RAltKey, Key::EKey]),
        'ł' => Some(seq![Key::RAltKey, Key::LKey]),
        'ń' => Some(seq![Key::RAltKey, Key::NKey]),
        'ó' => Some(seq![Key::RAltKey, Key::OKey]),
        'ś' => Some(seq![Key::RAltKey, Key::SKey]),
        'ż' => Some(seq![Key::RAltKey, Key::ZKey]),
        'ź' => Some(seq![Key::RAltKey, Key::XKey]),
        '-' => Some(seq![Key::MinusKey]),
        '=' => Some(seq![Key::EqualKey]),
        '[' => Some(seq![Key::LBracketKey]),
        ']' => Some(seq![Key::RBracketKey]),
        ';' => Some(seq![Key::SemicolonKey]),
        '\'' => Some(seq![Key::QuoteKey]),
        ',' => Some(seq![Key::CommaKey]),
        '.' => Some(seq![Key::PeriodKey]),
        '/' => Some(seq![Key::SlashKey]),
        '\\' => Some(seq![Key::BackslashKey]),
        '`' => Some(seq![Key::BackquoteKey]),
        '!' => Some(seq![Key::LShiftKey, Key::Numrow1Key]),
        '@' => Some(seq![Key::LShiftKey, Key::Numrow2Key]),
        '#' => Some(seq![Key::LShiftKey, Key::Numrow3Key]),
        '$' => Some(seq![Key::LShiftKey, Key::Numrow4Key]),
        '%' => Some(seq![Key::LShiftKey, Key::Numrow5Key]),
        '^' => Some(seq![Key::LShiftKey, Key::Numrow6Key]),
        '&' => Some(seq![Key::LShiftKey, Key::Numrow7Key]),
        '*' => Some(seq![Key::LShiftKey, Key::Numrow8Key]),
        '(' => Some(seq![Key::LShiftKey, Key::Numrow9Key]),
        ')' => Some(seq![Key::LShiftKey, Key::Numrow0Key]),
        '_' => Some(seq![Key::LShiftKey, Key::MinusKey]),
        '+' => Some(seq![Key::LShiftKey, Key::EqualKey]),
        '{' => Some(seq![Key::LShiftKey, Key::LBracketKey]),
        '}' => Some(seq![Key::LShiftKey, Key::RBracketKey]),
        ':' => Some(seq![Key::LShiftKey, Key::SemicolonKey]),
        '"' => Some(seq![Key::LShiftKey, Key::QuoteKey]),
        '<' => Some(seq![Key::LShiftKey, Key::CommaKey]),
        '>' => Some(seq![Key::LShiftKey, Key::PeriodKey]),
        '?' => Some(seq![Key::LShiftKey, Key::SlashKey]),
        '|' => Some(seq![Key::LShiftKey, Key::BackslashKey]),
        ' ' => Some(seq![Key::SpaceKey]),
        '\n' => Some(seq![Key::EnterKey]),
        '\t' => Some(seq![Key::TabKey]),
        '~' => Some(seq![]),
        _ => None,
    }
}

/// The table of [`key_mapping`]: the keys that type `c`, if the table lists it.
pub fn lookup_key_mapping(c: char) -> (keys: Option<Vec<Key>>)
    ensures
        view_keys(keys) == key_mapping(c),
{
    let keys: Option<Vec<Key>> = match c {
        'a' => Some(vec![Key::AKey]),
        'b' => Some(vec![Key::BKey]),
        'c' => Some(vec![Key::CKey]),
        'd' => Some(vec![Key::DKey]),
        'e' => Some(vec![Key::EKey]),
        'f' => Some(vec![Key::FKey]),
        'g' => Some(vec![Key::GKey]),
        'h' => Some(vec![Key::HKey]),
        'i' => Some(vec![Key::IKey]),
        'j' => Some(vec![Key::JKey]),
        'k' => Some(vec![Key::KKey]),
        'l' => Some(vec![Key::LKey]),
        'm' => Some(vec![Key::MKey]),
        'n' => Some(vec![Key::NKey]),
        'o' => Some(vec![Key::OKey]),
        'p' => Some(vec![Key::PKey]),
        'q' => Some(vec![Key::QKey]),
        'r' => Some(vec![Key::RKey]),
        's' => Some(vec![Key::SKey]),
        't' => Some(vec![Key::TKey]),
        'u' => Some(vec![Key::UKey]),
        'v' => Some(vec![Key::VKey]),
        'w' => Some(vec![Key::WKey]),
        'x' => Some(vec![Key::XKey]),
        'y' => Some(vec![Key::YKey]),
        'z' => Some(vec![Key::ZKey]),
        '0' => Some(vec![Key::Numrow0Key]),
        '1' => Some(vec![Key::Numrow1Key]),
        '2' => Some(vec![Key::Numrow2Key]),
        '3' => Some(vec![Key::Numrow3Key]),
        '4' => Some(vec![Key::Numrow4Key]),
        '5' => Some(vec![Key::Numrow5Key]),
        '6' => Some(vec![Key::Numrow6Key]),
        '7' => Some(vec![Key::Numrow7Key]),
        '8' => Some(vec![Key::Numrow8Key]),
        '9' => Some(vec![Key::Numrow9Key]),
        'ą' => Some(vec![Key::RAltKey, Key::AKey]),
        'ć' => Some(vec![Key::RAltKey, Key::CKey]),
        'ę' => Some(vec![Key::RAltKey, Key::EKey]),
        'ł' => Some(vec![Key::RAltKey, Key::LKey]),
        'ń' => Some(vec![Key::RAltKey, Key::NKey]),
        'ó' => Some(vec![Key::RAltKey, Key::OKey]),
        'ś' => Some(vec![Key::RAltKey, Key::SKey]),
        'ż' => Some(vec![Key::RAltKey, Key::ZKey]),
        'ź' => Some(vec![Key::RAltKey, Key::XKey]),
        '-' => Some(vec![Key::MinusKey]),
        '=' => Some(vec![Key::EqualKey]),
        '[' => Some(vec![Key::LBracketKey]),
        ']' => Some(vec![Key::RBracketKey]),
        ';' => Some(vec![Key::SemicolonKey]),
        '\'' => Some(vec![Key::QuoteKey]),
        ',' => Some(vec![Key::CommaKey]),
        '.' => Some(vec![Key::PeriodKey]),
        '/' => Some(vec![Key::SlashKey]),
        '\\' => Some(vec![Key::BackslashKey]),
        '`' => Some(vec![Key::BackquoteKey]),
        '!' => Some(vec![Key::LShiftKey, Key::Numrow1Key]),
        '@' => Some(vec![Key::LShiftKey, Key::Numrow2Key]),
        '#' => Some(vec![Key::LShiftKey, Key::Numrow3Key]),
        '$' => Some(vec![Key::LShiftKey, Key::Numrow4Key]),
        '%' => Some(vec![Key::LShiftKey, Key::Numrow5Key]),
        '^' => Some(vec![Key::LShiftKey, Key::Numrow6Key]),
        '&' => Some(vec![Key::LShiftKey, Key::Numrow7Key]),
        '*' => Some(vec![Key::LShiftKey, Key::Numrow8Key]),
        '(' => Some(vec![Key::LShiftKey, Key::Numrow9Key]),
        ')' => Some(vec![Key::LShiftKey, Key::Numrow0Key]),
        '_' => Some(vec![Key::LShiftKey, Key::MinusKey]),
        '+' => Some(vec![Key::LShiftKey, Key::EqualKey]),
        '{' => Some(vec![Key::LShiftKey, Key::LBracketKey]),
        '}' => Some(vec![Key::LShiftKey, Key::RBracketKey]),
        ':' => Some(vec![Key::LShiftKey, Key::SemicolonKey]),
        '"' => Some(vec![Key::LShiftKey, Key::QuoteKey]),
        '<' => Some(vec![Key::LShiftKey, Key::CommaKey]),
        '>' => Some(vec![Key::LShiftKey, Key::PeriodKey]),
        '?' => Some(vec![Key::LShiftKey, Key::SlashKey]),
        '|' => Some(vec![Key::LShiftKey, Key::BackslashKey]),
        ' ' => Some(vec![Key::SpaceKey]),
        '\n' => Some(vec![Key::EnterKey]),
        '\t' => Some(vec![Key::TabKey]),
        '~' => Some(vec![]),
        _ => None,
    };
    keys
}

/// The contents of an optional list of keys.
pub open spec fn view_keys(keys: Option<Vec<Key>>) -> Option<Seq<Key>> {
    match keys {
        Some(v) => Some(v@),
        None => None,
    }
}

/// The first character of the Unicode lowercase mapping of `c`.
pub uninterp spec fn lowercase_head(c: char) -> char;

/// The lowercase form that the Unicode Character Database gives for the characters
/// of the key table: `'A'..='Z'` map to `'a'..='z'`, every other ASCII character to
/// itself, the Polish capitals to their small letters, and the Polish small letters
/// to themselves. `None` for every other character.
pub open spec fn known_lowercase(c: char) -> Option<char> {
    if 'A' <= c <= 'Z' {
        Some(((c as u32) + 32) as char)
    } else if (c as u32) < 128 {
        Some(c)
    } else {
        match c {
            'Ą' => Some('ą'),
            'Ć' => Some('ć'),
            'Ę' => Some('ę'),
            'Ł' => Some('ł'),
            'Ń' => Some('ń'),
            'Ó' => Some('ó'),
            'Ś' => Some('ś'),
            'Ż' => Some('ż'),
            'Ź' => Some('ź'),
            'ą' | 'ć' | 'ę' | 'ł' | 'ń' | 'ó' | 'ś' | 'ż' | 'ź' => Some(c),
            _ => None,
        }
    }
}

/// Calls `char::to_lowercase` and takes the first character that the iterator
/// yields. std documents that the iterator yields one or more characters, the
/// character itself where it has no lowercase mapping, and the one-to-one mapping
/// of the Unicode Character Database where there is one, so the `unwrap` never
/// fails. The contract names the result and states it for the characters of
/// [`known_lowercase`], each of which has a one-to-one mapping or none.
#[verifier::external_body]
fn first_lowercase(c: char) -> (lower: char)
    ensures
        lower == lowercase_head(c),
        known_lowercase(c) matches Some(l) ==> lower == l,
{
    c.to_lowercase().next().unwrap()
}

/// The keystrokes that type `chr`, given `lower`, the lowercase form of `chr`:
/// a left shift where `chr` is not its lowercase form, then the keys that the
/// table gives for `lower`; nothing where the table does not list `lower`.
pub open spec fn spec_keystrokes(chr: char, lower: char) -> Option<Seq<Key>> {
    match key_mapping(lower) {
        Some(keys) => Some(
            if chr != lower {
                seq![Key::LShiftKey] + keys
            } else {
                keys
            },
        ),
        None => None,
    }
}

/// Each ASCII letter and digit is typed by its own key, a letter key or a digit-row
/// key, and an upper-case letter by a left shift and the key of its lower case.
pub proof fn lemma_ascii_alphanumeric_keystrokes(c: char, lower: char)
    requires
        ('a' <= c <= 'z' || '0' <= c <= '9') && lower == c || 'A' <= c <= 'Z' && lower as u32
            == c as u32 + 32,
    ensures
        key_mapping(lower) matches Some(keys) && keys.len() == 1 && (if '0' <= c <= '9' {
            keys[0].spec_is_numeric()
        } else {
            keys[0].spec_is_alphabetic()
        }) && spec_keystrokes(c, lower) == (if 'A' <= c <= 'Z' {
            Some(seq![Key::LShiftKey] + keys)
        } else {
            Some(keys)
        }),
{
}

/// The key that types a small ASCII letter has the code of its capital (`VK_A` to
/// `VK_Z` are `'A'` to `'Z'`), and the digit-row key that types a digit has the
/// digit's code (`VK_0` to `VK_9` are `'0'` to `'9'`); neither takes a shift.
pub proof fn lemma_letter_and_digit_key_codes(c: char)
    requires
        'a' <= c <= 'z' || '0' <= c <= '9',
    ensures
        key_mapping(c) matches Some(keys) && keys.len() == 1 && keys[0] != Key::LShiftKey
            && keys[0].vk_code() == (if 'a' <= c <= 'z' {
            c as u32 - 32
        } else {
            c as u32 as int
        }),
{
}

/// Whether `c` is typed by one key without shift on the layout: the space and the
/// punctuation of the unshifted keys.
pub open spec fn is_unshifted_symbol(c: char) -> bool {
    c == ' ' || c == '-' || c == '=' || c == '[' || c == ']' || c == ';' || c == '\''
        || c == ',' || c == '.' || c == '/' || c == '\\' || c == '`'
}

/// The space and the unshifted punctuation are each typed by exactly one key, a
/// symbol key, with no shift; the Windows code of that key is the `VK_OEM_*`
/// constant of the character (`VK_SPACE` for the space).
pub proof fn lemma_unshifted_symbol_keys(c: char)
    requires
        is_unshifted_symbol(c),
    ensures
        key_mapping(c) matches Some(keys) && keys.len() == 1 && keys[0].spec_is_symbol()
            && keys[0] != Key::LShiftKey && keys[0].vk_code() == (if c == ' ' {
            0x20u16
        } else if c == ';' {
            0xBA
        } else if c == '=' {
            0xBB
        } else if c == ',' {
            0xBC
        } else if c == '-' {
            0xBD
        } else if c == '.' {
            0xBE
        } else if c == '/' {
            0xBF
        } else if c == '`' {
            0xC0
        } else if c == '[' {
            0xDB
        } else if c == '\\' {
            0xDC
        } else if c == ']' {
            0xDD
        } else {
            0xDE
        }),
{
}

/// Whether `shifted` is what the key of `base` types with shift held, on the layout.
pub open spec fn is_shifted_pair(shifted: char, base: char) -> bool {
    ||| shifted == '!' && base == '1'
    ||| shifted == '@' && base == '2'
    ||| shifted == '#' && base == '3'
    ||| shifted == '$' && base == '4'
    ||| shifted == '%' && base == '5'
    ||| shifted == '^' && base == '6'
    ||| shifted == '&' && base == '7'
    ||| shifted == '*' && base == '8'
    ||| shifted == '(' && base == '9'
    ||| shifted == ')' && base == '0'
    ||| shifted == '_' && base == '-'
    ||| shifted == '+' && base == '='
    ||| shifted == '{' && base == '['
    ||| shifted == '}' && base == ']'
    ||| shifted == ':' && base == ';'
    ||| shifted == '"' && base == '\''
    ||| shifted == '<' && base == ','
    ||| shifted == '>' && base == '.'
    ||| shifted == '?' && base == '/'
    ||| shifted == '|' && base == '\\'
}

/// A shifted symbol is typed by a left shift and the one key of its unshifted
/// character, which takes no shift itself: the two are never typed alike.
pub proof fn lemma_shifted_symbol_keys(shifted: char, base: char)
    requires
        is_shifted_pair(shifted, base),
    ensures
        key_mapping(base) matches Some(keys) && keys.len() == 1 && keys[0] != Key::LShiftKey
            && key_mapping(shifted) == Some(seq![Key::LShiftKey] + keys),
        key_mapping(shifted) != key_mapping(base),
{
    assert(key_mapping(shifted).unwrap().len() == 2);
}

/// Whether `polish` is the Polish letter that right Alt makes of the key of `base`.
pub open spec fn is_polish_pair(polish: char, base: char) -> bool {
    ||| polish == 'ą' && base == 'a'
    ||| polish == 'ć' && base == 'c'
    ||| polish == 'ę' && base == 'e'
    ||| polish == 'ł' && base == 'l'
    ||| polish == 'ń' && base == 'n'
    ||| polish == 'ó' && base == 'o'
    ||| polish == 'ś' && base == 's'
    ||| polish == 'ż' && base == 'z'
    ||| polish == 'ź' && base == 'x'
}

/// A Polish letter is typed by right Alt and the key of its Latin base letter.
pub proof fn lemma_polish_letter_keys(polish: char, base: char)
    requires
        is_polish_pair(polish, base),
    ensures
        key_mapping(base) matches Some(keys) && keys.len() == 1 && keys[0].spec_is_alphabetic()
            && key_mapping(polish) == Some(seq![Key::RAltKey] + keys),
{
}

/// A key event for the input thread: press or release `key`, tagged with `extra`.
#[derive(Debug, Clone, Copy, PartialEq, Eq, Structural)]
pub struct InputRequest {
    pub key: Key,
    pub release: bool,
    pub extra: u64,
}

/// The tag that a key event carries: [`MAGIC_CONST`] where the keyboard hook is
/// to let it pass, 0 otherwise.
pub open spec fn extra_info_for(ignore_handler: bool) -> u64 {
    if ignore_handler {
        MAGIC_CONST
    } else {
        0
    }
}

pub open spec fn press_request(key: Key, ignore_handler: bool) -> InputRequest {
    InputRequest { key, release: false, extra: extra_info_for(ignore_handler) }
}

pub open spec fn release_request(key: Key, ignore_handler: bool) -> InputRequest {
    InputRequest { key, release: true, extra: extra_info_for(ignore_handler) }
}

/// What typing one character takes: press every key in order, wait, then release
/// every key in the same order.
pub struct KeystrokePlan {
    pub presses: Vec<InputRequest>,
    pub releases: Vec<InputRequest>,
}

/// Sends characters and keys as synthetic keyboard input.
pub struct CharSender;

/// The Win32 `KEYEVENTF_KEYUP` flag of a keyboard input event.
pub const KEYEVENTF_KEYUP: u32 = 2;

/// A keyboard input event as `SendInput` takes it: the virtual key, the flags and
/// the extra information.
#[derive(Debug, Clone, Copy, PartialEq, Eq, Structural)]
pub struct KeyboardEvent {
    pub vk: u16,
    pub flags: u32,
    pub extra: u64,
}

/// The keyboard input event for a request: the key's code, `KEYEVENTF_KEYUP` for a
/// release and no flag for a press, and the request's tag.
pub fn keyboard_event(request: &InputRequest) -> (event: KeyboardEvent)
    ensures
        event.vk == request.key.vk_code(),
        event.flags == (if request.release { KEYEVENTF_KEYUP } else { 0 }),
        event.extra == request.extra,
{
    let flags: u32 = if request.release { KEYEVENTF_KEYUP } else { 0 };
    KeyboardEvent { vk: request.key.to_vk().0, flags, extra: request.extra }
}

/// The keystrokes for `chr`, given its lowercase form `lower`.
pub fn keystrokes_for(chr: char, lower: char) -> (keys: Option<Vec<Key>>)
    ensures
        view_keys(keys) == spec_keystrokes(chr, lower),
{
    match lookup_key_mapping(lower) {
        Some(mapping) => {
            let mut keys: Vec<Key> = Vec::new();
            if chr != lower {
                keys.push(Key::LShiftKey);
            }
            let n = mapping.len();
            for i in 0..n
                invariant
                    n == mapping.len(),
                    keys@ == (if chr != lower { seq![Key::LShiftKey] } else { Seq::empty() })
                        + mapping@.take(i as int),
            {
                keys.push(mapping[i]);
                assert(mapping@.take(i + 1) == mapping@.take(i as int).push(mapping@[i as int]));
            }
            assert(mapping@.take(n as int) == mapping@);
            Some(keys)
        },
        None => None,
    }
}

impl CharSender {
    /// The request that presses `key`.
    pub fn press_key(key: Key, ignore_handler: bool) -> (request: InputRequest)
        ensures
            request == press_request(key, ignore_handler),
    {
        let extra: u64 = if ignore_handler { MAGIC_CONST } else { 0 };
        InputRequest { key, release: false, extra }
    }

    /// The request that releases `key`.
    pub fn release_key(key: Key, ignore_handler: bool) -> (request: InputRequest)
        ensures
            request == release_request(key, ignore_handler),
    {
        let extra: u64 = if ignore_handler { MAGIC_CONST } else { 0 };
        InputRequest { key, release: true, extra }
    }

    /// The keystrokes that type `chr`.
    pub fn keystrokes(chr: char) -> (keys: Option<Vec<Key>>)
        ensures
            view_keys(keys) == spec_keystrokes(chr, lowercase_head(chr)),
            known_lowercase(chr) matches Some(l) ==> lowercase_head(chr) == l,
    {
        let lower = first_lowercase(chr);
        keystrokes_for(chr, lower)
    }

    /// What typing `chr` takes: `None` where no keystrokes type it; otherwise the
    /// presses of its keystrokes in order and their releases in the same order.
    pub fn send_char(chr: char, ignore_handler: bool) -> (plan: Option<KeystrokePlan>)
        ensures
            plan_types(plan, spec_keystrokes(chr, lowercase_head(chr)), ignore_handler),
            known_lowercase(chr) matches Some(l) ==> lowercase_head(chr) == l,
    {
        let lower = first_lowercase(chr);
        keystroke_plan_for(chr, lower, ignore_handler)
    }
}

/// Whether `plan` presses and then releases `keys` in order, every event tagged as
/// `ignore_handler` asks; `None` exactly where there are no keystrokes.
pub open spec fn plan_types(
    plan: Option<KeystrokePlan>,
    keys: Option<Seq<Key>>,
    ignore_handler: bool,
) -> bool {
    match keys {
        Some(keys) => plan matches Some(p) && {
            &&& p.presses@ == keys.map_values(|k: Key| press_request(k, ignore_handler))
            &&& p.releases@ == keys.map_values(|k: Key| release_request(k, ignore_handler))
            &&& p.presses@.len() == p.releases@.len()
            &&& forall|i: int|
                0 <= i < p.presses@.len() ==> {
                    &&& (#[trigger] p.presses@[i]).key == p.releases@[i].key
                    &&& !p.presses@[i].release
                    &&& p.releases@[i].release
                    &&& p.presses@[i].extra == p.releases@[i].extra
                }
        },
        None => plan is None,
    }
}

/// What typing `chr` takes, given its lowercase form `lower`.
pub fn keystroke_plan_for(chr: char, lower: char, ignore_handler: bool) -> (plan: Option<
    KeystrokePlan,
>)
    ensures
        plan_types(plan, spec_keystrokes(chr, lower), ignore_handler),
{
    match keystrokes_for(chr, lower) {
        Some(keys) => {
            let mut presses: Vec<InputRequest> = Vec::new();
            let mut releases: Vec<InputRequest> = Vec::new();
            let n = keys.len();
            for i in 0..n
                invariant
                    n == keys.len(),
                    presses@ == keys@.take(i as int).map_values(
                        |k: Key| press_request(k, ignore_handler),
                    ),
                    releases@ == keys@.take(i as int).map_values(
                        |k: Key| release_request(k, ignore_handler),
                    ),
            {
                presses.push(CharSender::press_key(keys[i], ignore_handler));
                releases.push(CharSender::release_key(keys[i], ignore_handler));
                assert(keys@.take(i + 1) == keys@.take(i as int).push(keys@[i as int]));
            }
            assert(keys@.take(n as int) == keys@);
            Some(KeystrokePlan { presses, releases })
        },
        None => None,
    }
}

} // verus!
