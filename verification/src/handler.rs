//! The decisions of the low-level keyboard hook: which events it looks at, which
//! hotkeys fire, and whether an event is swallowed.

use crate::char_sender::{press_request, release_request};
use crate::key::{Key, VirtualKey};
use vstd::prelude::*;

verus! {

/// The tag of key events that this library sends and that its own hook lets pass.
pub const MAGIC_CONST: u64 = 0x8007f00000000000;

/// The hook code under which a low-level keyboard hook may look at the event.
pub const HC_ACTION: i32 = 0;

/// The window message of a key press.
pub const WM_KEYDOWN: u32 = 0x0100;

/// Whether the hook may read the event: the code is `HC_ACTION` and the event
/// pointer is not null. Otherwise the event goes to the next hook untouched.
pub fn hook_may_inspect(code: i32, event_is_null: bool) -> (inspect: bool)
    ensures
        inspect == (code == HC_ACTION && !event_is_null),
{
    code == HC_ACTION && !event_is_null
}

/// The key that a hooked event presses, if the handlers are to see it: a key-down
/// message, not tagged with [`MAGIC_CONST`], whose code fits in 16 bits.
pub open spec fn spec_keydown_from_hook(extra_info: u64, message: u32, vk_code: u32) -> Option<
    Key,
> {
    if extra_info == MAGIC_CONST || message != WM_KEYDOWN || vk_code > 0xffff {
        None
    } else {
        Some(Key::of_vk_code(vk_code as u16))
    }
}

/// The key that a hooked event presses, if the handlers are to see it.
pub fn keydown_from_hook(extra_info: u64, message: u32, vk_code: u32) -> (key: Option<Key>)
    ensures
        key == spec_keydown_from_hook(extra_info, message, vk_code),
{
    if extra_info == MAGIC_CONST {
        return None;
    }
    if message != WM_KEYDOWN {
        return None;
    }
    if vk_code > 0xffff {
        return None;
    }
    Some(Key::from_vk(VirtualKey(vk_code as u16)))
}

/// Only a key-down message (`WM_KEYDOWN`, `0x0100`) that is not tagged with the
/// library's own tag and whose code fits in 16 bits reaches the handlers, and then as
/// the key whose code it is. Every other message, `WM_SYSKEYDOWN` and the key-up
/// messages among them, passes the handlers by.
pub proof fn lemma_only_keydown_reaches_handlers(extra_info: u64, message: u32, vk_code: u32)
    ensures
        message != 0x0100 ==> spec_keydown_from_hook(extra_info, message, vk_code) is None,
        extra_info == 0x8007f00000000000 ==> spec_keydown_from_hook(extra_info, message, vk_code) is None,
        vk_code > 0xffff ==> spec_keydown_from_hook(extra_info, message, vk_code) is None,
        message == 0x0100 && extra_info != 0x8007f00000000000 && vk_code <= 0xffff
            ==> (spec_keydown_from_hook(extra_info, message, vk_code) matches Some(key)
            && key.vk_code() == vk_code),
{
    if message == 0x0100 && extra_info != 0x8007f00000000000 && vk_code <= 0xffff {
        crate::key::lemma_code_key_code(vk_code as u16);
    }
}

/// Key events that the library sends with `ignore_handler` set never reach the
/// handlers of its own hook.
pub proof fn lemma_ignored_input_passes(key: Key, message: u32, vk_code: u32)
    ensures
        spec_keydown_from_hook(press_request(key, true).extra, message, vk_code) is None,
        spec_keydown_from_hook(release_request(key, true).extra, message, vk_code) is None,
{
}

/// Whether a hotkey is triggered by the key just pressed: it is its last key.
pub open spec fn spec_is_trigger(keys: Seq<Key>, pressed: Key) -> bool {
    keys.len() > 0 && keys.last() == pressed
}

/// Whether `down` says that the `i`-th key is held down.
pub open spec fn is_held(down: Seq<bool>, i: int) -> bool {
    0 <= i < down.len() && down[i]
}

/// Whether a hotkey fires: the key just pressed is its last key, and each of its
/// other keys is held down (`down[i]` tells whether `keys[i]` is).
pub open spec fn spec_hotkey_fires(keys: Seq<Key>, pressed: Key, down: Seq<bool>) -> bool {
    &&& spec_is_trigger(keys, pressed)
    &&& forall|i: int| 0 <= i < keys.len() - 1 ==> #[trigger] is_held(down, i)
}

/// Whether the key just pressed is the last key of the hotkey.
pub fn is_trigger(keys: &Vec<Key>, pressed: Key) -> (b: bool)
    ensures
        b == spec_is_trigger(keys@, pressed),
{
    keys.len() > 0 && keys[keys.len() - 1] == pressed
}

/// Whether the hotkey fires, given which of its other keys are held down.
pub fn hotkey_fires(keys: &Vec<Key>, pressed: Key, down: &Vec<bool>) -> (b: bool)
    ensures
        b == spec_hotkey_fires(keys@, pressed, down@),
{
    if !is_trigger(keys, pressed) {
        return false;
    }
    let n = keys.len() - 1;
    let mut i: usize = 0;
    while i < n
        invariant
            n == keys.len() - 1,
            i <= n,
            spec_is_trigger(keys@, pressed),
            i <= down@.len(),
            forall|j: int| 0 <= j < i ==> #[trigger] is_held(down@, j),
        decreases n - i,
    {
        if i >= down.len() || !down[i] {
            assert(!spec_hotkey_fires(keys@, pressed, down@)) by {
                let j = i as int;
                assert(0 <= j < keys@.len() - 1);
                assert(!is_held(down@, j));
            }
            return false;
        }
        i += 1;
    }
    true
}

/// Whether the `i`-th of `hotkeys` fires, `down[i]` telling which of its other keys
/// are held (none where `down` has no `i`-th entry).
pub open spec fn fires_at(hotkeys: Seq<Seq<Key>>, pressed: Key, down: Seq<Seq<bool>>, i: int) -> bool {
    spec_hotkey_fires(
        hotkeys[i],
        pressed,
        if i < down.len() {
            down[i]
        } else {
            Seq::empty()
        },
    )
}

/// The indices among the first `n` of `hotkeys` that fire, in increasing order.
pub open spec fn firing_indices(
    hotkeys: Seq<Seq<Key>>,
    pressed: Key,
    down: Seq<Seq<bool>>,
    n: nat,
) -> Seq<usize>
    decreases n,
{
    if n == 0 {
        Seq::empty()
    } else {
        let before = firing_indices(hotkeys, pressed, down, (n - 1) as nat);
        if fires_at(hotkeys, pressed, down, n - 1) {
            before.push((n - 1) as usize)
        } else {
            before
        }
    }
}

/// The indices that fire are exactly the hotkeys that fire, each once, in table order.
pub proof fn lemma_firing_indices(hotkeys: Seq<Seq<Key>>, pressed: Key, down: Seq<Seq<bool>>, n: nat)
    requires
        n <= hotkeys.len(),
        n <= usize::MAX,
    ensures
        forall|j: int|
            0 <= j < n ==> (firing_indices(hotkeys, pressed, down, n).contains(j as usize)
                <==> fires_at(hotkeys, pressed, down, j)),
        forall|k: int|
            0 <= k < firing_indices(hotkeys, pressed, down, n).len() ==> #[trigger] firing_indices(
                hotkeys,
                pressed,
                down,
                n,
            )[k] < n,
        forall|k: int, l: int|
            0 <= k < l < firing_indices(hotkeys, pressed, down, n).len() ==> #[trigger] firing_indices(
                hotkeys,
                pressed,
                down,
                n,
            )[k] < #[trigger] firing_indices(hotkeys, pressed, down, n)[l],
    decreases n,
{
    if n > 0 {
        let m = (n - 1) as nat;
        lemma_firing_indices(hotkeys, pressed, down, m);
        let before = firing_indices(hotkeys, pressed, down, m);
        let now = firing_indices(hotkeys, pressed, down, n);
        assert forall|j: int| 0 <= j < n implies (now.contains(j as usize) <==> fires_at(
            hotkeys,
            pressed,
            down,
            j,
        )) by {
            if j < m {
                if fires_at(hotkeys, pressed, down, m as int) {
                    if before.contains(j as usize) {
                        let k = choose|k: int| 0 <= k < before.len() && before[k] == j as usize;
                        assert(now[k] == j as usize);
                    }
                    if now.contains(j as usize) {
                        let k = choose|k: int| 0 <= k < now.len() && now[k] == j as usize;
                        if k < before.len() {
                            assert(before[k] == j as usize);
                        }
                    }
                }
            } else {
                if fires_at(hotkeys, pressed, down, m as int) {
                    assert(now[now.len() - 1] == j as usize);
                } else {
                    if now.contains(j as usize) {
                        let k = choose|k: int| 0 <= k < now.len() && now[k] == j as usize;
                        assert(before[k] < m);
                    }
                }
            }
        }
    }
}

/// The key combinations registered as hotkeys, in the order they were added.
/// Each holds at least one key.
pub struct HotkeyTable {
    hotkeys: Vec<Vec<Key>>,
}

impl View for HotkeyTable {
    type V = Seq<Seq<Key>>;

    closed spec fn view(&self) -> Seq<Seq<Key>> {
        self.hotkeys@.map_values(|keys: Vec<Key>| keys@)
    }
}

impl HotkeyTable {
    /// Every registered hotkey holds at least one key.
    pub open spec fn wf(&self) -> bool {
        forall|i: int| 0 <= i < self@.len() ==> #[trigger] self@[i].len() > 0
    }

    /// A table with no hotkeys.
    pub fn new() -> (table: HotkeyTable)
        ensures
            table@ == Seq::<Seq<Key>>::empty(),
            table.wf(),
    {
        let table = HotkeyTable { hotkeys: Vec::new() };
        assert(table@ =~= Seq::<Seq<Key>>::empty());
        table
    }

    /// Registers `hotkey` at the end of the table, unless it holds no key; says
    /// whether it was registered.
    pub fn add_hotkey(&mut self, hotkey: &[Key]) -> (added: bool)
        requires
            old(self).wf(),
        ensures
            added == (hotkey@.len() > 0),
            final(self)@ == (if added { old(self)@.push(hotkey@) } else { old(self)@ }),
            final(self).wf(),
    {
        if hotkey.len() > 0 {
            let keys = vstd::slice::slice_to_vec(hotkey);
            self.hotkeys.push(keys);
            assert(self@ =~= old(self)@.push(hotkey@));
            true
        } else {
            false
        }
    }

    /// The number of registered hotkeys.
    pub fn len(&self) -> (n: usize)
        ensures
            n == self@.len(),
    {
        self.hotkeys.len()
    }

    /// The indices of the hotkeys that fire on a press of `pressed`, in table order;
    /// `down[i]` tells which of the other keys of the `i`-th hotkey are held.
    pub fn firing_hotkeys(&self, pressed: Key, down: &Vec<Vec<bool>>) -> (fired: Vec<usize>)
        ensures
            fired@ == firing_indices(
                self@,
                pressed,
                down@.map_values(|d: Vec<bool>| d@),
                self@.len(),
            ),
    {
        let ghost downs = down@.map_values(|d: Vec<bool>| d@);
        let mut fired: Vec<usize> = Vec::new();
        let n = self.hotkeys.len();
        let empty: Vec<bool> = Vec::new();
        for i in 0..n
            invariant
                n == self@.len(),
                downs == down@.map_values(|d: Vec<bool>| d@),
                empty@ == Seq::<bool>::empty(),
                fired@ == firing_indices(self@, pressed, downs, i as nat),
        {
            let keys = &self.hotkeys[i];
            let held = if i < down.len() {
                &down[i]
            } else {
                &empty
            };
            assert(keys@ == self@[i as int]);
            assert(held@ == (if (i as int) < downs.len() {
                downs[i as int]
            } else {
                Seq::<bool>::empty()
            }));
            if hotkey_fires(keys, pressed, held) {
                fired.push(i);
            }
        }
        fired
    }

    /// The keys of the `i`-th hotkey.
    pub fn keys(&self, i: usize) -> (keys: &Vec<Key>)
        requires
            i < self@.len(),
        ensures
            keys@ == self@[i as int],
    {
        &self.hotkeys[i]
    }
}

/// Whether the hook swallows the key press rather than passing it to the next hook:
/// a hotkey handler that was called, or the key-press callback, answered `true`.
pub open spec fn spec_hook_swallows(hotkey_answers: Seq<bool>, keypress_answer: Option<bool>) -> bool {
    (exists|i: int| 0 <= i < hotkey_answers.len() && #[trigger] hotkey_answers[i])
        || keypress_answer == Some(true)
}

/// Whether the hook swallows the key press, given the answers of the hotkey
/// handlers that were called, in order, and of the key-press callback, if one is set.
pub fn hook_swallows(hotkey_answers: &Vec<bool>, keypress_answer: Option<bool>) -> (swallow: bool)
    ensures
        swallow == spec_hook_swallows(hotkey_answers@, keypress_answer),
{
    let mut i: usize = 0;
    while i < hotkey_answers.len()
        invariant
            i <= hotkey_answers@.len(),
            forall|j: int| 0 <= j < i ==> !(#[trigger] hotkey_answers@[j]),
        decreases hotkey_answers@.len() - i,
    {
        if hotkey_answers[i] {
            return true;
        }
        i += 1;
    }
    match keypress_answer {
        Some(answer) => answer,
        None => false,
    }
}

/// What the hook thread's message loop does with the result of `GetMessageW`.
#[derive(Debug, Clone, Copy, PartialEq, Eq, Structural)]
pub enum MessageLoopStep {
    /// `-1`: report the error and go on.
    ReportError,
    /// `0`: `WM_QUIT`, leave the loop.
    Quit,
    /// Any other value: translate and dispatch the message.
    Dispatch,
}

/// The step that the message loop takes for a result of `GetMessageW`.
pub fn message_loop_step(result: i32) -> (step: MessageLoopStep)
    ensures
        step == (if result == -1 {
            MessageLoopStep::ReportError
        } else if result == 0 {
            MessageLoopStep::Quit
        } else {
            MessageLoopStep::Dispatch
        }),
{
    if result == -1 {
        MessageLoopStep::ReportError
    } else if result == 0 {
        MessageLoopStep::Quit
    } else {
        MessageLoopStep::Dispatch
    }
}

} // verus!
