//! Key identities and what the engine does for each: a table from the
//! identity of a key to an action, with an action for every key that the
//! table does not name.

use vstd::prelude::*;
use vstd::string::StringSliceAdditionalSpecFns;
use vstd::utf8::encode_utf8_decode_utf8;

verus! {

/// What a key press asks of the engine.
#[derive(Clone, Copy, Debug, PartialEq, Eq, Structural)]
pub enum KeyAction {
    /// Do nothing.
    Ignore,
    /// Go to the left end of the next line.
    LineBreak,
    /// Erase the glyph cell before the cursor and step back.
    Backspace,
    /// Paint the identity of the key as text.
    Write,
}

/// One row of a key map.
#[derive(Debug)]
struct KeyBinding {
    key: String,
    action: KeyAction,
}

/// A table from key identities to actions. A key that the table does not
/// name gets the fallback action; where a key was bound more than once, the
/// latest binding counts.
#[derive(Debug)]
pub struct KeyMap {
    bindings: Vec<KeyBinding>,
    fallback: KeyAction,
}

/// A key map as a finite map from key identities to actions, and the action
/// for every other key.
pub struct KeyMapView {
    pub bound: Map<Seq<char>, KeyAction>,
    pub fallback: KeyAction,
}

impl KeyMapView {
    /// The action for the key with identity `key`.
    pub open spec fn action_for(self, key: Seq<char>) -> KeyAction {
        if self.bound.contains_key(key) {
            self.bound[key]
        } else {
            self.fallback
        }
    }

    /// The map with one more binding, which replaces an earlier one of `key`.
    pub open spec fn bind(self, key: Seq<char>, action: KeyAction) -> KeyMapView {
        KeyMapView { bound: self.bound.insert(key, action), fallback: self.fallback }
    }

    /// The map that binds no key.
    pub open spec fn unbound(fallback: KeyAction) -> KeyMapView {
        KeyMapView { bound: Map::empty(), fallback }
    }

    /// The usual bindings: the modifier keys do nothing, `Enter` breaks the
    /// line, `Backspace` erases, and every other key is written as text.
    pub open spec fn standard() -> KeyMapView {
        Self::unbound(KeyAction::Write)
            .bind("Shift"@, KeyAction::Ignore)
            .bind("Alt"@, KeyAction::Ignore)
            .bind("Control"@, KeyAction::Ignore)
            .bind("Enter"@, KeyAction::LineBreak)
            .bind("Backspace"@, KeyAction::Backspace)
    }
}

/// The five keys that the usual bindings name are pairwise different.
proof fn lemma_standard_keys_differ()
    ensures
        "Shift"@ != "Alt"@,
        "Shift"@ != "Control"@,
        "Shift"@ != "Enter"@,
        "Shift"@ != "Backspace"@,
        "Alt"@ != "Control"@,
        "Alt"@ != "Enter"@,
        "Alt"@ != "Backspace"@,
        "Control"@ != "Enter"@,
        "Control"@ != "Backspace"@,
        "Enter"@ != "Backspace"@,
{
    reveal_strlit("Shift");
    reveal_strlit("Alt");
    reveal_strlit("Control");
    reveal_strlit("Enter");
    reveal_strlit("Backspace");
    assert("Shift"@.len() == 5);
    assert("Alt"@.len() == 3);
    assert("Control"@.len() == 7);
    assert("Enter"@.len() == 5);
    assert("Backspace"@.len() == 9);
    assert("Shift"@[0] == 'S');
    assert("Enter"@[0] == 'E');
}

/// What a key does unless it is bound otherwise: `Shift`, `Alt` and
/// `Control` are ignored, `Enter` breaks the line, `Backspace` erases, and
/// the identity of every other key is written as text, whatever its length.
pub open spec fn standard_action(key: Seq<char>) -> KeyAction {
    if key == "Shift"@ || key == "Alt"@ || key == "Control"@ {
        KeyAction::Ignore
    } else if key == "Enter"@ {
        KeyAction::LineBreak
    } else if key == "Backspace"@ {
        KeyAction::Backspace
    } else {
        KeyAction::Write
    }
}

/// The usual bindings give every key its standard action.
pub proof fn standard_actions(key: Seq<char>)
    ensures
        KeyMapView::standard().action_for(key) == standard_action(key),
{
    lemma_standard_keys_differ();
}

/// The finite map that the first `n` rows of `bindings` make, later rows
/// replacing earlier ones.
spec fn bound_by(bindings: Seq<KeyBinding>, n: int) -> Map<Seq<char>, KeyAction>
    decreases n,
{
    if n <= 0 {
        Map::empty()
    } else {
        bound_by(bindings, n - 1).insert(bindings[n - 1].key@, bindings[n - 1].action)
    }
}

/// Rows beyond the first `n` do not matter to `bound_by(_, n)`.
proof fn lemma_bound_by_prefix(a: Seq<KeyBinding>, b: Seq<KeyBinding>, n: int)
    requires
        n <= a.len(),
        n <= b.len(),
        forall|i: int| 0 <= i < n ==> a[i] == b[i],
    ensures
        bound_by(a, n) == bound_by(b, n),
    decreases n,
{
    if n > 0 {
        lemma_bound_by_prefix(a, b, n - 1);
    }
}

impl View for KeyMap {
    type V = KeyMapView;

    closed spec fn view(&self) -> KeyMapView {
        KeyMapView {
            bound: bound_by(self.bindings@, self.bindings@.len() as int),
            fallback: self.fallback,
        }
    }
}

impl KeyAction {
    /// Whether carrying out the action takes the width of a glyph: only
    /// writing and erasing do.
    pub fn uses_glyph_width(self) -> (uses: bool)
        ensures
            uses == (self is Write || self is Backspace),
    {
        match self {
            KeyAction::Write | KeyAction::Backspace => true,
            KeyAction::Ignore | KeyAction::LineBreak => false,
        }
    }
}

/// Whether two strings hold the same characters.
pub fn same_text(a: &str, b: &str) -> (same: bool)
    ensures
        same == (a@ == b@),
{
    let left = a.as_bytes();
    let right = b.as_bytes();
    proof {
        // A string is recovered from its bytes, so equal bytes mean equal text.
        encode_utf8_decode_utf8(a@);
        encode_utf8_decode_utf8(b@);
    }
    if left.len() != right.len() {
        return false;
    }
    let mut i: usize = 0;
    while i < left.len()
        invariant
            i <= left.len(),
            left.len() == right.len(),
            left@ == a.spec_bytes(),
            right@ == b.spec_bytes(),
            forall|j: int| 0 <= j < i ==> left@[j] == right@[j],
        decreases left.len() - i,
    {
        if left[i] != right[i] {
            return false;
        }
        i += 1;
    }
    assert(left@ =~= right@);
    true
}

impl KeyMap {
    /// A map that binds no key: every key gets `fallback`.
    pub fn new(fallback: KeyAction) -> (map: KeyMap)
        ensures
            map@ == KeyMapView::unbound(fallback),
    {
        KeyMap { bindings: Vec::new(), fallback }
    }

    /// The usual bindings.
    pub fn standard() -> (map: KeyMap)
        ensures
            map@ == KeyMapView::standard(),
    {
        let mut map = KeyMap::new(KeyAction::Write);
        map.bind("Shift", KeyAction::Ignore);
        map.bind("Alt", KeyAction::Ignore);
        map.bind("Control", KeyAction::Ignore);
        map.bind("Enter", KeyAction::LineBreak);
        map.bind("Backspace", KeyAction::Backspace);
        map
    }

    /// Binds `key` to `action`, in place of any earlier binding of `key`.
    pub fn bind(&mut self, key: &str, action: KeyAction)
        ensures
            final(self)@ == old(self)@.bind(key@, action),
    {
        let ghost before = self.bindings@;
        self.bindings.push(KeyBinding { key: key.to_owned(), action });
        proof {
            lemma_bound_by_prefix(before, self.bindings@, before.len() as int);
        }
    }

    /// The action for `key`: that of its latest binding, or the fallback
    /// where the map does not name it.
    pub fn lookup(&self, key: &str) -> (action: KeyAction)
        ensures
            action == self@.action_for(key@),
    {
        let mut i: usize = self.bindings.len();
        while i > 0
            invariant
                i <= self.bindings@.len(),
                self@.action_for(key@) == (KeyMapView {
                    bound: bound_by(self.bindings@, i as int),
                    fallback: self.fallback,
                }).action_for(key@),
            decreases i,
        {
            i -= 1;
            if same_text(self.bindings[i].key.as_str(), key) {
                return self.bindings[i].action;
            }
        }
        self.fallback
    }
}

} // verus!
