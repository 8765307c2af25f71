use vstd::prelude::*;

use crate::action::{normal_form, Action, KeyPress};

verus! {

/// Selects the active table of key bindings.
#[derive(Clone, Copy, Debug, Default, PartialEq, Eq, Structural, Hash)]
pub enum Mode {
    #[default]
    Home,
}

/// A chord (one or more keys pressed in order) bound to an action in a mode.
pub struct Binding {
    pub mode: Mode,
    pub chord: Vec<KeyPress>,
    pub action: Action,
}

/// Every key of `keys` in canonical form.
pub open spec fn normal_chord(keys: Seq<KeyPress>) -> Seq<KeyPress> {
    keys.map_values(|k: KeyPress| normal_form(k))
}

/// The action of the first binding in `bs` for `mode` and `chord`.
pub open spec fn first_binding(bs: Seq<Binding>, mode: Mode, chord: Seq<KeyPress>) -> Option<Action>
    decreases bs.len(),
{
    if bs.len() == 0 {
        None
    } else if bs[0].mode == mode && bs[0].chord@ == chord {
        Some(bs[0].action)
    } else {
        first_binding(bs.drop_first(), mode, chord)
    }
}

/// Bindings from chords to actions, one table per mode. Chords are kept in
/// canonical form, and a later binding of a chord overrides an earlier one.
pub struct Keymap {
    bindings: Vec<Binding>,
}

impl Keymap {
    /// The action bound to `chord` (in canonical form) in `mode`, if any.
    pub closed spec fn binding(&self, mode: Mode, chord: Seq<KeyPress>) -> Option<Action> {
        first_binding(self.bindings@, mode, chord)
    }

    /// Whether `mode` has a table at all.
    pub closed spec fn has_mode(&self, mode: Mode) -> bool {
        exists|i: int| 0 <= i < self.bindings@.len() && self.bindings@[i].mode == mode
    }

    /// What resolving `key` against the table of `mode` does, given the keys
    /// pending since the last tick: the new pending keys and the action that
    /// fires, if any. A key bound on its own fires at once and leaves the
    /// pending keys alone; any other key joins them, and fires the action
    /// bound to them as a whole.
    pub open spec fn resolve_spec(&self, mode: Mode, pending: Seq<KeyPress>, key: KeyPress) -> (
        Seq<KeyPress>,
        Option<Action>,
    ) {
        let k = normal_form(key);
        if !self.has_mode(mode) {
            (pending, None)
        } else if self.binding(mode, seq![k]) is Some {
            (pending, self.binding(mode, seq![k]))
        } else {
            (pending.push(k), self.binding(mode, pending.push(k)))
        }
    }

    /// An empty keymap.
    pub fn new() -> (r: Keymap)
        ensures
            forall|m: Mode, c: Seq<KeyPress>| r.binding(m, c) is None,
            forall|m: Mode| !r.has_mode(m),
    {
        Keymap { bindings: Vec::new() }
    }

    /// Binds `chord` in `mode` to `action`, replacing any earlier binding of
    /// the same chord.
    pub fn bind(&mut self, mode: Mode, chord: &Vec<KeyPress>, action: Action)
        ensures
            final(self).binding(mode, normal_chord(chord@)) == Some(action),
            forall|m: Mode, c: Seq<KeyPress>|
                !(m == mode && c == normal_chord(chord@)) ==> final(self).binding(m, c) == old(
                    self,
                ).binding(m, c),
            forall|m: Mode| final(self).has_mode(m) == (m == mode || old(self).has_mode(m)),
    {
        let mut keys: Vec<KeyPress> = Vec::new();
        let mut i: usize = 0;
        while i < chord.len()
            invariant
                i <= chord@.len(),
                keys@ == normal_chord(chord@.subrange(0, i as int)),
            decreases chord@.len() - i,
        {
            keys.push(chord[i].normalized());
            proof {
                assert(chord@.subrange(0, i + 1) == chord@.subrange(0, i as int).push(chord@[i as int]));
            }
            i = i + 1;
        }
        proof {
            assert(chord@.subrange(0, chord@.len() as int) == chord@);
        }
        let ghost old_bindings = self.bindings@;
        self.bindings.insert(0, Binding { mode, chord: keys, action });
        proof {
            assert(self.bindings@.drop_first() == old_bindings);
            assert forall|m: Mode| self.has_mode(m) == (m == mode || old(self).has_mode(m)) by {
                if old(self).has_mode(m) {
                    let i = choose|i: int| 0 <= i < old_bindings.len() && old_bindings[i].mode == m;
                    assert(self.bindings@[i + 1].mode == m);
                }
                if self.has_mode(m) && m != mode {
                    let i = choose|i: int|
                        0 <= i < self.bindings@.len() && self.bindings@[i].mode == m;
                    assert(old_bindings[i - 1].mode == m);
                }
            }
        }
    }

    /// Whether `mode` has a table at all.
    pub fn binds_mode(&self, mode: Mode) -> (r: bool)
        ensures
            r == self.has_mode(mode),
    {
        let mut i: usize = 0;
        while i < self.bindings.len()
            invariant
                i <= self.bindings@.len(),
                forall|j: int| 0 <= j < i ==> self.bindings@[j].mode != mode,
            decreases self.bindings@.len() - i,
        {
            if self.bindings[i].mode == mode {
                return true;
            }
            i = i + 1;
        }
        false
    }

    /// The action bound to `chord` in `mode`. The chord is compared as given:
    /// its keys are expected in canonical form.
    pub fn lookup(&self, mode: Mode, chord: &Vec<KeyPress>) -> (r: Option<Action>)
        ensures
            r == self.binding(mode, chord@),
    {
        assert(self.bindings@.subrange(0, self.bindings@.len() as int) == self.bindings@);
        let mut i: usize = 0;
        while i < self.bindings.len()
            invariant
                i <= self.bindings@.len(),
                first_binding(self.bindings@, mode, chord@) == first_binding(
                    self.bindings@.subrange(i as int, self.bindings@.len() as int),
                    mode,
                    chord@,
                ),
            decreases self.bindings@.len() - i,
        {
            let b = &self.bindings[i];
            let ghost rest = self.bindings@.subrange(i as int, self.bindings@.len() as int);
            assert(rest[0] == *b);
            if b.mode == mode && same_chord(&b.chord, chord) {
                return Some(b.action.duplicate());
            }
            assert(rest.drop_first() == self.bindings@.subrange(
                i + 1,
                self.bindings@.len() as int,
            ));
            i = i + 1;
        }
        None
    }

    /// Resolves one key press against the table of `mode`, updating the keys
    /// pending since the last tick (kept in canonical form). Returns the
    /// action that fires, if any.
    pub fn resolve(&self, mode: Mode, pending: &mut Vec<KeyPress>, key: KeyPress) -> (r: Option<
        Action,
    >)
        ensures
            (final(pending)@, r) == self.resolve_spec(mode, old(pending)@, key),
    {
        let k = key.normalized();
        if !self.binds_mode(mode) {
            return None;
        }
        let single = vec![k];
        assert(single@ == seq![k]);
        match self.lookup(mode, &single) {
            Some(a) => Some(a),
            None => {
                pending.push(k);
                self.lookup(mode, pending)
            },
        }
    }
}

/// How chords resolve. A key bound on its own fires at once, whatever keys
/// are pending, and leaves them as they were. Starting from no pending keys,
/// a key that is unbound on its own fires nothing, and a second key that
/// completes a two-key chord with it fires that chord. Pending keys are
/// dropped at every tick, so when a tick falls between the two keys, the
/// second key alone fires nothing.
pub proof fn lemma_chord_resolution(
    km: Keymap,
    mode: Mode,
    pending: Seq<KeyPress>,
    first: KeyPress,
    second: KeyPress,
)
    requires
        km.has_mode(mode),
    ensures
        km.binding(mode, seq![normal_form(first)]) is Some ==> km.resolve_spec(mode, pending, first)
            == (pending, km.binding(mode, seq![normal_form(first)])),
        km.binding(mode, seq![normal_form(first)]) is None ==> km.resolve_spec(
            mode,
            seq![],
            first,
        ) == (seq![normal_form(first)], None::<Action>),
        km.binding(mode, seq![normal_form(first)]) is None && km.binding(
            mode,
            seq![normal_form(second)],
        ) is None ==> km.resolve_spec(mode, km.resolve_spec(mode, seq![], first).0, second) == (
            seq![normal_form(first), normal_form(second)],
            km.binding(mode, seq![normal_form(first), normal_form(second)]),
        ),
        km.binding(mode, seq![normal_form(second)]) is None ==> km.resolve_spec(
            mode,
            seq![],
            second,
        ).1 is None,
{
    assert(Seq::<KeyPress>::empty().push(normal_form(first)) == seq![normal_form(first)]);
    assert(seq![normal_form(first)].push(normal_form(second)) == seq![
        normal_form(first),
        normal_form(second),
    ]);
    assert(Seq::<KeyPress>::empty().push(normal_form(second)) == seq![normal_form(second)]);
}

/// Whether two chords hold the same keys in the same order.
fn same_chord(a: &Vec<KeyPress>, b: &Vec<KeyPress>) -> (r: bool)
    ensures
        r == (a@ == b@),
{
    if a.len() != b.len() {
        return false;
    }
    let mut i: usize = 0;
    while i < a.len()
        invariant
            a@.len() == b@.len(),
            i <= a@.len(),
            forall|j: int| 0 <= j < i ==> a@[j] == b@[j],
        decreases a@.len() - i,
    {
        if a[i] != b[i] {
            return false;
        }
        i = i + 1;
    }
    assert(a@ == b@);
    true
}

} // verus!
