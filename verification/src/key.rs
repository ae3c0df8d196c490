//! Key bindings: modifier masks, key identities, and the table mapping a
//! pressed key to the command bound to it.

use crate::command::Command;
use vstd::prelude::*;

verus! {

/// A key symbol, as reported by the display server.
pub type KeySymbol = u32;

/// A bitmask of held modifier keys, as reported in a key event.
pub type ModMask = u32;

/// A modifier key, convertible to the protocol's modifier bitmask.
#[derive(Clone, Copy, Debug, PartialEq, Eq, Structural)]
pub enum Modifier {
    Shift,
    Lock,
    Control,
    Mod1,
    Mod2,
    Mod3,
    Mod4,
    Mod5,
}

impl Modifier {
    /// The protocol bit for this modifier; each modifier has its own bit.
    pub open spec fn mask(self) -> ModMask {
        match self {
            Modifier::Shift => 1,
            Modifier::Lock => 2,
            Modifier::Control => 4,
            Modifier::Mod1 => 8,
            Modifier::Mod2 => 16,
            Modifier::Mod3 => 32,
            Modifier::Mod4 => 64,
            Modifier::Mod5 => 128,
        }
    }

    pub fn get_mod_mask(&self) -> (r: ModMask)
        ensures
            r == self.mask(),
    {
        match self {
            Modifier::Shift => 1,
            Modifier::Lock => 2,
            Modifier::Control => 4,
            Modifier::Mod1 => 8,
            Modifier::Mod2 => 16,
            Modifier::Mod3 => 32,
            Modifier::Mod4 => 64,
            Modifier::Mod5 => 128,
        }
    }
}

/// A key identity: modifier mask plus key symbol, unique within a binding
/// table.
#[derive(Clone, Copy, Debug, PartialEq, Eq, Structural, Hash)]
pub struct Key {
    pub modifier: ModMask,
    pub key: KeySymbol,
}

impl Key {
    pub fn new(modifier: &Modifier, key: KeySymbol) -> (k: Key)
        ensures
            k.modifier == modifier.mask(),
            k.key == key,
    {
        Key { modifier: modifier.get_mod_mask(), key }
    }
}

/// The command bound to `key` in `bindings`: the first entry with that
/// key, if any.
pub open spec fn spec_lookup(bindings: Seq<(Key, Command)>, key: Key) -> Option<Command>
    decreases bindings.len(),
{
    if bindings.len() == 0 {
        None
    } else if bindings[0].0 == key {
        Some(bindings[0].1)
    } else {
        spec_lookup(bindings.drop_first(), key)
    }
}

/// The static binding table, consumed once at startup. Keys are unique:
/// binding an already-bound key replaces its command.
#[derive(Debug)]
pub struct KeyMap {
    pub key_map: Vec<(Key, Command)>,
}

impl KeyMap {
    /// Each key occurs at most once in the table.
    pub open spec fn wf(self) -> bool {
        forall|i: int, j: int|
            0 <= i < j < self.key_map@.len() ==> self.key_map@[i].0 != self.key_map@[j].0
    }

    pub fn new() -> (m: KeyMap)
        ensures
            m.key_map@.len() == 0,
            m.wf(),
    {
        KeyMap { key_map: Vec::new() }
    }

    /// Bind `key` to `command`, replacing any existing binding of `key`.
    pub fn bind(&mut self, key: Key, command: Command)
        requires
            old(self).wf(),
        ensures
            final(self).wf(),
            spec_lookup(final(self).key_map@, key) == Some(command),
            forall|k: Key| k != key ==>
                spec_lookup(final(self).key_map@, k) == spec_lookup(old(self).key_map@, k),
    {
        let n = self.key_map.len();
        let ghost orig = self.key_map@;
        let mut i: usize = 0;
        while i < n
            invariant
                n == self.key_map@.len(),
                i <= n,
                self.key_map@ == orig,
                orig == old(self).key_map@,
                forall|t: int| 0 <= t < i ==> orig[t].0 != key,
                self.wf(),
            decreases n - i,
        {
            if self.key_map[i].0 == key {
                self.key_map[i] = (key, command);
                proof {
                    assert(self.key_map@ =~= orig.update(i as int, (key, command)));
                    lemma_lookup_update(orig, i as int, key, command);
                    assert(spec_lookup(self.key_map@, key) == Some(command));
                    assert(orig == old(self).key_map@);
                    assert forall|k: Key| k != key implies
                        spec_lookup(self.key_map@, k) == spec_lookup(old(self).key_map@, k) by {
                        assert(spec_lookup(orig.update(i as int, (key, command)), k)
                            == spec_lookup(orig, k));
                    }
                    assert forall|a: int, b: int|
                        0 <= a < b < self.key_map@.len() implies
                        self.key_map@[a].0 != self.key_map@[b].0 by {
                        assert(self.key_map@[a].0 == orig[a].0);
                        assert(self.key_map@[b].0 == orig[b].0);
                    }
                }
                return;
            }
            i += 1;
        }
        self.key_map.push((key, command));
        proof {
            lemma_lookup_absent_push(orig, key, command);
        }
    }

    /// Look up the command bound to `key`.
    pub fn lookup(&self, key: &Key) -> (r: Option<Command>)
        ensures
            r == spec_lookup(self.key_map@, *key),
    {
        let n = self.key_map.len();
        let mut i: usize = 0;
        proof {
            assert(self.key_map@.skip(0) =~= self.key_map@);
        }
        while i < n
            invariant
                n == self.key_map@.len(),
                i <= n,
                forall|t: int| 0 <= t < i ==> self.key_map@[t].0 != *key,
                spec_lookup(self.key_map@, *key)
                    == spec_lookup(self.key_map@.skip(i as int), *key),
            decreases n - i,
        {
            let entry = self.key_map[i];
            proof {
                assert(self.key_map@.skip(i as int)[0] == self.key_map@[i as int]);
                assert(self.key_map@.skip(i as int).drop_first()
                    =~= self.key_map@.skip(i as int + 1));
            }
            if entry.0 == *key {
                return Some(entry.1);
            }
            i += 1;
        }
        proof {
            assert(self.key_map@.skip(n as int).len() == 0);
        }
        None
    }
}

/// Replacing the entry holding `key` changes only `key`'s binding.
proof fn lemma_lookup_update(bindings: Seq<(Key, Command)>, i: int, key: Key, command: Command)
    requires
        0 <= i < bindings.len(),
        bindings[i].0 == key,
        forall|t: int| 0 <= t < i ==> bindings[t].0 != key,
    ensures
        spec_lookup(bindings.update(i, (key, command)), key) == Some(command),
        forall|k: Key| k != key ==>
            spec_lookup(bindings.update(i, (key, command)), k) == spec_lookup(bindings, k),
    decreases bindings.len(),
{
    let updated = bindings.update(i, (key, command));
    if i == 0 {
        assert(updated[0] == (key, command));
        assert(spec_lookup(updated, key) == Some(command));
        assert forall|k: Key| k != key implies
            spec_lookup(updated, k) == spec_lookup(bindings, k) by {
            if bindings[0].0 == k {
                assert(spec_lookup(bindings, k) == Some(bindings[0].1));
                assert(k == key);
            } else {
                assert(updated.drop_first() =~= bindings.drop_first());
                assert(spec_lookup(updated, k) == spec_lookup(updated.drop_first(), k));
                assert(spec_lookup(bindings, k) == spec_lookup(bindings.drop_first(), k));
            }
        }
    } else {
        let rest = bindings.drop_first();
        let urest = updated.drop_first();
        assert(urest =~= rest.update(i - 1, (key, command)));
        lemma_lookup_update(rest, i - 1, key, command);
        assert(updated[0] == bindings[0]);
        assert(bindings[0].0 != key);
        assert(spec_lookup(updated, key) == spec_lookup(urest, key));
        assert(spec_lookup(updated, key) == Some(command));
        assert forall|k: Key| k != key implies
            spec_lookup(updated, k) == spec_lookup(bindings, k) by {
            if bindings[0].0 == k {
                assert(spec_lookup(updated, k) == Some(updated[0].1));
                assert(spec_lookup(bindings, k) == Some(bindings[0].1));
            } else {
                assert(spec_lookup(urest, k) == spec_lookup(rest, k));
                assert(spec_lookup(updated, k) == spec_lookup(urest, k));
                assert(spec_lookup(bindings, k) == spec_lookup(rest, k));
            }
        }
    }
}

/// Appending a binding for an absent key adds that binding and changes no
/// other.
proof fn lemma_lookup_absent_push(bindings: Seq<(Key, Command)>, key: Key, command: Command)
    requires
        forall|t: int| 0 <= t < bindings.len() ==> bindings[t].0 != key,
    ensures
        spec_lookup(bindings.push((key, command)), key) == Some(command),
        forall|k: Key| k != key ==>
            spec_lookup(bindings.push((key, command)), k) == spec_lookup(bindings, k),
    decreases bindings.len(),
{
    let pushed = bindings.push((key, command));
    if bindings.len() == 0 {
        assert(pushed[0] == (key, command));
        assert(spec_lookup(pushed, key) == Some(command));
        assert forall|k: Key| k != key implies
            spec_lookup(pushed, k) == spec_lookup(bindings, k) by {
            assert(pushed.drop_first() =~= Seq::<(Key, Command)>::empty());
            assert(spec_lookup(pushed, k) == spec_lookup(pushed.drop_first(), k));
            assert(spec_lookup(pushed.drop_first(), k) == None::<Command>);
            assert(spec_lookup(bindings, k) == None::<Command>);
        }
    } else {
        let rest = bindings.drop_first();
        let prest = pushed.drop_first();
        assert(pushed[0] == bindings[0]);
        assert(prest =~= rest.push((key, command)));
        lemma_lookup_absent_push(rest, key, command);
        assert(bindings[0].0 != key);
        assert(spec_lookup(pushed, key) == spec_lookup(prest, key));
        assert(spec_lookup(pushed, key) == Some(command));
        assert forall|k: Key| k != key implies
            spec_lookup(pushed, k) == spec_lookup(bindings, k) by {
            if bindings[0].0 == k {
                assert(spec_lookup(pushed, k) == Some(pushed[0].1));
                assert(spec_lookup(bindings, k) == Some(bindings[0].1));
            } else {
                assert(spec_lookup(prest, k) == spec_lookup(rest, k));
                assert(spec_lookup(pushed, k) == spec_lookup(prest, k));
                assert(spec_lookup(bindings, k) == spec_lookup(rest, k));
            }
        }
    }
}

} // verus!
