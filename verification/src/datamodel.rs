//! The class dictionary by which the type of a set is judged.

use crate::key::MXFKey;
use vstd::prelude::*;

verus! {

/// One class of the dictionary: the key of a set type and, where the class
/// extends another, the place of that other class in the dictionary.
#[derive(Clone, Copy, Debug, PartialEq, Eq)]
pub struct MXFSetDef {
    pub key: MXFKey,
    pub parent: Option<usize>,
}

/// The class dictionary: which set types are known, and which extends
/// which.
#[derive(Clone, Debug, PartialEq, Eq)]
pub struct MXFDataModel {
    pub defs: Vec<MXFSetDef>,
}

/// The index of the first class at or after `start` that has the key `key`.
pub open spec fn def_index_from(defs: Seq<MXFSetDef>, key: MXFKey, start: int) -> Option<int>
    decreases defs.len() - start,
{
    if start < 0 || start >= defs.len() {
        None
    } else if defs[start].key == key {
        Some(start)
    } else {
        def_index_from(defs, key, start + 1)
    }
}

/// Whether the class at `index`, or one that it extends directly or through
/// others, has the key `ancestor`. A class extends only classes that stand
/// before it.
pub open spec fn descends_from(defs: Seq<MXFSetDef>, index: int, ancestor: MXFKey) -> bool
    decreases index,
{
    &&& 0 <= index < defs.len()
    &&& (defs[index].key == ancestor || match defs[index].parent {
        Some(p) => p < index && descends_from(defs, p as int, ancestor),
        None => false,
    })
}

proof fn lemma_def_index_in_range(defs: Seq<MXFSetDef>, key: MXFKey, start: int)
    requires
        0 <= start,
    ensures
        def_index_from(defs, key, start) matches Some(i) ==> start <= i < defs.len()
            && defs[i].key == key,
    decreases defs.len() - start,
{
    if start < defs.len() && defs[start].key != key {
        lemma_def_index_in_range(defs, key, start + 1);
    }
}

proof fn lemma_def_index_after_push(defs: Seq<MXFSetDef>, def: MXFSetDef, key: MXFKey, start: int)
    requires
        0 <= start <= defs.len(),
    ensures
        def_index_from(defs.push(def), key, start) == match def_index_from(defs, key, start) {
            Some(i) => Some(i),
            None => if def.key == key {
                Some(defs.len() as int)
            } else {
                None
            },
        },
    decreases defs.len() - start,
{
    let pushed = defs.push(def);
    if start < defs.len() {
        assert(pushed[start] == defs[start]);
        if defs[start].key != key {
            lemma_def_index_after_push(defs, def, key, start + 1);
        }
    } else {
        assert(pushed[start] == def);
        assert(def_index_from(pushed, key, start + 1).is_none());
    }
}

proof fn lemma_descends_after_push(
    defs: Seq<MXFSetDef>,
    def: MXFSetDef,
    index: int,
    ancestor: MXFKey,
)
    requires
        0 <= index < defs.len(),
    ensures
        descends_from(defs.push(def), index, ancestor) == descends_from(defs, index, ancestor),
    decreases index,
{
    let pushed = defs.push(def);
    assert(pushed[index] == defs[index]);
    match defs[index].parent {
        Some(p) => {
            if p < index {
                lemma_descends_after_push(defs, def, p as int, ancestor);
            }
        },
        None => {},
    }
}

/// Registering a class changes nothing for the classes that were known
/// before, and makes the new class a subclass of itself and of whatever
/// its parent is a subclass of.
pub proof fn lemma_register_extends(
    before: MXFDataModel,
    after: MXFDataModel,
    key: MXFKey,
    parent: Option<MXFKey>,
)
    requires
        !before.spec_is_registered(key),
        parent matches Some(p) ==> before.spec_is_registered(p),
        after.defs@ == before.defs@.push(
            MXFSetDef {
                key,
                parent: match parent {
                    Some(p) => Some(def_index_from(before.defs@, p, 0).unwrap() as usize),
                    None => None,
                },
            },
        ),
        before.defs@.len() < usize::MAX,
    ensures
        forall|a: MXFKey, b: MXFKey|
            a != key ==> #[trigger] after.spec_is_subclass_of(a, b) == before.spec_is_subclass_of(
                a,
                b,
            ),
        forall|b: MXFKey| #[trigger]
            after.spec_is_subclass_of(key, b) == (b == key || match parent {
                Some(p) => before.spec_is_subclass_of(p, b),
                None => false,
            }),
{
    let defs = before.defs@;
    let def = MXFSetDef {
        key,
        parent: match parent {
            Some(p) => Some(def_index_from(defs, p, 0).unwrap() as usize),
            None => None,
        },
    };
    let pushed = defs.push(def);
    assert forall|a: MXFKey, b: MXFKey| a != key implies #[trigger] after.spec_is_subclass_of(a, b)
        == before.spec_is_subclass_of(a, b) by {
        lemma_def_index_after_push(defs, def, a, 0);
        lemma_def_index_in_range(defs, a, 0);
        if let Some(i) = def_index_from(defs, a, 0) {
            lemma_descends_after_push(defs, def, i, b);
        }
    }
    assert forall|b: MXFKey| #[trigger]
        after.spec_is_subclass_of(key, b) == (b == key || match parent {
            Some(p) => before.spec_is_subclass_of(p, b),
            None => false,
        }) by {
        lemma_def_index_after_push(defs, def, key, 0);
        let last = defs.len() as int;
        assert(pushed[last] == def);
        match parent {
            Some(p) => {
                lemma_def_index_in_range(defs, p, 0);
                let at = def_index_from(defs, p, 0).unwrap();
                assert(def.parent == Some(at as usize));
                lemma_descends_after_push(defs, def, at, b);
            },
            None => {},
        }
    }
}

impl MXFDataModel {
    /// Whether the dictionary has a class with the key `key`.
    pub open spec fn spec_is_registered(self, key: MXFKey) -> bool {
        def_index_from(self.defs@, key, 0).is_some()
    }

    /// Whether a set of type `key_a` may stand where one of type `key_b` is
    /// asked for: the keys are equal, or `key_a` is a class of the
    /// dictionary that extends `key_b` directly or through others.
    pub open spec fn spec_is_subclass_of(self, key_a: MXFKey, key_b: MXFKey) -> bool {
        key_a == key_b || match def_index_from(self.defs@, key_a, 0) {
            Some(i) => descends_from(self.defs@, i, key_b),
            None => false,
        }
    }

    /// A dictionary without classes.
    pub fn new() -> (model: MXFDataModel)
        ensures
            model.defs@ == Seq::<MXFSetDef>::empty(),
    {
        MXFDataModel { defs: Vec::new() }
    }

    /// The place of the class with the key `key`.
    pub fn find_def(&self, key: &MXFKey) -> (index: Option<usize>)
        ensures
            match index {
                Some(i) => def_index_from(self.defs@, *key, 0) == Some(i as int) && i
                    < self.defs@.len() && self.defs@[i as int].key == *key,
                None => def_index_from(self.defs@, *key, 0).is_none(),
            },
    {
        let mut i: usize = 0;
        while i < self.defs.len()
            invariant
                0 <= i <= self.defs.len(),
                def_index_from(self.defs@, *key, 0) == def_index_from(self.defs@, *key, i as int),
            decreases self.defs.len() - i,
        {
            if self.defs[i].key == *key {
                return Some(i);
            }
            i = i + 1;
        }
        None
    }

    pub fn is_registered(&self, key: &MXFKey) -> (b: bool)
        ensures
            b == self.spec_is_registered(*key),
    {
        self.find_def(key).is_some()
    }

    /// Adds the class `key`, which extends `parent` where one is given.
    /// Nothing is added, and `false` returned, where the dictionary has the
    /// class already or does not have the one it is to extend.
    pub fn register(&mut self, key: MXFKey, parent: Option<MXFKey>) -> (added: bool)
        ensures
            added == (!old(self).spec_is_registered(key) && match parent {
                Some(p) => old(self).spec_is_registered(p),
                None => true,
            }),
            !added ==> final(self).defs@ == old(self).defs@,
            added ==> final(self).defs@ == old(self).defs@.push(
                MXFSetDef {
                    key,
                    parent: match parent {
                        Some(p) => Some(def_index_from(old(self).defs@, p, 0).unwrap() as usize),
                        None => None,
                    },
                },
            ),
    {
        if self.find_def(&key).is_some() {
            return false;
        }
        let parent_index: Option<usize> = match parent {
            Some(p) => match self.find_def(&p) {
                Some(i) => Some(i),
                None => {
                    return false;
                },
            },
            None => None,
        };
        self.defs.push(MXFSetDef { key, parent: parent_index });
        true
    }

    pub fn is_subclass_of(&self, key_a: &MXFKey, key_b: &MXFKey) -> (b: bool)
        ensures
            b == self.spec_is_subclass_of(*key_a, *key_b),
    {
        if *key_a == *key_b {
            return true;
        }
        match self.find_def(key_a) {
            None => false,
            Some(start) => {
                let mut i: usize = start;
                loop
                    invariant
                        i < self.defs.len(),
                        *key_a != *key_b,
                        def_index_from(self.defs@, *key_a, 0) == Some(start as int),
                        descends_from(self.defs@, start as int, *key_b) == descends_from(
                            self.defs@,
                            i as int,
                            *key_b,
                        ),
                    decreases i,
                {
                    if self.defs[i].key == *key_b {
                        return true;
                    }
                    match self.defs[i].parent {
                        Some(p) => {
                            if p < i {
                                i = p;
                            } else {
                                return false;
                            }
                        },
                        None => {
                            return false;
                        },
                    }
                }
            },
        }
    }
}

} // verus!
