//! The header metadata of one file: all its sets, and the lookups that
//! find a set by type, by reference or by package identifier.

use crate::datamodel::MXFDataModel;
use crate::error::MXFError;
use crate::key::{MXFKey, MXFUmid};
use crate::labels::{
    data_definition_set_key, definition_object_identification_item_key,
    essence_container_data_linked_package_uid_item_key, essence_container_data_set_key,
    generic_package_package_uid_item_key, source_package_set_key,
};
use crate::model::{opt_deref, MXFArrayElement, MXFMetadataSet};
use vstd::prelude::*;

verus! {

/// The header partition of a file, as far as the resolution passes read it.
#[derive(Clone, Debug, PartialEq, Eq)]
pub struct MXFPartition {
    pub key: MXFKey,
    pub major_version: u16,
    pub minor_version: u16,
    pub kag_size: u32,
    pub this_partition: u64,
    pub previous_partition: u64,
    pub footer_partition: u64,
    pub header_byte_count: u64,
    pub index_byte_count: u64,
    pub indes_sid: u32,
    pub body_offset: u64,
    pub body_sid: u32,
    pub operational_pattern: MXFKey,
    /// The labels of the essence containers, in the order of the file.
    pub essence_containers: Vec<MXFKey>,
    pub header_mark_in_pos: i64,
    pub index_mark_in_pos: i64,
}

impl MXFPartition {
    pub fn essence_containers(&self) -> (labels: &Vec<MXFKey>)
        ensures
            *labels == self.essence_containers,
    {
        &self.essence_containers
    }
}

/// All metadata sets of one file, with the class dictionary by which their
/// types are judged.
#[derive(Clone, Debug, PartialEq, Eq)]
pub struct MXFHeaderMetadata {
    pub datamodel: MXFDataModel,
    pub sets: Vec<MXFMetadataSet>,
}

/// The index of the first set at or after `start` whose type is exactly
/// `key`.
pub open spec fn set_index_by_key_from(sets: Seq<MXFMetadataSet>, key: MXFKey, start: int) -> Option<
    int,
>
    decreases sets.len() - start,
{
    if start < 0 || start >= sets.len() {
        None
    } else if sets[start].key == key {
        Some(start)
    } else {
        set_index_by_key_from(sets, key, start + 1)
    }
}

/// The index of the first set at or after `start` whose instance identifier
/// is `uid`.
pub open spec fn set_index_by_uid_from(sets: Seq<MXFMetadataSet>, uid: MXFKey, start: int) -> Option<
    int,
>
    decreases sets.len() - start,
{
    if start < 0 || start >= sets.len() {
        None
    } else if sets[start].instance_uid == uid {
        Some(start)
    } else {
        set_index_by_uid_from(sets, uid, start + 1)
    }
}

/// The sets that borrowed sets stand for.
pub open spec fn sets_of(refs: Seq<&MXFMetadataSet>) -> Seq<MXFMetadataSet> {
    refs.map_values(|r: &MXFMetadataSet| *r)
}

impl MXFHeaderMetadata {
    /// The one set whose type is exactly `key`; nothing where the graph has
    /// no such set or more than one.
    pub open spec fn spec_singular_set(self, key: MXFKey) -> Option<MXFMetadataSet> {
        match set_index_by_key_from(self.sets@, key, 0) {
            Some(i) => if set_index_by_key_from(self.sets@, key, i + 1).is_none() {
                Some(self.sets@[i])
            } else {
                None
            },
            None => None,
        }
    }

    /// All sets whose type is exactly `key`, in the order of the graph.
    pub open spec fn spec_sets_by_key(self, key: MXFKey) -> Seq<MXFMetadataSet> {
        self.sets@.filter(|s: MXFMetadataSet| s.key == key)
    }

    /// The set that a reference to `uid` finds: the first set with that
    /// instance identifier, where its type is a class of the dictionary. A
    /// set of an unknown type is dark, and a reference to it finds nothing.
    pub open spec fn spec_deref(self, uid: MXFKey) -> Option<MXFMetadataSet> {
        match set_index_by_uid_from(self.sets@, uid, 0) {
            Some(i) => if self.datamodel.spec_is_registered(self.sets@[i].key) {
                Some(self.sets@[i])
            } else {
                None
            },
            None => None,
        }
    }

    /// The set that an array element refers to.
    pub open spec fn spec_strongref(self, element: MXFArrayElement) -> Option<MXFMetadataSet> {
        match element {
            MXFArrayElement::StrongRef(uid) => self.spec_deref(uid),
            MXFArrayElement::Bytes(_) => None,
        }
    }

    /// The sets that the elements of an array refer to, in order; an
    /// element that resolves to nothing is passed over.
    pub open spec fn spec_resolve_all(self, elements: Seq<MXFArrayElement>) -> Seq<MXFMetadataSet>
        decreases elements.len(),
    {
        if elements.len() == 0 {
            Seq::empty()
        } else {
            let before = self.spec_resolve_all(elements.drop_last());
            match self.spec_strongref(elements.last()) {
                Some(set) => before.push(set),
                None => before,
            }
        }
    }

    /// The label that the data definition set `uuid` stands for.
    pub open spec fn spec_data_def(self, uuid: MXFKey) -> Option<MXFKey> {
        match self.spec_deref(uuid) {
            Some(set) => if self.datamodel.spec_is_subclass_of(set.key, data_definition_set_key()) {
                set.spec_ul(definition_object_identification_item_key())
            } else {
                None
            },
            None => None,
        }
    }

    /// Whether `set` is a source package with the identifier `umid`.
    pub open spec fn spec_is_package(self, set: MXFMetadataSet, umid: MXFUmid) -> bool {
        &&& self.datamodel.spec_is_subclass_of(set.key, source_package_set_key())
        &&& set.spec_umid(generic_package_package_uid_item_key()) == Some(umid)
    }

    /// The index of the first set at or after `start` that is a source
    /// package with the identifier `umid`.
    pub open spec fn spec_package_index_from(self, umid: MXFUmid, start: int) -> Option<int>
        decreases self.sets@.len() - start,
    {
        if start < 0 || start >= self.sets@.len() {
            None
        } else if self.spec_is_package(self.sets@[start], umid) {
            Some(start)
        } else {
            self.spec_package_index_from(umid, start + 1)
        }
    }

    /// The package that a source clip with the source package identifier
    /// `umid` refers to: the first source package of the graph with that
    /// identifier. The all-zero identifier refers to nothing.
    pub open spec fn spec_referenced_package(self, umid: MXFUmid) -> Option<MXFMetadataSet> {
        if umid.spec_is_null() {
            None
        } else {
            match self.spec_package_index_from(umid, 0) {
                Some(i) => Some(self.sets@[i]),
                None => None,
            }
        }
    }

    /// The top-level file source package: the source package whose essence
    /// the file holds, which the one essence container data set of the
    /// graph names by its identifier.
    pub open spec fn spec_top_file_package(self) -> Option<MXFMetadataSet> {
        match self.spec_singular_set(essence_container_data_set_key()) {
            Some(container) => match container.spec_umid(
                essence_container_data_linked_package_uid_item_key(),
            ) {
                Some(umid) => self.spec_referenced_package(umid),
                None => None,
            },
            None => None,
        }
    }

    pub fn new(datamodel: MXFDataModel) -> (header: MXFHeaderMetadata)
        ensures
            header.datamodel == datamodel,
            header.sets@ == Seq::<MXFMetadataSet>::empty(),
    {
        MXFHeaderMetadata { datamodel, sets: Vec::new() }
    }

    /// Appends a set to the graph.
    pub fn add_set(&mut self, set: MXFMetadataSet)
        ensures
            final(self).datamodel == old(self).datamodel,
            final(self).sets@ == old(self).sets@.push(set),
    {
        self.sets.push(set);
    }

    pub fn datamodel(&self) -> (model: &MXFDataModel)
        ensures
            *model == self.datamodel,
    {
        &self.datamodel
    }

    /// The index of the first set at or after `start` whose type is exactly
    /// `mxfkey`.
    fn find_by_key_from(&self, mxfkey: &MXFKey, start: usize) -> (index: Option<usize>)
        ensures
            match index {
                Some(i) => set_index_by_key_from(self.sets@, *mxfkey, start as int) == Some(
                    i as int,
                ) && start <= i < self.sets.len(),
                None => set_index_by_key_from(self.sets@, *mxfkey, start as int).is_none(),
            },
    {
        let mut i: usize = start;
        while i < self.sets.len()
            invariant
                start <= i,
                set_index_by_key_from(self.sets@, *mxfkey, start as int) == set_index_by_key_from(
                    self.sets@,
                    *mxfkey,
                    i as int,
                ),
            decreases self.sets.len() - i,
        {
            if self.sets[i].key == *mxfkey {
                return Some(i);
            }
            i = i + 1;
        }
        None
    }

    /// The one set whose type is exactly `mxfkey`.
    pub fn find_singular_set_by_key(&self, mxfkey: &MXFKey) -> (found: Result<
        &MXFMetadataSet,
        MXFError,
    >)
        ensures
            match found {
                Ok(set) => self.spec_singular_set(*mxfkey) == Some(*set),
                Err(e) => self.spec_singular_set(*mxfkey).is_none() && e == MXFError::SingularSet(
                    *mxfkey,
                ),
            },
    {
        match self.find_by_key_from(mxfkey, 0) {
            Some(i) => match self.find_by_key_from(mxfkey, i + 1) {
                Some(_) => Err(MXFError::SingularSet(*mxfkey)),
                None => Ok(&self.sets[i]),
            },
            None => Err(MXFError::SingularSet(*mxfkey)),
        }
    }

    /// All sets whose type is exactly `mxfkey`, in the order of the graph.
    pub fn find_set_by_key(&self, mxfkey: &MXFKey) -> (found: Vec<&MXFMetadataSet>)
        ensures
            sets_of(found@) == self.spec_sets_by_key(*mxfkey),
    {
        let mut found: Vec<&MXFMetadataSet> = Vec::new();
        let ghost pred = |s: MXFMetadataSet| s.key == *mxfkey;
        let mut i: usize = 0;
        proof {
            assert(self.sets@.take(0) =~= Seq::<MXFMetadataSet>::empty());
            assert(sets_of(found@) =~= Seq::<MXFMetadataSet>::empty());
            reveal(Seq::filter);
        }
        while i < self.sets.len()
            invariant
                0 <= i <= self.sets.len(),
                pred == (|s: MXFMetadataSet| s.key == *mxfkey),
                sets_of(found@) == self.sets@.take(i as int).filter(pred),
            decreases self.sets.len() - i,
        {
            proof {
                assert(self.sets@.take(i + 1).drop_last() =~= self.sets@.take(i as int));
                assert(self.sets@.take(i + 1).last() == self.sets@[i as int]);
                reveal(Seq::filter);
            }
            if self.sets[i].key == *mxfkey {
                let ghost before = found@;
                found.push(&self.sets[i]);
                proof {
                    assert(sets_of(found@) =~= sets_of(before).push(self.sets@[i as int]));
                }
            }
            i = i + 1;
        }
        proof {
            assert(self.sets@.take(i as int) =~= self.sets@);
        }
        found
    }

    /// The set that a reference to the instance identifier `uid` finds.
    pub fn deref(&self, uid: &MXFKey) -> (found: Option<&MXFMetadataSet>)
        ensures
            opt_deref(found) == self.spec_deref(*uid),
    {
        let mut i: usize = 0;
        while i < self.sets.len()
            invariant
                0 <= i <= self.sets.len(),
                set_index_by_uid_from(self.sets@, *uid, 0) == set_index_by_uid_from(
                    self.sets@,
                    *uid,
                    i as int,
                ),
            decreases self.sets.len() - i,
        {
            if self.sets[i].instance_uid == *uid {
                if self.datamodel.is_registered(&self.sets[i].key) {
                    return Some(&self.sets[i]);
                } else {
                    return None;
                }
            }
            i = i + 1;
        }
        None
    }

    /// The set that an array element refers to.
    pub fn get_strongref(&self, value: &MXFArrayElement) -> (found: Option<&MXFMetadataSet>)
        ensures
            opt_deref(found) == self.spec_strongref(*value),
    {
        match value {
            MXFArrayElement::StrongRef(uid) => self.deref(uid),
            MXFArrayElement::Bytes(_) => None,
        }
    }

    /// The sets that the elements of an array refer to, in order, without
    /// those that resolve to nothing.
    pub fn resolve_all(&self, elements: &Vec<MXFArrayElement>) -> (found: Vec<&MXFMetadataSet>)
        ensures
            sets_of(found@) == self.spec_resolve_all(elements@),
    {
        let mut found: Vec<&MXFMetadataSet> = Vec::new();
        let mut i: usize = 0;
        proof {
            assert(sets_of(found@) =~= Seq::<MXFMetadataSet>::empty());
        }
        while i < elements.len()
            invariant
                0 <= i <= elements.len(),
                sets_of(found@) == self.spec_resolve_all(elements@.take(i as int)),
            decreases elements.len() - i,
        {
            proof {
                assert(elements@.take(i + 1).drop_last() =~= elements@.take(i as int));
                assert(elements@.take(i + 1).last() == elements@[i as int]);
            }
            match self.get_strongref(&elements[i]) {
                Some(set) => {
                    let ghost before = found@;
                    found.push(set);
                    proof {
                        assert(sets_of(found@) =~= sets_of(before).push(*set));
                    }
                },
                None => {},
            }
            i = i + 1;
        }
        proof {
            assert(elements@.take(i as int) =~= elements@);
        }
        found
    }

    /// The label that the data definition set `uuid` stands for.
    pub fn get_data_def(&self, uuid: &MXFKey) -> (found: Option<MXFKey>)
        ensures
            found == self.spec_data_def(*uuid),
    {
        match self.deref(uuid) {
            Some(set) => {
                if self.datamodel.is_subclass_of(&set.key, &data_definition_set_key()) {
                    set.get_ul(&definition_object_identification_item_key())
                } else {
                    None
                }
            },
            None => None,
        }
    }

    /// The package that a source clip with the source package identifier
    /// `source_pkg_id` refers to.
    pub fn get_referenced_package(&self, source_pkg_id: &MXFUmid) -> (found: Option<
        &MXFMetadataSet,
    >)
        ensures
            opt_deref(found) == self.spec_referenced_package(*source_pkg_id),
    {
        if *source_pkg_id == MXFUmid::default() {
            return None;
        }
        let package_key = source_package_set_key();
        let uid_key = generic_package_package_uid_item_key();
        let mut i: usize = 0;
        while i < self.sets.len()
            invariant
                0 <= i <= self.sets.len(),
                package_key == source_package_set_key(),
                uid_key == generic_package_package_uid_item_key(),
                !source_pkg_id.spec_is_null(),
                self.spec_package_index_from(*source_pkg_id, 0) == self.spec_package_index_from(
                    *source_pkg_id,
                    i as int,
                ),
            decreases self.sets.len() - i,
        {
            if self.datamodel.is_subclass_of(&self.sets[i].key, &package_key) {
                match self.sets[i].get_umid(&uid_key) {
                    Some(umid) => {
                        if umid == *source_pkg_id {
                            return Some(&self.sets[i]);
                        }
                    },
                    None => {},
                }
            }
            i = i + 1;
        }
        None
    }

    /// The top-level file source package.
    pub fn get_top_file_package(&self) -> (found: Option<&MXFMetadataSet>)
        ensures
            opt_deref(found) == self.spec_top_file_package(),
    {
        let container = match self.find_singular_set_by_key(&essence_container_data_set_key()) {
            Ok(set) => set,
            Err(_) => {
                return None;
            },
        };
        let umid = match container.get_umid(&essence_container_data_linked_package_uid_item_key()) {
            Some(umid) => umid,
            None => {
                return None;
            },
        };
        self.get_referenced_package(&umid)
    }
}

} // verus!
