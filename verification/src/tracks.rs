//! What a set gives through the graph around it: the set behind a
//! reference, the tracks of a package, the sequence of a track, and lists
//! of tagged values.

use crate::error::MXFError;
use crate::header::{sets_of, MXFHeaderMetadata};
use crate::key::MXFKey;
use crate::labels::{
    generic_package_mob_attribute_list_item_key, generic_package_tracks_item_key,
    generic_track_sequence_item_key, sequence_set_key, sequence_structural_components_item_key,
    structural_component_data_definition_item_key, structural_component_duration_item_key,
    tagged_value_name_item_key, tagged_value_value_item_key,
};
use crate::model::{
    decode_text, opt_deref, opt_string_view, spec_text, text_of_units, text_units, MXFArrayElement,
    MXFMetadataSet, MXFValue,
};
use vstd::prelude::*;

verus! {

/// The code units that each string of a list holds.
pub open spec fn units_of(strings: Seq<Vec<u16>>) -> Seq<Seq<u16>> {
    strings.map_values(|s: Vec<u16>| s@)
}

/// The name and the value of the tagged value `set`, as code units, where
/// both are strings.
pub open spec fn spec_tagged_units(set: MXFMetadataSet) -> Option<(Seq<u16>, Seq<u16>)> {
    match (
        set.spec_string_units(tagged_value_name_item_key()),
        set.spec_string_units(tagged_value_value_item_key()),
    ) {
        (Some(name), Some(value)) => Some((name, value)),
        _ => None,
    }
}

/// The names of the tagged values among `sets` that hold a string, in
/// order.
pub open spec fn spec_tagged_names(sets: Seq<MXFMetadataSet>) -> Seq<Seq<u16>>
    decreases sets.len(),
{
    if sets.len() == 0 {
        Seq::empty()
    } else {
        let before = spec_tagged_names(sets.drop_last());
        match spec_tagged_units(sets.last()) {
            Some((name, _)) => before.push(name),
            None => before,
        }
    }
}

/// The values of the tagged values among `sets` that hold a string, in
/// order: as many as `spec_tagged_names` gives names, each beside its name.
pub open spec fn spec_tagged_values(sets: Seq<MXFMetadataSet>) -> Seq<Seq<u16>>
    decreases sets.len(),
{
    if sets.len() == 0 {
        Seq::empty()
    } else {
        let before = spec_tagged_values(sets.drop_last());
        match spec_tagged_units(sets.last()) {
            Some((_, value)) => before.push(value),
            None => before,
        }
    }
}

/// The index of the first name at or after `start` whose text is that of
/// `name`.
pub open spec fn attribute_index_from(name: Seq<u16>, names: Seq<Seq<u16>>, start: int) -> Option<
    int,
>
    decreases names.len() - start,
{
    if start < 0 || start >= names.len() {
        None
    } else if text_units(names[start]) == text_units(name) {
        Some(start)
    } else {
        attribute_index_from(name, names, start + 1)
    }
}

/// The text of the value that stands beside the first name whose text is
/// that of `name`; nothing where no name matches, where no value stands
/// beside the name, or where the value is not well-formed UTF-16.
pub open spec fn spec_mob_attribute(
    name: Seq<u16>,
    names: Seq<Seq<u16>>,
    values: Seq<Seq<u16>>,
) -> Option<Seq<char>> {
    match attribute_index_from(name, names, 0) {
        Some(i) => if i < values.len() {
            spec_text(values[i])
        } else {
            None
        },
        None => None,
    }
}

/// Whether two lists of code units hold the same units.
fn units_equal(a: &Vec<u16>, b: &Vec<u16>) -> (same: bool)
    ensures
        same == (a@ == b@),
{
    if a.len() != b.len() {
        return false;
    }
    let mut i: usize = 0;
    while i < a.len()
        invariant
            0 <= i <= a.len(),
            a.len() == b.len(),
            forall|j: int| 0 <= j < i ==> a@[j] == b@[j],
        decreases a.len() - i,
    {
        if a[i] != b[i] {
            return false;
        }
        i = i + 1;
    }
    proof {
        assert(a@ =~= b@);
    }
    true
}

/// Looks a name up in a list of attribute names and gives the text of the
/// value that stands beside it.
pub(crate) fn find_mob_attribute(name: &Vec<u16>, names: &Vec<Vec<u16>>, values: &Vec<Vec<u16>>) -> (value:
    Option<String>)
    ensures
        opt_string_view(value) == spec_mob_attribute(name@, units_of(names@), units_of(values@)),
{
    let wanted = text_of_units(name);
    let mut i: usize = 0;
    while i < names.len()
        invariant
            0 <= i <= names.len(),
            wanted@ == text_units(name@),
            attribute_index_from(name@, units_of(names@), 0) == attribute_index_from(
                name@,
                units_of(names@),
                i as int,
            ),
        decreases names.len() - i,
    {
        let candidate = text_of_units(&names[i]);
        if units_equal(&candidate, &wanted) {
            if i < values.len() {
                return decode_text(&values[i]);
            } else {
                return None;
            }
        }
        i = i + 1;
    }
    None
}

impl MXFMetadataSet {
    /// The set that the strong reference item `key` refers to.
    pub open spec fn spec_strongref(self, header: MXFHeaderMetadata, key: MXFKey) -> Option<
        MXFMetadataSet,
    > {
        match self.spec_strongref_uid(key) {
            Some(uid) => header.spec_deref(uid),
            None => None,
        }
    }

    /// The tracks of a package: the sets that the elements of its track
    /// array refer to.
    pub open spec fn spec_package_tracks(self, header: MXFHeaderMetadata) -> Option<
        Seq<MXFMetadataSet>,
    > {
        match self.spec_array(generic_package_tracks_item_key()) {
            Some(elements) => Some(header.spec_resolve_all(elements)),
            None => None,
        }
    }

    /// The data definition of a structural component: the label that the
    /// item holds, or, where the item is a weak reference, the instance
    /// identifier of the data definition set that it points at.
    pub open spec fn spec_data_definition(self) -> Option<MXFKey> {
        match self.spec_item(structural_component_data_definition_item_key()) {
            Some(MXFValue::UL(label)) => Some(label),
            Some(MXFValue::WeakRef(uid)) => Some(uid),
            _ => None,
        }
    }

    /// The data definition of a track: that of its sequence.
    pub open spec fn spec_track_datadef(self, header: MXFHeaderMetadata) -> Option<MXFKey> {
        match self.spec_strongref(header, generic_track_sequence_item_key()) {
            Some(sequence) => sequence.spec_data_definition(),
            None => None,
        }
    }

    /// The duration of a track: that of its sequence.
    pub open spec fn spec_track_duration(self, header: MXFHeaderMetadata) -> Option<i64> {
        match self.spec_strongref(header, generic_track_sequence_item_key()) {
            Some(sequence) => sequence.spec_length(structural_component_duration_item_key()),
            None => None,
        }
    }

    /// The one structural component of a track, where it is of the type
    /// `key`: the sequence of the track itself where that is no true
    /// sequence, else the only component of the sequence.
    pub open spec fn spec_single_track_component(
        self,
        header: MXFHeaderMetadata,
        key: MXFKey,
    ) -> Option<MXFMetadataSet> {
        match self.spec_strongref(header, generic_track_sequence_item_key()) {
            Some(sequence) => {
                let component = if header.datamodel.spec_is_subclass_of(
                    sequence.key,
                    sequence_set_key(),
                ) {
                    match sequence.spec_array(sequence_structural_components_item_key()) {
                        Some(elements) => if elements.len() == 1 {
                            header.spec_strongref(elements[0])
                        } else {
                            None
                        },
                        None => None,
                    }
                } else {
                    Some(sequence)
                };
                match component {
                    Some(c) => if header.datamodel.spec_is_subclass_of(c.key, key) {
                        Some(c)
                    } else {
                        None
                    },
                    None => None,
                }
            },
            None => None,
        }
    }

    /// The names and values of the string tagged values that the array
    /// item `key` refers to.
    pub open spec fn spec_string_tagged_values(self, header: MXFHeaderMetadata, key: MXFKey) -> Option<
        (Seq<Seq<u16>>, Seq<Seq<u16>>),
    > {
        match self.spec_array(key) {
            Some(elements) => {
                let sets = header.spec_resolve_all(elements);
                Some((spec_tagged_names(sets), spec_tagged_values(sets)))
            },
            None => None,
        }
    }

    pub fn get_strongref<'a>(&self, header: &'a MXFHeaderMetadata, mxfkey: &MXFKey) -> (found:
        Option<&'a MXFMetadataSet>)
        ensures
            opt_deref(found) == self.spec_strongref(*header, *mxfkey),
    {
        match self.get_item(mxfkey) {
            Some(MXFValue::StrongRef(uid)) => header.deref(uid),
            _ => None,
        }
    }

    pub fn is_subclass_of(&self, header: &MXFHeaderMetadata, mxfkey: &MXFKey) -> (b: bool)
        ensures
            b == header.datamodel.spec_is_subclass_of(self.key, *mxfkey),
    {
        header.datamodel.is_subclass_of(&self.key, mxfkey)
    }

    pub fn get_package_tracks<'a>(&self, header: &'a MXFHeaderMetadata) -> (tracks: Option<
        Vec<&'a MXFMetadataSet>,
    >)
        ensures
            match tracks {
                Some(v) => self.spec_package_tracks(*header) == Some(sets_of(v@)),
                None => self.spec_package_tracks(*header).is_none(),
            },
    {
        match self.initialize_array_iterator(&generic_package_tracks_item_key()) {
            Some(elements) => Some(header.resolve_all(elements)),
            None => None,
        }
    }

    /// The data definition of a structural component.
    pub fn get_data_definition(&self) -> (datadef: Option<MXFKey>)
        ensures
            datadef == self.spec_data_definition(),
    {
        match self.get_item(&structural_component_data_definition_item_key()) {
            Some(MXFValue::UL(label)) => Some(*label),
            Some(MXFValue::WeakRef(uid)) => Some(*uid),
            _ => None,
        }
    }

    pub fn get_track_datadef(&self, header: &MXFHeaderMetadata) -> (datadef: Option<MXFKey>)
        ensures
            datadef == self.spec_track_datadef(*header),
    {
        match self.get_strongref(header, &generic_track_sequence_item_key()) {
            Some(sequence) => sequence.get_data_definition(),
            None => None,
        }
    }

    pub fn get_track_duration(&self, header: &MXFHeaderMetadata) -> (duration: Option<i64>)
        ensures
            duration == self.spec_track_duration(*header),
    {
        match self.get_strongref(header, &generic_track_sequence_item_key()) {
            Some(sequence) => sequence.get_length(&structural_component_duration_item_key()),
            None => None,
        }
    }

    pub fn get_single_track_component<'a>(
        &self,
        header: &'a MXFHeaderMetadata,
        mxfkey: &MXFKey,
    ) -> (component: Option<&'a MXFMetadataSet>)
        ensures
            opt_deref(component) == self.spec_single_track_component(*header, *mxfkey),
    {
        let sequence_set = match self.get_strongref(header, &generic_track_sequence_item_key()) {
            Some(x) => x,
            None => {
                return None;
            },
        };
        let component_set = if sequence_set.is_subclass_of(header, &sequence_set_key()) {
            let elements = match sequence_set.initialize_array_iterator(&sequence_structural_components_item_key()) {
                Some(x) => x,
                None => {
                    return None;
                },
            };
            if elements.len() != 1 {
                return None;
            }
            match header.get_strongref(&elements[0]) {
                Some(x) => x,
                None => {
                    return None;
                },
            }
        } else {
            sequence_set
        };
        if !component_set.is_subclass_of(header, mxfkey) {
            return None;
        }
        Some(component_set)
    }

    /// The name and the value of a tagged value as text. Both must be
    /// strings of well-formed UTF-16.
    pub fn read_string_tagged_value(&self) -> (pair: Result<(String, String), MXFError>)
        ensures
            match pair {
                Ok((name, value)) => match spec_tagged_units(*self) {
                    Some((n, v)) => spec_text(n) == Some(name@) && spec_text(v) == Some(value@),
                    None => false,
                },
                Err(e) => match spec_tagged_units(*self) {
                    Some((n, v)) => if spec_text(n).is_none() {
                        e == MXFError::TaggedValueName
                    } else {
                        spec_text(v).is_none() && e == MXFError::TaggedValueValue
                    },
                    None => e == MXFError::TaggedValue,
                },
            },
    {
        let name_units = match self.get_item(&tagged_value_name_item_key()) {
            Some(MXFValue::Utf16String(units)) => units,
            _ => {
                return Err(MXFError::TaggedValue);
            },
        };
        let value_units = match self.get_item(&tagged_value_value_item_key()) {
            Some(MXFValue::Utf16String(units)) => units,
            _ => {
                return Err(MXFError::TaggedValue);
            },
        };
        let name = match decode_text(name_units) {
            Some(s) => s,
            None => {
                return Err(MXFError::TaggedValueName);
            },
        };
        let value = match decode_text(value_units) {
            Some(s) => s,
            None => {
                return Err(MXFError::TaggedValueValue);
            },
        };
        Ok((name, value))
    }

    /// The names and the values of the string tagged values that the array
    /// item `mxfkey` refers to, as two lists of equal length.
    pub fn read_string_tagged_values(&self, header: &MXFHeaderMetadata, mxfkey: &MXFKey) -> (lists:
        Option<(Vec<Vec<u16>>, Vec<Vec<u16>>)>)
        ensures
            match lists {
                Some((names, values)) => self.spec_string_tagged_values(*header, *mxfkey) == Some(
                    (units_of(names@), units_of(values@)),
                ),
                None => self.spec_string_tagged_values(*header, *mxfkey).is_none(),
            },
    {
        let elements = match self.initialize_array_iterator(mxfkey) {
            Some(x) => x,
            None => {
                return None;
            },
        };
        let sets = header.resolve_all(elements);
        let mut names: Vec<Vec<u16>> = Vec::new();
        let mut values: Vec<Vec<u16>> = Vec::new();
        let mut i: usize = 0;
        proof {
            assert(units_of(names@) =~= Seq::<Seq<u16>>::empty());
            assert(units_of(values@) =~= Seq::<Seq<u16>>::empty());
            assert(sets_of(sets@).take(0) =~= Seq::<MXFMetadataSet>::empty());
        }
        while i < sets.len()
            invariant
                0 <= i <= sets.len(),
                units_of(names@) == spec_tagged_names(sets_of(sets@).take(i as int)),
                units_of(values@) == spec_tagged_values(sets_of(sets@).take(i as int)),
            decreases sets.len() - i,
        {
            proof {
                let all = sets_of(sets@);
                assert(all.take(i + 1).drop_last() =~= all.take(i as int));
                assert(all.take(i + 1).last() == *sets@[i as int]);
            }
            let set = sets[i];
            match (
                set.get_item(&tagged_value_name_item_key()),
                set.get_item(&tagged_value_value_item_key()),
            ) {
                (Some(MXFValue::Utf16String(name)), Some(MXFValue::Utf16String(value))) => {
                    let ghost names_before = names@;
                    let ghost values_before = values@;
                    let name_copy = copy_units(name);
                    let value_copy = copy_units(value);
                    names.push(name_copy);
                    values.push(value_copy);
                    proof {
                        assert(units_of(names@) =~= units_of(names_before).push(name@));
                        assert(units_of(values@) =~= units_of(values_before).push(value@));
                    }
                },
                _ => {},
            }
            i = i + 1;
        }
        proof {
            assert(sets_of(sets@).take(i as int) =~= sets_of(sets@));
        }
        Some((names, values))
    }

    /// The names and the values of the string attributes of a package.
    pub fn read_string_mob_attributes(&self, header: &MXFHeaderMetadata) -> (lists: Option<
        (Vec<Vec<u16>>, Vec<Vec<u16>>),
    >)
        ensures
            match lists {
                Some((names, values)) => self.spec_string_tagged_values(
                    *header,
                    generic_package_mob_attribute_list_item_key(),
                ) == Some((units_of(names@), units_of(values@))),
                None => self.spec_string_tagged_values(
                    *header,
                    generic_package_mob_attribute_list_item_key(),
                ).is_none(),
            },
    {
        self.read_string_tagged_values(header, &generic_package_mob_attribute_list_item_key())
    }
}

/// A copy of a list of code units.
fn copy_units(units: &Vec<u16>) -> (copy: Vec<u16>)
    ensures
        copy@ == units@,
{
    let mut copy: Vec<u16> = Vec::new();
    let mut i: usize = 0;
    while i < units.len()
        invariant
            0 <= i <= units.len(),
            copy@ == units@.take(i as int),
        decreases units.len() - i,
    {
        copy.push(units[i]);
        proof {
            assert(units@.take(i as int).push(units@[i as int]) =~= units@.take(i + 1));
        }
        i = i + 1;
    }
    proof {
        assert(units@.take(i as int) =~= units@);
    }
    copy
}

} // verus!
