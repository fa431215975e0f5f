//! Metadata sets: typed nodes that hold typed items under keys.

use crate::key::{MXFKey, MXFUmid};
use crate::rational::MXFRational;
use vstd::prelude::*;

verus! {

/// A calendar date and time of day; `qmsec` holds the fraction of the
/// second.
#[derive(Clone, Copy, Debug, PartialEq, Eq, Structural, Hash)]
pub struct MXFTimestamp {
    pub year: i16,
    pub month: u8,
    pub day: u8,
    pub hour: u8,
    pub min: u8,
    pub sec: u8,
    pub qmsec: u8,
}

impl Default for MXFTimestamp {
    fn default() -> (t: MXFTimestamp)
        ensures
            t == (MXFTimestamp { year: 0, month: 0, day: 0, hour: 0, min: 0, sec: 0, qmsec: 0 }),
    {
        MXFTimestamp { year: 0, month: 0, day: 0, hour: 0, min: 0, sec: 0, qmsec: 0 }
    }
}

/// One element of an array item: a strong reference to another set, by
/// that set's instance identifier, or bytes that the graph does not
/// interpret.
#[derive(Clone, Debug, PartialEq, Eq)]
pub enum MXFArrayElement {
    StrongRef(MXFKey),
    Bytes(Vec<u8>),
}

/// The typed value of one item of a metadata set.
#[derive(Clone, Debug, PartialEq, Eq)]
pub enum MXFValue {
    /// UTF-16 code units; the text ends before the first zero unit.
    Utf16String(Vec<u16>),
    Rational(MXFRational),
    UInt8(u8),
    UInt16(u16),
    UInt32(u32),
    Int8(i8),
    Int16(i16),
    Int32(i32),
    Umid(MXFUmid),
    Timestamp(MXFTimestamp),
    Length(i64),
    Position(i64),
    UL(MXFKey),
    Array(Vec<MXFArrayElement>),
    /// The instance identifier of a set that this set owns.
    StrongRef(MXFKey),
    /// The instance identifier of a set that this set points at.
    WeakRef(MXFKey),
}

/// One item of a metadata set: the key that says what the item is, and its
/// value.
#[derive(Clone, Debug, PartialEq, Eq)]
pub struct MXFMetadataItem {
    pub key: MXFKey,
    pub value: MXFValue,
}

/// A typed node of the header metadata graph.
#[derive(Clone, Debug, PartialEq, Eq)]
pub struct MXFMetadataSet {
    /// The type of the set.
    pub key: MXFKey,
    /// The identifier by which references find the set.
    pub instance_uid: MXFKey,
    pub items: Vec<MXFMetadataItem>,
}

/// What a borrowed optional value holds.
pub open spec fn opt_deref<T>(o: Option<&T>) -> Option<T> {
    match o {
        Some(r) => Some(*r),
        None => None,
    }
}

/// The characters of an optional string.
pub open spec fn opt_string_view(o: Option<String>) -> Option<Seq<char>> {
    match o {
        Some(s) => Some(s@),
        None => None,
    }
}

/// The index of the first item at or after `start` that has the key `key`.
pub open spec fn item_index_from(items: Seq<MXFMetadataItem>, key: MXFKey, start: int) -> Option<
    int,
>
    decreases items.len() - start,
{
    if start < 0 || start >= items.len() {
        None
    } else if items[start].key == key {
        Some(start)
    } else {
        item_index_from(items, key, start + 1)
    }
}

/// The index of the first zero unit of `units`, or their number where none
/// is zero.
pub open spec fn text_len_from(units: Seq<u16>, start: int) -> int
    decreases units.len() - start,
{
    if start < 0 || start >= units.len() {
        units.len() as int
    } else if units[start] == 0 {
        start
    } else {
        text_len_from(units, start + 1)
    }
}

/// The code units of a string value up to, and without, the first zero
/// unit.
pub open spec fn text_units(units: Seq<u16>) -> Seq<u16> {
    units.take(text_len_from(units, 0))
}

/// The text that UTF-16 code units stand for, where they are well formed.
pub uninterp spec fn utf16_decoded(units: Seq<u16>) -> Option<Seq<char>>;

/// Copies the code units of a string value up to the first zero unit.
pub fn text_of_units(units: &Vec<u16>) -> (text: Vec<u16>)
    ensures
        text@ == text_units(units@),
{
    let mut text: Vec<u16> = Vec::new();
    let mut i: usize = 0;
    while i < units.len() && units[i] != 0
        invariant
            0 <= i <= units.len(),
            text@ == units@.take(i as int),
            text_len_from(units@, 0) == text_len_from(units@, i as int),
        decreases units.len() - i,
    {
        text.push(units[i]);
        proof {
            assert(units@.take(i as int).push(units@[i as int]) =~= units@.take(i + 1));
        }
        i = i + 1;
    }
    text
}

/// Calls `String::from_utf16`. The contract gives the result of decoding a
/// name, `utf16_decoded`, and claims that the call returns the decoded text
/// where the units are well formed and nothing where they are not.
#[verifier::external_body]
fn decode_utf16(units: &Vec<u16>) -> (text: Option<String>)
    ensures
        opt_string_view(text) == utf16_decoded(units@),
{
    String::from_utf16(units.as_slice()).ok()
}

/// The text of a string value: its code units up to the first zero unit,
/// decoded; nothing where they are not well-formed UTF-16.
pub open spec fn spec_text(units: Seq<u16>) -> Option<Seq<char>> {
    utf16_decoded(text_units(units))
}

/// Decodes a string value.
pub fn decode_text(units: &Vec<u16>) -> (text: Option<String>)
    ensures
        opt_string_view(text) == spec_text(units@),
{
    let text = text_of_units(units);
    decode_utf16(&text)
}

impl MXFMetadataSet {
    /// The value of the first item that has the key `key`.
    pub open spec fn spec_item(self, key: MXFKey) -> Option<MXFValue> {
        match item_index_from(self.items@, key, 0) {
            Some(i) => Some(self.items@[i].value),
            None => None,
        }
    }

    pub open spec fn spec_has_item(self, key: MXFKey) -> bool {
        self.spec_item(key).is_some()
    }

    /// The text of the string item `key`.
    pub open spec fn spec_string(self, key: MXFKey) -> Option<Seq<char>> {
        match self.spec_item(key) {
            Some(MXFValue::Utf16String(units)) => spec_text(units@),
            _ => None,
        }
    }

    /// The code units of the string item `key`.
    pub open spec fn spec_string_units(self, key: MXFKey) -> Option<Seq<u16>> {
        match self.spec_item(key) {
            Some(MXFValue::Utf16String(units)) => Some(units@),
            _ => None,
        }
    }

    /// The rational item `key`; a ratio with denominator zero is no value.
    pub open spec fn spec_rational(self, key: MXFKey) -> Option<MXFRational> {
        match self.spec_item(key) {
            Some(MXFValue::Rational(r)) => if r.denominator != 0 {
                Some(r)
            } else {
                None
            },
            _ => None,
        }
    }

    pub open spec fn spec_uint8(self, key: MXFKey) -> Option<u8> {
        match self.spec_item(key) {
            Some(MXFValue::UInt8(v)) => Some(v),
            _ => None,
        }
    }

    pub open spec fn spec_uint16(self, key: MXFKey) -> Option<u16> {
        match self.spec_item(key) {
            Some(MXFValue::UInt16(v)) => Some(v),
            _ => None,
        }
    }

    pub open spec fn spec_uint32(self, key: MXFKey) -> Option<u32> {
        match self.spec_item(key) {
            Some(MXFValue::UInt32(v)) => Some(v),
            _ => None,
        }
    }

    pub open spec fn spec_int32(self, key: MXFKey) -> Option<i32> {
        match self.spec_item(key) {
            Some(MXFValue::Int32(v)) => Some(v),
            _ => None,
        }
    }

    pub open spec fn spec_umid(self, key: MXFKey) -> Option<MXFUmid> {
        match self.spec_item(key) {
            Some(MXFValue::Umid(v)) => Some(v),
            _ => None,
        }
    }

    pub open spec fn spec_timestamp(self, key: MXFKey) -> Option<MXFTimestamp> {
        match self.spec_item(key) {
            Some(MXFValue::Timestamp(v)) => Some(v),
            _ => None,
        }
    }

    pub open spec fn spec_ul(self, key: MXFKey) -> Option<MXFKey> {
        match self.spec_item(key) {
            Some(MXFValue::UL(v)) => Some(v),
            _ => None,
        }
    }

    pub open spec fn spec_length(self, key: MXFKey) -> Option<i64> {
        match self.spec_item(key) {
            Some(MXFValue::Length(v)) => Some(v),
            _ => None,
        }
    }

    pub open spec fn spec_position(self, key: MXFKey) -> Option<i64> {
        match self.spec_item(key) {
            Some(MXFValue::Position(v)) => Some(v),
            _ => None,
        }
    }

    /// The elements of the array item `key`.
    pub open spec fn spec_array(self, key: MXFKey) -> Option<Seq<MXFArrayElement>> {
        match self.spec_item(key) {
            Some(MXFValue::Array(elements)) => Some(elements@),
            _ => None,
        }
    }

    /// The instance identifier that the strong reference item `key` holds.
    pub open spec fn spec_strongref_uid(self, key: MXFKey) -> Option<MXFKey> {
        match self.spec_item(key) {
            Some(MXFValue::StrongRef(uid)) => Some(uid),
            _ => None,
        }
    }

    pub fn new(key: MXFKey, instance_uid: MXFKey) -> (set: MXFMetadataSet)
        ensures
            set.key == key,
            set.instance_uid == instance_uid,
            set.items@ == Seq::<MXFMetadataItem>::empty(),
    {
        MXFMetadataSet { key, instance_uid, items: Vec::new() }
    }

    /// Appends an item. An earlier item with the same key stays the one
    /// that is found.
    pub fn add_item(&mut self, key: MXFKey, value: MXFValue)
        ensures
            final(self).key == old(self).key,
            final(self).instance_uid == old(self).instance_uid,
            final(self).items@ == old(self).items@.push(MXFMetadataItem { key, value }),
    {
        self.items.push(MXFMetadataItem { key, value });
    }

    /// The value of the first item that has the key `mxfkey`.
    pub fn get_item(&self, mxfkey: &MXFKey) -> (value: Option<&MXFValue>)
        ensures
            opt_deref(value) == self.spec_item(*mxfkey),
    {
        let mut i: usize = 0;
        while i < self.items.len()
            invariant
                0 <= i <= self.items.len(),
                item_index_from(self.items@, *mxfkey, 0) == item_index_from(
                    self.items@,
                    *mxfkey,
                    i as int,
                ),
            decreases self.items.len() - i,
        {
            if self.items[i].key == *mxfkey {
                return Some(&self.items[i].value);
            }
            i = i + 1;
        }
        None
    }

    pub fn has_item(&self, mxfkey: &MXFKey) -> (b: bool)
        ensures
            b == self.spec_has_item(*mxfkey),
    {
        self.get_item(mxfkey).is_some()
    }

    pub fn get_string(&self, mxfkey: &MXFKey) -> (value: Option<String>)
        ensures
            opt_string_view(value) == self.spec_string(*mxfkey),
    {
        match self.get_item(mxfkey) {
            Some(MXFValue::Utf16String(units)) => decode_text(units),
            _ => None,
        }
    }

    pub fn get_rational(&self, mxfkey: &MXFKey) -> (value: Option<MXFRational>)
        ensures
            value == self.spec_rational(*mxfkey),
    {
        match self.get_item(mxfkey) {
            Some(MXFValue::Rational(r)) => if r.denominator != 0 {
                Some(*r)
            } else {
                None
            },
            _ => None,
        }
    }

    pub fn get_uint8(&self, mxfkey: &MXFKey) -> (value: Option<u8>)
        ensures
            value == self.spec_uint8(*mxfkey),
    {
        match self.get_item(mxfkey) {
            Some(MXFValue::UInt8(v)) => Some(*v),
            _ => None,
        }
    }

    pub fn get_uint16(&self, mxfkey: &MXFKey) -> (value: Option<u16>)
        ensures
            value == self.spec_uint16(*mxfkey),
    {
        match self.get_item(mxfkey) {
            Some(MXFValue::UInt16(v)) => Some(*v),
            _ => None,
        }
    }

    pub fn get_uint32(&self, mxfkey: &MXFKey) -> (value: Option<u32>)
        ensures
            value == self.spec_uint32(*mxfkey),
    {
        match self.get_item(mxfkey) {
            Some(MXFValue::UInt32(v)) => Some(*v),
            _ => None,
        }
    }

    pub fn get_int32(&self, mxfkey: &MXFKey) -> (value: Option<i32>)
        ensures
            value == self.spec_int32(*mxfkey),
    {
        match self.get_item(mxfkey) {
            Some(MXFValue::Int32(v)) => Some(*v),
            _ => None,
        }
    }

    pub fn get_umid(&self, mxfkey: &MXFKey) -> (value: Option<MXFUmid>)
        ensures
            value == self.spec_umid(*mxfkey),
    {
        match self.get_item(mxfkey) {
            Some(MXFValue::Umid(v)) => Some(*v),
            _ => None,
        }
    }

    pub fn get_timestamp(&self, mxfkey: &MXFKey) -> (value: Option<MXFTimestamp>)
        ensures
            value == self.spec_timestamp(*mxfkey),
    {
        match self.get_item(mxfkey) {
            Some(MXFValue::Timestamp(v)) => Some(*v),
            _ => None,
        }
    }

    pub fn get_ul(&self, mxfkey: &MXFKey) -> (value: Option<MXFKey>)
        ensures
            value == self.spec_ul(*mxfkey),
    {
        match self.get_item(mxfkey) {
            Some(MXFValue::UL(v)) => Some(*v),
            _ => None,
        }
    }

    pub fn get_length(&self, mxfkey: &MXFKey) -> (value: Option<i64>)
        ensures
            value == self.spec_length(*mxfkey),
    {
        match self.get_item(mxfkey) {
            Some(MXFValue::Length(v)) => Some(*v),
            _ => None,
        }
    }

    pub fn get_position(&self, mxfkey: &MXFKey) -> (value: Option<i64>)
        ensures
            value == self.spec_position(*mxfkey),
    {
        match self.get_item(mxfkey) {
            Some(MXFValue::Position(v)) => Some(*v),
            _ => None,
        }
    }

    /// The elements of the array item `mxfkey`, to be walked in order.
    pub fn initialize_array_iterator(&self, mxfkey: &MXFKey) -> (elements: Option<
        &Vec<MXFArrayElement>,
    >)
        ensures
            match elements {
                Some(v) => self.spec_array(*mxfkey) == Some(v@),
                None => self.spec_array(*mxfkey).is_none(),
            },
    {
        match self.get_item(mxfkey) {
            Some(MXFValue::Array(elements)) => Some(elements),
            _ => None,
        }
    }

    /// The number of elements of the array item `mxfkey`, where it fits.
    pub fn get_array_len(&self, mxfkey: &MXFKey) -> (count: Option<u32>)
        ensures
            count == match self.spec_array(*mxfkey) {
                Some(elements) => if elements.len() <= u32::MAX {
                    Some(elements.len() as u32)
                } else {
                    None
                },
                None => None,
            },
    {
        match self.initialize_array_iterator(mxfkey) {
            Some(elements) => if elements.len() <= u32::MAX as usize {
                Some(elements.len() as u32)
            } else {
                None
            },
            None => None,
        }
    }

    /// The element at `index` of the array item `mxfkey`.
    pub fn get_array_element(&self, mxfkey: &MXFKey, index: u32) -> (element: Option<
        &MXFArrayElement,
    >)
        ensures
            opt_deref(element) == match self.spec_array(*mxfkey) {
                Some(elements) => if index < elements.len() {
                    Some(elements[index as int])
                } else {
                    None
                },
                None => None,
            },
    {
        match self.initialize_array_iterator(mxfkey) {
            Some(elements) => if (index as usize) < elements.len() {
                Some(&elements[index as usize])
            } else {
                None
            },
            None => None,
        }
    }
}

} // verus!
