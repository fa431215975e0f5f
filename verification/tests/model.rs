use chrono::NaiveDate;
use mxfinfo::datamodel::MXFDataModel;
use mxfinfo::error::MXFError;
use mxfinfo::header::MXFHeaderMetadata;
use mxfinfo::key::{MXFKey, MXFUmid};
use mxfinfo::labels::{
    data_definition_set_key, definition_object_identification_item_key, generic_package_set_key,
    generic_package_package_uid_item_key, legacy_picture_data_definition,
    legacy_sound_data_definition, legacy_timecode_data_definition, material_package_set_key,
    picture_data_definition, preface_set_key, sound_data_definition, source_package_set_key,
    tagged_value_name_item_key, tagged_value_set_key, tagged_value_value_item_key,
    timecode_data_definition,
};
use mxfinfo::model::{
    decode_text, text_of_units, MXFArrayElement, MXFMetadataSet, MXFTimestamp, MXFValue,
};
use mxfinfo::rational::MXFRational;
use mxfinfo::types::{AvidEssenceType, AvidPhysicalPackageType};
use mxfinfo::MXFFile;

fn key(n: u8) -> MXFKey {
    MXFKey::new(9, 9, 9, 9, 9, 9, 9, 9, 9, 9, 9, 9, 9, 9, 9, n)
}

fn umid(n: u8) -> MXFUmid {
    MXFUmid::new(
        6, 10, 43, 52, 1, 1, 1, 1, 1, 1, 15, 0, 19, 0, 0, 0, 0, 0, 0, 0, 0, 0, 0, 0, 0, 0, 0, 0, 0,
        0, 0, n,
    )
}

fn utf16(s: &str) -> Vec<u16> {
    s.encode_utf16().collect()
}

#[test]
fn keys_are_equal_octet_by_octet() {
    let a = MXFKey::new(1, 2, 3, 4, 5, 6, 7, 8, 9, 10, 11, 12, 13, 14, 15, 16);
    let b = MXFKey::new(1, 2, 3, 4, 5, 6, 7, 8, 9, 10, 11, 12, 13, 14, 15, 16);
    let c = MXFKey::new(1, 2, 3, 4, 5, 6, 7, 8, 9, 10, 11, 12, 13, 14, 15, 17);
    assert_eq!(a, b);
    assert_ne!(a, c);
    assert_eq!(a.octet0, 1);
    assert_eq!(a.octet15, 16);
    assert_eq!(MXFKey::default(), MXFKey::new(0, 0, 0, 0, 0, 0, 0, 0, 0, 0, 0, 0, 0, 0, 0, 0));
}

#[test]
fn umids_are_equal_octet_by_octet() {
    assert_eq!(umid(1), umid(1));
    assert_ne!(umid(1), umid(2));
    assert_eq!(umid(7).octet31, 7);
    assert_eq!(umid(7).octet16, 0);
    assert_eq!(
        MXFUmid::default(),
        MXFUmid::new(
            0, 0, 0, 0, 0, 0, 0, 0, 0, 0, 0, 0, 0, 0, 0, 0, 0, 0, 0, 0, 0, 0, 0, 0, 0, 0, 0, 0, 0,
            0, 0, 0
        )
    );
}

#[test]
fn data_definitions_are_told_apart() {
    assert!(picture_data_definition().is_picture());
    assert!(legacy_picture_data_definition().is_picture());
    assert!(!picture_data_definition().is_sound());
    assert!(!picture_data_definition().is_timecode());
    assert!(sound_data_definition().is_sound());
    assert!(legacy_sound_data_definition().is_sound());
    assert!(!sound_data_definition().is_picture());
    assert!(timecode_data_definition().is_timecode());
    assert!(legacy_timecode_data_definition().is_timecode());
    assert!(!timecode_data_definition().is_picture());
    assert!(!key(1).is_picture());
    assert!(!key(1).is_sound());
    assert!(!key(1).is_timecode());
}

#[test]
fn the_operational_pattern_is_told_by_its_prefix() {
    let atom = MXFKey::new(
        0x06, 0x0e, 0x2b, 0x34, 0x04, 0x01, 0x01, 0x02, 0x0d, 0x01, 0x02, 0x01, 0x10, 0x03, 0x00,
        0x00,
    );
    let other_version = MXFKey::new(
        0x06, 0x0e, 0x2b, 0x34, 0x04, 0x01, 0x01, 0x01, 0x0d, 0x01, 0x02, 0x01, 0x10, 0x00, 0x00,
        0x00,
    );
    let op1a = MXFKey::new(
        0x06, 0x0e, 0x2b, 0x34, 0x04, 0x01, 0x01, 0x01, 0x0d, 0x01, 0x02, 0x01, 0x01, 0x01, 0x09,
        0x00,
    );
    assert!(atom.is_op_atom());
    assert!(other_version.is_op_atom());
    assert!(!op1a.is_op_atom());
    assert!(!preface_set_key().is_op_atom());
}

#[test]
fn text_ends_before_the_first_zero_unit() {
    assert_eq!(text_of_units(&vec![100, 111, 109, 0, 120, 0]), vec![100, 111, 109]);
    assert_eq!(text_of_units(&vec![100, 111, 109]), vec![100, 111, 109]);
    assert_eq!(text_of_units(&vec![0, 100]), Vec::<u16>::new());
    assert_eq!(text_of_units(&vec![]), Vec::<u16>::new());
}

#[test]
fn text_is_decoded_from_utf16() {
    assert_eq!(decode_text(&vec![100, 111, 109]), Some("dom".to_string()));
    assert_eq!(decode_text(&vec![100, 111, 109, 0, 33]), Some("dom".to_string()));
    assert_eq!(decode_text(&vec![]), Some(String::new()));
    // a surrogate pair
    assert_eq!(decode_text(&vec![0xd834, 0xdd1e, 0]), Some("\u{1d11e}".to_string()));
    // a lone surrogate
    assert_eq!(decode_text(&vec![0xd834, 100]), None);
    assert_eq!(decode_text(&vec![100, 0xdd1e]), None);
    // a lone surrogate behind the end of the text does no harm
    assert_eq!(decode_text(&vec![100, 0, 0xdd1e]), Some("d".to_string()));
}

fn sample_set() -> MXFMetadataSet {
    let mut set = MXFMetadataSet::new(key(1), key(2));
    set.add_item(key(10), MXFValue::Utf16String(utf16("domdom.mov\0")));
    set.add_item(key(11), MXFValue::Rational(MXFRational::new(50, 1)));
    set.add_item(key(12), MXFValue::Rational(MXFRational::new(50, 0)));
    set.add_item(key(13), MXFValue::UInt8(8));
    set.add_item(key(14), MXFValue::UInt16(16));
    set.add_item(key(15), MXFValue::UInt32(32));
    set.add_item(key(16), MXFValue::Int32(-32));
    set.add_item(key(17), MXFValue::Umid(umid(3)));
    set.add_item(
        key(18),
        MXFValue::Timestamp(MXFTimestamp {
            year: 2017,
            month: 9,
            day: 28,
            hour: 14,
            min: 3,
            sec: 19,
            qmsec: 0,
        }),
    );
    set.add_item(key(19), MXFValue::Length(49));
    set.add_item(key(20), MXFValue::Position(-7));
    set.add_item(key(21), MXFValue::UL(key(99)));
    set.add_item(
        key(22),
        MXFValue::Array(vec![
            MXFArrayElement::StrongRef(key(50)),
            MXFArrayElement::Bytes(vec![1, 2, 3]),
        ]),
    );
    set.add_item(key(23), MXFValue::StrongRef(key(51)));
    set.add_item(key(24), MXFValue::WeakRef(key(52)));
    set.add_item(key(25), MXFValue::Utf16String(vec![0xd800]));
    // a second item under a key that is taken
    set.add_item(key(15), MXFValue::UInt32(33));
    set
}

#[test]
fn a_new_set_has_no_items() {
    let set = MXFMetadataSet::new(key(1), key(2));
    assert_eq!(set.key, key(1));
    assert_eq!(set.instance_uid, key(2));
    assert!(set.items.is_empty());
    assert!(!set.has_item(&key(10)));
    assert_eq!(set.get_item(&key(10)), None);
}

#[test]
fn items_are_found_by_key() {
    let set = sample_set();
    assert_eq!(set.items.len(), 17);
    assert!(set.has_item(&key(10)));
    assert!(set.has_item(&key(25)));
    assert!(!set.has_item(&key(26)));
    assert_eq!(set.get_item(&key(13)), Some(&MXFValue::UInt8(8)));
    assert_eq!(set.get_item(&key(26)), None);
}

#[test]
fn the_first_item_of_a_key_is_the_one_found() {
    let set = sample_set();
    assert_eq!(set.get_uint32(&key(15)), Some(32));
}

#[test]
fn typed_getters_give_the_value_of_their_type() {
    let set = sample_set();
    assert_eq!(set.get_string(&key(10)), Some("domdom.mov".to_string()));
    assert_eq!(set.get_rational(&key(11)), Some(MXFRational::new(50, 1)));
    assert_eq!(set.get_uint8(&key(13)), Some(8));
    assert_eq!(set.get_uint16(&key(14)), Some(16));
    assert_eq!(set.get_uint32(&key(15)), Some(32));
    assert_eq!(set.get_int32(&key(16)), Some(-32));
    assert_eq!(set.get_umid(&key(17)), Some(umid(3)));
    assert_eq!(
        set.get_timestamp(&key(18)),
        Some(MXFTimestamp { year: 2017, month: 9, day: 28, hour: 14, min: 3, sec: 19, qmsec: 0 })
    );
    assert_eq!(set.get_length(&key(19)), Some(49));
    assert_eq!(set.get_position(&key(20)), Some(-7));
    assert_eq!(set.get_ul(&key(21)), Some(key(99)));
}

#[test]
fn typed_getters_give_nothing_for_another_type() {
    let set = sample_set();
    assert_eq!(set.get_string(&key(11)), None);
    assert_eq!(set.get_rational(&key(10)), None);
    assert_eq!(set.get_uint8(&key(14)), None);
    assert_eq!(set.get_uint16(&key(13)), None);
    assert_eq!(set.get_uint32(&key(13)), None);
    assert_eq!(set.get_int32(&key(15)), None);
    assert_eq!(set.get_umid(&key(21)), None);
    assert_eq!(set.get_timestamp(&key(19)), None);
    assert_eq!(set.get_length(&key(20)), None);
    assert_eq!(set.get_position(&key(19)), None);
    assert_eq!(set.get_ul(&key(17)), None);
    assert_eq!(set.get_array_len(&key(23)), None);
    assert_eq!(set.get_array_element(&key(23), 0), None);
    assert!(set.initialize_array_iterator(&key(23)).is_none());
    assert_eq!(set.get_uint32(&key(26)), None);
}

#[test]
fn a_rational_with_denominator_zero_is_no_value() {
    let set = sample_set();
    assert!(set.has_item(&key(12)));
    assert_eq!(set.get_rational(&key(12)), None);
}

#[test]
fn a_malformed_string_is_no_value() {
    let set = sample_set();
    assert!(set.has_item(&key(25)));
    assert_eq!(set.get_string(&key(25)), None);
}

#[test]
fn arrays_give_their_elements() {
    let set = sample_set();
    assert_eq!(set.get_array_len(&key(22)), Some(2));
    assert_eq!(set.get_array_element(&key(22), 0), Some(&MXFArrayElement::StrongRef(key(50))));
    assert_eq!(set.get_array_element(&key(22), 1), Some(&MXFArrayElement::Bytes(vec![1, 2, 3])));
    assert_eq!(set.get_array_element(&key(22), 2), None);
    assert_eq!(set.initialize_array_iterator(&key(22)).map(|v| v.len()), Some(2));
}

fn dictionary() -> MXFDataModel {
    let mut model = MXFDataModel::new();
    assert!(model.register(generic_package_set_key(), None));
    assert!(model.register(material_package_set_key(), Some(generic_package_set_key())));
    assert!(model.register(source_package_set_key(), Some(generic_package_set_key())));
    assert!(model.register(key(70), Some(source_package_set_key())));
    assert!(model.register(data_definition_set_key(), None));
    assert!(model.register(preface_set_key(), None));
    assert!(model.register(tagged_value_set_key(), None));
    model
}

#[test]
fn classes_are_registered_once_and_under_a_known_parent() {
    let mut model = dictionary();
    assert_eq!(model.defs.len(), 7);
    assert!(!model.register(preface_set_key(), None));
    assert!(!model.register(key(71), Some(key(72))));
    assert_eq!(model.defs.len(), 7);
    assert!(model.is_registered(&key(70)));
    assert!(!model.is_registered(&key(71)));
    assert_eq!(model.find_def(&material_package_set_key()), Some(1));
    assert_eq!(model.find_def(&key(71)), None);
    assert_eq!(model.defs[3].parent, Some(2));
    assert_eq!(model.defs[0].parent, None);
}

#[test]
fn a_class_descends_from_itself_and_its_ancestors() {
    let model = dictionary();
    assert!(model.is_subclass_of(&key(70), &key(70)));
    assert!(model.is_subclass_of(&key(70), &source_package_set_key()));
    assert!(model.is_subclass_of(&key(70), &generic_package_set_key()));
    assert!(model.is_subclass_of(&material_package_set_key(), &generic_package_set_key()));
    assert!(!model.is_subclass_of(&key(70), &material_package_set_key()));
    assert!(!model.is_subclass_of(&generic_package_set_key(), &source_package_set_key()));
    assert!(!model.is_subclass_of(&preface_set_key(), &generic_package_set_key()));
    // an unknown class is only itself
    assert!(model.is_subclass_of(&key(71), &key(71)));
    assert!(!model.is_subclass_of(&key(71), &generic_package_set_key()));
}

#[test]
fn a_parent_that_stands_later_is_not_followed() {
    let mut model = dictionary();
    model.defs[0].parent = Some(3);
    assert!(!model.is_subclass_of(&generic_package_set_key(), &key(70)));
    assert!(model.is_subclass_of(&key(70), &generic_package_set_key()));
}

fn package(type_key: MXFKey, instance: u8, id: u8) -> MXFMetadataSet {
    let mut set = MXFMetadataSet::new(type_key, key(instance));
    set.add_item(generic_package_package_uid_item_key(), MXFValue::Umid(umid(id)));
    set
}

fn graph() -> MXFHeaderMetadata {
    let mut header = MXFHeaderMetadata::new(dictionary());
    header.add_set(MXFMetadataSet::new(preface_set_key(), key(100)));
    header.add_set(package(material_package_set_key(), 101, 1));
    header.add_set(package(source_package_set_key(), 102, 2));
    header.add_set(package(source_package_set_key(), 103, 3));
    header.add_set(package(key(70), 104, 4));
    // a dark set: its type is in no dictionary
    header.add_set(package(key(71), 105, 5));
    let mut definition = MXFMetadataSet::new(data_definition_set_key(), key(106));
    definition.add_item(
        definition_object_identification_item_key(),
        MXFValue::UL(picture_data_definition()),
    );
    header.add_set(definition);
    // a second set under an instance identifier that is taken
    header.add_set(package(source_package_set_key(), 102, 6));
    header
}

#[test]
fn the_one_set_of_a_type_is_found() {
    let header = graph();
    assert_eq!(header.sets.len(), 8);
    assert_eq!(
        header.find_singular_set_by_key(&preface_set_key()).map(|s| s.instance_uid),
        Ok(key(100))
    );
    assert_eq!(
        header.find_singular_set_by_key(&material_package_set_key()).map(|s| s.instance_uid),
        Ok(key(101))
    );
}

#[test]
fn no_set_or_several_sets_of_a_type_are_an_error() {
    let header = graph();
    assert_eq!(
        header.find_singular_set_by_key(&source_package_set_key()).err(),
        Some(MXFError::SingularSet(source_package_set_key()))
    );
    assert_eq!(
        header.find_singular_set_by_key(&tagged_value_set_key()).err(),
        Some(MXFError::SingularSet(tagged_value_set_key()))
    );
}

#[test]
fn all_sets_of_a_type_are_found_in_order() {
    let header = graph();
    let found = header.find_set_by_key(&source_package_set_key());
    let uids: Vec<Option<MXFUmid>> =
        found.iter().map(|s| s.get_umid(&generic_package_package_uid_item_key())).collect();
    assert_eq!(uids, vec![Some(umid(2)), Some(umid(3)), Some(umid(6))]);
    // the type must be the very key, not a class that extends it
    assert_eq!(header.find_set_by_key(&generic_package_set_key()).len(), 0);
    assert_eq!(header.find_set_by_key(&key(70)).len(), 1);
}

#[test]
fn references_find_the_first_set_of_an_instance() {
    let header = graph();
    assert_eq!(
        header
            .deref(&key(102))
            .and_then(|s| s.get_umid(&generic_package_package_uid_item_key())),
        Some(umid(2))
    );
    assert!(header.deref(&key(200)).is_none());
    assert_eq!(
        header.get_strongref(&MXFArrayElement::StrongRef(key(101))).map(|s| s.key),
        Some(material_package_set_key())
    );
    assert!(header.get_strongref(&MXFArrayElement::Bytes(vec![0; 16])).is_none());
}

#[test]
fn a_dark_set_resolves_to_nothing() {
    let header = graph();
    assert_eq!(header.sets[5].instance_uid, key(105));
    assert!(header.deref(&key(105)).is_none());
    assert!(header.get_strongref(&MXFArrayElement::StrongRef(key(105))).is_none());
}

#[test]
fn arrays_resolve_without_their_dark_elements() {
    let header = graph();
    let elements = vec![
        MXFArrayElement::StrongRef(key(103)),
        MXFArrayElement::StrongRef(key(105)),
        MXFArrayElement::Bytes(vec![1]),
        MXFArrayElement::StrongRef(key(200)),
        MXFArrayElement::StrongRef(key(100)),
        MXFArrayElement::StrongRef(key(103)),
    ];
    let found: Vec<MXFKey> = header.resolve_all(&elements).iter().map(|s| s.instance_uid).collect();
    assert_eq!(found, vec![key(103), key(100), key(103)]);
    assert!(header.resolve_all(&vec![]).is_empty());
}

#[test]
fn data_definition_sets_stand_for_a_label() {
    let header = graph();
    assert_eq!(header.get_data_def(&key(106)), Some(picture_data_definition()));
    // no data definition set
    assert_eq!(header.get_data_def(&key(100)), None);
    assert_eq!(header.get_data_def(&key(200)), None);
}

#[test]
fn packages_are_found_by_their_identifier() {
    let header = graph();
    assert_eq!(header.get_referenced_package(&umid(2)).map(|s| s.instance_uid), Some(key(102)));
    assert_eq!(header.get_referenced_package(&umid(4)).map(|s| s.instance_uid), Some(key(104)));
    // a material package is no source package
    assert!(header.get_referenced_package(&umid(1)).is_none());
    assert_eq!(header.get_referenced_package(&umid(6)).map(|s| s.instance_uid), Some(key(102)));
    // no such package
    assert!(header.get_referenced_package(&umid(9)).is_none());
    // a set of an unknown type is no package
    assert!(header.get_referenced_package(&umid(5)).is_none());
}

#[test]
fn the_null_identifier_refers_to_no_package() {
    let mut header = graph();
    let mut null_package = MXFMetadataSet::new(source_package_set_key(), key(107));
    null_package
        .add_item(generic_package_package_uid_item_key(), MXFValue::Umid(MXFUmid::default()));
    header.add_set(null_package);
    assert!(header.get_referenced_package(&MXFUmid::default()).is_none());
}

#[test]
fn a_file_gives_its_parts() {
    let header = graph();
    let partition = mxfinfo::header::MXFPartition {
        key: key(1),
        major_version: 1,
        minor_version: 2,
        kag_size: 512,
        this_partition: 0,
        previous_partition: 0,
        footer_partition: 0,
        header_byte_count: 0,
        index_byte_count: 0,
        indes_sid: 0,
        body_offset: 0,
        body_sid: 1,
        operational_pattern: key(2),
        essence_containers: vec![key(3), key(4)],
        header_mark_in_pos: 0,
        index_mark_in_pos: 0,
    };
    let file = MXFFile::new(partition, header);
    assert_eq!(file.headerpartition().essence_containers(), &vec![key(3), key(4)]);
    assert_eq!(file.headerdata().sets.len(), 8);
    assert_eq!(file.datamodel().defs.len(), 7);
    assert_eq!(file.headerdata().datamodel().defs.len(), 7);
}

#[test]
fn attributes_are_found_by_the_text_of_their_name() {
    let names = vec![utf16("_USER_POS\0"), utf16("_PJ\0junk"), utf16("_PJ")];
    let values = vec![utf16("1"), utf16("dom\0"), utf16("other")];
    assert_eq!(
        MXFFile::get_mob_attribute(&utf16("_PJ\0"), &names, &values),
        Some("dom".to_string())
    );
    assert_eq!(MXFFile::get_mob_attribute(&utf16("_PJ"), &names, &values), Some("dom".to_string()));
    assert_eq!(
        MXFFile::get_mob_attribute(&utf16("_USER_POS"), &names, &values),
        Some("1".to_string())
    );
    assert_eq!(MXFFile::get_mob_attribute(&utf16("_P"), &names, &values), None);
    assert_eq!(MXFFile::get_mob_attribute(&utf16("_PJ"), &vec![], &vec![]), None);
}

#[test]
fn an_attribute_without_a_value_or_with_a_malformed_one_is_nothing() {
    let names = vec![utf16("a"), utf16("b")];
    assert_eq!(MXFFile::get_mob_attribute(&utf16("b"), &names, &vec![utf16("1")]), None);
    assert_eq!(
        MXFFile::get_mob_attribute(&utf16("b"), &names, &vec![utf16("1"), vec![0xdc00]]),
        None
    );
}

fn tagged_value(instance: u8, name: MXFValue, value: MXFValue) -> MXFMetadataSet {
    let mut set = MXFMetadataSet::new(tagged_value_set_key(), key(instance));
    set.add_item(tagged_value_name_item_key(), name);
    set.add_item(tagged_value_value_item_key(), value);
    set
}

#[test]
fn a_tagged_value_gives_its_name_and_value() {
    let set = tagged_value(
        1,
        MXFValue::Utf16String(utf16("_PJ\0")),
        MXFValue::Utf16String(utf16("dom\0")),
    );
    assert_eq!(set.read_string_tagged_value(), Ok(("_PJ".to_string(), "dom".to_string())));
}

#[test]
fn a_tagged_value_must_hold_two_well_formed_strings() {
    let no_string =
        tagged_value(1, MXFValue::Utf16String(utf16("_PJ")), MXFValue::UInt32(1));
    assert_eq!(no_string.read_string_tagged_value(), Err(MXFError::TaggedValue));
    let no_items = MXFMetadataSet::new(tagged_value_set_key(), key(1));
    assert_eq!(no_items.read_string_tagged_value(), Err(MXFError::TaggedValue));
    let bad_name =
        tagged_value(1, MXFValue::Utf16String(vec![0xd800]), MXFValue::Utf16String(vec![0xd800]));
    assert_eq!(bad_name.read_string_tagged_value(), Err(MXFError::TaggedValueName));
    let bad_value =
        tagged_value(1, MXFValue::Utf16String(utf16("_PJ")), MXFValue::Utf16String(vec![0xd800]));
    assert_eq!(bad_value.read_string_tagged_value(), Err(MXFError::TaggedValueValue));
}

#[test]
fn tagged_values_are_read_through_an_array() {
    let mut header = graph();
    header.add_set(tagged_value(
        110,
        MXFValue::Utf16String(utf16("_USER_POS")),
        MXFValue::Utf16String(utf16("1")),
    ));
    header.add_set(tagged_value(111, MXFValue::Utf16String(utf16("count")), MXFValue::UInt32(3)));
    header.add_set(tagged_value(
        112,
        MXFValue::Utf16String(utf16("_PJ")),
        MXFValue::Utf16String(utf16("dom")),
    ));
    let mut owner = MXFMetadataSet::new(material_package_set_key(), key(120));
    owner.add_item(
        key(30),
        MXFValue::Array(vec![
            MXFArrayElement::StrongRef(key(110)),
            MXFArrayElement::StrongRef(key(111)),
            MXFArrayElement::StrongRef(key(200)),
            MXFArrayElement::StrongRef(key(112)),
        ]),
    );
    owner.add_item(key(31), MXFValue::UInt32(0));
    assert_eq!(
        owner.read_string_tagged_values(&header, &key(30)),
        Some((vec![utf16("_USER_POS"), utf16("_PJ")], vec![utf16("1"), utf16("dom")]))
    );
    assert_eq!(owner.read_string_tagged_values(&header, &key(31)), None);
    assert_eq!(owner.read_string_tagged_values(&header, &key(32)), None);
    assert_eq!(owner.read_string_mob_attributes(&header), None);
}

#[test]
fn timestamps_convert_to_calendar_dates() {
    let stamp =
        MXFTimestamp { year: 2017, month: 9, day: 28, hour: 14, min: 3, sec: 19, qmsec: 62 };
    assert_eq!(
        stamp.to_naive_datetime(),
        NaiveDate::from_ymd_opt(2017, 9, 28).unwrap().and_hms_opt(14, 3, 19)
    );
    let leap = MXFTimestamp { year: 2016, month: 2, day: 29, hour: 23, min: 59, sec: 59, qmsec: 0 };
    assert_eq!(
        leap.to_naive_datetime(),
        NaiveDate::from_ymd_opt(2016, 2, 29).unwrap().and_hms_opt(23, 59, 59)
    );
    assert!(leap.to_naive_datetime().is_some());
    let early = MXFTimestamp { year: -4, month: 2, day: 29, hour: 0, min: 0, sec: 0, qmsec: 0 };
    assert!(early.to_naive_datetime().is_some());
    let far = MXFTimestamp { year: i16::MIN, month: 1, day: 1, hour: 0, min: 0, sec: 0, qmsec: 0 };
    assert!(far.to_naive_datetime().is_some());
}

#[test]
fn timestamps_that_the_calendar_lacks_convert_to_nothing() {
    let good = MXFTimestamp { year: 2017, month: 9, day: 28, hour: 14, min: 3, sec: 19, qmsec: 0 };
    assert!(MXFTimestamp::default().to_naive_datetime().is_none());
    assert!(MXFTimestamp { month: 0, ..good }.to_naive_datetime().is_none());
    assert!(MXFTimestamp { month: 13, ..good }.to_naive_datetime().is_none());
    assert!(MXFTimestamp { day: 0, ..good }.to_naive_datetime().is_none());
    assert!(MXFTimestamp { day: 31, ..good }.to_naive_datetime().is_none());
    assert!(MXFTimestamp { year: 2017, month: 2, day: 29, ..good }.to_naive_datetime().is_none());
    assert!(MXFTimestamp { year: 1900, month: 2, day: 29, ..good }.to_naive_datetime().is_none());
    assert!(MXFTimestamp { year: 2000, month: 2, day: 29, ..good }.to_naive_datetime().is_some());
    assert!(MXFTimestamp { hour: 24, ..good }.to_naive_datetime().is_none());
    assert!(MXFTimestamp { min: 60, ..good }.to_naive_datetime().is_none());
    assert!(MXFTimestamp { sec: 60, ..good }.to_naive_datetime().is_none());
}

#[test]
fn classifications_have_names() {
    assert_eq!(AvidPhysicalPackageType::default(), AvidPhysicalPackageType::UnkownPhysType);
    assert_eq!(AvidPhysicalPackageType::UnkownPhysType.to_string(), "Unknown");
    assert_eq!(AvidPhysicalPackageType::TapePhysType.to_string(), "Tape");
    assert_eq!(AvidPhysicalPackageType::ImportPhysType.to_string(), "Import");
    assert_eq!(AvidPhysicalPackageType::RecordingPhysType.to_string(), "Recording");
    assert_eq!(AvidEssenceType::default(), AvidEssenceType::Unknown);
    assert_eq!(AvidEssenceType::Unknown.to_string(), "not recognized");
    assert_eq!(AvidEssenceType::Mpeg30.to_string(), "MPEG 30");
    assert_eq!(AvidEssenceType::DV25_411.to_string(), "DV 25 411");
    assert_eq!(AvidEssenceType::MJpeg_15_1S.to_string(), "15:1s");
    assert_eq!(AvidEssenceType::Unc_1_1_10B.to_string(), "1:1 10b");
    assert_eq!(AvidEssenceType::Dnxhd_1253.to_string(), "DNxHD 1253");
    assert_eq!(AvidEssenceType::XDCamHD.to_string(), "XDCAM HD");
    assert_eq!(AvidEssenceType::AVCIntra_50.to_string(), "AVC-Intra 50");
    assert_eq!(AvidEssenceType::PCM.to_string(), "PCM");
}

#[test]
fn errors_have_messages() {
    assert_eq!(
        MXFError::SingularSet(preface_set_key()).to_string(),
        "Could not find singular set by key."
    );
    assert_eq!(MXFError::MobAttributes.to_string(), "Could not read mob attributes.");
    assert_eq!(MXFError::TopFilePackage.to_string(), "Could not read top level file package.");
    assert_eq!(MXFError::DescriptorSet.to_string(), "Could not read descriptor set.");
    assert_eq!(MXFError::TrackNumber.to_string(), "Could not read track number.");
    assert_eq!(MXFError::TrackDuration.to_string(), "Could not read track duration.");
    assert_eq!(MXFError::SourcePackageId.to_string(), "Could not read source package id.");
    assert_eq!(
        MXFError::ClipEditRate.to_string(),
        "Clip edit rate is empty for timecode calculation."
    );
    assert_eq!(MXFError::TaggedValueName.to_string(), "Tagged value: name is not utf16.");
}
