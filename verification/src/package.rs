//! The package and descriptor pass: the Preface, the project name, the
//! essence descriptor of the file source package, and the physical source.

use crate::error::MXFError;
use crate::header::{sets_of, MXFHeaderMetadata};
use crate::key::{MXFKey, MXFUmid};
use crate::labels::{
    generic_descriptor_locators_item_key, generic_package_mob_attribute_list_item_key,
    generic_package_name_item_key, generic_package_package_uid_item_key,
    generic_picture_essence_descriptor_aspect_ratio_item_key,
    generic_picture_essence_descriptor_display_height_item_key,
    generic_picture_essence_descriptor_display_width_item_key,
    generic_picture_essence_descriptor_frame_layout_item_key,
    generic_picture_essence_descriptor_picture_essence_coding_item_key,
    generic_picture_essence_descriptor_resolution_id_item_key,
    generic_picture_essence_descriptor_set_key,
    generic_picture_essence_descriptor_stored_height_item_key,
    generic_picture_essence_descriptor_stored_width_item_key,
    generic_sound_essence_descriptor_audio_sampling_rate_item_key,
    generic_sound_essence_descriptor_channel_count_item_key,
    generic_sound_essence_descriptor_quantization_bits_item_key,
    generic_sound_essence_descriptor_set_key, import_descriptor_set_key, network_locator_set_key,
    network_locator_url_string_item_key, physical_descriptor_set_key,
    preface_project_edit_rate_item_key, preface_project_name_item_key, preface_set_key,
    recording_descriptor_set_key, source_package_descriptor_item_key, source_package_set_key,
    tape_descriptor_set_key,
};
use crate::model::{opt_string_view, MXFMetadataSet};
use crate::rational::MXFRational;
use crate::file::MXFFile;
use crate::tracks::spec_mob_attribute;
use crate::types::AvidPhysicalPackageType;
use vstd::prelude::*;

verus! {

/// What the essence descriptor of the file source package says of the
/// essence. A picture descriptor fills the picture fields, a sound
/// descriptor the sound fields, and any other descriptor none.
#[derive(Clone, Copy, Debug, PartialEq, Eq)]
pub struct DescriptorInfo {
    pub aspect_ratio: Option<MXFRational>,
    pub frame_layout: Option<u8>,
    pub stored_width: Option<u32>,
    pub stored_height: Option<u32>,
    pub display_width: Option<u32>,
    pub display_height: Option<u32>,
    pub avid_resolution_id: Option<i32>,
    pub picture_coding_label: Option<MXFKey>,
    pub audio_sampling_rate: Option<MXFRational>,
    pub quantization_bits: Option<u32>,
    pub channel_count: Option<u32>,
}

/// The physical source of a clip: the first source package of the graph
/// whose descriptor is a physical one, and the last URL among the network
/// locators met on the way to it.
#[derive(Clone, Debug, PartialEq, Eq)]
pub struct PhysicalSource {
    pub package_type: AvidPhysicalPackageType,
    pub package_uid: Option<MXFUmid>,
    pub package_name: Option<String>,
    pub locator: Option<String>,
}

/// A physical source with its texts as sequences of characters.
pub struct PhysicalSourceView {
    pub package_type: AvidPhysicalPackageType,
    pub package_uid: Option<MXFUmid>,
    pub package_name: Option<Seq<char>>,
    pub locator: Option<Seq<char>>,
}

impl View for PhysicalSource {
    type V = PhysicalSourceView;

    open spec fn view(&self) -> PhysicalSourceView {
        PhysicalSourceView {
            package_type: self.package_type,
            package_uid: self.package_uid,
            package_name: opt_string_view(self.package_name),
            locator: opt_string_view(self.locator),
        }
    }
}

/// The name of the package attribute that holds the project name: the
/// characters `_PJ`.
pub open spec fn spec_project_attribute_name() -> Seq<u16> {
    seq![95u16, 80u16, 74u16, 0u16]
}

/// A descriptor that says nothing.
pub open spec fn spec_no_descriptor_info() -> DescriptorInfo {
    DescriptorInfo {
        aspect_ratio: None,
        frame_layout: None,
        stored_width: None,
        stored_height: None,
        display_width: None,
        display_height: None,
        avid_resolution_id: None,
        picture_coding_label: None,
        audio_sampling_rate: None,
        quantization_bits: None,
        channel_count: None,
    }
}

/// The project name and the project edit rate of the one Preface set.
pub open spec fn spec_preface(header: MXFHeaderMetadata) -> Result<
    (Option<Seq<char>>, Option<MXFRational>),
    MXFError,
> {
    match header.spec_singular_set(preface_set_key()) {
        Some(preface) => Ok(
            (
                preface.spec_string(preface_project_name_item_key()),
                preface.spec_rational(preface_project_edit_rate_item_key()),
            ),
        ),
        None => Err(MXFError::SingularSet(preface_set_key())),
    }
}

/// The project name of a clip: `known` where the Preface gave one, else
/// the value of the `_PJ` attribute of the material package, where the
/// package has an attribute list.
pub open spec fn spec_project_name(
    header: MXFHeaderMetadata,
    material_package: MXFMetadataSet,
    known: Option<Seq<char>>,
) -> Result<Option<Seq<char>>, MXFError> {
    if known.is_none() && material_package.spec_has_item(
        generic_package_mob_attribute_list_item_key(),
    ) {
        match material_package.spec_string_tagged_values(
            header,
            generic_package_mob_attribute_list_item_key(),
        ) {
            Some((names, values)) => Ok(
                spec_mob_attribute(spec_project_attribute_name(), names, values),
            ),
            None => Err(MXFError::MobAttributes),
        }
    } else {
        Ok(known)
    }
}

/// What `descriptor` says of the essence.
pub open spec fn spec_descriptor_info(
    header: MXFHeaderMetadata,
    descriptor: MXFMetadataSet,
) -> DescriptorInfo {
    if header.datamodel.spec_is_subclass_of(
        descriptor.key,
        generic_picture_essence_descriptor_set_key(),
    ) {
        DescriptorInfo {
            aspect_ratio: descriptor.spec_rational(
                generic_picture_essence_descriptor_aspect_ratio_item_key(),
            ),
            frame_layout: descriptor.spec_uint8(
                generic_picture_essence_descriptor_frame_layout_item_key(),
            ),
            stored_width: descriptor.spec_uint32(
                generic_picture_essence_descriptor_stored_width_item_key(),
            ),
            stored_height: descriptor.spec_uint32(
                generic_picture_essence_descriptor_stored_height_item_key(),
            ),
            display_width: descriptor.spec_uint32(
                generic_picture_essence_descriptor_display_width_item_key(),
            ),
            display_height: descriptor.spec_uint32(
                generic_picture_essence_descriptor_display_height_item_key(),
            ),
            avid_resolution_id: descriptor.spec_int32(
                generic_picture_essence_descriptor_resolution_id_item_key(),
            ),
            picture_coding_label: descriptor.spec_ul(
                generic_picture_essence_descriptor_picture_essence_coding_item_key(),
            ),
            audio_sampling_rate: None,
            quantization_bits: None,
            channel_count: None,
        }
    } else if header.datamodel.spec_is_subclass_of(
        descriptor.key,
        generic_sound_essence_descriptor_set_key(),
    ) {
        DescriptorInfo {
            aspect_ratio: None,
            frame_layout: None,
            stored_width: None,
            stored_height: None,
            display_width: None,
            display_height: None,
            avid_resolution_id: None,
            picture_coding_label: None,
            audio_sampling_rate: descriptor.spec_rational(
                generic_sound_essence_descriptor_audio_sampling_rate_item_key(),
            ),
            quantization_bits: descriptor.spec_uint32(
                generic_sound_essence_descriptor_quantization_bits_item_key(),
            ),
            channel_count: descriptor.spec_uint32(
                generic_sound_essence_descriptor_channel_count_item_key(),
            ),
        }
    } else {
        spec_no_descriptor_info()
    }
}

/// What the descriptor of the file source package says of the essence.
pub open spec fn spec_file_descriptor(
    header: MXFHeaderMetadata,
    file_source_package: MXFMetadataSet,
) -> Result<DescriptorInfo, MXFError> {
    match file_source_package.spec_strongref(header, source_package_descriptor_item_key()) {
        Some(descriptor) => Ok(spec_descriptor_info(header, descriptor)),
        None => Err(MXFError::DescriptorSet),
    }
}

/// The kind of physical source that a physical descriptor of type `key`
/// describes.
pub open spec fn spec_physical_package_type(
    header: MXFHeaderMetadata,
    key: MXFKey,
) -> AvidPhysicalPackageType {
    if header.datamodel.spec_is_subclass_of(key, tape_descriptor_set_key()) {
        AvidPhysicalPackageType::TapePhysType
    } else if header.datamodel.spec_is_subclass_of(key, import_descriptor_set_key()) {
        AvidPhysicalPackageType::ImportPhysType
    } else if header.datamodel.spec_is_subclass_of(key, recording_descriptor_set_key()) {
        AvidPhysicalPackageType::RecordingPhysType
    } else {
        AvidPhysicalPackageType::UnkownPhysType
    }
}

/// The URL that stands after the locator sets `locators` have been read
/// in order, where `current` stood before: each network locator replaces
/// it by its own URL, also where it has none.
pub open spec fn spec_last_url(
    header: MXFHeaderMetadata,
    locators: Seq<MXFMetadataSet>,
    current: Option<Seq<char>>,
) -> Option<Seq<char>>
    decreases locators.len(),
{
    if locators.len() == 0 {
        current
    } else {
        let before = spec_last_url(header, locators.drop_last(), current);
        if header.datamodel.spec_is_subclass_of(locators.last().key, network_locator_set_key()) {
            locators.last().spec_string(network_locator_url_string_item_key())
        } else {
            before
        }
    }
}

/// The URL that stands after the locators of `descriptor` have been read,
/// where `current` stood before.
pub open spec fn spec_descriptor_url(
    header: MXFHeaderMetadata,
    descriptor: MXFMetadataSet,
    current: Option<Seq<char>>,
) -> Result<Option<Seq<char>>, MXFError> {
    if descriptor.spec_has_item(generic_descriptor_locators_item_key()) {
        match descriptor.spec_array(generic_descriptor_locators_item_key()) {
            Some(elements) => Ok(spec_last_url(header, header.spec_resolve_all(elements), current)),
            None => Err(MXFError::Locators),
        }
    } else {
        Ok(current)
    }
}

/// A physical source of which nothing is known.
pub open spec fn spec_no_physical_source() -> PhysicalSourceView {
    PhysicalSourceView {
        package_type: AvidPhysicalPackageType::UnkownPhysType,
        package_uid: None,
        package_name: None,
        locator: None,
    }
}

/// The physical source found by reading the sets of the graph from index
/// `start` on, where `found` is what the sets before gave. Only sets whose
/// type is exactly the source package and whose descriptor resolves are
/// read. Each has the URL of its network locators recorded; the first whose
/// descriptor is a physical one gives the kind, the identifier and the name
/// of the physical source, and ends the reading.
pub open spec fn spec_physical_source_from(
    header: MXFHeaderMetadata,
    start: int,
    found: PhysicalSourceView,
) -> Result<PhysicalSourceView, MXFError>
    decreases header.sets@.len() - start,
{
    if start < 0 || start >= header.sets@.len() {
        Ok(found)
    } else {
        let set = header.sets@[start];
        if set.key != source_package_set_key() {
            spec_physical_source_from(header, start + 1, found)
        } else {
            match set.spec_strongref(header, source_package_descriptor_item_key()) {
                None => spec_physical_source_from(header, start + 1, found),
                Some(descriptor) => match spec_descriptor_url(header, descriptor, found.locator) {
                    Err(e) => Err(e),
                    Ok(locator) => if header.datamodel.spec_is_subclass_of(
                        descriptor.key,
                        physical_descriptor_set_key(),
                    ) {
                        Ok(
                            PhysicalSourceView {
                                package_type: spec_physical_package_type(header, descriptor.key),
                                package_uid: set.spec_umid(generic_package_package_uid_item_key()),
                                package_name: set.spec_string(generic_package_name_item_key()),
                                locator,
                            },
                        )
                    } else {
                        spec_physical_source_from(
                            header,
                            start + 1,
                            PhysicalSourceView { locator, ..found },
                        )
                    },
                },
            }
        }
    }
}

/// The physical source of the clip.
pub open spec fn spec_physical_source(header: MXFHeaderMetadata) -> Result<
    PhysicalSourceView,
    MXFError,
> {
    spec_physical_source_from(header, 0, spec_no_physical_source())
}

/// The code units of the attribute name `_PJ`.
pub fn project_attribute_name() -> (name: Vec<u16>)
    ensures
        name@ == spec_project_attribute_name(),
{
    let mut name: Vec<u16> = Vec::new();
    name.push(95);
    name.push(80);
    name.push(74);
    name.push(0);
    proof {
        assert(name@ =~= spec_project_attribute_name());
    }
    name
}

/// Reads the project name and the project edit rate from the Preface.
pub fn resolve_preface(header: &MXFHeaderMetadata) -> (found: Result<
    (Option<String>, Option<MXFRational>),
    MXFError,
>)
    ensures
        match found {
            Ok((name, rate)) => spec_preface(*header) == Ok::<
                (Option<Seq<char>>, Option<MXFRational>),
                MXFError,
            >((opt_string_view(name), rate)),
            Err(e) => spec_preface(*header) == Err::<
                (Option<Seq<char>>, Option<MXFRational>),
                MXFError,
            >(e),
        },
{
    let preface = match header.find_singular_set_by_key(&preface_set_key()) {
        Ok(set) => set,
        Err(e) => {
            return Err(e);
        },
    };
    let name = preface.get_string(&preface_project_name_item_key());
    let rate = preface.get_rational(&preface_project_edit_rate_item_key());
    Ok((name, rate))
}

/// Settles the project name: the one the Preface gave, or else the `_PJ`
/// attribute of the material package.
pub fn resolve_project_name(
    header: &MXFHeaderMetadata,
    material_package: &MXFMetadataSet,
    known: Option<String>,
) -> (found: Result<Option<String>, MXFError>)
    ensures
        match found {
            Ok(name) => spec_project_name(*header, *material_package, opt_string_view(known))
                == Ok::<Option<Seq<char>>, MXFError>(opt_string_view(name)),
            Err(e) => spec_project_name(*header, *material_package, opt_string_view(known))
                == Err::<Option<Seq<char>>, MXFError>(e),
        },
{
    if known.is_none() && material_package.has_item(&generic_package_mob_attribute_list_item_key()) {
        match material_package.read_string_mob_attributes(header) {
            Some((names, values)) => {
                let name = project_attribute_name();
                Ok(MXFFile::get_mob_attribute(&name, &names, &values))
            },
            None => Err(MXFError::MobAttributes),
        }
    } else {
        Ok(known)
    }
}

/// Reads what a descriptor says of the essence.
pub fn describe_essence(header: &MXFHeaderMetadata, descriptor: &MXFMetadataSet) -> (info:
    DescriptorInfo)
    ensures
        info == spec_descriptor_info(*header, *descriptor),
{
    if descriptor.is_subclass_of(header, &generic_picture_essence_descriptor_set_key()) {
        DescriptorInfo {
            aspect_ratio: descriptor.get_rational(
                &generic_picture_essence_descriptor_aspect_ratio_item_key(),
            ),
            frame_layout: descriptor.get_uint8(
                &generic_picture_essence_descriptor_frame_layout_item_key(),
            ),
            stored_width: descriptor.get_uint32(
                &generic_picture_essence_descriptor_stored_width_item_key(),
            ),
            stored_height: descriptor.get_uint32(
                &generic_picture_essence_descriptor_stored_height_item_key(),
            ),
            display_width: descriptor.get_uint32(
                &generic_picture_essence_descriptor_display_width_item_key(),
            ),
            display_height: descriptor.get_uint32(
                &generic_picture_essence_descriptor_display_height_item_key(),
            ),
            avid_resolution_id: descriptor.get_int32(
                &generic_picture_essence_descriptor_resolution_id_item_key(),
            ),
            picture_coding_label: descriptor.get_ul(
                &generic_picture_essence_descriptor_picture_essence_coding_item_key(),
            ),
            audio_sampling_rate: None,
            quantization_bits: None,
            channel_count: None,
        }
    } else if descriptor.is_subclass_of(header, &generic_sound_essence_descriptor_set_key()) {
        DescriptorInfo {
            aspect_ratio: None,
            frame_layout: None,
            stored_width: None,
            stored_height: None,
            display_width: None,
            display_height: None,
            avid_resolution_id: None,
            picture_coding_label: None,
            audio_sampling_rate: descriptor.get_rational(
                &generic_sound_essence_descriptor_audio_sampling_rate_item_key(),
            ),
            quantization_bits: descriptor.get_uint32(
                &generic_sound_essence_descriptor_quantization_bits_item_key(),
            ),
            channel_count: descriptor.get_uint32(
                &generic_sound_essence_descriptor_channel_count_item_key(),
            ),
        }
    } else {
        DescriptorInfo {
            aspect_ratio: None,
            frame_layout: None,
            stored_width: None,
            stored_height: None,
            display_width: None,
            display_height: None,
            avid_resolution_id: None,
            picture_coding_label: None,
            audio_sampling_rate: None,
            quantization_bits: None,
            channel_count: None,
        }
    }
}

/// Resolves the descriptor of the file source package and reads what it
/// says of the essence.
pub fn resolve_file_descriptor(
    header: &MXFHeaderMetadata,
    file_source_package: &MXFMetadataSet,
) -> (found: Result<DescriptorInfo, MXFError>)
    ensures
        found == spec_file_descriptor(*header, *file_source_package),
{
    match file_source_package.get_strongref(header, &source_package_descriptor_item_key()) {
        Some(descriptor) => Ok(describe_essence(header, descriptor)),
        None => Err(MXFError::DescriptorSet),
    }
}

/// Tells the kind of physical source from the type of a physical
/// descriptor.
pub fn classify_physical_descriptor(header: &MXFHeaderMetadata, key: &MXFKey) -> (kind:
    AvidPhysicalPackageType)
    ensures
        kind == spec_physical_package_type(*header, *key),
{
    if header.datamodel.is_subclass_of(key, &tape_descriptor_set_key()) {
        AvidPhysicalPackageType::TapePhysType
    } else if header.datamodel.is_subclass_of(key, &import_descriptor_set_key()) {
        AvidPhysicalPackageType::ImportPhysType
    } else if header.datamodel.is_subclass_of(key, &recording_descriptor_set_key()) {
        AvidPhysicalPackageType::RecordingPhysType
    } else {
        AvidPhysicalPackageType::UnkownPhysType
    }
}

/// Reads the locators of a descriptor and gives the URL that stands
/// afterwards, where `current` stood before.
pub fn resolve_descriptor_url(
    header: &MXFHeaderMetadata,
    descriptor: &MXFMetadataSet,
    current: Option<String>,
) -> (found: Result<Option<String>, MXFError>)
    ensures
        match found {
            Ok(url) => spec_descriptor_url(*header, *descriptor, opt_string_view(current)) == Ok::<
                Option<Seq<char>>,
                MXFError,
            >(opt_string_view(url)),
            Err(e) => spec_descriptor_url(*header, *descriptor, opt_string_view(current)) == Err::<
                Option<Seq<char>>,
                MXFError,
            >(e),
        },
{
    if !descriptor.has_item(&generic_descriptor_locators_item_key()) {
        return Ok(current);
    }
    let elements = match descriptor.initialize_array_iterator(
        &generic_descriptor_locators_item_key(),
    ) {
        Some(x) => x,
        None => {
            return Err(MXFError::Locators);
        },
    };
    let locators = header.resolve_all(elements);
    let ghost start = opt_string_view(current);
    let mut url = current;
    let mut i: usize = 0;
    proof {
        assert(sets_of(locators@).take(0) =~= Seq::<MXFMetadataSet>::empty());
    }
    while i < locators.len()
        invariant
            0 <= i <= locators.len(),
            opt_string_view(url) == spec_last_url(*header, sets_of(locators@).take(i as int), start),
        decreases locators.len() - i,
    {
        proof {
            let all = sets_of(locators@);
            assert(all.take(i + 1).drop_last() =~= all.take(i as int));
            assert(all.take(i + 1).last() == *locators@[i as int]);
        }
        let locator = locators[i];
        if locator.is_subclass_of(header, &network_locator_set_key()) {
            url = locator.get_string(&network_locator_url_string_item_key());
        }
        i = i + 1;
    }
    proof {
        assert(sets_of(locators@).take(i as int) =~= sets_of(locators@));
    }
    Ok(url)
}

/// Finds the physical source of the clip.
pub fn resolve_physical_source(header: &MXFHeaderMetadata) -> (found: Result<
    PhysicalSource,
    MXFError,
>)
    ensures
        match found {
            Ok(source) => spec_physical_source(*header) == Ok::<PhysicalSourceView, MXFError>(
                source@,
            ),
            Err(e) => spec_physical_source(*header) == Err::<PhysicalSourceView, MXFError>(e),
        },
{
    let mut locator: Option<String> = None;
    let mut i: usize = 0;
    while i < header.sets.len()
        invariant
            0 <= i <= header.sets.len(),
            spec_physical_source(*header) == spec_physical_source_from(
                *header,
                i as int,
                PhysicalSourceView {
                    locator: opt_string_view(locator),
                    ..spec_no_physical_source()
                },
            ),
        decreases header.sets.len() - i,
    {
        let set = &header.sets[i];
        if set.key == source_package_set_key() {
            match set.get_strongref(header, &source_package_descriptor_item_key()) {
                Some(descriptor) => {
                    locator = match resolve_descriptor_url(header, descriptor, locator) {
                        Ok(url) => url,
                        Err(e) => {
                            return Err(e);
                        },
                    };
                    if descriptor.is_subclass_of(header, &physical_descriptor_set_key()) {
                        return Ok(
                            PhysicalSource {
                                package_type: classify_physical_descriptor(header, &descriptor.key),
                                package_uid: set.get_umid(&generic_package_package_uid_item_key()),
                                package_name: set.get_string(&generic_package_name_item_key()),
                                locator,
                            },
                        );
                    }
                },
                None => {},
            }
        }
        i = i + 1;
    }
    Ok(
        PhysicalSource {
            package_type: AvidPhysicalPackageType::UnkownPhysType,
            package_uid: None,
            package_name: None,
            locator,
        },
    )
}

} // verus!
