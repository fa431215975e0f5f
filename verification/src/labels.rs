//! The keys and labels that the resolution passes ask for: set types, item
//! roles, data definitions and the single-track operational pattern.

use crate::key::MXFKey;
use vstd::prelude::*;

verus! {

/// The type key of a Preface set.
pub open spec fn spec_preface_set_key() -> MXFKey {
    MXFKey::spec_new(
        0x06, 0x0e, 0x2b, 0x34, 0x02, 0x53, 0x01, 0x01,
        0x0d, 0x01, 0x01, 0x01, 0x01, 0x01, 0x2f, 0x00,
    )
}

/// The type key of a Preface set.
#[verifier::when_used_as_spec(spec_preface_set_key)]
pub fn preface_set_key() -> (key: MXFKey)
    ensures
        key == spec_preface_set_key(),
{
    MXFKey::new(
        0x06, 0x0e, 0x2b, 0x34, 0x02, 0x53, 0x01, 0x01,
        0x0d, 0x01, 0x01, 0x01, 0x01, 0x01, 0x2f, 0x00,
    )
}

/// The type key of a ContentStorage set.
pub open spec fn spec_content_storage_set_key() -> MXFKey {
    MXFKey::spec_new(
        0x06, 0x0e, 0x2b, 0x34, 0x02, 0x53, 0x01, 0x01,
        0x0d, 0x01, 0x01, 0x01, 0x01, 0x01, 0x18, 0x00,
    )
}

/// The type key of a ContentStorage set.
#[verifier::when_used_as_spec(spec_content_storage_set_key)]
pub fn content_storage_set_key() -> (key: MXFKey)
    ensures
        key == spec_content_storage_set_key(),
{
    MXFKey::new(
        0x06, 0x0e, 0x2b, 0x34, 0x02, 0x53, 0x01, 0x01,
        0x0d, 0x01, 0x01, 0x01, 0x01, 0x01, 0x18, 0x00,
    )
}

/// The type key of a EssenceContainerData set.
pub open spec fn spec_essence_container_data_set_key() -> MXFKey {
    MXFKey::spec_new(
        0x06, 0x0e, 0x2b, 0x34, 0x02, 0x53, 0x01, 0x01,
        0x0d, 0x01, 0x01, 0x01, 0x01, 0x01, 0x23, 0x00,
    )
}

/// The type key of a EssenceContainerData set.
#[verifier::when_used_as_spec(spec_essence_container_data_set_key)]
pub fn essence_container_data_set_key() -> (key: MXFKey)
    ensures
        key == spec_essence_container_data_set_key(),
{
    MXFKey::new(
        0x06, 0x0e, 0x2b, 0x34, 0x02, 0x53, 0x01, 0x01,
        0x0d, 0x01, 0x01, 0x01, 0x01, 0x01, 0x23, 0x00,
    )
}

/// The type key of a GenericPackage set.
pub open spec fn spec_generic_package_set_key() -> MXFKey {
    MXFKey::spec_new(
        0x06, 0x0e, 0x2b, 0x34, 0x02, 0x53, 0x01, 0x01,
        0x0d, 0x01, 0x01, 0x01, 0x01, 0x01, 0x34, 0x00,
    )
}

/// The type key of a GenericPackage set.
#[verifier::when_used_as_spec(spec_generic_package_set_key)]
pub fn generic_package_set_key() -> (key: MXFKey)
    ensures
        key == spec_generic_package_set_key(),
{
    MXFKey::new(
        0x06, 0x0e, 0x2b, 0x34, 0x02, 0x53, 0x01, 0x01,
        0x0d, 0x01, 0x01, 0x01, 0x01, 0x01, 0x34, 0x00,
    )
}

/// The type key of a MaterialPackage set.
pub open spec fn spec_material_package_set_key() -> MXFKey {
    MXFKey::spec_new(
        0x06, 0x0e, 0x2b, 0x34, 0x02, 0x53, 0x01, 0x01,
        0x0d, 0x01, 0x01, 0x01, 0x01, 0x01, 0x36, 0x00,
    )
}

/// The type key of a MaterialPackage set.
#[verifier::when_used_as_spec(spec_material_package_set_key)]
pub fn material_package_set_key() -> (key: MXFKey)
    ensures
        key == spec_material_package_set_key(),
{
    MXFKey::new(
        0x06, 0x0e, 0x2b, 0x34, 0x02, 0x53, 0x01, 0x01,
        0x0d, 0x01, 0x01, 0x01, 0x01, 0x01, 0x36, 0x00,
    )
}

/// The type key of a SourcePackage set.
pub open spec fn spec_source_package_set_key() -> MXFKey {
    MXFKey::spec_new(
        0x06, 0x0e, 0x2b, 0x34, 0x02, 0x53, 0x01, 0x01,
        0x0d, 0x01, 0x01, 0x01, 0x01, 0x01, 0x37, 0x00,
    )
}

/// The type key of a SourcePackage set.
#[verifier::when_used_as_spec(spec_source_package_set_key)]
pub fn source_package_set_key() -> (key: MXFKey)
    ensures
        key == spec_source_package_set_key(),
{
    MXFKey::new(
        0x06, 0x0e, 0x2b, 0x34, 0x02, 0x53, 0x01, 0x01,
        0x0d, 0x01, 0x01, 0x01, 0x01, 0x01, 0x37, 0x00,
    )
}

/// The type key of a GenericTrack set.
pub open spec fn spec_generic_track_set_key() -> MXFKey {
    MXFKey::spec_new(
        0x06, 0x0e, 0x2b, 0x34, 0x02, 0x53, 0x01, 0x01,
        0x0d, 0x01, 0x01, 0x01, 0x01, 0x01, 0x38, 0x00,
    )
}

/// The type key of a GenericTrack set.
#[verifier::when_used_as_spec(spec_generic_track_set_key)]
pub fn generic_track_set_key() -> (key: MXFKey)
    ensures
        key == spec_generic_track_set_key(),
{
    MXFKey::new(
        0x06, 0x0e, 0x2b, 0x34, 0x02, 0x53, 0x01, 0x01,
        0x0d, 0x01, 0x01, 0x01, 0x01, 0x01, 0x38, 0x00,
    )
}

/// The type key of a Track set.
pub open spec fn spec_track_set_key() -> MXFKey {
    MXFKey::spec_new(
        0x06, 0x0e, 0x2b, 0x34, 0x02, 0x53, 0x01, 0x01,
        0x0d, 0x01, 0x01, 0x01, 0x01, 0x01, 0x3b, 0x00,
    )
}

/// The type key of a Track set.
#[verifier::when_used_as_spec(spec_track_set_key)]
pub fn track_set_key() -> (key: MXFKey)
    ensures
        key == spec_track_set_key(),
{
    MXFKey::new(
        0x06, 0x0e, 0x2b, 0x34, 0x02, 0x53, 0x01, 0x01,
        0x0d, 0x01, 0x01, 0x01, 0x01, 0x01, 0x3b, 0x00,
    )
}

/// The type key of a StructuralComponent set.
pub open spec fn spec_structural_component_set_key() -> MXFKey {
    MXFKey::spec_new(
        0x06, 0x0e, 0x2b, 0x34, 0x02, 0x53, 0x01, 0x01,
        0x0d, 0x01, 0x01, 0x01, 0x01, 0x01, 0x02, 0x00,
    )
}

/// The type key of a StructuralComponent set.
#[verifier::when_used_as_spec(spec_structural_component_set_key)]
pub fn structural_component_set_key() -> (key: MXFKey)
    ensures
        key == spec_structural_component_set_key(),
{
    MXFKey::new(
        0x06, 0x0e, 0x2b, 0x34, 0x02, 0x53, 0x01, 0x01,
        0x0d, 0x01, 0x01, 0x01, 0x01, 0x01, 0x02, 0x00,
    )
}

/// The type key of a Sequence set.
pub open spec fn spec_sequence_set_key() -> MXFKey {
    MXFKey::spec_new(
        0x06, 0x0e, 0x2b, 0x34, 0x02, 0x53, 0x01, 0x01,
        0x0d, 0x01, 0x01, 0x01, 0x01, 0x01, 0x0f, 0x00,
    )
}

/// The type key of a Sequence set.
#[verifier::when_used_as_spec(spec_sequence_set_key)]
pub fn sequence_set_key() -> (key: MXFKey)
    ensures
        key == spec_sequence_set_key(),
{
    MXFKey::new(
        0x06, 0x0e, 0x2b, 0x34, 0x02, 0x53, 0x01, 0x01,
        0x0d, 0x01, 0x01, 0x01, 0x01, 0x01, 0x0f, 0x00,
    )
}

/// The type key of a TimecodeComponent set.
pub open spec fn spec_timecode_component_set_key() -> MXFKey {
    MXFKey::spec_new(
        0x06, 0x0e, 0x2b, 0x34, 0x02, 0x53, 0x01, 0x01,
        0x0d, 0x01, 0x01, 0x01, 0x01, 0x01, 0x14, 0x00,
    )
}

/// The type key of a TimecodeComponent set.
#[verifier::when_used_as_spec(spec_timecode_component_set_key)]
pub fn timecode_component_set_key() -> (key: MXFKey)
    ensures
        key == spec_timecode_component_set_key(),
{
    MXFKey::new(
        0x06, 0x0e, 0x2b, 0x34, 0x02, 0x53, 0x01, 0x01,
        0x0d, 0x01, 0x01, 0x01, 0x01, 0x01, 0x14, 0x00,
    )
}

/// The type key of a SourceClip set.
pub open spec fn spec_source_clip_set_key() -> MXFKey {
    MXFKey::spec_new(
        0x06, 0x0e, 0x2b, 0x34, 0x02, 0x53, 0x01, 0x01,
        0x0d, 0x01, 0x01, 0x01, 0x01, 0x01, 0x11, 0x00,
    )
}

/// The type key of a SourceClip set.
#[verifier::when_used_as_spec(spec_source_clip_set_key)]
pub fn source_clip_set_key() -> (key: MXFKey)
    ensures
        key == spec_source_clip_set_key(),
{
    MXFKey::new(
        0x06, 0x0e, 0x2b, 0x34, 0x02, 0x53, 0x01, 0x01,
        0x0d, 0x01, 0x01, 0x01, 0x01, 0x01, 0x11, 0x00,
    )
}

/// The type key of a EssenceGroup set.
pub open spec fn spec_essence_group_set_key() -> MXFKey {
    MXFKey::spec_new(
        0x06, 0x0e, 0x2b, 0x34, 0x02, 0x53, 0x01, 0x01,
        0x0d, 0x01, 0x01, 0x01, 0x01, 0x01, 0x05, 0x00,
    )
}

/// The type key of a EssenceGroup set.
#[verifier::when_used_as_spec(spec_essence_group_set_key)]
pub fn essence_group_set_key() -> (key: MXFKey)
    ensures
        key == spec_essence_group_set_key(),
{
    MXFKey::new(
        0x06, 0x0e, 0x2b, 0x34, 0x02, 0x53, 0x01, 0x01,
        0x0d, 0x01, 0x01, 0x01, 0x01, 0x01, 0x05, 0x00,
    )
}

/// The type key of a GenericDescriptor set.
pub open spec fn spec_generic_descriptor_set_key() -> MXFKey {
    MXFKey::spec_new(
        0x06, 0x0e, 0x2b, 0x34, 0x02, 0x53, 0x01, 0x01,
        0x0d, 0x01, 0x01, 0x01, 0x01, 0x01, 0x24, 0x00,
    )
}

/// The type key of a GenericDescriptor set.
#[verifier::when_used_as_spec(spec_generic_descriptor_set_key)]
pub fn generic_descriptor_set_key() -> (key: MXFKey)
    ensures
        key == spec_generic_descriptor_set_key(),
{
    MXFKey::new(
        0x06, 0x0e, 0x2b, 0x34, 0x02, 0x53, 0x01, 0x01,
        0x0d, 0x01, 0x01, 0x01, 0x01, 0x01, 0x24, 0x00,
    )
}

/// The type key of a FileDescriptor set.
pub open spec fn spec_file_descriptor_set_key() -> MXFKey {
    MXFKey::spec_new(
        0x06, 0x0e, 0x2b, 0x34, 0x02, 0x53, 0x01, 0x01,
        0x0d, 0x01, 0x01, 0x01, 0x01, 0x01, 0x25, 0x00,
    )
}

/// The type key of a FileDescriptor set.
#[verifier::when_used_as_spec(spec_file_descriptor_set_key)]
pub fn file_descriptor_set_key() -> (key: MXFKey)
    ensures
        key == spec_file_descriptor_set_key(),
{
    MXFKey::new(
        0x06, 0x0e, 0x2b, 0x34, 0x02, 0x53, 0x01, 0x01,
        0x0d, 0x01, 0x01, 0x01, 0x01, 0x01, 0x25, 0x00,
    )
}

/// The type key of a GenericPictureEssenceDescriptor set.
pub open spec fn spec_generic_picture_essence_descriptor_set_key() -> MXFKey {
    MXFKey::spec_new(
        0x06, 0x0e, 0x2b, 0x34, 0x02, 0x53, 0x01, 0x01,
        0x0d, 0x01, 0x01, 0x01, 0x01, 0x01, 0x27, 0x00,
    )
}

/// The type key of a GenericPictureEssenceDescriptor set.
#[verifier::when_used_as_spec(spec_generic_picture_essence_descriptor_set_key)]
pub fn generic_picture_essence_descriptor_set_key() -> (key: MXFKey)
    ensures
        key == spec_generic_picture_essence_descriptor_set_key(),
{
    MXFKey::new(
        0x06, 0x0e, 0x2b, 0x34, 0x02, 0x53, 0x01, 0x01,
        0x0d, 0x01, 0x01, 0x01, 0x01, 0x01, 0x27, 0x00,
    )
}

/// The type key of a CDCIEssenceDescriptor set.
pub open spec fn spec_cdci_essence_descriptor_set_key() -> MXFKey {
    MXFKey::spec_new(
        0x06, 0x0e, 0x2b, 0x34, 0x02, 0x53, 0x01, 0x01,
        0x0d, 0x01, 0x01, 0x01, 0x01, 0x01, 0x28, 0x00,
    )
}

/// The type key of a CDCIEssenceDescriptor set.
#[verifier::when_used_as_spec(spec_cdci_essence_descriptor_set_key)]
pub fn cdci_essence_descriptor_set_key() -> (key: MXFKey)
    ensures
        key == spec_cdci_essence_descriptor_set_key(),
{
    MXFKey::new(
        0x06, 0x0e, 0x2b, 0x34, 0x02, 0x53, 0x01, 0x01,
        0x0d, 0x01, 0x01, 0x01, 0x01, 0x01, 0x28, 0x00,
    )
}

/// The type key of a GenericSoundEssenceDescriptor set.
pub open spec fn spec_generic_sound_essence_descriptor_set_key() -> MXFKey {
    MXFKey::spec_new(
        0x06, 0x0e, 0x2b, 0x34, 0x02, 0x53, 0x01, 0x01,
        0x0d, 0x01, 0x01, 0x01, 0x01, 0x01, 0x42, 0x00,
    )
}

/// The type key of a GenericSoundEssenceDescriptor set.
#[verifier::when_used_as_spec(spec_generic_sound_essence_descriptor_set_key)]
pub fn generic_sound_essence_descriptor_set_key() -> (key: MXFKey)
    ensures
        key == spec_generic_sound_essence_descriptor_set_key(),
{
    MXFKey::new(
        0x06, 0x0e, 0x2b, 0x34, 0x02, 0x53, 0x01, 0x01,
        0x0d, 0x01, 0x01, 0x01, 0x01, 0x01, 0x42, 0x00,
    )
}

/// The type key of a Locator set.
pub open spec fn spec_locator_set_key() -> MXFKey {
    MXFKey::spec_new(
        0x06, 0x0e, 0x2b, 0x34, 0x02, 0x53, 0x01, 0x01,
        0x0d, 0x01, 0x01, 0x01, 0x01, 0x01, 0x31, 0x00,
    )
}

/// The type key of a Locator set.
#[verifier::when_used_as_spec(spec_locator_set_key)]
pub fn locator_set_key() -> (key: MXFKey)
    ensures
        key == spec_locator_set_key(),
{
    MXFKey::new(
        0x06, 0x0e, 0x2b, 0x34, 0x02, 0x53, 0x01, 0x01,
        0x0d, 0x01, 0x01, 0x01, 0x01, 0x01, 0x31, 0x00,
    )
}

/// The type key of a NetworkLocator set.
pub open spec fn spec_network_locator_set_key() -> MXFKey {
    MXFKey::spec_new(
        0x06, 0x0e, 0x2b, 0x34, 0x02, 0x53, 0x01, 0x01,
        0x0d, 0x01, 0x01, 0x01, 0x01, 0x01, 0x32, 0x00,
    )
}

/// The type key of a NetworkLocator set.
#[verifier::when_used_as_spec(spec_network_locator_set_key)]
pub fn network_locator_set_key() -> (key: MXFKey)
    ensures
        key == spec_network_locator_set_key(),
{
    MXFKey::new(
        0x06, 0x0e, 0x2b, 0x34, 0x02, 0x53, 0x01, 0x01,
        0x0d, 0x01, 0x01, 0x01, 0x01, 0x01, 0x32, 0x00,
    )
}

/// The type key of a PhysicalDescriptor set.
pub open spec fn spec_physical_descriptor_set_key() -> MXFKey {
    MXFKey::spec_new(
        0x06, 0x0e, 0x2b, 0x34, 0x02, 0x53, 0x01, 0x01,
        0x0d, 0x01, 0x01, 0x01, 0x01, 0x01, 0x49, 0x00,
    )
}

/// The type key of a PhysicalDescriptor set.
#[verifier::when_used_as_spec(spec_physical_descriptor_set_key)]
pub fn physical_descriptor_set_key() -> (key: MXFKey)
    ensures
        key == spec_physical_descriptor_set_key(),
{
    MXFKey::new(
        0x06, 0x0e, 0x2b, 0x34, 0x02, 0x53, 0x01, 0x01,
        0x0d, 0x01, 0x01, 0x01, 0x01, 0x01, 0x49, 0x00,
    )
}

/// The type key of a TapeDescriptor set.
pub open spec fn spec_tape_descriptor_set_key() -> MXFKey {
    MXFKey::spec_new(
        0x06, 0x0e, 0x2b, 0x34, 0x02, 0x53, 0x01, 0x01,
        0x0d, 0x01, 0x01, 0x01, 0x01, 0x01, 0x2e, 0x00,
    )
}

/// The type key of a TapeDescriptor set.
#[verifier::when_used_as_spec(spec_tape_descriptor_set_key)]
pub fn tape_descriptor_set_key() -> (key: MXFKey)
    ensures
        key == spec_tape_descriptor_set_key(),
{
    MXFKey::new(
        0x06, 0x0e, 0x2b, 0x34, 0x02, 0x53, 0x01, 0x01,
        0x0d, 0x01, 0x01, 0x01, 0x01, 0x01, 0x2e, 0x00,
    )
}

/// The type key of a ImportDescriptor set.
pub open spec fn spec_import_descriptor_set_key() -> MXFKey {
    MXFKey::spec_new(
        0x06, 0x0e, 0x2b, 0x34, 0x02, 0x53, 0x01, 0x01,
        0x0d, 0x01, 0x01, 0x01, 0x01, 0x01, 0x4a, 0x00,
    )
}

/// The type key of a ImportDescriptor set.
#[verifier::when_used_as_spec(spec_import_descriptor_set_key)]
pub fn import_descriptor_set_key() -> (key: MXFKey)
    ensures
        key == spec_import_descriptor_set_key(),
{
    MXFKey::new(
        0x06, 0x0e, 0x2b, 0x34, 0x02, 0x53, 0x01, 0x01,
        0x0d, 0x01, 0x01, 0x01, 0x01, 0x01, 0x4a, 0x00,
    )
}

/// The type key of a RecordingDescriptor set.
pub open spec fn spec_recording_descriptor_set_key() -> MXFKey {
    MXFKey::spec_new(
        0x06, 0x0e, 0x2b, 0x34, 0x02, 0x53, 0x01, 0x01,
        0x0d, 0x01, 0x01, 0x01, 0x01, 0x01, 0x4b, 0x00,
    )
}

/// The type key of a RecordingDescriptor set.
#[verifier::when_used_as_spec(spec_recording_descriptor_set_key)]
pub fn recording_descriptor_set_key() -> (key: MXFKey)
    ensures
        key == spec_recording_descriptor_set_key(),
{
    MXFKey::new(
        0x06, 0x0e, 0x2b, 0x34, 0x02, 0x53, 0x01, 0x01,
        0x0d, 0x01, 0x01, 0x01, 0x01, 0x01, 0x4b, 0x00,
    )
}

/// The type key of a TaggedValue set.
pub open spec fn spec_tagged_value_set_key() -> MXFKey {
    MXFKey::spec_new(
        0x06, 0x0e, 0x2b, 0x34, 0x02, 0x53, 0x01, 0x01,
        0x0d, 0x01, 0x01, 0x01, 0x01, 0x01, 0x3f, 0x00,
    )
}

/// The type key of a TaggedValue set.
#[verifier::when_used_as_spec(spec_tagged_value_set_key)]
pub fn tagged_value_set_key() -> (key: MXFKey)
    ensures
        key == spec_tagged_value_set_key(),
{
    MXFKey::new(
        0x06, 0x0e, 0x2b, 0x34, 0x02, 0x53, 0x01, 0x01,
        0x0d, 0x01, 0x01, 0x01, 0x01, 0x01, 0x3f, 0x00,
    )
}

/// The type key of a DataDefinition set.
pub open spec fn spec_data_definition_set_key() -> MXFKey {
    MXFKey::spec_new(
        0x06, 0x0e, 0x2b, 0x34, 0x02, 0x53, 0x01, 0x01,
        0x0d, 0x01, 0x01, 0x01, 0x01, 0x01, 0x1b, 0x00,
    )
}

/// The type key of a DataDefinition set.
#[verifier::when_used_as_spec(spec_data_definition_set_key)]
pub fn data_definition_set_key() -> (key: MXFKey)
    ensures
        key == spec_data_definition_set_key(),
{
    MXFKey::new(
        0x06, 0x0e, 0x2b, 0x34, 0x02, 0x53, 0x01, 0x01,
        0x0d, 0x01, 0x01, 0x01, 0x01, 0x01, 0x1b, 0x00,
    )
}

/// The item key of the project name of the Preface.
pub open spec fn spec_preface_project_name_item_key() -> MXFKey {
    MXFKey::spec_new(
        0xa5, 0xfb, 0x7b, 0x25, 0xf6, 0x15, 0x94, 0xb9,
        0x62, 0xfc, 0x37, 0x17, 0x49, 0x2d, 0x42, 0xbf,
    )
}

/// The item key of the project name of the Preface.
#[verifier::when_used_as_spec(spec_preface_project_name_item_key)]
pub fn preface_project_name_item_key() -> (key: MXFKey)
    ensures
        key == spec_preface_project_name_item_key(),
{
    MXFKey::new(
        0xa5, 0xfb, 0x7b, 0x25, 0xf6, 0x15, 0x94, 0xb9,
        0x62, 0xfc, 0x37, 0x17, 0x49, 0x2d, 0x42, 0xbf,
    )
}

/// The item key of the project edit rate of the Preface.
pub open spec fn spec_preface_project_edit_rate_item_key() -> MXFKey {
    MXFKey::spec_new(
        0x8c, 0x70, 0xa7, 0x18, 0x46, 0x7a, 0xe4, 0x86,
        0xf3, 0x65, 0x46, 0xb1, 0x38, 0x7c, 0x4e, 0xe9,
    )
}

/// The item key of the project edit rate of the Preface.
#[verifier::when_used_as_spec(spec_preface_project_edit_rate_item_key)]
pub fn preface_project_edit_rate_item_key() -> (key: MXFKey)
    ensures
        key == spec_preface_project_edit_rate_item_key(),
{
    MXFKey::new(
        0x8c, 0x70, 0xa7, 0x18, 0x46, 0x7a, 0xe4, 0x86,
        0xf3, 0x65, 0x46, 0xb1, 0x38, 0x7c, 0x4e, 0xe9,
    )
}

/// The item key of the identifier of a package.
pub open spec fn spec_generic_package_package_uid_item_key() -> MXFKey {
    MXFKey::spec_new(
        0x06, 0x0e, 0x2b, 0x34, 0x01, 0x01, 0x01, 0x01,
        0x01, 0x01, 0x15, 0x10, 0x00, 0x00, 0x00, 0x00,
    )
}

/// The item key of the identifier of a package.
#[verifier::when_used_as_spec(spec_generic_package_package_uid_item_key)]
pub fn generic_package_package_uid_item_key() -> (key: MXFKey)
    ensures
        key == spec_generic_package_package_uid_item_key(),
{
    MXFKey::new(
        0x06, 0x0e, 0x2b, 0x34, 0x01, 0x01, 0x01, 0x01,
        0x01, 0x01, 0x15, 0x10, 0x00, 0x00, 0x00, 0x00,
    )
}

/// The item key of the name of a package.
pub open spec fn spec_generic_package_name_item_key() -> MXFKey {
    MXFKey::spec_new(
        0x06, 0x0e, 0x2b, 0x34, 0x01, 0x01, 0x01, 0x01,
        0x01, 0x03, 0x03, 0x02, 0x01, 0x00, 0x00, 0x00,
    )
}

/// The item key of the name of a package.
#[verifier::when_used_as_spec(spec_generic_package_name_item_key)]
pub fn generic_package_name_item_key() -> (key: MXFKey)
    ensures
        key == spec_generic_package_name_item_key(),
{
    MXFKey::new(
        0x06, 0x0e, 0x2b, 0x34, 0x01, 0x01, 0x01, 0x01,
        0x01, 0x03, 0x03, 0x02, 0x01, 0x00, 0x00, 0x00,
    )
}

/// The item key of the creation date of a package.
pub open spec fn spec_generic_package_package_creation_date_item_key() -> MXFKey {
    MXFKey::spec_new(
        0x06, 0x0e, 0x2b, 0x34, 0x01, 0x01, 0x01, 0x02,
        0x07, 0x02, 0x01, 0x10, 0x01, 0x03, 0x00, 0x00,
    )
}

/// The item key of the creation date of a package.
#[verifier::when_used_as_spec(spec_generic_package_package_creation_date_item_key)]
pub fn generic_package_package_creation_date_item_key() -> (key: MXFKey)
    ensures
        key == spec_generic_package_package_creation_date_item_key(),
{
    MXFKey::new(
        0x06, 0x0e, 0x2b, 0x34, 0x01, 0x01, 0x01, 0x02,
        0x07, 0x02, 0x01, 0x10, 0x01, 0x03, 0x00, 0x00,
    )
}

/// The item key of the tracks of a package.
pub open spec fn spec_generic_package_tracks_item_key() -> MXFKey {
    MXFKey::spec_new(
        0x06, 0x0e, 0x2b, 0x34, 0x01, 0x01, 0x01, 0x02,
        0x06, 0x01, 0x01, 0x04, 0x06, 0x05, 0x00, 0x00,
    )
}

/// The item key of the tracks of a package.
#[verifier::when_used_as_spec(spec_generic_package_tracks_item_key)]
pub fn generic_package_tracks_item_key() -> (key: MXFKey)
    ensures
        key == spec_generic_package_tracks_item_key(),
{
    MXFKey::new(
        0x06, 0x0e, 0x2b, 0x34, 0x01, 0x01, 0x01, 0x02,
        0x06, 0x01, 0x01, 0x04, 0x06, 0x05, 0x00, 0x00,
    )
}

/// The item key of the attribute list of a package.
pub open spec fn spec_generic_package_mob_attribute_list_item_key() -> MXFKey {
    MXFKey::spec_new(
        0x60, 0x95, 0x81, 0x83, 0x47, 0xb1, 0x11, 0xd4,
        0xa0, 0x1c, 0x00, 0x04, 0xac, 0x96, 0x9f, 0x50,
    )
}

/// The item key of the attribute list of a package.
#[verifier::when_used_as_spec(spec_generic_package_mob_attribute_list_item_key)]
pub fn generic_package_mob_attribute_list_item_key() -> (key: MXFKey)
    ensures
        key == spec_generic_package_mob_attribute_list_item_key(),
{
    MXFKey::new(
        0x60, 0x95, 0x81, 0x83, 0x47, 0xb1, 0x11, 0xd4,
        0xa0, 0x1c, 0x00, 0x04, 0xac, 0x96, 0x9f, 0x50,
    )
}

/// The item key of the descriptor of a source package.
pub open spec fn spec_source_package_descriptor_item_key() -> MXFKey {
    MXFKey::spec_new(
        0x06, 0x0e, 0x2b, 0x34, 0x01, 0x01, 0x01, 0x02,
        0x06, 0x01, 0x01, 0x04, 0x02, 0x03, 0x00, 0x00,
    )
}

/// The item key of the descriptor of a source package.
#[verifier::when_used_as_spec(spec_source_package_descriptor_item_key)]
pub fn source_package_descriptor_item_key() -> (key: MXFKey)
    ensures
        key == spec_source_package_descriptor_item_key(),
{
    MXFKey::new(
        0x06, 0x0e, 0x2b, 0x34, 0x01, 0x01, 0x01, 0x02,
        0x06, 0x01, 0x01, 0x04, 0x02, 0x03, 0x00, 0x00,
    )
}

/// The item key of the package whose essence the file holds.
pub open spec fn spec_essence_container_data_linked_package_uid_item_key() -> MXFKey {
    MXFKey::spec_new(
        0x06, 0x0e, 0x2b, 0x34, 0x01, 0x01, 0x01, 0x02,
        0x06, 0x01, 0x01, 0x06, 0x01, 0x00, 0x00, 0x00,
    )
}

/// The item key of the package whose essence the file holds.
#[verifier::when_used_as_spec(spec_essence_container_data_linked_package_uid_item_key)]
pub fn essence_container_data_linked_package_uid_item_key() -> (key: MXFKey)
    ensures
        key == spec_essence_container_data_linked_package_uid_item_key(),
{
    MXFKey::new(
        0x06, 0x0e, 0x2b, 0x34, 0x01, 0x01, 0x01, 0x02,
        0x06, 0x01, 0x01, 0x06, 0x01, 0x00, 0x00, 0x00,
    )
}

/// The item key of the number of a track.
pub open spec fn spec_generic_track_track_number_item_key() -> MXFKey {
    MXFKey::spec_new(
        0x06, 0x0e, 0x2b, 0x34, 0x01, 0x01, 0x01, 0x02,
        0x01, 0x04, 0x01, 0x03, 0x00, 0x00, 0x00, 0x00,
    )
}

/// The item key of the number of a track.
#[verifier::when_used_as_spec(spec_generic_track_track_number_item_key)]
pub fn generic_track_track_number_item_key() -> (key: MXFKey)
    ensures
        key == spec_generic_track_track_number_item_key(),
{
    MXFKey::new(
        0x06, 0x0e, 0x2b, 0x34, 0x01, 0x01, 0x01, 0x02,
        0x01, 0x04, 0x01, 0x03, 0x00, 0x00, 0x00, 0x00,
    )
}

/// The item key of the sequence of a track.
pub open spec fn spec_generic_track_sequence_item_key() -> MXFKey {
    MXFKey::spec_new(
        0x06, 0x0e, 0x2b, 0x34, 0x01, 0x01, 0x01, 0x02,
        0x06, 0x01, 0x01, 0x04, 0x02, 0x04, 0x00, 0x00,
    )
}

/// The item key of the sequence of a track.
#[verifier::when_used_as_spec(spec_generic_track_sequence_item_key)]
pub fn generic_track_sequence_item_key() -> (key: MXFKey)
    ensures
        key == spec_generic_track_sequence_item_key(),
{
    MXFKey::new(
        0x06, 0x0e, 0x2b, 0x34, 0x01, 0x01, 0x01, 0x02,
        0x06, 0x01, 0x01, 0x04, 0x02, 0x04, 0x00, 0x00,
    )
}

/// The item key of the edit rate of a track.
pub open spec fn spec_track_edit_rate_item_key() -> MXFKey {
    MXFKey::spec_new(
        0x06, 0x0e, 0x2b, 0x34, 0x01, 0x01, 0x01, 0x02,
        0x05, 0x30, 0x04, 0x05, 0x00, 0x00, 0x00, 0x00,
    )
}

/// The item key of the edit rate of a track.
#[verifier::when_used_as_spec(spec_track_edit_rate_item_key)]
pub fn track_edit_rate_item_key() -> (key: MXFKey)
    ensures
        key == spec_track_edit_rate_item_key(),
{
    MXFKey::new(
        0x06, 0x0e, 0x2b, 0x34, 0x01, 0x01, 0x01, 0x02,
        0x05, 0x30, 0x04, 0x05, 0x00, 0x00, 0x00, 0x00,
    )
}

/// The item key of the data definition of a component.
pub open spec fn spec_structural_component_data_definition_item_key() -> MXFKey {
    MXFKey::spec_new(
        0x06, 0x0e, 0x2b, 0x34, 0x01, 0x01, 0x01, 0x02,
        0x04, 0x07, 0x01, 0x00, 0x00, 0x00, 0x00, 0x00,
    )
}

/// The item key of the data definition of a component.
#[verifier::when_used_as_spec(spec_structural_component_data_definition_item_key)]
pub fn structural_component_data_definition_item_key() -> (key: MXFKey)
    ensures
        key == spec_structural_component_data_definition_item_key(),
{
    MXFKey::new(
        0x06, 0x0e, 0x2b, 0x34, 0x01, 0x01, 0x01, 0x02,
        0x04, 0x07, 0x01, 0x00, 0x00, 0x00, 0x00, 0x00,
    )
}

/// The item key of the duration of a component.
pub open spec fn spec_structural_component_duration_item_key() -> MXFKey {
    MXFKey::spec_new(
        0x06, 0x0e, 0x2b, 0x34, 0x01, 0x01, 0x01, 0x02,
        0x07, 0x02, 0x02, 0x01, 0x01, 0x03, 0x00, 0x00,
    )
}

/// The item key of the duration of a component.
#[verifier::when_used_as_spec(spec_structural_component_duration_item_key)]
pub fn structural_component_duration_item_key() -> (key: MXFKey)
    ensures
        key == spec_structural_component_duration_item_key(),
{
    MXFKey::new(
        0x06, 0x0e, 0x2b, 0x34, 0x01, 0x01, 0x01, 0x02,
        0x07, 0x02, 0x02, 0x01, 0x01, 0x03, 0x00, 0x00,
    )
}

/// The item key of the components of a sequence.
pub open spec fn spec_sequence_structural_components_item_key() -> MXFKey {
    MXFKey::spec_new(
        0x06, 0x0e, 0x2b, 0x34, 0x01, 0x01, 0x01, 0x02,
        0x06, 0x01, 0x01, 0x04, 0x06, 0x09, 0x00, 0x00,
    )
}

/// The item key of the components of a sequence.
#[verifier::when_used_as_spec(spec_sequence_structural_components_item_key)]
pub fn sequence_structural_components_item_key() -> (key: MXFKey)
    ensures
        key == spec_sequence_structural_components_item_key(),
{
    MXFKey::new(
        0x06, 0x0e, 0x2b, 0x34, 0x01, 0x01, 0x01, 0x02,
        0x06, 0x01, 0x01, 0x04, 0x06, 0x09, 0x00, 0x00,
    )
}

/// The item key of the choices of an essence group.
pub open spec fn spec_essence_group_choices_item_key() -> MXFKey {
    MXFKey::spec_new(
        0x06, 0x0e, 0x2b, 0x34, 0x01, 0x01, 0x01, 0x02,
        0x06, 0x01, 0x01, 0x04, 0x06, 0x01, 0x00, 0x00,
    )
}

/// The item key of the choices of an essence group.
#[verifier::when_used_as_spec(spec_essence_group_choices_item_key)]
pub fn essence_group_choices_item_key() -> (key: MXFKey)
    ensures
        key == spec_essence_group_choices_item_key(),
{
    MXFKey::new(
        0x06, 0x0e, 0x2b, 0x34, 0x01, 0x01, 0x01, 0x02,
        0x06, 0x01, 0x01, 0x04, 0x06, 0x01, 0x00, 0x00,
    )
}

/// The item key of the package that a source clip refers to.
pub open spec fn spec_source_clip_source_package_id_item_key() -> MXFKey {
    MXFKey::spec_new(
        0x06, 0x0e, 0x2b, 0x34, 0x01, 0x01, 0x01, 0x02,
        0x06, 0x01, 0x01, 0x03, 0x01, 0x00, 0x00, 0x00,
    )
}

/// The item key of the package that a source clip refers to.
#[verifier::when_used_as_spec(spec_source_clip_source_package_id_item_key)]
pub fn source_clip_source_package_id_item_key() -> (key: MXFKey)
    ensures
        key == spec_source_clip_source_package_id_item_key(),
{
    MXFKey::new(
        0x06, 0x0e, 0x2b, 0x34, 0x01, 0x01, 0x01, 0x02,
        0x06, 0x01, 0x01, 0x03, 0x01, 0x00, 0x00, 0x00,
    )
}

/// The item key of the start position of a source clip.
pub open spec fn spec_source_clip_start_position_item_key() -> MXFKey {
    MXFKey::spec_new(
        0x06, 0x0e, 0x2b, 0x34, 0x01, 0x01, 0x01, 0x02,
        0x07, 0x02, 0x01, 0x03, 0x01, 0x04, 0x00, 0x00,
    )
}

/// The item key of the start position of a source clip.
#[verifier::when_used_as_spec(spec_source_clip_start_position_item_key)]
pub fn source_clip_start_position_item_key() -> (key: MXFKey)
    ensures
        key == spec_source_clip_start_position_item_key(),
{
    MXFKey::new(
        0x06, 0x0e, 0x2b, 0x34, 0x01, 0x01, 0x01, 0x02,
        0x07, 0x02, 0x01, 0x03, 0x01, 0x04, 0x00, 0x00,
    )
}

/// The item key of the start timecode of a timecode component.
pub open spec fn spec_timecode_component_start_timecode_item_key() -> MXFKey {
    MXFKey::spec_new(
        0x06, 0x0e, 0x2b, 0x34, 0x01, 0x01, 0x01, 0x02,
        0x07, 0x02, 0x01, 0x03, 0x01, 0x05, 0x00, 0x00,
    )
}

/// The item key of the start timecode of a timecode component.
#[verifier::when_used_as_spec(spec_timecode_component_start_timecode_item_key)]
pub fn timecode_component_start_timecode_item_key() -> (key: MXFKey)
    ensures
        key == spec_timecode_component_start_timecode_item_key(),
{
    MXFKey::new(
        0x06, 0x0e, 0x2b, 0x34, 0x01, 0x01, 0x01, 0x02,
        0x07, 0x02, 0x01, 0x03, 0x01, 0x05, 0x00, 0x00,
    )
}

/// The item key of the rounded timecode base of a timecode component.
pub open spec fn spec_timecode_component_rounded_timecode_base_item_key() -> MXFKey {
    MXFKey::spec_new(
        0x06, 0x0e, 0x2b, 0x34, 0x01, 0x01, 0x01, 0x02,
        0x04, 0x04, 0x01, 0x01, 0x02, 0x06, 0x00, 0x00,
    )
}

/// The item key of the rounded timecode base of a timecode component.
#[verifier::when_used_as_spec(spec_timecode_component_rounded_timecode_base_item_key)]
pub fn timecode_component_rounded_timecode_base_item_key() -> (key: MXFKey)
    ensures
        key == spec_timecode_component_rounded_timecode_base_item_key(),
{
    MXFKey::new(
        0x06, 0x0e, 0x2b, 0x34, 0x01, 0x01, 0x01, 0x02,
        0x04, 0x04, 0x01, 0x01, 0x02, 0x06, 0x00, 0x00,
    )
}

/// The item key of the locators of a descriptor.
pub open spec fn spec_generic_descriptor_locators_item_key() -> MXFKey {
    MXFKey::spec_new(
        0x06, 0x0e, 0x2b, 0x34, 0x01, 0x01, 0x01, 0x02,
        0x06, 0x01, 0x01, 0x04, 0x06, 0x03, 0x00, 0x00,
    )
}

/// The item key of the locators of a descriptor.
#[verifier::when_used_as_spec(spec_generic_descriptor_locators_item_key)]
pub fn generic_descriptor_locators_item_key() -> (key: MXFKey)
    ensures
        key == spec_generic_descriptor_locators_item_key(),
{
    MXFKey::new(
        0x06, 0x0e, 0x2b, 0x34, 0x01, 0x01, 0x01, 0x02,
        0x06, 0x01, 0x01, 0x04, 0x06, 0x03, 0x00, 0x00,
    )
}

/// The item key of the URL of a network locator.
pub open spec fn spec_network_locator_url_string_item_key() -> MXFKey {
    MXFKey::spec_new(
        0x06, 0x0e, 0x2b, 0x34, 0x01, 0x01, 0x01, 0x01,
        0x01, 0x02, 0x01, 0x01, 0x01, 0x00, 0x00, 0x00,
    )
}

/// The item key of the URL of a network locator.
#[verifier::when_used_as_spec(spec_network_locator_url_string_item_key)]
pub fn network_locator_url_string_item_key() -> (key: MXFKey)
    ensures
        key == spec_network_locator_url_string_item_key(),
{
    MXFKey::new(
        0x06, 0x0e, 0x2b, 0x34, 0x01, 0x01, 0x01, 0x01,
        0x01, 0x02, 0x01, 0x01, 0x01, 0x00, 0x00, 0x00,
    )
}

/// The item key of the aspect ratio of a picture descriptor.
pub open spec fn spec_generic_picture_essence_descriptor_aspect_ratio_item_key() -> MXFKey {
    MXFKey::spec_new(
        0x06, 0x0e, 0x2b, 0x34, 0x01, 0x01, 0x01, 0x01,
        0x04, 0x01, 0x01, 0x01, 0x01, 0x00, 0x00, 0x00,
    )
}

/// The item key of the aspect ratio of a picture descriptor.
#[verifier::when_used_as_spec(spec_generic_picture_essence_descriptor_aspect_ratio_item_key)]
pub fn generic_picture_essence_descriptor_aspect_ratio_item_key() -> (key: MXFKey)
    ensures
        key == spec_generic_picture_essence_descriptor_aspect_ratio_item_key(),
{
    MXFKey::new(
        0x06, 0x0e, 0x2b, 0x34, 0x01, 0x01, 0x01, 0x01,
        0x04, 0x01, 0x01, 0x01, 0x01, 0x00, 0x00, 0x00,
    )
}

/// The item key of the frame layout of a picture descriptor.
pub open spec fn spec_generic_picture_essence_descriptor_frame_layout_item_key() -> MXFKey {
    MXFKey::spec_new(
        0x06, 0x0e, 0x2b, 0x34, 0x01, 0x01, 0x01, 0x01,
        0x04, 0x01, 0x03, 0x01, 0x04, 0x00, 0x00, 0x00,
    )
}

/// The item key of the frame layout of a picture descriptor.
#[verifier::when_used_as_spec(spec_generic_picture_essence_descriptor_frame_layout_item_key)]
pub fn generic_picture_essence_descriptor_frame_layout_item_key() -> (key: MXFKey)
    ensures
        key == spec_generic_picture_essence_descriptor_frame_layout_item_key(),
{
    MXFKey::new(
        0x06, 0x0e, 0x2b, 0x34, 0x01, 0x01, 0x01, 0x01,
        0x04, 0x01, 0x03, 0x01, 0x04, 0x00, 0x00, 0x00,
    )
}

/// The item key of the stored width of a picture descriptor.
pub open spec fn spec_generic_picture_essence_descriptor_stored_width_item_key() -> MXFKey {
    MXFKey::spec_new(
        0x06, 0x0e, 0x2b, 0x34, 0x01, 0x01, 0x01, 0x01,
        0x04, 0x01, 0x05, 0x02, 0x02, 0x00, 0x00, 0x00,
    )
}

/// The item key of the stored width of a picture descriptor.
#[verifier::when_used_as_spec(spec_generic_picture_essence_descriptor_stored_width_item_key)]
pub fn generic_picture_essence_descriptor_stored_width_item_key() -> (key: MXFKey)
    ensures
        key == spec_generic_picture_essence_descriptor_stored_width_item_key(),
{
    MXFKey::new(
        0x06, 0x0e, 0x2b, 0x34, 0x01, 0x01, 0x01, 0x01,
        0x04, 0x01, 0x05, 0x02, 0x02, 0x00, 0x00, 0x00,
    )
}

/// The item key of the stored height of a picture descriptor.
pub open spec fn spec_generic_picture_essence_descriptor_stored_height_item_key() -> MXFKey {
    MXFKey::spec_new(
        0x06, 0x0e, 0x2b, 0x34, 0x01, 0x01, 0x01, 0x01,
        0x04, 0x01, 0x05, 0x02, 0x01, 0x00, 0x00, 0x00,
    )
}

/// The item key of the stored height of a picture descriptor.
#[verifier::when_used_as_spec(spec_generic_picture_essence_descriptor_stored_height_item_key)]
pub fn generic_picture_essence_descriptor_stored_height_item_key() -> (key: MXFKey)
    ensures
        key == spec_generic_picture_essence_descriptor_stored_height_item_key(),
{
    MXFKey::new(
        0x06, 0x0e, 0x2b, 0x34, 0x01, 0x01, 0x01, 0x01,
        0x04, 0x01, 0x05, 0x02, 0x01, 0x00, 0x00, 0x00,
    )
}

/// The item key of the display width of a picture descriptor.
pub open spec fn spec_generic_picture_essence_descriptor_display_width_item_key() -> MXFKey {
    MXFKey::spec_new(
        0x06, 0x0e, 0x2b, 0x34, 0x01, 0x01, 0x01, 0x01,
        0x04, 0x01, 0x05, 0x01, 0x0c, 0x00, 0x00, 0x00,
    )
}

/// The item key of the display width of a picture descriptor.
#[verifier::when_used_as_spec(spec_generic_picture_essence_descriptor_display_width_item_key)]
pub fn generic_picture_essence_descriptor_display_width_item_key() -> (key: MXFKey)
    ensures
        key == spec_generic_picture_essence_descriptor_display_width_item_key(),
{
    MXFKey::new(
        0x06, 0x0e, 0x2b, 0x34, 0x01, 0x01, 0x01, 0x01,
        0x04, 0x01, 0x05, 0x01, 0x0c, 0x00, 0x00, 0x00,
    )
}

/// The item key of the display height of a picture descriptor.
pub open spec fn spec_generic_picture_essence_descriptor_display_height_item_key() -> MXFKey {
    MXFKey::spec_new(
        0x06, 0x0e, 0x2b, 0x34, 0x01, 0x01, 0x01, 0x01,
        0x04, 0x01, 0x05, 0x01, 0x0b, 0x00, 0x00, 0x00,
    )
}

/// The item key of the display height of a picture descriptor.
#[verifier::when_used_as_spec(spec_generic_picture_essence_descriptor_display_height_item_key)]
pub fn generic_picture_essence_descriptor_display_height_item_key() -> (key: MXFKey)
    ensures
        key == spec_generic_picture_essence_descriptor_display_height_item_key(),
{
    MXFKey::new(
        0x06, 0x0e, 0x2b, 0x34, 0x01, 0x01, 0x01, 0x01,
        0x04, 0x01, 0x05, 0x01, 0x0b, 0x00, 0x00, 0x00,
    )
}

/// The item key of the resolution identifier of a picture descriptor.
pub open spec fn spec_generic_picture_essence_descriptor_resolution_id_item_key() -> MXFKey {
    MXFKey::spec_new(
        0xa0, 0x24, 0x00, 0x60, 0x94, 0xeb, 0x75, 0xcb,
        0xce, 0x2a, 0xca, 0x4d, 0x51, 0xab, 0x11, 0xd3,
    )
}

/// The item key of the resolution identifier of a picture descriptor.
#[verifier::when_used_as_spec(spec_generic_picture_essence_descriptor_resolution_id_item_key)]
pub fn generic_picture_essence_descriptor_resolution_id_item_key() -> (key: MXFKey)
    ensures
        key == spec_generic_picture_essence_descriptor_resolution_id_item_key(),
{
    MXFKey::new(
        0xa0, 0x24, 0x00, 0x60, 0x94, 0xeb, 0x75, 0xcb,
        0xce, 0x2a, 0xca, 0x4d, 0x51, 0xab, 0x11, 0xd3,
    )
}

/// The item key of the coding label of a picture descriptor.
pub open spec fn spec_generic_picture_essence_descriptor_picture_essence_coding_item_key() -> MXFKey {
    MXFKey::spec_new(
        0x06, 0x0e, 0x2b, 0x34, 0x01, 0x01, 0x01, 0x02,
        0x04, 0x01, 0x06, 0x01, 0x00, 0x00, 0x00, 0x00,
    )
}

/// The item key of the coding label of a picture descriptor.
#[verifier::when_used_as_spec(spec_generic_picture_essence_descriptor_picture_essence_coding_item_key)]
pub fn generic_picture_essence_descriptor_picture_essence_coding_item_key() -> (key: MXFKey)
    ensures
        key == spec_generic_picture_essence_descriptor_picture_essence_coding_item_key(),
{
    MXFKey::new(
        0x06, 0x0e, 0x2b, 0x34, 0x01, 0x01, 0x01, 0x02,
        0x04, 0x01, 0x06, 0x01, 0x00, 0x00, 0x00, 0x00,
    )
}

/// The item key of the sampling rate of a sound descriptor.
pub open spec fn spec_generic_sound_essence_descriptor_audio_sampling_rate_item_key() -> MXFKey {
    MXFKey::spec_new(
        0x06, 0x0e, 0x2b, 0x34, 0x01, 0x01, 0x01, 0x05,
        0x04, 0x02, 0x03, 0x01, 0x01, 0x01, 0x00, 0x00,
    )
}

/// The item key of the sampling rate of a sound descriptor.
#[verifier::when_used_as_spec(spec_generic_sound_essence_descriptor_audio_sampling_rate_item_key)]
pub fn generic_sound_essence_descriptor_audio_sampling_rate_item_key() -> (key: MXFKey)
    ensures
        key == spec_generic_sound_essence_descriptor_audio_sampling_rate_item_key(),
{
    MXFKey::new(
        0x06, 0x0e, 0x2b, 0x34, 0x01, 0x01, 0x01, 0x05,
        0x04, 0x02, 0x03, 0x01, 0x01, 0x01, 0x00, 0x00,
    )
}

/// The item key of the quantization bits of a sound descriptor.
pub open spec fn spec_generic_sound_essence_descriptor_quantization_bits_item_key() -> MXFKey {
    MXFKey::spec_new(
        0x06, 0x0e, 0x2b, 0x34, 0x01, 0x01, 0x01, 0x04,
        0x04, 0x02, 0x03, 0x03, 0x04, 0x00, 0x00, 0x00,
    )
}

/// The item key of the quantization bits of a sound descriptor.
#[verifier::when_used_as_spec(spec_generic_sound_essence_descriptor_quantization_bits_item_key)]
pub fn generic_sound_essence_descriptor_quantization_bits_item_key() -> (key: MXFKey)
    ensures
        key == spec_generic_sound_essence_descriptor_quantization_bits_item_key(),
{
    MXFKey::new(
        0x06, 0x0e, 0x2b, 0x34, 0x01, 0x01, 0x01, 0x04,
        0x04, 0x02, 0x03, 0x03, 0x04, 0x00, 0x00, 0x00,
    )
}

/// The item key of the channel count of a sound descriptor.
pub open spec fn spec_generic_sound_essence_descriptor_channel_count_item_key() -> MXFKey {
    MXFKey::spec_new(
        0x06, 0x0e, 0x2b, 0x34, 0x01, 0x01, 0x01, 0x05,
        0x04, 0x02, 0x01, 0x01, 0x04, 0x00, 0x00, 0x00,
    )
}

/// The item key of the channel count of a sound descriptor.
#[verifier::when_used_as_spec(spec_generic_sound_essence_descriptor_channel_count_item_key)]
pub fn generic_sound_essence_descriptor_channel_count_item_key() -> (key: MXFKey)
    ensures
        key == spec_generic_sound_essence_descriptor_channel_count_item_key(),
{
    MXFKey::new(
        0x06, 0x0e, 0x2b, 0x34, 0x01, 0x01, 0x01, 0x05,
        0x04, 0x02, 0x01, 0x01, 0x04, 0x00, 0x00, 0x00,
    )
}

/// The item key of the label that a definition stands for.
pub open spec fn spec_definition_object_identification_item_key() -> MXFKey {
    MXFKey::spec_new(
        0x06, 0x0e, 0x2b, 0x34, 0x01, 0x01, 0x01, 0x02,
        0x01, 0x01, 0x15, 0x03, 0x00, 0x00, 0x00, 0x00,
    )
}

/// The item key of the label that a definition stands for.
#[verifier::when_used_as_spec(spec_definition_object_identification_item_key)]
pub fn definition_object_identification_item_key() -> (key: MXFKey)
    ensures
        key == spec_definition_object_identification_item_key(),
{
    MXFKey::new(
        0x06, 0x0e, 0x2b, 0x34, 0x01, 0x01, 0x01, 0x02,
        0x01, 0x01, 0x15, 0x03, 0x00, 0x00, 0x00, 0x00,
    )
}

/// The item key of the name of a tagged value.
pub open spec fn spec_tagged_value_name_item_key() -> MXFKey {
    MXFKey::spec_new(
        0x06, 0x0e, 0x2b, 0x34, 0x01, 0x01, 0x01, 0x02,
        0x03, 0x02, 0x01, 0x02, 0x09, 0x01, 0x00, 0x00,
    )
}

/// The item key of the name of a tagged value.
#[verifier::when_used_as_spec(spec_tagged_value_name_item_key)]
pub fn tagged_value_name_item_key() -> (key: MXFKey)
    ensures
        key == spec_tagged_value_name_item_key(),
{
    MXFKey::new(
        0x06, 0x0e, 0x2b, 0x34, 0x01, 0x01, 0x01, 0x02,
        0x03, 0x02, 0x01, 0x02, 0x09, 0x01, 0x00, 0x00,
    )
}

/// The item key of the value of a tagged value.
pub open spec fn spec_tagged_value_value_item_key() -> MXFKey {
    MXFKey::spec_new(
        0x06, 0x0e, 0x2b, 0x34, 0x01, 0x01, 0x01, 0x02,
        0x03, 0x02, 0x01, 0x02, 0x0a, 0x01, 0x00, 0x00,
    )
}

/// The item key of the value of a tagged value.
#[verifier::when_used_as_spec(spec_tagged_value_value_item_key)]
pub fn tagged_value_value_item_key() -> (key: MXFKey)
    ensures
        key == spec_tagged_value_value_item_key(),
{
    MXFKey::new(
        0x06, 0x0e, 0x2b, 0x34, 0x01, 0x01, 0x01, 0x02,
        0x03, 0x02, 0x01, 0x02, 0x0a, 0x01, 0x00, 0x00,
    )
}

/// The label of picture essence.
pub open spec fn spec_picture_data_definition() -> MXFKey {
    MXFKey::spec_new(
        0x06, 0x0e, 0x2b, 0x34, 0x04, 0x01, 0x01, 0x01,
        0x01, 0x03, 0x02, 0x02, 0x01, 0x00, 0x00, 0x00,
    )
}

/// The label of picture essence.
#[verifier::when_used_as_spec(spec_picture_data_definition)]
pub fn picture_data_definition() -> (key: MXFKey)
    ensures
        key == spec_picture_data_definition(),
{
    MXFKey::new(
        0x06, 0x0e, 0x2b, 0x34, 0x04, 0x01, 0x01, 0x01,
        0x01, 0x03, 0x02, 0x02, 0x01, 0x00, 0x00, 0x00,
    )
}

/// The label of sound essence.
pub open spec fn spec_sound_data_definition() -> MXFKey {
    MXFKey::spec_new(
        0x06, 0x0e, 0x2b, 0x34, 0x04, 0x01, 0x01, 0x01,
        0x01, 0x03, 0x02, 0x02, 0x02, 0x00, 0x00, 0x00,
    )
}

/// The label of sound essence.
#[verifier::when_used_as_spec(spec_sound_data_definition)]
pub fn sound_data_definition() -> (key: MXFKey)
    ensures
        key == spec_sound_data_definition(),
{
    MXFKey::new(
        0x06, 0x0e, 0x2b, 0x34, 0x04, 0x01, 0x01, 0x01,
        0x01, 0x03, 0x02, 0x02, 0x02, 0x00, 0x00, 0x00,
    )
}

/// The label of timecode.
pub open spec fn spec_timecode_data_definition() -> MXFKey {
    MXFKey::spec_new(
        0x06, 0x0e, 0x2b, 0x34, 0x04, 0x01, 0x01, 0x01,
        0x01, 0x03, 0x02, 0x01, 0x01, 0x00, 0x00, 0x00,
    )
}

/// The label of timecode.
#[verifier::when_used_as_spec(spec_timecode_data_definition)]
pub fn timecode_data_definition() -> (key: MXFKey)
    ensures
        key == spec_timecode_data_definition(),
{
    MXFKey::new(
        0x06, 0x0e, 0x2b, 0x34, 0x04, 0x01, 0x01, 0x01,
        0x01, 0x03, 0x02, 0x01, 0x01, 0x00, 0x00, 0x00,
    )
}

/// The label of picture essence in its older form.
pub open spec fn spec_legacy_picture_data_definition() -> MXFKey {
    MXFKey::spec_new(
        0x80, 0x7d, 0x00, 0x60, 0x08, 0x14, 0x3e, 0x6f,
        0x6f, 0x3c, 0x8c, 0xe1, 0x6c, 0xef, 0x11, 0xd2,
    )
}

/// The label of picture essence in its older form.
#[verifier::when_used_as_spec(spec_legacy_picture_data_definition)]
pub fn legacy_picture_data_definition() -> (key: MXFKey)
    ensures
        key == spec_legacy_picture_data_definition(),
{
    MXFKey::new(
        0x80, 0x7d, 0x00, 0x60, 0x08, 0x14, 0x3e, 0x6f,
        0x6f, 0x3c, 0x8c, 0xe1, 0x6c, 0xef, 0x11, 0xd2,
    )
}

/// The label of sound essence in its older form.
pub open spec fn spec_legacy_sound_data_definition() -> MXFKey {
    MXFKey::spec_new(
        0x80, 0x7d, 0x00, 0x60, 0x08, 0x14, 0x3e, 0x6f,
        0x78, 0xe1, 0xeb, 0xe1, 0x6c, 0xef, 0x11, 0xd2,
    )
}

/// The label of sound essence in its older form.
#[verifier::when_used_as_spec(spec_legacy_sound_data_definition)]
pub fn legacy_sound_data_definition() -> (key: MXFKey)
    ensures
        key == spec_legacy_sound_data_definition(),
{
    MXFKey::new(
        0x80, 0x7d, 0x00, 0x60, 0x08, 0x14, 0x3e, 0x6f,
        0x78, 0xe1, 0xeb, 0xe1, 0x6c, 0xef, 0x11, 0xd2,
    )
}

/// The label of timecode in its older form.
pub open spec fn spec_legacy_timecode_data_definition() -> MXFKey {
    MXFKey::spec_new(
        0x80, 0x7f, 0x00, 0x60, 0x08, 0x14, 0x3e, 0x6f,
        0x7f, 0x27, 0x5e, 0x81, 0x77, 0xe5, 0x11, 0xd2,
    )
}

/// The label of timecode in its older form.
#[verifier::when_used_as_spec(spec_legacy_timecode_data_definition)]
pub fn legacy_timecode_data_definition() -> (key: MXFKey)
    ensures
        key == spec_legacy_timecode_data_definition(),
{
    MXFKey::new(
        0x80, 0x7f, 0x00, 0x60, 0x08, 0x14, 0x3e, 0x6f,
        0x7f, 0x27, 0x5e, 0x81, 0x77, 0xe5, 0x11, 0xd2,
    )
}

/// The label of the single-track operational pattern, in its plainest form.
pub open spec fn spec_op_atom_label() -> MXFKey {
    MXFKey::spec_new(
        0x06, 0x0e, 0x2b, 0x34, 0x04, 0x01, 0x01, 0x02,
        0x0d, 0x01, 0x02, 0x01, 0x10, 0x00, 0x00, 0x00,
    )
}

/// The label of the single-track operational pattern, in its plainest form.
#[verifier::when_used_as_spec(spec_op_atom_label)]
pub fn op_atom_label() -> (key: MXFKey)
    ensures
        key == spec_op_atom_label(),
{
    MXFKey::new(
        0x06, 0x0e, 0x2b, 0x34, 0x04, 0x01, 0x01, 0x02,
        0x0d, 0x01, 0x02, 0x01, 0x10, 0x00, 0x00, 0x00,
    )
}

} // verus!
verus! {

impl MXFKey {
    /// Whether the key is one of the two labels of picture essence.
    pub open spec fn spec_is_picture(self) -> bool {
        self == picture_data_definition() || self == legacy_picture_data_definition()
    }

    /// Whether the key is one of the two labels of sound essence.
    pub open spec fn spec_is_sound(self) -> bool {
        self == sound_data_definition() || self == legacy_sound_data_definition()
    }

    /// Whether the key is one of the two labels of timecode.
    pub open spec fn spec_is_timecode(self) -> bool {
        self == timecode_data_definition() || self == legacy_timecode_data_definition()
    }

    /// Whether the key names the single-track operational pattern: it
    /// agrees with the pattern's label in its first thirteen octets, the
    /// registry version in the eighth left aside.
    pub open spec fn spec_is_op_atom(self) -> bool {
        let label = op_atom_label();
        &&& self.octet0 == label.octet0
        &&& self.octet1 == label.octet1
        &&& self.octet2 == label.octet2
        &&& self.octet3 == label.octet3
        &&& self.octet4 == label.octet4
        &&& self.octet5 == label.octet5
        &&& self.octet6 == label.octet6
        &&& self.octet8 == label.octet8
        &&& self.octet9 == label.octet9
        &&& self.octet10 == label.octet10
        &&& self.octet11 == label.octet11
        &&& self.octet12 == label.octet12
    }

    /// Whether the key is a data definition that the resolution passes
    /// know: picture, sound or timecode.
    pub open spec fn spec_is_known_data_definition(self) -> bool {
        self.spec_is_picture() || self.spec_is_sound() || self.spec_is_timecode()
    }

    pub fn is_picture(&self) -> (b: bool)
        ensures
            b == self.spec_is_picture(),
    {
        *self == picture_data_definition() || *self == legacy_picture_data_definition()
    }

    pub fn is_sound(&self) -> (b: bool)
        ensures
            b == self.spec_is_sound(),
    {
        *self == sound_data_definition() || *self == legacy_sound_data_definition()
    }

    pub fn is_timecode(&self) -> (b: bool)
        ensures
            b == self.spec_is_timecode(),
    {
        *self == timecode_data_definition() || *self == legacy_timecode_data_definition()
    }

    pub fn is_op_atom(&self) -> (b: bool)
        ensures
            b == self.spec_is_op_atom(),
    {
        let label = op_atom_label();
        self.octet0 == label.octet0 && self.octet1 == label.octet1 && self.octet2 == label.octet2
            && self.octet3 == label.octet3 && self.octet4 == label.octet4 && self.octet5
            == label.octet5 && self.octet6 == label.octet6 && self.octet8 == label.octet8
            && self.octet9 == label.octet9 && self.octet10 == label.octet10 && self.octet11
            == label.octet11 && self.octet12 == label.octet12
    }
}

} // verus!
