//! The record of a clip, and the resolution that fills it.

use crate::error::MXFError;
use crate::file::MXFFile;
use crate::header::{MXFHeaderMetadata, MXFPartition};
use crate::key::{MXFKey, MXFUmid};
use crate::labels::{
    generic_package_name_item_key, generic_package_package_creation_date_item_key,
    generic_package_package_uid_item_key, material_package_set_key,
    preface_project_edit_rate_item_key, preface_set_key,
};
use crate::model::{opt_string_view, MXFTimestamp};
use crate::package::{
    resolve_file_descriptor, resolve_physical_source, resolve_preface, resolve_project_name,
    spec_file_descriptor, spec_physical_source, spec_preface, spec_project_name,
};
use crate::rational::MXFRational;
use crate::segment::{
    clip_duration, lemma_scan_keeps_unknown_rate, resolve_material_tracks, spec_clip_duration,
    spec_gives_project_edit_rate, spec_initial_scan, spec_material_tracks,
};
use crate::timecode::{resolve_start_timecode, spec_resolve_start_timecode};
use crate::types::{AvidEssenceType, AvidPhysicalPackageType};
use vstd::prelude::*;

verus! {

/// What is known of one clip: the flat record that the resolution of a
/// header metadata graph gives.
#[derive(Clone, Debug, PartialEq, Eq)]
pub struct AvidMXFInfo {
    /// The name of the project that the clip belongs to.
    pub project_name: Option<String>,
    /// The name of the material package.
    pub clip_name: Option<String>,
    pub track_string: Option<String>,
    /// The name of the physical source package.
    pub physical_package_name: Option<String>,
    /// The URL of the last network locator met up to the physical source.
    pub physical_package_locator: Option<String>,
    pub project_edit_rate: Option<MXFRational>,
    /// The edit rate of the selected track.
    pub clip_edit_rate: Option<MXFRational>,
    pub aspect_ratio: Option<MXFRational>,
    pub audio_sampling_rate: Option<MXFRational>,
    pub file_source_package_uid: Option<MXFUmid>,
    pub physical_source_package_uid: Option<MXFUmid>,
    pub material_package_uid: Option<MXFUmid>,
    /// The first essence container label of the header partition.
    pub essence_container_label: Option<MXFKey>,
    pub picture_coding_label: Option<MXFKey>,
    /// When the material package was created.
    pub clip_created: Option<MXFTimestamp>,
    pub essence_type: AvidEssenceType,
    pub physical_package_type: AvidPhysicalPackageType,
    pub frame_layout: Option<u8>,
    pub stored_width: Option<u32>,
    pub stored_height: Option<u32>,
    pub display_width: Option<u32>,
    pub display_height: Option<u32>,
    /// The duration of the selected track, at its own edit rate.
    pub track_duration: Option<i64>,
    /// The duration of the segment of the selected track that refers to the
    /// file source package.
    pub segment_duration: Option<i64>,
    /// The sum of the durations of the components that stand before that
    /// segment.
    pub segment_offset: Option<i64>,
    /// The start timecode at the clip edit rate; zero where none was found.
    pub start_timecode: i64,
    pub track_number: Option<u32>,
    pub channel_count: Option<u32>,
    pub quantization_bits: Option<u32>,
    /// The duration of the longest track, at the project edit rate.
    pub clip_duration: Option<i64>,
    /// Whether the selected track carries picture.
    pub is_video: bool,
    pub audio_track_count: u32,
    pub video_track_count: u32,
    pub avid_resolution_id: Option<i32>,
}

/// A clip record with its texts as sequences of characters.
pub struct AvidMXFInfoView {
    pub project_name: Option<Seq<char>>,
    pub clip_name: Option<Seq<char>>,
    pub track_string: Option<Seq<char>>,
    pub physical_package_name: Option<Seq<char>>,
    pub physical_package_locator: Option<Seq<char>>,
    pub project_edit_rate: Option<MXFRational>,
    pub clip_edit_rate: Option<MXFRational>,
    pub aspect_ratio: Option<MXFRational>,
    pub audio_sampling_rate: Option<MXFRational>,
    pub file_source_package_uid: Option<MXFUmid>,
    pub physical_source_package_uid: Option<MXFUmid>,
    pub material_package_uid: Option<MXFUmid>,
    pub essence_container_label: Option<MXFKey>,
    pub picture_coding_label: Option<MXFKey>,
    pub clip_created: Option<MXFTimestamp>,
    pub essence_type: AvidEssenceType,
    pub physical_package_type: AvidPhysicalPackageType,
    pub frame_layout: Option<u8>,
    pub stored_width: Option<u32>,
    pub stored_height: Option<u32>,
    pub display_width: Option<u32>,
    pub display_height: Option<u32>,
    pub track_duration: Option<i64>,
    pub segment_duration: Option<i64>,
    pub segment_offset: Option<i64>,
    pub start_timecode: i64,
    pub track_number: Option<u32>,
    pub channel_count: Option<u32>,
    pub quantization_bits: Option<u32>,
    pub clip_duration: Option<i64>,
    pub is_video: bool,
    pub audio_track_count: u32,
    pub video_track_count: u32,
    pub avid_resolution_id: Option<i32>,
}

impl View for AvidMXFInfo {
    type V = AvidMXFInfoView;

    open spec fn view(&self) -> AvidMXFInfoView {
        AvidMXFInfoView {
            project_name: opt_string_view(self.project_name),
            clip_name: opt_string_view(self.clip_name),
            track_string: opt_string_view(self.track_string),
            physical_package_name: opt_string_view(self.physical_package_name),
            physical_package_locator: opt_string_view(self.physical_package_locator),
            project_edit_rate: self.project_edit_rate,
            clip_edit_rate: self.clip_edit_rate,
            aspect_ratio: self.aspect_ratio,
            audio_sampling_rate: self.audio_sampling_rate,
            file_source_package_uid: self.file_source_package_uid,
            physical_source_package_uid: self.physical_source_package_uid,
            material_package_uid: self.material_package_uid,
            essence_container_label: self.essence_container_label,
            picture_coding_label: self.picture_coding_label,
            clip_created: self.clip_created,
            essence_type: self.essence_type,
            physical_package_type: self.physical_package_type,
            frame_layout: self.frame_layout,
            stored_width: self.stored_width,
            stored_height: self.stored_height,
            display_width: self.display_width,
            display_height: self.display_height,
            track_duration: self.track_duration,
            segment_duration: self.segment_duration,
            segment_offset: self.segment_offset,
            start_timecode: self.start_timecode,
            track_number: self.track_number,
            channel_count: self.channel_count,
            quantization_bits: self.quantization_bits,
            clip_duration: self.clip_duration,
            is_video: self.is_video,
            audio_track_count: self.audio_track_count,
            video_track_count: self.video_track_count,
            avid_resolution_id: self.avid_resolution_id,
        }
    }
}

/// The record of which nothing is known.
pub open spec fn spec_empty_info() -> AvidMXFInfoView {
    AvidMXFInfoView {
        project_name: None,
        clip_name: None,
        track_string: None,
        physical_package_name: None,
        physical_package_locator: None,
        project_edit_rate: None,
        clip_edit_rate: None,
        aspect_ratio: None,
        audio_sampling_rate: None,
        file_source_package_uid: None,
        physical_source_package_uid: None,
        material_package_uid: None,
        essence_container_label: None,
        picture_coding_label: None,
        clip_created: None,
        essence_type: AvidEssenceType::Unknown,
        physical_package_type: AvidPhysicalPackageType::UnkownPhysType,
        frame_layout: None,
        stored_width: None,
        stored_height: None,
        display_width: None,
        display_height: None,
        track_duration: None,
        segment_duration: None,
        segment_offset: None,
        start_timecode: 0,
        track_number: None,
        channel_count: None,
        quantization_bits: None,
        clip_duration: None,
        is_video: false,
        audio_track_count: 0,
        video_track_count: 0,
        avid_resolution_id: None,
    }
}

/// The first essence container label of a partition.
pub open spec fn spec_essence_container_label(partition: MXFPartition) -> Option<MXFKey> {
    if partition.essence_containers@.len() > 0 {
        Some(partition.essence_containers@[0])
    } else {
        None
    }
}

/// The record of the clip that a header metadata graph and its header
/// partition describe.
///
/// The passes run in this order, and the first lookup that fails gives the
/// error: the Preface; the one material package; the project name; the
/// top-level file source package and its descriptor; the tracks of the
/// material package; the physical source; the start timecode. A project
/// edit rate that is found nowhere is no error: the clip then has no
/// duration.
pub open spec fn spec_resolve(header: MXFHeaderMetadata, partition: MXFPartition) -> Result<
    AvidMXFInfoView,
    MXFError,
> {
    match spec_preface(header) {
        Err(e) => Err(e),
        Ok((preface_name, preface_rate)) => match header.spec_singular_set(
            material_package_set_key(),
        ) {
            None => Err(MXFError::SingularSet(material_package_set_key())),
            Some(material) => match spec_project_name(header, material, preface_name) {
                Err(e) => Err(e),
                Ok(project_name) => match header.spec_top_file_package() {
                    None => Err(MXFError::TopFilePackage),
                    Some(file_package) => match spec_file_descriptor(header, file_package) {
                        Err(e) => Err(e),
                        Ok(descriptor) => {
                            let file_uid = file_package.spec_umid(
                                generic_package_package_uid_item_key(),
                            );
                            match spec_material_tracks(header, material, file_uid, preface_rate) {
                                Err(e) => Err(e),
                                Ok(scan) => match spec_physical_source(header) {
                                        Err(e) => Err(e),
                                        Ok(physical) => {
                                            let clip_edit_rate = match scan.selected {
                                                Some(t) => t.edit_rate,
                                                None => None,
                                            };
                                            match spec_resolve_start_timecode(
                                                header,
                                                file_package,
                                                clip_edit_rate,
                                            ) {
                                                Err(e) => Err(e),
                                                Ok(timecode) => Ok(
                                                    AvidMXFInfoView {
                                                        project_name,
                                                        clip_name: material.spec_string(
                                                            generic_package_name_item_key(),
                                                        ),
                                                        track_string: None,
                                                        physical_package_name: physical.package_name,
                                                        physical_package_locator: physical.locator,
                                                        project_edit_rate: scan.project_edit_rate,
                                                        clip_edit_rate,
                                                        aspect_ratio: descriptor.aspect_ratio,
                                                        audio_sampling_rate: descriptor.audio_sampling_rate,
                                                        file_source_package_uid: file_uid,
                                                        physical_source_package_uid: physical.package_uid,
                                                        material_package_uid: material.spec_umid(
                                                            generic_package_package_uid_item_key(),
                                                        ),
                                                        essence_container_label: spec_essence_container_label(
                                                            partition,
                                                        ),
                                                        picture_coding_label: descriptor.picture_coding_label,
                                                        clip_created: material.spec_timestamp(
                                                            generic_package_package_creation_date_item_key(),
                                                        ),
                                                        essence_type: AvidEssenceType::Unknown,
                                                        physical_package_type: physical.package_type,
                                                        frame_layout: descriptor.frame_layout,
                                                        stored_width: descriptor.stored_width,
                                                        stored_height: descriptor.stored_height,
                                                        display_width: descriptor.display_width,
                                                        display_height: descriptor.display_height,
                                                        track_duration: match scan.selected {
                                                            Some(t) => Some(t.duration),
                                                            None => None,
                                                        },
                                                        segment_duration: match scan.selected {
                                                            Some(t) => t.segment.duration,
                                                            None => None,
                                                        },
                                                        segment_offset: match scan.selected {
                                                            Some(t) => Some(t.segment.offset),
                                                            None => None,
                                                        },
                                                        start_timecode: match timecode {
                                                            Some(t) => t,
                                                            None => 0,
                                                        },
                                                        track_number: match scan.selected {
                                                            Some(t) => Some(t.number),
                                                            None => None,
                                                        },
                                                        channel_count: descriptor.channel_count,
                                                        quantization_bits: descriptor.quantization_bits,
                                                        clip_duration: spec_clip_duration(scan),
                                                        is_video: match scan.selected {
                                                            Some(t) => t.is_video,
                                                            None => false,
                                                        },
                                                        audio_track_count: scan.audio_track_count,
                                                        video_track_count: scan.video_track_count,
                                                        avid_resolution_id: descriptor.avid_resolution_id,
                                                    },
                                                ),
                                            }
                                        },
                                },
                            }
                        },
                    },
                },
            },
        },
    }
}

/// A graph that does not hold exactly one Preface set resolves to nothing:
/// the error names the Preface as what was not found.
pub proof fn lemma_missing_preface(header: MXFHeaderMetadata, partition: MXFPartition)
    requires
        header.spec_singular_set(preface_set_key()).is_none(),
    ensures
        spec_resolve(header, partition) == Err::<AvidMXFInfoView, MXFError>(
            MXFError::SingularSet(preface_set_key()),
        ),
{
}

/// A Preface without a project edit rate is no error: the Preface is read
/// all the same. Where no picture track of the material package gives a
/// rate in its place, a clip that is resolved has neither a project edit
/// rate nor a duration.
pub proof fn lemma_missing_project_edit_rate(header: MXFHeaderMetadata, partition: MXFPartition)
    requires
        header.spec_singular_set(preface_set_key()) matches Some(preface)
            && preface.spec_rational(preface_project_edit_rate_item_key()).is_none(),
    ensures
        spec_preface(header) matches Ok((_, rate)) && rate.is_none(),
        ({
            &&& header.spec_singular_set(material_package_set_key()) matches Some(material)
            &&& material.spec_package_tracks(header) matches Some(tracks)
            &&& forall|i: int|
                0 <= i < tracks.len() ==> !spec_gives_project_edit_rate(header, #[trigger] tracks[i])
        }) ==> (spec_resolve(header, partition) matches Ok(info) ==> info.project_edit_rate.is_none()
            && info.clip_duration.is_none()),
{
    if let Some(material) = header.spec_singular_set(material_package_set_key()) {
        if let Some(tracks) = material.spec_package_tracks(header) {
            if forall|i: int|
                0 <= i < tracks.len() ==> !spec_gives_project_edit_rate(header, #[trigger] tracks[i]) {
                if let Some(file_package) = header.spec_top_file_package() {
                    lemma_scan_keeps_unknown_rate(
                        header,
                        file_package.spec_umid(generic_package_package_uid_item_key()),
                        tracks,
                        0,
                        spec_initial_scan(None),
                    );
                }
            }
        }
    }
}

impl Default for AvidMXFInfo {
    fn default() -> (info: AvidMXFInfo)
        ensures
            info@ == spec_empty_info(),
    {
        AvidMXFInfo {
            project_name: None,
            clip_name: None,
            track_string: None,
            physical_package_name: None,
            physical_package_locator: None,
            project_edit_rate: None,
            clip_edit_rate: None,
            aspect_ratio: None,
            audio_sampling_rate: None,
            file_source_package_uid: None,
            physical_source_package_uid: None,
            material_package_uid: None,
            essence_container_label: None,
            picture_coding_label: None,
            clip_created: None,
            essence_type: AvidEssenceType::Unknown,
            physical_package_type: AvidPhysicalPackageType::UnkownPhysType,
            frame_layout: None,
            stored_width: None,
            stored_height: None,
            display_width: None,
            display_height: None,
            track_duration: None,
            segment_duration: None,
            segment_offset: None,
            start_timecode: 0,
            track_number: None,
            channel_count: None,
            quantization_bits: None,
            clip_duration: None,
            is_video: false,
            audio_track_count: 0,
            video_track_count: 0,
            avid_resolution_id: None,
        }
    }
}

impl AvidMXFInfo {
    /// Whether the clip is a rendered effect: its physical source is the
    /// package that the editing system names "Precompute Source Mob".
    pub open spec fn spec_is_renderfile(self) -> bool {
        self@.physical_package_name == Some("Precompute Source Mob"@)
    }

    /// Resolves the record of the clip that a decoded file describes.
    pub fn from_file(file: &MXFFile) -> (found: Result<AvidMXFInfo, MXFError>)
        ensures
            match found {
                Ok(info) => spec_resolve(file.headerdata, file.headerpartition) == Ok::<
                    AvidMXFInfoView,
                    MXFError,
                >(info@),
                Err(e) => spec_resolve(file.headerdata, file.headerpartition) == Err::<
                    AvidMXFInfoView,
                    MXFError,
                >(e),
            },
    {
        AvidMXFInfo::from_header(file.headerdata(), file.headerpartition())
    }

    /// Resolves the record of the clip that a header metadata graph and
    /// its header partition describe.
    pub fn from_header(header: &MXFHeaderMetadata, partition: &MXFPartition) -> (found: Result<
        AvidMXFInfo,
        MXFError,
    >)
        ensures
            match found {
                Ok(info) => spec_resolve(*header, *partition) == Ok::<AvidMXFInfoView, MXFError>(
                    info@,
                ),
                Err(e) => spec_resolve(*header, *partition) == Err::<AvidMXFInfoView, MXFError>(e),
            },
    {
        let (preface_name, preface_rate) = match resolve_preface(header) {
            Ok(x) => x,
            Err(e) => {
                return Err(e);
            },
        };
        let essence_container_label = if partition.essence_containers.len() > 0 {
            Some(partition.essence_containers[0])
        } else {
            None
        };
        let material = match header.find_singular_set_by_key(&material_package_set_key()) {
            Ok(x) => x,
            Err(e) => {
                return Err(e);
            },
        };
        let material_package_uid = material.get_umid(&generic_package_package_uid_item_key());
        let clip_name = material.get_string(&generic_package_name_item_key());
        let clip_created = material.get_timestamp(
            &generic_package_package_creation_date_item_key(),
        );
        let project_name = match resolve_project_name(header, material, preface_name) {
            Ok(x) => x,
            Err(e) => {
                return Err(e);
            },
        };
        let file_package = match header.get_top_file_package() {
            Some(x) => x,
            None => {
                return Err(MXFError::TopFilePackage);
            },
        };
        let file_source_package_uid = file_package.get_umid(
            &generic_package_package_uid_item_key(),
        );
        let descriptor = match resolve_file_descriptor(header, file_package) {
            Ok(x) => x,
            Err(e) => {
                return Err(e);
            },
        };
        let scan = match resolve_material_tracks(
            header,
            material,
            &file_source_package_uid,
            preface_rate,
        ) {
            Ok(x) => x,
            Err(e) => {
                return Err(e);
            },
        };
        let duration = clip_duration(&scan);
        let physical = match resolve_physical_source(header) {
            Ok(x) => x,
            Err(e) => {
                return Err(e);
            },
        };
        let clip_edit_rate = match scan.selected {
            Some(t) => t.edit_rate,
            None => None,
        };
        let timecode = match resolve_start_timecode(header, file_package, &clip_edit_rate) {
            Ok(x) => x,
            Err(e) => {
                return Err(e);
            },
        };
        Ok(
            AvidMXFInfo {
                project_name,
                clip_name,
                track_string: None,
                physical_package_name: physical.package_name,
                physical_package_locator: physical.locator,
                project_edit_rate: scan.project_edit_rate,
                clip_edit_rate,
                aspect_ratio: descriptor.aspect_ratio,
                audio_sampling_rate: descriptor.audio_sampling_rate,
                file_source_package_uid,
                physical_source_package_uid: physical.package_uid,
                material_package_uid,
                essence_container_label,
                picture_coding_label: descriptor.picture_coding_label,
                clip_created,
                essence_type: AvidEssenceType::Unknown,
                physical_package_type: physical.package_type,
                frame_layout: descriptor.frame_layout,
                stored_width: descriptor.stored_width,
                stored_height: descriptor.stored_height,
                display_width: descriptor.display_width,
                display_height: descriptor.display_height,
                track_duration: match scan.selected {
                    Some(t) => Some(t.duration),
                    None => None,
                },
                segment_duration: match scan.selected {
                    Some(t) => t.segment.duration,
                    None => None,
                },
                segment_offset: match scan.selected {
                    Some(t) => Some(t.segment.offset),
                    None => None,
                },
                start_timecode: match timecode {
                    Some(t) => t,
                    None => 0,
                },
                track_number: match scan.selected {
                    Some(t) => Some(t.number),
                    None => None,
                },
                channel_count: descriptor.channel_count,
                quantization_bits: descriptor.quantization_bits,
                clip_duration: duration,
                is_video: match scan.selected {
                    Some(t) => t.is_video,
                    None => false,
                },
                audio_track_count: scan.audio_track_count,
                video_track_count: scan.video_track_count,
                avid_resolution_id: descriptor.avid_resolution_id,
            },
        )
    }

    pub fn is_renderfile(&self) -> (b: bool)
        ensures
            b == self.spec_is_renderfile(),
    {
        match &self.physical_package_name {
            Some(name) => {
                let render_name = "Precompute Source Mob".to_owned();
                *name == render_name
            },
            None => false,
        }
    }
}

} // verus!
