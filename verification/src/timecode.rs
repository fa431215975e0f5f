//! The timecode pass: follows the file source package to its physical
//! source and computes the start timecode of the clip.

use crate::error::MXFError;
use crate::header::{sets_of, MXFHeaderMetadata};
use crate::labels::{
    source_clip_set_key, source_clip_source_package_id_item_key,
    source_clip_start_position_item_key, timecode_component_rounded_timecode_base_item_key,
    timecode_component_set_key, timecode_component_start_timecode_item_key,
    track_edit_rate_item_key,
};
use crate::model::MXFMetadataSet;
use crate::rational::{convert_length, saturate, saturate_i64, spec_convert_length, MXFRational};
use crate::segment::{normalize_data_definition, spec_normalized_datadef};
use vstd::prelude::*;

verus! {

/// The position at which a clip starts on its physical source, counted at
/// the edit rate `package_edit_rate` of the track that refers to the
/// source: the start position of the source clip, moved on by the start
/// timecode of the source where the timecode counts as the track does, and
/// by twice the start timecode where the track counts twice as fast as the
/// timecode (fields against frames). Where the two count in any other way
/// the start position stays as it is.
pub open spec fn spec_timecode_start_position(
    package_edit_rate: MXFRational,
    start_position: i64,
    start_timecode: i64,
    timecode_base: u16,
) -> i64
    recommends
        package_edit_rate.denominator != 0,
{
    let base = package_edit_rate.spec_rounded();
    if base == timecode_base {
        saturate_i64(start_position + start_timecode)
    } else if base == 2 * timecode_base {
        saturate_i64(start_position + 2 * start_timecode)
    } else {
        start_position
    }
}

/// The start timecode of a clip at the clip's edit rate.
pub open spec fn spec_start_timecode(
    clip_edit_rate: MXFRational,
    package_edit_rate: MXFRational,
    start_position: i64,
    start_timecode: i64,
    timecode_base: u16,
) -> i64
    recommends
        clip_edit_rate.denominator != 0,
        package_edit_rate.spec_is_rate(),
{
    spec_convert_length(
        clip_edit_rate,
        package_edit_rate,
        spec_timecode_start_position(
            package_edit_rate,
            start_position,
            start_timecode,
            timecode_base,
        ),
    )
}

/// Whether both rates are known and fit for converting a position from the
/// second to the first.
pub open spec fn spec_rates_known(
    clip_edit_rate: Option<MXFRational>,
    package_edit_rate: Option<MXFRational>,
) -> bool {
    match (clip_edit_rate, package_edit_rate) {
        (Some(c), Some(p)) => c.denominator != 0 && p.spec_is_rate(),
        _ => false,
    }
}

/// The start timecode that the tracks of a physical source from index
/// `start` on give: that of the first timecode track with a single
/// timecode component. Such a component must hold its start timecode and
/// its base, and both edit rates must be known.
pub open spec fn spec_source_timecode_from(
    header: MXFHeaderMetadata,
    clip_edit_rate: Option<MXFRational>,
    package_edit_rate: Option<MXFRational>,
    start_position: i64,
    tracks: Seq<MXFMetadataSet>,
    start: int,
) -> Result<Option<i64>, MXFError>
    decreases tracks.len() - start,
{
    if start < 0 || start >= tracks.len() {
        Ok(None)
    } else {
        let next = spec_source_timecode_from(
            header,
            clip_edit_rate,
            package_edit_rate,
            start_position,
            tracks,
            start + 1,
        );
        match tracks[start].spec_track_datadef(header) {
            None => Err(MXFError::ReferencedTrackDataDef),
            Some(raw) => match spec_normalized_datadef(header, raw) {
                None => next,
                Some(datadef) => if !datadef.spec_is_timecode() {
                    next
                } else {
                    match tracks[start].spec_single_track_component(
                        header,
                        timecode_component_set_key(),
                    ) {
                        None => next,
                        Some(component) => match component.spec_position(
                            timecode_component_start_timecode_item_key(),
                        ) {
                            None => Err(MXFError::TimecodeStart),
                            Some(start_timecode) => match component.spec_uint16(
                                timecode_component_rounded_timecode_base_item_key(),
                            ) {
                                None => Err(MXFError::TimecodeBase),
                                Some(base) => if spec_rates_known(
                                    clip_edit_rate,
                                    package_edit_rate,
                                ) {
                                    Ok(
                                        Some(
                                            spec_start_timecode(
                                                clip_edit_rate.unwrap(),
                                                package_edit_rate.unwrap(),
                                                start_position,
                                                start_timecode,
                                                base,
                                            ),
                                        ),
                                    )
                                } else {
                                    Err(MXFError::ClipEditRate)
                                },
                            },
                        },
                    }
                },
            },
        }
    }
}

/// The start timecode that the tracks of the file source package from
/// index `start` on give. A picture or sound track whose single component
/// is a source clip leads to the package that the clip refers to; the first
/// such package with a timecode gives the start timecode.
pub open spec fn spec_start_timecode_from(
    header: MXFHeaderMetadata,
    clip_edit_rate: Option<MXFRational>,
    tracks: Seq<MXFMetadataSet>,
    start: int,
) -> Result<Option<i64>, MXFError>
    decreases tracks.len() - start,
{
    if start < 0 || start >= tracks.len() {
        Ok(None)
    } else {
        let next = spec_start_timecode_from(header, clip_edit_rate, tracks, start + 1);
        let track = tracks[start];
        match track.spec_track_datadef(header) {
            None => Err(MXFError::PackageTrackDataDef),
            Some(raw) => match spec_normalized_datadef(header, raw) {
                None => next,
                Some(datadef) => if !datadef.spec_is_picture() && !datadef.spec_is_sound() {
                    next
                } else {
                    match track.spec_single_track_component(header, source_clip_set_key()) {
                        None => next,
                        Some(clip) => match clip.spec_position(
                            source_clip_start_position_item_key(),
                        ) {
                            None => Err(MXFError::TrackStartPosition),
                            Some(start_position) => match clip.spec_umid(
                                source_clip_source_package_id_item_key(),
                            ) {
                                None => Err(MXFError::SourcePackageId),
                                Some(id) => match header.spec_referenced_package(id) {
                                    None => next,
                                    Some(package) => match package.spec_package_tracks(header) {
                                        None => Err(MXFError::ReferencedPackageTracks),
                                        Some(inner) => match spec_source_timecode_from(
                                            header,
                                            clip_edit_rate,
                                            track.spec_rational(track_edit_rate_item_key()),
                                            start_position,
                                            inner,
                                            0,
                                        ) {
                                            Err(e) => Err(e),
                                            Ok(Some(timecode)) => Ok(Some(timecode)),
                                            Ok(None) => next,
                                        },
                                    },
                                },
                            },
                        },
                    }
                },
            },
        }
    }
}

/// The start timecode of the clip at the edit rate `clip_edit_rate`, found
/// through the tracks of the file source package; nothing where no track
/// leads to a timecode.
pub open spec fn spec_resolve_start_timecode(
    header: MXFHeaderMetadata,
    file_source_package: MXFMetadataSet,
    clip_edit_rate: Option<MXFRational>,
) -> Result<Option<i64>, MXFError> {
    match file_source_package.spec_package_tracks(header) {
        None => Err(MXFError::PackageTracks),
        Some(tracks) => spec_start_timecode_from(header, clip_edit_rate, tracks, 0),
    }
}

/// Where the track that leads to the physical source counts twice as fast
/// as the timecode of the source, the start timecode is counted double: the
/// clip starts at the start position of the source clip plus twice the start
/// timecode, and its start timecode is that position expressed at the clip's
/// edit rate.
pub proof fn lemma_double_rate_start_timecode(
    clip_edit_rate: MXFRational,
    package_edit_rate: MXFRational,
    start_position: i64,
    start_timecode: i64,
    timecode_base: u16,
)
    requires
        package_edit_rate.denominator != 0,
        timecode_base != 0,
        package_edit_rate.spec_rounded() == 2 * timecode_base,
    ensures
        spec_timecode_start_position(
            package_edit_rate,
            start_position,
            start_timecode,
            timecode_base,
        ) == saturate_i64(start_position + 2 * start_timecode),
        spec_start_timecode(
            clip_edit_rate,
            package_edit_rate,
            start_position,
            start_timecode,
            timecode_base,
        ) == spec_convert_length(
            clip_edit_rate,
            package_edit_rate,
            saturate_i64(start_position + 2 * start_timecode),
        ),
{
}

/// Corrects the start position of a source clip by the start timecode of
/// its physical source.
pub fn timecode_start_position(
    package_edit_rate: &MXFRational,
    start_position: i64,
    start_timecode: i64,
    timecode_base: u16,
) -> (position: i64)
    requires
        package_edit_rate.denominator != 0,
    ensures
        position == spec_timecode_start_position(
            *package_edit_rate,
            start_position,
            start_timecode,
            timecode_base,
        ),
{
    let base: i64 = package_edit_rate.rounded();
    if base == timecode_base as i64 {
        saturate(start_position as i128 + start_timecode as i128)
    } else if base == 2 * (timecode_base as i64) {
        saturate(start_position as i128 + 2 * (start_timecode as i128))
    } else {
        start_position
    }
}

/// Computes the start timecode of a clip at the clip's edit rate.
pub fn start_timecode(
    clip_edit_rate: &MXFRational,
    package_edit_rate: &MXFRational,
    start_position: i64,
    source_timecode: i64,
    timecode_base: u16,
) -> (timecode: i64)
    requires
        clip_edit_rate.denominator != 0,
        package_edit_rate.spec_is_rate(),
    ensures
        timecode == spec_start_timecode(
            *clip_edit_rate,
            *package_edit_rate,
            start_position,
            source_timecode,
            timecode_base,
        ),
{
    let position = timecode_start_position(
        package_edit_rate,
        start_position,
        source_timecode,
        timecode_base,
    );
    convert_length(clip_edit_rate, package_edit_rate, position)
}

/// Finds the start timecode among the tracks of a physical source.
pub fn resolve_source_timecode(
    header: &MXFHeaderMetadata,
    clip_edit_rate: &Option<MXFRational>,
    package_edit_rate: &Option<MXFRational>,
    start_position: i64,
    tracks: &Vec<&MXFMetadataSet>,
) -> (found: Result<Option<i64>, MXFError>)
    ensures
        found == spec_source_timecode_from(
            *header,
            *clip_edit_rate,
            *package_edit_rate,
            start_position,
            sets_of(tracks@),
            0,
        ),
{
    let mut j: usize = 0;
    while j < tracks.len()
        invariant
            0 <= j <= tracks.len(),
            spec_source_timecode_from(
                *header,
                *clip_edit_rate,
                *package_edit_rate,
                start_position,
                sets_of(tracks@),
                0,
            ) == spec_source_timecode_from(
                *header,
                *clip_edit_rate,
                *package_edit_rate,
                start_position,
                sets_of(tracks@),
                j as int,
            ),
        decreases tracks.len() - j,
    {
        let track = tracks[j];
        j = j + 1;
        let raw = match track.get_track_datadef(header) {
            Some(x) => x,
            None => {
                return Err(MXFError::ReferencedTrackDataDef);
            },
        };
        let datadef = match normalize_data_definition(header, raw) {
            Some(x) => x,
            None => {
                continue ;
            },
        };
        if !datadef.is_timecode() {
            continue ;
        }
        let component = match track.get_single_track_component(
            header,
            &timecode_component_set_key(),
        ) {
            Some(x) => x,
            None => {
                continue ;
            },
        };
        let start_tc = match component.get_position(&timecode_component_start_timecode_item_key()) {
            Some(x) => x,
            None => {
                return Err(MXFError::TimecodeStart);
            },
        };
        let base = match component.get_uint16(&timecode_component_rounded_timecode_base_item_key()) {
            Some(x) => x,
            None => {
                return Err(MXFError::TimecodeBase);
            },
        };
        return match (clip_edit_rate, package_edit_rate) {
            (Some(c), Some(p)) => if c.denominator != 0 && p.is_rate() {
                Ok(Some(start_timecode(c, p, start_position, start_tc, base)))
            } else {
                Err(MXFError::ClipEditRate)
            },
            _ => Err(MXFError::ClipEditRate),
        };
    }
    Ok(None)
}

/// Finds the start timecode of the clip through the tracks of the file
/// source package.
#[verifier::loop_isolation(false)]
pub fn resolve_start_timecode(
    header: &MXFHeaderMetadata,
    file_source_package: &MXFMetadataSet,
    clip_edit_rate: &Option<MXFRational>,
) -> (found: Result<Option<i64>, MXFError>)
    ensures
        found == spec_resolve_start_timecode(*header, *file_source_package, *clip_edit_rate),
{
    let tracks = match file_source_package.get_package_tracks(header) {
        Some(x) => x,
        None => {
            return Err(MXFError::PackageTracks);
        },
    };
    let mut i: usize = 0;
    while i < tracks.len()
        invariant
            0 <= i <= tracks.len(),
            spec_start_timecode_from(*header, *clip_edit_rate, sets_of(tracks@), 0)
                == spec_start_timecode_from(*header, *clip_edit_rate, sets_of(tracks@), i as int),
        decreases tracks.len() - i,
    {
        let track = tracks[i];
        i = i + 1;
        let raw = match track.get_track_datadef(header) {
            Some(x) => x,
            None => {
                return Err(MXFError::PackageTrackDataDef);
            },
        };
        let datadef = match normalize_data_definition(header, raw) {
            Some(x) => x,
            None => {
                continue ;
            },
        };
        if !datadef.is_picture() && !datadef.is_sound() {
            continue ;
        }
        let clip = match track.get_single_track_component(header, &source_clip_set_key()) {
            Some(x) => x,
            None => {
                continue ;
            },
        };
        let package_edit_rate = track.get_rational(&track_edit_rate_item_key());
        let start_position = match clip.get_position(&source_clip_start_position_item_key()) {
            Some(x) => x,
            None => {
                return Err(MXFError::TrackStartPosition);
            },
        };
        let id = match clip.get_umid(&source_clip_source_package_id_item_key()) {
            Some(x) => x,
            None => {
                return Err(MXFError::SourcePackageId);
            },
        };
        let package = match header.get_referenced_package(&id) {
            Some(x) => x,
            None => {
                continue ;
            },
        };
        let inner = match package.get_package_tracks(header) {
            Some(x) => x,
            None => {
                return Err(MXFError::ReferencedPackageTracks);
            },
        };
        match resolve_source_timecode(
            header,
            clip_edit_rate,
            &package_edit_rate,
            start_position,
            &inner,
        ) {
            Err(e) => {
                return Err(e);
            },
            Ok(Some(timecode)) => {
                return Ok(Some(timecode));
            },
            Ok(None) => {},
        }
    }
    Ok(None)
}

} // verus!
