//! The track and segment pass: counts the picture and sound tracks of the
//! material package, finds the longest track, and selects the track that
//! refers to the file source package.

use crate::error::MXFError;
use crate::header::{sets_of, MXFHeaderMetadata};
use crate::key::{MXFKey, MXFUmid};
use crate::labels::{
    essence_group_choices_item_key, essence_group_set_key, generic_track_sequence_item_key,
    generic_track_track_number_item_key, sequence_structural_components_item_key,
    source_clip_set_key, source_clip_source_package_id_item_key,
    structural_component_duration_item_key, track_edit_rate_item_key,
};
use crate::model::MXFMetadataSet;
use crate::rational::{
    compare_length, convert_length, saturate, saturate_i64, spec_compare_length,
    spec_convert_length, MXFRational,
};
use vstd::prelude::*;

verus! {

/// The place on a track where the clip's essence is referenced: the
/// duration of the structural component that refers to the file source
/// package, and the sum of the durations of the components before it.
#[derive(Clone, Copy, Debug, PartialEq, Eq)]
pub struct Segment {
    pub duration: Option<i64>,
    pub offset: i64,
}

/// The material track that refers to the file source package.
#[derive(Clone, Copy, Debug, PartialEq, Eq)]
pub struct SelectedTrack {
    pub is_video: bool,
    pub edit_rate: Option<MXFRational>,
    pub duration: i64,
    pub number: u32,
    pub segment: Segment,
}

/// What reading the picture and sound tracks of the material package has
/// given so far.
#[derive(Clone, Copy, Debug, PartialEq, Eq)]
pub struct TrackScan {
    pub video_track_count: u32,
    pub audio_track_count: u32,
    pub project_edit_rate: Option<MXFRational>,
    /// The edit rate of the longest track so far.
    pub max_edit_rate: MXFRational,
    /// The duration of the longest track so far, at `max_edit_rate`.
    pub max_duration: i64,
    /// The last track so far that refers to the file source package.
    pub selected: Option<SelectedTrack>,
}

impl TrackScan {
    /// The longest track is measured at a rate that lengths can be
    /// converted from.
    pub open spec fn spec_wf(self) -> bool {
        self.max_edit_rate.spec_is_rate()
    }
}

/// `count + 1`, kept within `u32`.
pub open spec fn spec_count_up(count: u32) -> u32 {
    if count < u32::MAX {
        (count + 1) as u32
    } else {
        count
    }
}

/// The label that says what a track carries, where `datadef` is what its
/// sequence holds: `datadef` itself where it is the label of picture, sound
/// or timecode, else the label that the data definition set `datadef`
/// stands for. Nothing where there is no such set.
pub open spec fn spec_normalized_datadef(header: MXFHeaderMetadata, datadef: MXFKey) -> Option<
    MXFKey,
> {
    if datadef.spec_is_known_data_definition() {
        Some(datadef)
    } else {
        header.spec_data_def(datadef)
    }
}

/// Whether one of the choices from index `start` on is a source clip that
/// refers to the package `package_uid`. A source clip that is read must
/// name its source package.
pub open spec fn spec_choice_matches_from(
    header: MXFHeaderMetadata,
    package_uid: Option<MXFUmid>,
    choices: Seq<MXFMetadataSet>,
    start: int,
) -> Result<bool, MXFError>
    decreases choices.len() - start,
{
    if start < 0 || start >= choices.len() {
        Ok(false)
    } else if header.datamodel.spec_is_subclass_of(choices[start].key, source_clip_set_key()) {
        match choices[start].spec_umid(source_clip_source_package_id_item_key()) {
            None => Err(MXFError::SourcePackageId),
            Some(uid) => if Some(uid) == package_uid {
                Ok(true)
            } else {
                spec_choice_matches_from(header, package_uid, choices, start + 1)
            },
        }
    } else {
        spec_choice_matches_from(header, package_uid, choices, start + 1)
    }
}

/// Whether the structural component `component` refers to the package
/// `package_uid`: as a source clip itself, or as an essence group through
/// one of its choices.
pub open spec fn spec_component_matches(
    header: MXFHeaderMetadata,
    package_uid: Option<MXFUmid>,
    component: MXFMetadataSet,
) -> Result<bool, MXFError> {
    if header.datamodel.spec_is_subclass_of(component.key, essence_group_set_key()) {
        match component.spec_array(essence_group_choices_item_key()) {
            None => Err(MXFError::ChoicesCount),
            Some(elements) => spec_choice_matches_from(
                header,
                package_uid,
                header.spec_resolve_all(elements),
                0,
            ),
        }
    } else if header.datamodel.spec_is_subclass_of(component.key, source_clip_set_key()) {
        match component.spec_umid(source_clip_source_package_id_item_key()) {
            None => Err(MXFError::SourcePackageId),
            Some(uid) => Ok(Some(uid) == package_uid),
        }
    } else {
        Ok(false)
    }
}

/// `offset` moved on by the duration of `component`, kept within `i64`. A
/// component without a duration moves nothing.
pub open spec fn spec_offset_after(offset: i64, component: MXFMetadataSet) -> i64 {
    match component.spec_length(structural_component_duration_item_key()) {
        Some(d) => saturate_i64(offset + d),
        None => offset,
    }
}

/// The segment found by reading the components from index `start` on,
/// where the components before add up to `offset`: the first component
/// that refers to the package `package_uid`.
pub open spec fn spec_segment_from(
    header: MXFHeaderMetadata,
    package_uid: Option<MXFUmid>,
    components: Seq<MXFMetadataSet>,
    start: int,
    offset: i64,
) -> Result<Option<Segment>, MXFError>
    decreases components.len() - start,
{
    if start < 0 || start >= components.len() {
        Ok(None)
    } else {
        match spec_component_matches(header, package_uid, components[start]) {
            Err(e) => Err(e),
            Ok(true) => Ok(
                Some(
                    Segment {
                        duration: components[start].spec_length(
                            structural_component_duration_item_key(),
                        ),
                        offset,
                    },
                ),
            ),
            Ok(false) => spec_segment_from(
                header,
                package_uid,
                components,
                start + 1,
                spec_offset_after(offset, components[start]),
            ),
        }
    }
}

/// The segment of a track with the sequence `sequence` that refers to the
/// package `package_uid`. Where the sequence is itself a source clip, it is
/// the segment, at offset zero, if it refers to the package; else the
/// components of the sequence are read in order.
pub open spec fn spec_segment(
    header: MXFHeaderMetadata,
    package_uid: Option<MXFUmid>,
    sequence: MXFMetadataSet,
) -> Result<Option<Segment>, MXFError> {
    if header.datamodel.spec_is_subclass_of(sequence.key, source_clip_set_key()) {
        match sequence.spec_umid(source_clip_source_package_id_item_key()) {
            None => Err(MXFError::SourcePackageId),
            Some(uid) => if Some(uid) == package_uid {
                Ok(
                    Some(
                        Segment {
                            duration: sequence.spec_length(structural_component_duration_item_key()),
                            offset: 0,
                        },
                    ),
                )
            } else {
                Ok(None)
            },
        }
    } else {
        match sequence.spec_array(sequence_structural_components_item_key()) {
            None => Err(MXFError::ComponentCount),
            Some(elements) => spec_segment_from(
                header,
                package_uid,
                header.spec_resolve_all(elements),
                0,
                0,
            ),
        }
    }
}

/// The scan before any track is read: no tracks counted, none selected,
/// and a longest track of length zero at the nominal rate of 25.
pub open spec fn spec_initial_scan(project_edit_rate: Option<MXFRational>) -> TrackScan {
    TrackScan {
        video_track_count: 0,
        audio_track_count: 0,
        project_edit_rate,
        max_edit_rate: MXFRational { numerator: 25, denominator: 1 },
        max_duration: 0,
        selected: None,
    }
}

/// Whether a track of the rate `edit_rate` and the duration `duration`
/// takes the place of the longest track of `scan`: its rate is known and
/// measures time, and it is at least as long.
pub open spec fn spec_is_longest(scan: TrackScan, edit_rate: Option<MXFRational>, duration: i64) -> bool {
    match edit_rate {
        Some(rate) => rate.spec_is_rate() && spec_compare_length(
            scan.max_edit_rate,
            scan.max_duration,
            rate,
            duration,
        ) <= 0,
        None => false,
    }
}

/// Whether `track` is a picture track with an edit rate: such a track
/// gives the project edit rate where none is known.
pub open spec fn spec_gives_project_edit_rate(header: MXFHeaderMetadata, track: MXFMetadataSet) -> bool {
    &&& track.spec_track_datadef(header) matches Some(raw)
    &&& spec_normalized_datadef(header, raw) matches Some(datadef)
    &&& datadef.spec_is_picture()
    &&& track.spec_rational(track_edit_rate_item_key()).is_some()
}

/// The scan after the material track `track` has been read.
///
/// The track must have a sequence with a data definition. A track whose
/// data definition is neither picture nor sound, also after it was looked
/// up as a data definition set, changes nothing. Else the
/// track is counted, gives the project edit rate where none is known and
/// the track carries picture, becomes the longest track where it is at
/// least as long as the longest so far, and becomes the selected track
/// where it has a segment that refers to the package `package_uid`.
pub open spec fn spec_track_step(
    header: MXFHeaderMetadata,
    package_uid: Option<MXFUmid>,
    scan: TrackScan,
    track: MXFMetadataSet,
) -> Result<TrackScan, MXFError> {
    match track.spec_strongref(header, generic_track_sequence_item_key()) {
        None => Err(MXFError::MaterialTrackDataDef),
        Some(sequence) => match sequence.spec_data_definition() {
            None => Err(MXFError::MaterialTrackDataDef),
            Some(raw) => match spec_normalized_datadef(header, raw) {
                None => Ok(scan),
                Some(datadef) => if !datadef.spec_is_picture() && !datadef.spec_is_sound() {
                    Ok(scan)
                } else if track.spec_has_item(generic_track_track_number_item_key())
                    && track.spec_uint32(generic_track_track_number_item_key()).is_none() {
                    Err(MXFError::TrackNumber)
                } else {
                    let number = match track.spec_uint32(generic_track_track_number_item_key()) {
                        Some(n) => n,
                        None => 0,
                    };
                    let edit_rate = track.spec_rational(track_edit_rate_item_key());
                    match sequence.spec_length(structural_component_duration_item_key()) {
                        None => Err(MXFError::TrackDuration),
                        Some(duration) => match spec_segment(header, package_uid, sequence) {
                            Err(e) => Err(e),
                            Ok(segment) => Ok(
                                TrackScan {
                                    video_track_count: if datadef.spec_is_picture() {
                                        spec_count_up(scan.video_track_count)
                                    } else {
                                        scan.video_track_count
                                    },
                                    audio_track_count: if datadef.spec_is_sound() {
                                        spec_count_up(scan.audio_track_count)
                                    } else {
                                        scan.audio_track_count
                                    },
                                    project_edit_rate: if scan.project_edit_rate.is_none()
                                        && datadef.spec_is_picture() {
                                        edit_rate
                                    } else {
                                        scan.project_edit_rate
                                    },
                                    max_edit_rate: if spec_is_longest(scan, edit_rate, duration) {
                                        edit_rate.unwrap()
                                    } else {
                                        scan.max_edit_rate
                                    },
                                    max_duration: if spec_is_longest(scan, edit_rate, duration) {
                                        duration
                                    } else {
                                        scan.max_duration
                                    },
                                    selected: match segment {
                                        Some(s) => Some(
                                            SelectedTrack {
                                                is_video: datadef.spec_is_picture(),
                                                edit_rate,
                                                duration,
                                                number,
                                                segment: s,
                                            },
                                        ),
                                        None => scan.selected,
                                    },
                                },
                            ),
                        },
                    }
                },
            },
        },
    }
}

/// The scan after the tracks from index `start` on have been read in
/// order, where `scan` is what the tracks before gave.
pub open spec fn spec_track_scan_from(
    header: MXFHeaderMetadata,
    package_uid: Option<MXFUmid>,
    tracks: Seq<MXFMetadataSet>,
    start: int,
    scan: TrackScan,
) -> Result<TrackScan, MXFError>
    decreases tracks.len() - start,
{
    if start < 0 || start >= tracks.len() {
        Ok(scan)
    } else {
        match spec_track_step(header, package_uid, scan, tracks[start]) {
            Err(e) => Err(e),
            Ok(next) => spec_track_scan_from(header, package_uid, tracks, start + 1, next),
        }
    }
}

/// What the tracks of the material package give: the counts of picture and
/// sound tracks, the project edit rate, the longest track, and the track
/// that refers to the file source package `package_uid`.
pub open spec fn spec_material_tracks(
    header: MXFHeaderMetadata,
    material_package: MXFMetadataSet,
    package_uid: Option<MXFUmid>,
    project_edit_rate: Option<MXFRational>,
) -> Result<TrackScan, MXFError> {
    match material_package.spec_package_tracks(header) {
        None => Err(MXFError::MaterialTracks),
        Some(tracks) => spec_track_scan_from(
            header,
            package_uid,
            tracks,
            0,
            spec_initial_scan(project_edit_rate),
        ),
    }
}

/// The duration of the clip: that of the longest track, expressed at the
/// project edit rate. Nothing where no project edit rate is known.
pub open spec fn spec_clip_duration(scan: TrackScan) -> Option<i64> {
    match scan.project_edit_rate {
        Some(rate) => if rate.denominator != 0 {
            Some(spec_convert_length(rate, scan.max_edit_rate, scan.max_duration))
        } else {
            None
        },
        None => None,
    }
}

/// An essence group refers to a package as soon as one of its choices is a
/// source clip that does, wherever among the choices it stands, provided
/// that each source clip before it names its source package.
pub proof fn lemma_choice_found(
    header: MXFHeaderMetadata,
    package_uid: MXFUmid,
    choices: Seq<MXFMetadataSet>,
    at: int,
)
    requires
        0 <= at < choices.len(),
        header.datamodel.spec_is_subclass_of(choices[at].key, source_clip_set_key()),
        choices[at].spec_umid(source_clip_source_package_id_item_key()) == Some(package_uid),
        forall|j: int|
            0 <= j < at && header.datamodel.spec_is_subclass_of(
                (#[trigger] choices[j]).key,
                source_clip_set_key(),
            ) ==> choices[j].spec_umid(source_clip_source_package_id_item_key()).is_some(),
    ensures
        spec_choice_matches_from(header, Some(package_uid), choices, 0) == Ok::<bool, MXFError>(
            true,
        ),
{
    lemma_choice_found_from(header, package_uid, choices, at, 0);
}

/// An essence group of which one choice, wherever it stands, is a source
/// clip that refers to a package, refers to that package itself, provided
/// that each source clip before that choice names its source package.
pub proof fn lemma_group_choice_found(
    header: MXFHeaderMetadata,
    package_uid: MXFUmid,
    group: MXFMetadataSet,
    at: int,
)
    requires
        header.datamodel.spec_is_subclass_of(group.key, essence_group_set_key()),
        group.spec_array(essence_group_choices_item_key()) matches Some(elements) && ({
            let choices = header.spec_resolve_all(elements);
            &&& 0 <= at < choices.len()
            &&& header.datamodel.spec_is_subclass_of(choices[at].key, source_clip_set_key())
            &&& choices[at].spec_umid(source_clip_source_package_id_item_key()) == Some(
                package_uid,
            )
            &&& forall|j: int|
                0 <= j < at && header.datamodel.spec_is_subclass_of(
                    (#[trigger] choices[j]).key,
                    source_clip_set_key(),
                ) ==> choices[j].spec_umid(source_clip_source_package_id_item_key()).is_some()
        }),
    ensures
        spec_component_matches(header, Some(package_uid), group) == Ok::<bool, MXFError>(true),
{
    let choices = header.spec_resolve_all(group.spec_array(essence_group_choices_item_key())->0);
    lemma_choice_found(header, package_uid, choices, at);
}

proof fn lemma_choice_found_from(
    header: MXFHeaderMetadata,
    package_uid: MXFUmid,
    choices: Seq<MXFMetadataSet>,
    at: int,
    start: int,
)
    requires
        0 <= start <= at < choices.len(),
        header.datamodel.spec_is_subclass_of(choices[at].key, source_clip_set_key()),
        choices[at].spec_umid(source_clip_source_package_id_item_key()) == Some(package_uid),
        forall|j: int|
            0 <= j < at && header.datamodel.spec_is_subclass_of(
                (#[trigger] choices[j]).key,
                source_clip_set_key(),
            ) ==> choices[j].spec_umid(source_clip_source_package_id_item_key()).is_some(),
    ensures
        spec_choice_matches_from(header, Some(package_uid), choices, start) == Ok::<
            bool,
            MXFError,
        >(true),
    decreases at - start,
{
    if start < at {
        lemma_choice_found_from(header, package_uid, choices, at, start + 1);
    }
}

/// Re-expressing a length that is not negative, measured at a positive
/// rate, at the nominal rate of 25 gives a length that is not negative.
proof fn lemma_nominal_length_not_negative(rate: MXFRational, duration: i64)
    requires
        rate.numerator > 0,
        rate.denominator > 0,
        duration >= 0,
    ensures
        spec_convert_length(MXFRational { numerator: 25, denominator: 1 }, rate, duration) >= 0,
{
    let n = duration * 25 * rate.denominator;
    let d = 1 * rate.numerator;
    assert(n >= 0) by (nonlinear_arith)
        requires
            n == duration * 25 * rate.denominator,
            duration >= 0,
            rate.denominator > 0,
    ;
    assert((2 * n + d) / (2 * d) >= 0) by (nonlinear_arith)
        requires
            n >= 0,
            d > 0,
    ;
}

/// A material package whose only track carries picture and has for its
/// sequence a source clip that refers to the file source package: the
/// track is the selected track and counts as video, and the clip lasts as
/// long as the track, expressed at the project edit rate, which is the
/// track's own where none was known before. The track's edit rate is
/// positive and its duration not negative.
pub proof fn lemma_single_clip_track(
    header: MXFHeaderMetadata,
    material_package: MXFMetadataSet,
    package_uid: MXFUmid,
    project_edit_rate: Option<MXFRational>,
    track: MXFMetadataSet,
    clip: MXFMetadataSet,
    rate: MXFRational,
    duration: i64,
)
    requires
        material_package.spec_package_tracks(header) == Some(seq![track]),
        track.spec_track_datadef(header) matches Some(raw) && spec_normalized_datadef(
            header,
            raw,
        ) matches Some(datadef) && datadef.spec_is_picture(),
        track.spec_has_item(generic_track_track_number_item_key()) ==> track.spec_uint32(
            generic_track_track_number_item_key(),
        ).is_some(),
        track.spec_rational(track_edit_rate_item_key()) == Some(rate),
        rate.numerator > 0,
        rate.denominator > 0,
        track.spec_strongref(header, generic_track_sequence_item_key()) == Some(clip),
        header.datamodel.spec_is_subclass_of(clip.key, source_clip_set_key()),
        clip.spec_umid(source_clip_source_package_id_item_key()) == Some(package_uid),
        clip.spec_length(structural_component_duration_item_key()) == Some(duration),
        duration >= 0,
        project_edit_rate matches Some(p) ==> p.denominator != 0,
    ensures
        spec_material_tracks(header, material_package, Some(package_uid), project_edit_rate)
            matches Ok(scan) && scan.selected matches Some(selected) && selected.is_video
            && selected.duration == duration && selected.edit_rate == Some(rate)
            && scan.video_track_count == 1 && spec_clip_duration(scan) == Some(
            spec_convert_length(
                match project_edit_rate {
                    Some(p) => p,
                    None => rate,
                },
                rate,
                duration,
            ),
        ),
{
    let tracks = seq![track];
    let initial = spec_initial_scan(project_edit_rate);
    lemma_nominal_length_not_negative(rate, duration);
    assert(tracks[0] == track);
    let step = spec_track_step(header, Some(package_uid), initial, track);
    assert(spec_track_scan_from(header, Some(package_uid), tracks, 1, step->Ok_0) == Ok::<
        TrackScan,
        MXFError,
    >(step->Ok_0));
    assert(spec_track_scan_from(header, Some(package_uid), tracks, 0, initial) == Ok::<
        TrackScan,
        MXFError,
    >(step->Ok_0));
}

/// Reading tracks of which none carries picture with an edit rate leaves an
/// unknown project edit rate unknown, and the clip without a duration.
pub proof fn lemma_scan_keeps_unknown_rate(
    header: MXFHeaderMetadata,
    package_uid: Option<MXFUmid>,
    tracks: Seq<MXFMetadataSet>,
    start: int,
    scan: TrackScan,
)
    requires
        0 <= start,
        scan.project_edit_rate.is_none(),
        forall|i: int|
            start <= i < tracks.len() ==> !spec_gives_project_edit_rate(header, #[trigger] tracks[i]),
    ensures
        spec_track_scan_from(header, package_uid, tracks, start, scan) matches Ok(end)
            ==> end.project_edit_rate.is_none() && spec_clip_duration(end).is_none(),
    decreases tracks.len() - start,
{
    if start < tracks.len() {
        assert(!spec_gives_project_edit_rate(header, tracks[start]));
        match spec_track_step(header, package_uid, scan, tracks[start]) {
            Ok(next) => {
                lemma_scan_keeps_unknown_rate(header, package_uid, tracks, start + 1, next);
            },
            Err(_) => {},
        }
    }
}

/// Adds one to a count of tracks, stopping at the largest number.
fn count_up(count: u32) -> (next: u32)
    ensures
        next == spec_count_up(count),
{
    if count < u32::MAX {
        count + 1
    } else {
        count
    }
}

/// Whether `uid` is the identifier `package_uid`.
fn is_package(uid: MXFUmid, package_uid: &Option<MXFUmid>) -> (same: bool)
    ensures
        same == (Some(uid) == *package_uid),
{
    match package_uid {
        Some(p) => uid == *p,
        None => false,
    }
}

/// Settles what a track carries from the data definition of its sequence.
pub fn normalize_data_definition(header: &MXFHeaderMetadata, datadef: MXFKey) -> (found: Option<
    MXFKey,
>)
    ensures
        found == spec_normalized_datadef(*header, datadef),
{
    if datadef.is_picture() || datadef.is_sound() || datadef.is_timecode() {
        Some(datadef)
    } else {
        header.get_data_def(&datadef)
    }
}

/// Whether one of the choices of an essence group is a source clip that
/// refers to the package `package_uid`.
pub fn choices_match(
    header: &MXFHeaderMetadata,
    package_uid: &Option<MXFUmid>,
    choices: &Vec<&MXFMetadataSet>,
) -> (found: Result<bool, MXFError>)
    ensures
        found == spec_choice_matches_from(*header, *package_uid, sets_of(choices@), 0),
{
    let mut j: usize = 0;
    while j < choices.len()
        invariant
            0 <= j <= choices.len(),
            spec_choice_matches_from(*header, *package_uid, sets_of(choices@), 0)
                == spec_choice_matches_from(*header, *package_uid, sets_of(choices@), j as int),
        decreases choices.len() - j,
    {
        let choice = choices[j];
        if choice.is_subclass_of(header, &source_clip_set_key()) {
            match choice.get_umid(&source_clip_source_package_id_item_key()) {
                None => {
                    return Err(MXFError::SourcePackageId);
                },
                Some(uid) => {
                    if is_package(uid, package_uid) {
                        return Ok(true);
                    }
                },
            }
        }
        j = j + 1;
    }
    Ok(false)
}

/// Whether a structural component refers to the package `package_uid`.
pub fn component_matches(
    header: &MXFHeaderMetadata,
    package_uid: &Option<MXFUmid>,
    component: &MXFMetadataSet,
) -> (found: Result<bool, MXFError>)
    ensures
        found == spec_component_matches(*header, *package_uid, *component),
{
    if component.is_subclass_of(header, &essence_group_set_key()) {
        match component.initialize_array_iterator(&essence_group_choices_item_key()) {
            None => Err(MXFError::ChoicesCount),
            Some(elements) => {
                let choices = header.resolve_all(elements);
                choices_match(header, package_uid, &choices)
            },
        }
    } else if component.is_subclass_of(header, &source_clip_set_key()) {
        match component.get_umid(&source_clip_source_package_id_item_key()) {
            None => Err(MXFError::SourcePackageId),
            Some(uid) => Ok(is_package(uid, package_uid)),
        }
    } else {
        Ok(false)
    }
}

/// Finds on a track with the sequence `sequence` the segment that refers
/// to the package `package_uid`.
#[verifier::loop_isolation(false)]
pub fn resolve_segment(
    header: &MXFHeaderMetadata,
    package_uid: &Option<MXFUmid>,
    sequence: &MXFMetadataSet,
) -> (found: Result<Option<Segment>, MXFError>)
    ensures
        found == spec_segment(*header, *package_uid, *sequence),
{
    if sequence.is_subclass_of(header, &source_clip_set_key()) {
        return match sequence.get_umid(&source_clip_source_package_id_item_key()) {
            None => Err(MXFError::SourcePackageId),
            Some(uid) => if is_package(uid, package_uid) {
                Ok(
                    Some(
                        Segment {
                            duration: sequence.get_length(&structural_component_duration_item_key()),
                            offset: 0,
                        },
                    ),
                )
            } else {
                Ok(None)
            },
        };
    }
    let elements = match sequence.initialize_array_iterator(&sequence_structural_components_item_key()) {
        None => {
            return Err(MXFError::ComponentCount);
        },
        Some(x) => x,
    };
    let components = header.resolve_all(elements);
    let mut offset: i64 = 0;
    let mut i: usize = 0;
    while i < components.len()
        invariant
            0 <= i <= components.len(),
            spec_segment_from(*header, *package_uid, sets_of(components@), 0, 0)
                == spec_segment_from(*header, *package_uid, sets_of(components@), i as int, offset),
        decreases components.len() - i,
    {
        let component = components[i];
        let duration = component.get_length(&structural_component_duration_item_key());
        match component_matches(header, package_uid, component) {
            Err(e) => {
                return Err(e);
            },
            Ok(true) => {
                return Ok(Some(Segment { duration, offset }));
            },
            Ok(false) => {},
        }
        offset = match duration {
            Some(d) => saturate(offset as i128 + d as i128),
            None => offset,
        };
        i = i + 1;
    }
    Ok(None)
}

/// Reads one track of the material package into the scan.
pub fn scan_track(
    header: &MXFHeaderMetadata,
    package_uid: &Option<MXFUmid>,
    scan: TrackScan,
    track: &MXFMetadataSet,
) -> (next: Result<TrackScan, MXFError>)
    requires
        scan.spec_wf(),
    ensures
        next == spec_track_step(*header, *package_uid, scan, *track),
        next matches Ok(s) ==> s.spec_wf(),
{
    let sequence = match track.get_strongref(header, &generic_track_sequence_item_key()) {
        Some(x) => x,
        None => {
            return Err(MXFError::MaterialTrackDataDef);
        },
    };
    let raw = match sequence.get_data_definition() {
        Some(x) => x,
        None => {
            return Err(MXFError::MaterialTrackDataDef);
        },
    };
    let datadef = match normalize_data_definition(header, raw) {
        Some(x) => x,
        None => {
            return Ok(scan);
        },
    };
    if !datadef.is_picture() && !datadef.is_sound() {
        return Ok(scan);
    }
    let number: u32 = match track.get_uint32(&generic_track_track_number_item_key()) {
        Some(n) => n,
        None => {
            if track.has_item(&generic_track_track_number_item_key()) {
                return Err(MXFError::TrackNumber);
            }
            0
        },
    };
    let edit_rate = track.get_rational(&track_edit_rate_item_key());
    let duration = match sequence.get_length(&structural_component_duration_item_key()) {
        Some(x) => x,
        None => {
            return Err(MXFError::TrackDuration);
        },
    };
    let segment = match resolve_segment(header, package_uid, sequence) {
        Ok(x) => x,
        Err(e) => {
            return Err(e);
        },
    };
    let longest: bool = match edit_rate {
        Some(rate) => rate.is_rate() && compare_length(
            &scan.max_edit_rate,
            scan.max_duration,
            &rate,
            duration,
        ) <= 0,
        None => false,
    };
    Ok(
        TrackScan {
            video_track_count: if datadef.is_picture() {
                count_up(scan.video_track_count)
            } else {
                scan.video_track_count
            },
            audio_track_count: if datadef.is_sound() {
                count_up(scan.audio_track_count)
            } else {
                scan.audio_track_count
            },
            project_edit_rate: if scan.project_edit_rate.is_none() && datadef.is_picture() {
                edit_rate
            } else {
                scan.project_edit_rate
            },
            max_edit_rate: match edit_rate {
                Some(rate) => if longest {
                    rate
                } else {
                    scan.max_edit_rate
                },
                None => scan.max_edit_rate,
            },
            max_duration: if longest {
                duration
            } else {
                scan.max_duration
            },
            selected: match segment {
                Some(s) => Some(
                    SelectedTrack {
                        is_video: datadef.is_picture(),
                        edit_rate,
                        duration,
                        number,
                        segment: s,
                    },
                ),
                None => scan.selected,
            },
        },
    )
}

/// Reads the tracks of the material package.
#[verifier::loop_isolation(false)]
pub fn resolve_material_tracks(
    header: &MXFHeaderMetadata,
    material_package: &MXFMetadataSet,
    package_uid: &Option<MXFUmid>,
    project_edit_rate: Option<MXFRational>,
) -> (found: Result<TrackScan, MXFError>)
    ensures
        found == spec_material_tracks(*header, *material_package, *package_uid, project_edit_rate),
        found matches Ok(s) ==> s.spec_wf(),
{
    let tracks = match material_package.get_package_tracks(header) {
        Some(x) => x,
        None => {
            return Err(MXFError::MaterialTracks);
        },
    };
    let mut scan = TrackScan {
        video_track_count: 0,
        audio_track_count: 0,
        project_edit_rate,
        max_edit_rate: MXFRational { numerator: 25, denominator: 1 },
        max_duration: 0,
        selected: None,
    };
    let mut i: usize = 0;
    while i < tracks.len()
        invariant
            0 <= i <= tracks.len(),
            scan.spec_wf(),
            spec_track_scan_from(
                *header,
                *package_uid,
                sets_of(tracks@),
                0,
                spec_initial_scan(project_edit_rate),
            ) == spec_track_scan_from(*header, *package_uid, sets_of(tracks@), i as int, scan),
        decreases tracks.len() - i,
    {
        scan = match scan_track(header, package_uid, scan, tracks[i]) {
            Ok(next) => next,
            Err(e) => {
                return Err(e);
            },
        };
        i = i + 1;
    }
    Ok(scan)
}

/// The duration of the clip at the project edit rate.
pub fn clip_duration(scan: &TrackScan) -> (found: Option<i64>)
    requires
        scan.spec_wf(),
    ensures
        found == spec_clip_duration(*scan),
{
    match scan.project_edit_rate {
        Some(rate) => if rate.denominator != 0 {
            Some(convert_length(&rate, &scan.max_edit_rate, scan.max_duration))
        } else {
            None
        },
        None => None,
    }
}

} // verus!
