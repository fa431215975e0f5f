//! The lookups on which a resolution can fail.

use crate::key::MXFKey;
use vstd::prelude::*;

verus! {

/// Why a resolution pass gave up: the lookup that found nothing.
#[derive(Clone, Copy, Debug, PartialEq, Eq, Structural, Hash)]
pub enum MXFError {
    /// The graph does not hold exactly one set of this type.
    SingularSet(MXFKey),
    /// The attribute list of the material package is no array.
    MobAttributes,
    /// No top-level file source package.
    TopFilePackage,
    /// The file source package has no descriptor that resolves.
    DescriptorSet,
    /// The material package has no array of tracks.
    MaterialTracks,
    /// A material track has no sequence with a data definition.
    MaterialTrackDataDef,
    /// A track number that is no 32-bit unsigned integer.
    TrackNumber,
    /// A material track has no sequence with a duration.
    TrackDuration,
    /// A sequence without an array of structural components.
    ComponentCount,
    /// An essence group without an array of choices.
    ChoicesCount,
    /// A source clip without the identifier of its source package.
    SourcePackageId,
    /// The locators of a descriptor are no array.
    Locators,
    /// The file source package has no array of tracks.
    PackageTracks,
    /// A track of the file source package has no sequence with a data
    /// definition.
    PackageTrackDataDef,
    /// A source clip of the file source package without a start position.
    TrackStartPosition,
    /// A referenced package has no array of tracks.
    ReferencedPackageTracks,
    /// A track of a referenced package has no sequence with a data
    /// definition.
    ReferencedTrackDataDef,
    /// A timecode component without a start timecode.
    TimecodeStart,
    /// A timecode component without a rounded timecode base.
    TimecodeBase,
    /// A timecode was found, but the clip's edit rate or the edit rate of
    /// the track that led to it is not known.
    ClipEditRate,
    /// A tagged value without a name or without a string value.
    TaggedValue,
    /// The name of a tagged value is not well-formed UTF-16.
    TaggedValueName,
    /// The value of a tagged value is not well-formed UTF-16.
    TaggedValueValue,
}

impl MXFError {
    /// The message that goes with the error.
    pub open spec fn spec_message(self) -> Seq<char> {
        match self {
            MXFError::SingularSet(_) => "Could not find singular set by key."@,
            MXFError::MobAttributes => "Could not read mob attributes."@,
            MXFError::TopFilePackage => "Could not read top level file package."@,
            MXFError::DescriptorSet => "Could not read descriptor set."@,
            MXFError::MaterialTracks => "Could not read material track reference."@,
            MXFError::MaterialTrackDataDef => "Could not read material track reference."@,
            MXFError::TrackNumber => "Could not read track number."@,
            MXFError::TrackDuration => "Could not read track duration."@,
            MXFError::ComponentCount => "Could not read structural componenet array count."@,
            MXFError::ChoicesCount => "Could not read array essence group choices count."@,
            MXFError::SourcePackageId => "Could not read source package id."@,
            MXFError::Locators => "Could not read array item iterator."@,
            MXFError::PackageTracks => "Could not read package tracks."@,
            MXFError::PackageTrackDataDef => "Could not read datadef of trackset."@,
            MXFError::TrackStartPosition => "Could not read track start position."@,
            MXFError::ReferencedPackageTracks => "Could not read pacakge track iterator"@,
            MXFError::ReferencedTrackDataDef => "Could not read track datadef."@,
            MXFError::TimecodeStart => "Could not read timecode track position item."@,
            MXFError::TimecodeBase => "Could not read timecode base item."@,
            MXFError::ClipEditRate => "Clip edit rate is empty for timecode calculation."@,
            MXFError::TaggedValue => "Tagged value: failed reading name and value."@,
            MXFError::TaggedValueName => "Tagged value: name is not utf16."@,
            MXFError::TaggedValueValue => "Tagged value: value is not utf16."@,
        }
    }

    /// The message that goes with the error.
    pub fn to_string(&self) -> (s: String)
        ensures
            s@ == self.spec_message(),
    {
        match self {
            MXFError::SingularSet(_) => "Could not find singular set by key.".to_owned(),
            MXFError::MobAttributes => "Could not read mob attributes.".to_owned(),
            MXFError::TopFilePackage => "Could not read top level file package.".to_owned(),
            MXFError::DescriptorSet => "Could not read descriptor set.".to_owned(),
            MXFError::MaterialTracks => "Could not read material track reference.".to_owned(),
            MXFError::MaterialTrackDataDef => "Could not read material track reference.".to_owned(),
            MXFError::TrackNumber => "Could not read track number.".to_owned(),
            MXFError::TrackDuration => "Could not read track duration.".to_owned(),
            MXFError::ComponentCount => "Could not read structural componenet array count.".to_owned(),
            MXFError::ChoicesCount => "Could not read array essence group choices count.".to_owned(),
            MXFError::SourcePackageId => "Could not read source package id.".to_owned(),
            MXFError::Locators => "Could not read array item iterator.".to_owned(),
            MXFError::PackageTracks => "Could not read package tracks.".to_owned(),
            MXFError::PackageTrackDataDef => "Could not read datadef of trackset.".to_owned(),
            MXFError::TrackStartPosition => "Could not read track start position.".to_owned(),
            MXFError::ReferencedPackageTracks => "Could not read pacakge track iterator".to_owned(),
            MXFError::ReferencedTrackDataDef => "Could not read track datadef.".to_owned(),
            MXFError::TimecodeStart => "Could not read timecode track position item.".to_owned(),
            MXFError::TimecodeBase => "Could not read timecode base item.".to_owned(),
            MXFError::ClipEditRate => "Clip edit rate is empty for timecode calculation.".to_owned(),
            MXFError::TaggedValue => "Tagged value: failed reading name and value.".to_owned(),
            MXFError::TaggedValueName => "Tagged value: name is not utf16.".to_owned(),
            MXFError::TaggedValueValue => "Tagged value: value is not utf16.".to_owned(),
        }
    }
}

} // verus!
