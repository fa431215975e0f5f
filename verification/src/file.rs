//! A decoded file.

use crate::datamodel::MXFDataModel;
use crate::header::{MXFHeaderMetadata, MXFPartition};
use crate::model::opt_string_view;
use crate::tracks::{find_mob_attribute, spec_mob_attribute, units_of};
use vstd::prelude::*;

verus! {

/// A decoded file: its header partition and its header metadata.
#[derive(Clone, Debug, PartialEq, Eq)]
pub struct MXFFile {
    pub headerpartition: MXFPartition,
    pub headerdata: MXFHeaderMetadata,
}

impl MXFFile {
    pub fn new(headerpartition: MXFPartition, headerdata: MXFHeaderMetadata) -> (file: MXFFile)
        ensures
            file.headerpartition == headerpartition,
            file.headerdata == headerdata,
    {
        MXFFile { headerpartition, headerdata }
    }

    /// Looks `name` up among the attribute names `names` and gives the text
    /// of the value that stands beside the first match in `values`.
    pub fn get_mob_attribute(name: &Vec<u16>, names: &Vec<Vec<u16>>, values: &Vec<Vec<u16>>) -> (value:
        Option<String>)
        ensures
            opt_string_view(value) == spec_mob_attribute(
                name@,
                units_of(names@),
                units_of(values@),
            ),
    {
        find_mob_attribute(name, names, values)
    }

    pub fn headerpartition(&self) -> (partition: &MXFPartition)
        ensures
            *partition == self.headerpartition,
    {
        &self.headerpartition
    }

    pub fn datamodel(&self) -> (model: &MXFDataModel)
        ensures
            *model == self.headerdata.datamodel,
    {
        &self.headerdata.datamodel
    }

    pub fn headerdata(&self) -> (header: &MXFHeaderMetadata)
        ensures
            *header == self.headerdata,
    {
        &self.headerdata
    }
}

} // verus!
