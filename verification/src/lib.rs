//! Editorial metadata of a media clip, resolved from the header metadata
//! graph of an MXF file written by a non-linear editing system.
//!
//! The graph is modelled in [`model`], [`datamodel`] and [`header`], with
//! the walks along tracks in [`tracks`]. Lengths are converted between edit
//! rates in [`rational`]. The resolution passes are [`package`], [`segment`]
//! and [`timecode`], and [`info`] puts their results into one record.

pub mod datamodel;
pub mod error;
pub mod file;
pub mod header;
pub mod info;
pub mod key;
pub mod labels;
pub mod model;
pub mod package;
pub mod rational;
pub mod segment;
pub mod timecode;
pub mod timestamp;
pub mod tracks;
pub mod types;

pub use crate::error::MXFError;
pub use crate::file::MXFFile;
pub use crate::info::AvidMXFInfo;
pub use crate::key::{MXFKey, MXFUmid};

use vstd::prelude::*;

verus! {

pub type MXFInfo = AvidMXFInfo;

} // verus!
