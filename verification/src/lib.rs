//! Verified core of a CGNS (CFD General Notation System) binding.
//!
//! CGNS is the ISO 10303-209 standard for storing computational fluid
//! dynamics meshes and solutions.  A file holds bases; a base holds zones
//! and families; a zone holds coordinates, sections (unstructured element
//! groups), solutions, boundary conditions and zone interfaces.  The
//! storage itself is done by the CGNS C library.  This crate holds what the
//! binding decides on its own: the typed vocabulary of the format
//! ([`data`]), error mapping ([`error`]), decoding of the fixed-size name
//! buffers the C library fills ([`util`]), and the typed handles with their
//! lookup, listing and decoding logic.
//!
//! Each operation that talks to the C library is split in two: the caller
//! performs the call and hands what the library reported (counts, indices,
//! status codes, filled buffers, or failures) to the method of the handle,
//! which turns it into a typed result.
//!
//! # Indexing conventions
//!
//! CGNS uses **1-based** indices everywhere: bases, zones, sections,
//! solutions, boundary conditions and interfaces are numbered from 1, and
//! node IDs in connectivity arrays start at 1.
//!
//! # Connectivity layout (unstructured)
//!
//! Element connectivity is a **flat** array of `i64`; for an element type
//! with `npe` nodes per element it reads
//! `[e1_v1, ..., e1_vNPE, e2_v1, ..., e2_vNPE, ...]`.
//! [`Section::read_connectivity_ndarray`] reshapes it into an array of shape
//! `(num_elements, npe)`.
//!
//! # Structured zone indexing
//!
//! Structured zone data uses **Fortran (column-major) order**: the first
//! index varies fastest.


pub mod data;
pub mod error;
pub mod util;

mod base;
mod bc;
mod connectivity;
mod file;
mod section;
mod zone;

pub use base::{Base, BaseView};
pub use bc::{Bc, BcInfo, RawBcInfo};
pub use connectivity::{
    GeneralConnectivity, GeneralConnectivityData, GeneralConnectivityInfo, OneToOne,
    OneToOneInfo, RawConnectivityInfo, RawOneToOne,
};
pub use file::{CgnsFile, FileView};
pub use section::{ConnectivityArray, RawSectionInfo, Section, SectionInfo};
pub use zone::{FieldInfo, NodeView, Solution, SolutionInfo, Zone, ZoneView};
