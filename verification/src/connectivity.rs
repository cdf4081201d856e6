//! Zone interfaces: 1-to-1 interfaces and general connections.

use vstd::prelude::*;
use vstd::string::StringExecFns;
use crate::error::{CgnsError, CgnsResult};
use crate::util::{read_c_string, c_string_text, c_string_error};
use crate::data::{DataType, GridConnectivityType, GridLocation, PointSetType, ZoneType};
use crate::zone::NodeView;

verus! {

/// An opaque handle to a 1-to-1 zone interface.
pub struct OneToOne {
    pub(crate) file_fn: i32,
    pub(crate) base_index: i32,
    pub(crate) zone_index: i32,
    pub(crate) index: i32,
}

/// Metadata describing a 1-to-1 zone interface.
#[derive(Debug, Clone)]
pub struct OneToOneInfo {
    pub name: String,
    pub donor_name: String,
    pub range: Vec<i64>,
    pub donor_range: Vec<i64>,
    pub transform: Vec<i32>,
}

/// A 1-to-1 interface as the C library reports it: the filled name and
/// donor-name buffers, the point range and donor range (begin and end
/// index in each of three directions) and the transform (one entry per
/// direction).
#[derive(Debug, Clone)]
pub struct RawOneToOne {
    pub name: Vec<u8>,
    pub donor_name: Vec<u8>,
    pub range: [i64; 6],
    pub donor_range: [i64; 6],
    pub transform: [i32; 3],
}

/// An opaque handle to a general (non-1-to-1) zone interface connection.
pub struct GeneralConnectivity {
    pub(crate) file_fn: i32,
    pub(crate) base_index: i32,
    pub(crate) zone_index: i32,
    pub(crate) index: i32,
}

/// Metadata describing a general (non-1-to-1) zone interface connection.
#[derive(Debug, Clone)]
pub struct GeneralConnectivityInfo {
    pub name: String,
    pub location: GridLocation,
    pub connection_type: GridConnectivityType,
    pub point_set_type: PointSetType,
    pub num_points: i64,
    pub donor_name: String,
    pub donor_zone_type: ZoneType,
    pub donor_point_set_type: PointSetType,
    pub donor_data_type: DataType,
    pub num_donor_data: i64,
}

/// Connection metadata as the C library reports it: the filled name
/// buffers, the raw enumeration codes and the counts.
#[derive(Debug, Clone)]
pub struct RawConnectivityInfo {
    pub name: Vec<u8>,
    pub location: u32,
    pub connection_type: u32,
    pub point_set_type: u32,
    pub num_points: i64,
    pub donor_name: Vec<u8>,
    pub donor_zone_type: u32,
    pub donor_point_set_type: u32,
    pub donor_data_type: u32,
    pub num_donor_data: i64,
}

/// Full read-back of a general connection, including point and donor data.
#[derive(Debug, Clone)]
pub struct GeneralConnectivityData {
    pub info: GeneralConnectivityInfo,
    pub points: Vec<i64>,
    pub donor_data: Vec<i64>,
}

impl View for OneToOne {
    type V = NodeView;

    closed spec fn view(&self) -> NodeView {
        NodeView {
            file: self.file_fn,
            base: self.base_index,
            zone: self.zone_index,
            index: self.index,
        }
    }
}

impl View for GeneralConnectivity {
    type V = NodeView;

    closed spec fn view(&self) -> NodeView {
        NodeView {
            file: self.file_fn,
            base: self.base_index,
            zone: self.zone_index,
            index: self.index,
        }
    }
}

/// The outcome of decoding a reported 1-to-1 interface: a failure of the C
/// layer is `CgnsCode(-1)`, a name or donor name that is not UTF-8 is
/// `Invalid`, otherwise both names decoded and the ranges and transform
/// as read.
pub open spec fn one_to_one_outcome(read: Result<RawOneToOne, String>, r: CgnsResult<OneToOneInfo>) -> bool {
    match read {
        Err(_) => r matches Err(e) && e == CgnsError::CgnsCode(-1i32),
        Ok(raw) => if c_string_text(raw.name@) is None {
            r matches Err(CgnsError::Invalid(m)) && m@ == c_string_error(raw.name@)
        } else if c_string_text(raw.donor_name@) is None {
            r matches Err(CgnsError::Invalid(m)) && m@ == c_string_error(raw.donor_name@)
        } else {
            r matches Ok(info) && info.name@ == c_string_text(raw.name@)->Some_0
                && info.donor_name@ == c_string_text(raw.donor_name@)->Some_0 && info.range@
                == raw.range@ && info.donor_range@ == raw.donor_range@ && info.transform@
                == raw.transform@ && info.range@.len() == 6 && info.donor_range@.len() == 6
                && info.transform@.len() == 3
        },
    }
}

/// The text of the C string in `buf`, or the empty text when it is not
/// valid UTF-8.
pub open spec fn lossy_text(buf: Seq<u8>) -> Seq<char> {
    match c_string_text(buf) {
        Some(t) => t,
        None => Seq::empty(),
    }
}

/// A connection name that is not UTF-8 reads as the empty text; a UTF-8
/// one as its text.
pub proof fn lemma_lossy_text(buf: Seq<u8>)
    ensures
        c_string_text(buf) is None ==> lossy_text(buf) =~= Seq::<char>::empty(),
        c_string_text(buf) matches Some(t) ==> lossy_text(buf) == t,
{
}

/// Read the C string in a name buffer, giving the empty string when it is
/// not valid UTF-8.
fn read_c_string_lossy(buf: &[u8]) -> (s: String)
    ensures
        s@ == lossy_text(buf@),
{
    match read_c_string(buf) {
        Ok(s) => String::from_str(s),
        Err(_) => String::new(),
    }
}

/// The first of the enumeration codes of `raw` that names no value, with
/// the text of the `Invalid` error it gives; `None` when all are valid.
pub open spec fn first_invalid_code(raw: RawConnectivityInfo) -> Option<Seq<char>> {
    if GridLocation::from_code(raw.location) is None {
        Some("invalid grid location"@)
    } else if GridConnectivityType::from_code(raw.connection_type) is None {
        Some("invalid connectivity type"@)
    } else if PointSetType::from_code(raw.point_set_type) is None {
        Some("invalid point set type"@)
    } else if ZoneType::from_code(raw.donor_zone_type) is None {
        Some("invalid zone type"@)
    } else if PointSetType::from_code(raw.donor_point_set_type) is None {
        Some("invalid donor point set type"@)
    } else if DataType::from_code(raw.donor_data_type) is None {
        Some("invalid donor data type"@)
    } else {
        None
    }
}

/// Whether `info` is the decoded form of `raw` (all codes valid).
pub open spec fn conn_info_decodes(info: GeneralConnectivityInfo, raw: RawConnectivityInfo) -> bool {
    &&& info.name@ == lossy_text(raw.name@)
    &&& GridLocation::from_code(raw.location) == Some(info.location)
    &&& GridConnectivityType::from_code(raw.connection_type) == Some(info.connection_type)
    &&& PointSetType::from_code(raw.point_set_type) == Some(info.point_set_type)
    &&& info.num_points == raw.num_points
    &&& info.donor_name@ == lossy_text(raw.donor_name@)
    &&& ZoneType::from_code(raw.donor_zone_type) == Some(info.donor_zone_type)
    &&& PointSetType::from_code(raw.donor_point_set_type) == Some(info.donor_point_set_type)
    &&& DataType::from_code(raw.donor_data_type) == Some(info.donor_data_type)
    &&& info.num_donor_data == raw.num_donor_data
}

/// The outcome of decoding reported connection metadata: a failure of the
/// C layer keeps its message in `Invalid`; the first code naming no value
/// gives `Invalid` with its text; names that are not UTF-8 read as empty.
pub open spec fn conn_info_outcome(read: Result<RawConnectivityInfo, String>, r: CgnsResult<GeneralConnectivityInfo>) -> bool {
    match read {
        Err(msg) => r matches Err(CgnsError::Invalid(m)) && m@ == msg@,
        Ok(raw) => match first_invalid_code(raw) {
            Some(text) => r matches Err(CgnsError::Invalid(m)) && m@ == text,
            None => r matches Ok(info) && conn_info_decodes(info, raw),
        },
    }
}

impl OneToOne {
    pub(crate) fn new(file_fn: i32, base_index: i32, zone_index: i32, index: i32) -> (o: OneToOne)
        ensures
            o@ == (NodeView { file: file_fn, base: base_index, zone: zone_index, index }),
    {
        OneToOne { file_fn, base_index, zone_index, index }
    }

    /// The 1-based index of this interface within its zone.
    pub fn index(&self) -> (i: i32)
        ensures
            i == self@.index,
    {
        self.index
    }

    /// The handle of the open file this interface belongs to.
    pub fn file_handle(&self) -> (h: i32)
        ensures
            h == self@.file,
    {
        self.file_fn
    }

    /// The 1-based index of the base this interface belongs to.
    pub fn base_index(&self) -> (i: i32)
        ensures
            i == self@.base,
    {
        self.base_index
    }

    /// The 1-based index of the zone this interface belongs to.
    pub fn zone_index(&self) -> (i: i32)
        ensures
            i == self@.zone,
    {
        self.zone_index
    }

    /// Decode the 1-to-1 interface metadata the C library reported, or its
    /// failure.
    pub fn read(&self, read: Result<RawOneToOne, String>) -> (r: CgnsResult<OneToOneInfo>)
        ensures
            one_to_one_outcome(read, r),
    {
        match read {
            Err(_) => Err(CgnsError::CgnsCode(-1)),
            Ok(raw) => {
                let RawOneToOne { name, donor_name, range, donor_range, transform } = raw;
                let name = match read_c_string(name.as_slice()) {
                    Ok(s) => String::from_str(s),
                    Err(e) => {
                        return Err(e);
                    },
                };
                let donor_name = match read_c_string(donor_name.as_slice()) {
                    Ok(s) => String::from_str(s),
                    Err(e) => {
                        return Err(e);
                    },
                };
                let range = vstd::slice::slice_to_vec(range.as_slice());
                let donor_range = vstd::slice::slice_to_vec(donor_range.as_slice());
                let transform = vstd::slice::slice_to_vec(transform.as_slice());
                Ok(OneToOneInfo { name, donor_name, range, donor_range, transform })
            },
        }
    }
}

impl GeneralConnectivity {
    pub(crate) fn new(file_fn: i32, base_index: i32, zone_index: i32, index: i32) -> (c: GeneralConnectivity)
        ensures
            c@ == (NodeView { file: file_fn, base: base_index, zone: zone_index, index }),
    {
        GeneralConnectivity { file_fn, base_index, zone_index, index }
    }

    /// The 1-based index of this connection within its zone.
    pub fn index(&self) -> (i: i32)
        ensures
            i == self@.index,
    {
        self.index
    }

    /// The handle of the open file this connection belongs to.
    pub fn file_handle(&self) -> (h: i32)
        ensures
            h == self@.file,
    {
        self.file_fn
    }

    /// The 1-based index of the base this connection belongs to.
    pub fn base_index(&self) -> (i: i32)
        ensures
            i == self@.base,
    {
        self.base_index
    }

    /// The 1-based index of the zone this connection belongs to.
    pub fn zone_index(&self) -> (i: i32)
        ensures
            i == self@.zone,
    {
        self.zone_index
    }

    /// Decode the connection metadata the C library reported, or its
    /// failure.  Every enumeration code must name a value; names that are
    /// not UTF-8 read as empty.
    pub fn info(&self, read: Result<RawConnectivityInfo, String>) -> (r: CgnsResult<GeneralConnectivityInfo>)
        ensures
            conn_info_outcome(read, r),
    {
        let raw = match read {
            Err(msg) => {
                return Err(CgnsError::Invalid(msg));
            },
            Ok(raw) => raw,
        };
        let name = read_c_string_lossy(raw.name.as_slice());
        let donor_name = read_c_string_lossy(raw.donor_name.as_slice());
        let location = match GridLocation::from_raw(raw.location) {
            Some(v) => v,
            None => {
                return Err(CgnsError::Invalid(String::from_str("invalid grid location")));
            },
        };
        let connection_type = match GridConnectivityType::from_raw(raw.connection_type) {
            Some(v) => v,
            None => {
                return Err(CgnsError::Invalid(String::from_str("invalid connectivity type")));
            },
        };
        let point_set_type = match PointSetType::from_raw(raw.point_set_type) {
            Some(v) => v,
            None => {
                return Err(CgnsError::Invalid(String::from_str("invalid point set type")));
            },
        };
        let donor_zone_type = match ZoneType::from_raw(raw.donor_zone_type) {
            Some(v) => v,
            None => {
                return Err(CgnsError::Invalid(String::from_str("invalid zone type")));
            },
        };
        let donor_point_set_type = match PointSetType::from_raw(raw.donor_point_set_type) {
            Some(v) => v,
            None => {
                return Err(CgnsError::Invalid(String::from_str("invalid donor point set type")));
            },
        };
        let donor_data_type = match DataType::from_raw(raw.donor_data_type) {
            Some(v) => v,
            None => {
                return Err(CgnsError::Invalid(String::from_str("invalid donor data type")));
            },
        };
        Ok(GeneralConnectivityInfo {
            name,
            location,
            connection_type,
            point_set_type,
            num_points: raw.num_points,
            donor_name,
            donor_zone_type,
            donor_point_set_type,
            donor_data_type,
            num_donor_data: raw.num_donor_data,
        })
    }

    /// The lengths of the point and donor buffers a connection's data is
    /// read into: each count times the zone's index dimension.
    pub fn data_lengths(info: &GeneralConnectivityInfo, index_dim: i32) -> (lens: (usize, usize))
        requires
            0 <= index_dim,
            0 <= info.num_points,
            0 <= info.num_donor_data,
            info.num_points <= usize::MAX,
            info.num_donor_data <= usize::MAX,
            info.num_points * index_dim <= usize::MAX,
            info.num_donor_data * index_dim <= usize::MAX,
        ensures
            lens.0 == info.num_points * index_dim,
            lens.1 == info.num_donor_data * index_dim,
    {
        let npts = info.num_points as usize;
        let ndonor = info.num_donor_data as usize;
        let dim = index_dim as usize;
        (npts * dim, ndonor * dim)
    }

    /// Read the point and donor data of this connection.
    ///
    /// `info_read` is the metadata the C library reported (as for
    /// [`info`](Self::info)), `index_dim` the index dimension of the zone,
    /// and `data` the point and donor arrays the C library read into
    /// buffers of [`data_lengths`](Self::data_lengths) entries, or the
    /// message of its failure, which is kept in `Invalid`.
    pub fn read_data(
        &self,
        info_read: Result<RawConnectivityInfo, String>,
        index_dim: i32,
        data: Result<(Vec<i64>, Vec<i64>), String>,
    ) -> (r: CgnsResult<GeneralConnectivityData>)
        requires
            info_read matches Ok(raw) && data matches Ok((p, d)) ==> p@.len() == raw.num_points
                * index_dim && d@.len() == raw.num_donor_data * index_dim,
        ensures
            match info_read {
                Err(msg) => r matches Err(CgnsError::Invalid(m)) && m@ == msg@,
                Ok(raw) => match first_invalid_code(raw) {
                    Some(text) => r matches Err(CgnsError::Invalid(m)) && m@ == text,
                    None => match data {
                        Err(msg) => r matches Err(CgnsError::Invalid(m)) && m@ == msg@,
                        Ok((p, d)) => r matches Ok(out) && conn_info_decodes(out.info, raw)
                            && out.points@ == p@ && out.donor_data@ == d@
                            && out.points@.len() == out.info.num_points * index_dim
                            && out.donor_data@.len() == out.info.num_donor_data * index_dim,
                    },
                },
            },
    {
        let info = match self.info(info_read) {
            Ok(info) => info,
            Err(e) => {
                return Err(e);
            },
        };
        match data {
            Err(msg) => Err(CgnsError::Invalid(msg)),
            Ok((points, donor_data)) => Ok(GeneralConnectivityData { info, points, donor_data }),
        }
    }
}

} // verus!
