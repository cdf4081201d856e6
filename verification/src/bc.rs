//! Boundary conditions on zones.

use vstd::prelude::*;
use vstd::string::StringExecFns;
use crate::error::{CgnsError, CgnsResult};
use crate::util::{read_c_string, c_string_text, c_string_error, lemma_c_string_read_back};
use vstd::utf8::encode_utf8;
use crate::data::{BcType, PointSetType};
use crate::zone::NodeView;

verus! {

/// An opaque handle to a boundary condition on a zone.
pub struct Bc {
    pub(crate) file_fn: i32,
    pub(crate) base_index: i32,
    pub(crate) zone_index: i32,
    pub(crate) index: i32,
}

/// Metadata describing a boundary condition.
#[derive(Debug, Clone)]
pub struct BcInfo {
    pub name: String,
    pub bc_type: BcType,
    pub point_set_type: PointSetType,
    pub num_points: i64,
}

/// Boundary-condition metadata as the C library reports it: the filled name
/// buffer, the raw `BCType_t` and `PointSetType_t` codes and the number of
/// points.
#[derive(Debug, Clone)]
pub struct RawBcInfo {
    pub name: Vec<u8>,
    pub bc_type: u32,
    pub point_set_type: u32,
    pub num_points: i64,
}

impl View for Bc {
    type V = NodeView;

    closed spec fn view(&self) -> NodeView {
        NodeView {
            file: self.file_fn,
            base: self.base_index,
            zone: self.zone_index,
            index: self.index,
        }
    }
}

/// Whether `info` is the decoded form of `raw`, whose name reads as `name`:
/// a boundary-condition code naming no type reads as `Null`, a point-set
/// code naming no type as `PointList`.
pub open spec fn bc_info_decodes(info: BcInfo, raw: RawBcInfo, name: Seq<char>) -> bool {
    &&& info.name@ == name
    &&& info.bc_type == match BcType::from_code(raw.bc_type) {
        Some(t) => t,
        None => BcType::Null,
    }
    &&& info.point_set_type == match PointSetType::from_code(raw.point_set_type) {
        Some(t) => t,
        None => PointSetType::PointList,
    }
    &&& info.num_points == raw.num_points
}

/// The outcome of decoding reported boundary-condition metadata: a failure
/// of the C layer is `CgnsCode(-1)`, a name that is not UTF-8 `Invalid`,
/// otherwise the decoded metadata.
pub open spec fn bc_info_outcome(read: Result<RawBcInfo, String>, r: CgnsResult<BcInfo>) -> bool {
    match read {
        Err(_) => r matches Err(e) && e == CgnsError::CgnsCode(-1i32),
        Ok(raw) => match c_string_text(raw.name@) {
            None => r matches Err(CgnsError::Invalid(m)) && m@ == c_string_error(raw.name@),
            Some(t) => r matches Ok(info) && bc_info_decodes(info, raw, t),
        },
    }
}

/// Metadata reported with a name written without NUL characters (followed
/// by a NUL), and with the raw codes of a boundary-condition type and a
/// point-set type, decodes to that name, those types and the same number of
/// points.
pub proof fn lemma_bc_info_read_back(
    raw: RawBcInfo,
    name: Seq<char>,
    t: BcType,
    p: PointSetType,
    rest: Seq<u8>,
    r: CgnsResult<BcInfo>,
)
    requires
        forall|i: int| 0 <= i < name.len() ==> name[i] as u32 != 0,
        raw.name@ == encode_utf8(name) + seq![0u8] + rest,
        raw.bc_type == t.code(),
        raw.point_set_type == p.code(),
        bc_info_outcome(Ok(raw), r),
    ensures
        r matches Ok(info) && info.name@ == name && info.bc_type == t && info.point_set_type == p
            && info.num_points == raw.num_points,
{
    lemma_c_string_read_back(name, rest);
}

/// The number of values the point data of a boundary condition holds:
/// one index per direction of the zone (`index_dim`) for each of its
/// `num_points` points, or range bounds for a point range.
pub open spec fn point_value_count(num_points: i64, index_dim: i32) -> int {
    num_points * index_dim
}

/// Metadata whose codes name no boundary-condition type and no point-set
/// type decodes as a `Null` boundary condition over a `PointList`, keeping
/// the name and the number of points.
pub proof fn lemma_bc_info_unknown_codes(raw: RawBcInfo, r: CgnsResult<BcInfo>)
    requires
        c_string_text(raw.name@) is Some,
        BcType::from_code(raw.bc_type) is None,
        PointSetType::from_code(raw.point_set_type) is None,
        bc_info_outcome(Ok(raw), r),
    ensures
        r matches Ok(info) && info.bc_type == BcType::Null && info.point_set_type
            == PointSetType::PointList && info.name@ == c_string_text(raw.name@)->Some_0
            && info.num_points == raw.num_points,
{
}

impl Bc {
    pub(crate) fn new(file_fn: i32, base_index: i32, zone_index: i32, index: i32) -> (b: Bc)
        ensures
            b@ == (NodeView { file: file_fn, base: base_index, zone: zone_index, index }),
    {
        Bc { file_fn, base_index, zone_index, index }
    }

    /// The 1-based index of this boundary condition within its zone.
    pub fn index(&self) -> (i: i32)
        ensures
            i == self@.index,
    {
        self.index
    }

    /// The handle of the open file this boundary condition belongs to.
    pub fn file_handle(&self) -> (h: i32)
        ensures
            h == self@.file,
    {
        self.file_fn
    }

    /// The 1-based index of the base this boundary condition belongs to.
    pub fn base_index(&self) -> (i: i32)
        ensures
            i == self@.base,
    {
        self.base_index
    }

    /// The 1-based index of the zone this boundary condition belongs to.
    pub fn zone_index(&self) -> (i: i32)
        ensures
            i == self@.zone,
    {
        self.zone_index
    }

    /// Decode the boundary-condition metadata the C library reported, or
    /// its failure.
    pub fn info(&self, read: Result<RawBcInfo, String>) -> (r: CgnsResult<BcInfo>)
        ensures
            bc_info_outcome(read, r),
    {
        match read {
            Err(_) => Err(CgnsError::CgnsCode(-1)),
            Ok(raw) => {
                let name = match read_c_string(raw.name.as_slice()) {
                    Ok(s) => String::from_str(s),
                    Err(e) => {
                        return Err(e);
                    },
                };
                let bc_type = match BcType::from_raw(raw.bc_type) {
                    Some(t) => t,
                    None => BcType::Null,
                };
                let point_set_type = match PointSetType::from_raw(raw.point_set_type) {
                    Some(t) => t,
                    None => PointSetType::PointList,
                };
                Ok(BcInfo { name, bc_type, point_set_type, num_points: raw.num_points })
            },
        }
    }

    /// Read the point data of this boundary condition: the flat point
    /// indices array, one index per direction of the zone for each point
    /// (or range bound), so `num_points * index_dim` values.
    ///
    /// `info_read` is the metadata the C library reported (as for
    /// [`info`](Self::info)), `index_dim` the index dimension of the zone,
    /// and `points` the point array the C library read into a buffer of
    /// [`point_buffer_len`](Self::point_buffer_len) entries, or its failure.
    pub fn read_points(
        &self,
        info_read: Result<RawBcInfo, String>,
        index_dim: i32,
        points: Result<Vec<i64>, String>,
    ) -> (r: CgnsResult<Vec<i64>>)
        requires
            info_read matches Ok(raw) && points matches Ok(p) ==> p@.len() == point_value_count(
                raw.num_points,
                index_dim,
            ),
        ensures
            match info_read {
                Err(_) => r matches Err(e) && e == CgnsError::CgnsCode(-1i32),
                Ok(raw) => match c_string_text(raw.name@) {
                    None => r matches Err(CgnsError::Invalid(m)) && m@ == c_string_error(raw.name@),
                    Some(_) => match points {
                        Ok(p) => r == Ok::<Vec<i64>, CgnsError>(p) && p@.len() == point_value_count(
                            raw.num_points,
                            index_dim,
                        ),
                        Err(_) => r matches Err(e) && e == CgnsError::CgnsCode(-1i32),
                    },
                },
            },
    {
        match self.info(info_read) {
            Ok(_) => {},
            Err(e) => {
                return Err(e);
            },
        }
        match points {
            Ok(p) => Ok(p),
            Err(_) => Err(CgnsError::CgnsCode(-1)),
        }
    }

    /// The length of the buffer the point data of this boundary condition
    /// is read into: its number of points times the index dimension of the
    /// zone.
    pub fn point_buffer_len(info: &BcInfo, index_dim: i32) -> (n: usize)
        requires
            0 <= info.num_points,
            0 <= index_dim,
            point_value_count(info.num_points, index_dim) <= usize::MAX,
        ensures
            n == point_value_count(info.num_points, index_dim),
    {
        if index_dim == 0 {
            assert(info.num_points * index_dim == 0) by (nonlinear_arith)
                requires
                    index_dim == 0,
            ;
            return 0;
        }
        assert(info.num_points <= info.num_points * index_dim) by (nonlinear_arith)
            requires
                0 <= info.num_points,
                1 <= index_dim,
        ;
        let npts = info.num_points as usize;
        let dim = index_dim as usize;
        npts * dim
    }
}

} // verus!
