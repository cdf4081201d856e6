//! Sections: groups of elements of one type in an unstructured zone.

use vstd::prelude::*;
use vstd::string::StringExecFns;
use crate::error::{CgnsError, CgnsResult};
use crate::util::{read_c_string, c_string_text, c_string_error, lemma_c_string_read_back};
use vstd::utf8::encode_utf8;
use crate::data::ElementType;
use crate::zone::NodeView;

verus! {

/// An opaque handle to a section (element group) in an unstructured zone.
///
/// A section collects elements of a single [`ElementType`] (or `Mixed` for
/// heterogeneous element sets).  CGNS stores element connectivity as a
/// **flat** array of `i64`: for a fixed-size type like `Tri3` (3 nodes per
/// element) it is `[e1_v1, e1_v2, e1_v3, e2_v1, ...]`, with **1-based**
/// vertex indices within the zone.
pub struct Section {
    pub(crate) file_fn: i32,
    pub(crate) base_index: i32,
    pub(crate) zone_index: i32,
    pub(crate) index: i32,
}

/// Metadata describing a single section (element group).
#[derive(Debug, Clone)]
pub struct SectionInfo {
    /// The section name (e.g. `"TriSection"`).
    pub name: String,
    /// The element type of this section.
    pub element_type: ElementType,
    /// 1-based index of the first element in this section (within the zone).
    pub start: i64,
    /// 1-based index of the last element in this section (within the zone);
    /// the section holds `end - start + 1` elements.
    pub end: i64,
    /// Number of boundary elements in this section.
    pub nbndry: i32,
    /// Whether parent data is available (0 = none, 1 = available).
    pub parent_flag: i32,
}

/// The section metadata as the C library reports it: the filled name
/// buffer, the raw `ElementType_t` code and the numeric fields.
#[derive(Debug, Clone)]
pub struct RawSectionInfo {
    pub name: Vec<u8>,
    pub element_type: u32,
    pub start: i64,
    pub end: i64,
    pub nbndry: i32,
    pub parent_flag: i32,
}

/// Element connectivity reshaped into a two-dimensional `ndarray` array of
/// shape `(num_elements, npe)`, one row per element.
///
/// The array lives in the public field `array`; Verus sees the value only
/// through [`connectivity_shape`] and [`connectivity_elements`].
#[verifier::external_body]
pub struct ConnectivityArray {
    pub array: ndarray::Array2<i64>,
}

/// The error `ndarray` reports when a shape does not fit the data.
#[verifier::external_type_specification]
#[verifier::external_body]
pub struct ExShapeError(ndarray::ShapeError);

/// The elements of a connectivity array in row-major (logical) order.
pub uninterp spec fn connectivity_elements(a: ConnectivityArray) -> Seq<i64>;

/// The shape (rows, columns) of a connectivity array.
pub uninterp spec fn connectivity_shape(a: ConnectivityArray) -> (usize, usize);

/// `ndarray::Array2::from_shape_vec((rows, cols), v)`: builds a row-major
/// array of that shape holding the elements of `v` in order.  It fails when
/// `rows * cols` differs from the number of elements; it succeeds when they
/// agree and the shape stays within `isize::MAX`.
#[verifier::external_body]
fn array2_from_shape_vec(rows: usize, cols: usize, v: Vec<i64>) -> (r: Result<
    ConnectivityArray,
    ndarray::ShapeError,
>)
    ensures
        rows * cols != v@.len() ==> r is Err,
        rows * cols == v@.len() && rows <= isize::MAX && cols <= isize::MAX && rows * cols
            <= isize::MAX ==> r is Ok,
        r matches Ok(a) ==> connectivity_shape(a) == (rows, cols) && connectivity_elements(a)
            == v@,
{
    ndarray::Array2::from_shape_vec((rows, cols), v).map(|array| ConnectivityArray { array })
}

/// `ShapeError`'s `to_string`: the text describing the shape failure.
/// Nothing is stated about that text.
#[verifier::external_body]
fn shape_error_text(e: &ndarray::ShapeError) -> (s: String) {
    e.to_string()
}

impl View for Section {
    type V = NodeView;

    closed spec fn view(&self) -> NodeView {
        NodeView {
            file: self.file_fn,
            base: self.base_index,
            zone: self.zone_index,
            index: self.index,
        }
    }
}

/// The element type a raw code names, or `Null` when it names none.
pub open spec fn element_type_or_null(raw: u32) -> ElementType {
    match ElementType::from_code(raw) {
        Some(t) => t,
        None => ElementType::Null,
    }
}

/// An element type written as its raw code reads back as the same type.
pub proof fn lemma_element_type_read_back(t: ElementType)
    ensures
        element_type_or_null(t.code()) == t,
{
}

/// A code naming no element type reads as `Null`.
pub proof fn lemma_unknown_element_code_is_null(raw: u32)
    requires
        ElementType::from_code(raw) is None,
    ensures
        element_type_or_null(raw) == ElementType::Null,
{
}

/// Whether `info` is the decoded form of `raw`, whose name reads as `name`.
pub open spec fn section_info_decodes(info: SectionInfo, raw: RawSectionInfo, name: Seq<char>) -> bool {
    &&& info.name@ == name
    &&& info.element_type == element_type_or_null(raw.element_type)
    &&& info.start == raw.start
    &&& info.end == raw.end
    &&& info.nbndry == raw.nbndry
    &&& info.parent_flag == raw.parent_flag
}

/// The outcome of decoding reported section metadata: a failure of the C
/// layer keeps its message in `Invalid`; a name that is not UTF-8 is
/// `Invalid`; otherwise the decoded metadata.
pub open spec fn section_info_outcome(read: Result<RawSectionInfo, String>, r: CgnsResult<SectionInfo>) -> bool {
    match read {
        Err(msg) => r matches Err(CgnsError::Invalid(m)) && m@ == msg@,
        Ok(raw) => match c_string_text(raw.name@) {
            None => r matches Err(CgnsError::Invalid(m)) && m@ == c_string_error(raw.name@),
            Some(t) => r matches Ok(info) && section_info_decodes(info, raw, t),
        },
    }
}

/// Section metadata reported with a name written without NUL characters
/// (followed by a NUL) and with the raw code of an element type decodes to
/// that name, that element type and the same element range.
pub proof fn lemma_section_info_read_back(
    raw: RawSectionInfo,
    name: Seq<char>,
    t: ElementType,
    rest: Seq<u8>,
    r: CgnsResult<SectionInfo>,
)
    requires
        forall|i: int| 0 <= i < name.len() ==> name[i] as u32 != 0,
        raw.name@ == encode_utf8(name) + seq![0u8] + rest,
        raw.element_type == t.code(),
        section_info_outcome(Ok(raw), r),
    ensures
        r matches Ok(info) && info.name@ == name && info.element_type == t && info.start
            == raw.start && info.end == raw.end,
{
    lemma_c_string_read_back(name, rest);
}

/// `len / npe` whole rows of `npe` entries fit in `len` entries, and they
/// fill it exactly when `npe` divides `len`.
proof fn lemma_whole_rows(len: int, npe: int)
    requires
        0 <= len,
        0 < npe,
    ensures
        (len / npe) * npe <= len,
        ((len / npe) * npe == len) <==> (len % npe == 0),
{
    vstd::arithmetic::div_mod::lemma_fundamental_div_mod(len, npe);
    vstd::arithmetic::div_mod::lemma_mod_pos_bound(len, npe);
    let q = len / npe;
    assert(q * npe == npe * q) by (nonlinear_arith);
}

impl Section {
    pub(crate) fn new(file_fn: i32, base_index: i32, zone_index: i32, index: i32) -> (s: Section)
        ensures
            s@ == (NodeView { file: file_fn, base: base_index, zone: zone_index, index }),
    {
        Section { file_fn, base_index, zone_index, index }
    }

    /// The 1-based section index within its zone.
    pub fn index(&self) -> (i: i32)
        ensures
            i == self@.index,
    {
        self.index
    }

    /// The handle of the open file this section belongs to.
    pub fn file_handle(&self) -> (h: i32)
        ensures
            h == self@.file,
    {
        self.file_fn
    }

    /// The 1-based index of the base this section belongs to.
    pub fn base_index(&self) -> (i: i32)
        ensures
            i == self@.base,
    {
        self.base_index
    }

    /// The 1-based index of the zone this section belongs to.
    pub fn zone_index(&self) -> (i: i32)
        ensures
            i == self@.zone,
    {
        self.zone_index
    }

    /// Decode the section metadata (name, element type, element range,
    /// ...) the C library reported, or its failure.  An element-type code
    /// naming no type reads as `Null`.
    pub fn info(&self, read: Result<RawSectionInfo, String>) -> (r: CgnsResult<SectionInfo>)
        ensures
            section_info_outcome(read, r),
    {
        match read {
            Err(msg) => Err(CgnsError::Invalid(msg)),
            Ok(raw) => {
                let name = match read_c_string(raw.name.as_slice()) {
                    Ok(s) => String::from_str(s),
                    Err(e) => {
                        return Err(e);
                    },
                };
                let element_type = match ElementType::from_raw(raw.element_type) {
                    Some(t) => t,
                    None => ElementType::Null,
                };
                Ok(SectionInfo {
                    name,
                    element_type,
                    start: raw.start,
                    end: raw.end,
                    nbndry: raw.nbndry,
                    parent_flag: raw.parent_flag,
                })
            },
        }
    }

    /// The length of the buffer the connectivity of this section is read
    /// into: the element data size the C library reported.
    pub fn connectivity_buffer_len(size: i64) -> (n: usize)
        requires
            0 <= size <= usize::MAX,
        ensures
            n == size,
    {
        size as usize
    }

    /// Read the element connectivity as a flat `Vec<i64>`.
    ///
    /// `size` is the element data size the C library reported and
    /// `elements` the connectivity it read into a buffer of that many
    /// entries (see [`connectivity_buffer_len`](Self::connectivity_buffer_len));
    /// a failure of either keeps its message in `Invalid`.
    pub fn read_connectivity(&self, size: Result<i64, String>, elements: Result<Vec<i64>, String>) -> (r:
        CgnsResult<Vec<i64>>)
        ensures
            match size {
                Err(msg) => r matches Err(CgnsError::Invalid(m)) && m@ == msg@,
                Ok(_) => match elements {
                    Err(msg) => r matches Err(CgnsError::Invalid(m)) && m@ == msg@,
                    Ok(v) => r == Ok::<Vec<i64>, CgnsError>(v),
                },
            },
    {
        match size {
            Err(msg) => Err(CgnsError::Invalid(msg)),
            Ok(_) => match elements {
                Err(msg) => Err(CgnsError::Invalid(msg)),
                Ok(v) => Ok(v),
            },
        }
    }

    /// Read connectivity and reshape it into a two-dimensional array of
    /// shape `(num_elements, npe)`, where `npe` is the number of nodes per
    /// element of the section's element type.
    ///
    /// `read` is the section metadata the C library reported (as for
    /// [`info`](Self::info)) and `flat` the flat connectivity (as
    /// [`read_connectivity`](Self::read_connectivity) gives it).
    ///
    /// Returns `Invalid` if the section uses `Mixed` elements (variable
    /// npe), if the element type has zero nodes per element, or if the
    /// connectivity length is not a multiple of npe.
    pub fn read_connectivity_ndarray(
        &self,
        read: Result<RawSectionInfo, String>,
        flat: CgnsResult<Vec<i64>>,
    ) -> (r: CgnsResult<ConnectivityArray>)
        ensures
            match read {
                Err(msg) => r matches Err(CgnsError::Invalid(m)) && m@ == msg@,
                Ok(raw) => match c_string_text(raw.name@) {
                    None => r matches Err(CgnsError::Invalid(m)) && m@ == c_string_error(raw.name@),
                    Some(_) => {
                        let t = element_type_or_null(raw.element_type);
                        let npe = t.nodes_per_element();
                        if t == ElementType::Mixed {
                            r matches Err(CgnsError::Invalid(m)) && m@
                                == "cannot reshape Mixed element connectivity with fixed npe"@
                        } else if npe == 0 {
                            r matches Err(CgnsError::Invalid(m)) && m@
                                == "cannot reshape element type with zero vertices per element"@
                        } else {
                            match flat {
                                Err(e) => r matches Err(e2) && e2 == e,
                                Ok(v) => if (v@.len() as int) % npe != 0 {
                                    r matches Err(CgnsError::Invalid(m)) && m@
                                        == "connectivity size not divisible by npe"@
                                } else {
                                    &&& v@.len() <= isize::MAX ==> r is Ok
                                    &&& r matches Ok(a) ==> connectivity_shape(a) == (
                                        ((v@.len() as int) / npe) as usize,
                                        npe as usize,
                                    ) && connectivity_elements(a) == v@
                                    &&& r is Err ==> r matches Err(CgnsError::Invalid(_))
                                },
                            }
                        }
                    },
                },
            },
    {
        let ghost g = read;
        let info = match self.info(read) {
            Ok(info) => info,
            Err(e) => {
                return Err(e);
            },
        };
        proof {
            assert(g matches Ok(raw) && c_string_text(raw.name@) is Some && info.element_type
                == element_type_or_null(raw.element_type));
        }
        if info.element_type == ElementType::Mixed {
            return Err(
                CgnsError::Invalid(
                    String::from_str("cannot reshape Mixed element connectivity with fixed npe"),
                ),
            );
        }
        let npe = info.element_type.npe() as usize;
        if npe == 0 {
            return Err(
                CgnsError::Invalid(
                    String::from_str("cannot reshape element type with zero vertices per element"),
                ),
            );
        }
        let flat = match flat {
            Ok(v) => v,
            Err(e) => {
                return Err(e);
            },
        };
        let nelem = flat.len() / npe;
        proof {
            lemma_whole_rows(flat@.len() as int, npe as int);
        }
        if flat.len() != nelem * npe {
            return Err(
                CgnsError::Invalid(String::from_str("connectivity size not divisible by npe")),
            );
        }
        match array2_from_shape_vec(nelem, npe, flat) {
            Ok(a) => Ok(a),
            Err(e) => Err(CgnsError::Invalid(shape_error_text(&e))),
        }
    }

    /// The number of elements in this section, `end - start + 1` from the
    /// section metadata (`read`, as for [`info`](Self::info)), truncated to
    /// `i32`.
    pub fn element_count(&self, read: Result<RawSectionInfo, String>) -> (r: CgnsResult<i32>)
        requires
            read matches Ok(raw) ==> i64::MIN <= raw.end - raw.start && raw.end - raw.start + 1
                <= i64::MAX,
        ensures
            match read {
                Err(msg) => r matches Err(CgnsError::Invalid(m)) && m@ == msg@,
                Ok(raw) => match c_string_text(raw.name@) {
                    None => r matches Err(CgnsError::Invalid(m)) && m@ == c_string_error(raw.name@),
                    Some(_) => r == Ok::<i32, CgnsError>(#[verifier::truncate] ((raw.end - raw.start + 1) as i32)),
                },
            },
    {
        let ghost g = read;
        let info = match self.info(read) {
            Ok(info) => info,
            Err(e) => {
                return Err(e);
            },
        };
        proof {
            assert(g matches Ok(raw) && info.start == raw.start && info.end == raw.end);
        }
        Ok(#[verifier::truncate] ((info.end - info.start + 1) as i32))
    }
}

} // verus!
