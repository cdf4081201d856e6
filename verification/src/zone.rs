//! Zones (mesh blocks) and the solutions they hold.

use vstd::prelude::*;
use vstd::string::StringExecFns;
use crate::error::{CgnsError, CgnsResult, CG_OK, from_sys_result, sys_result, check_sys_status};
use crate::util::{NameEntry, EntryMatch, entry_text, passes_over, search_outcome, listing_outcome, lemma_stop_index, lemma_failure_index, status_entries, status_entry, match_entry, entry_name, not_found_text, not_found_message, read_c_string, c_string_text, c_string_error};
use crate::data::{DataType, ZoneType, GridLocation};
use crate::section::Section;
use crate::bc::{Bc, RawBcInfo};
use crate::connectivity::{GeneralConnectivity, OneToOne, RawConnectivityInfo};

verus! {

/// Where a zone sits: the file handle, the base index and its own index.
pub struct ZoneView {
    pub file: i32,
    pub base: i32,
    pub index: i32,
}

/// Where a node inside a zone sits: file handle, base index, zone index
/// and its own index among the nodes of its kind in that zone.
pub struct NodeView {
    pub file: i32,
    pub base: i32,
    pub zone: i32,
    pub index: i32,
}

/// An opaque handle to a zone (mesh block) within a CGNS base.
///
/// A zone is either **structured** (ijk-ordered vertices) or
/// **unstructured** (vertices + element connectivity).  Zones come from
/// [`Base::create_zone_structured`](crate::Base::create_zone_structured),
/// [`Base::create_zone_unstructured`](crate::Base::create_zone_unstructured)
/// and [`Base::zones`](crate::Base::zones).
pub struct Zone {
    pub(crate) file_fn: i32,
    pub(crate) base_index: i32,
    pub(crate) index: i32,
}

impl View for Zone {
    type V = ZoneView;

    closed spec fn view(&self) -> ZoneView {
        ZoneView { file: self.file_fn, base: self.base_index, index: self.index }
    }
}

impl Zone {
    pub(crate) fn new(file_fn: i32, base_index: i32, index: i32) -> (z: Zone)
        ensures
            z@ == (ZoneView { file: file_fn, base: base_index, index }),
    {
        Zone { file_fn, base_index, index }
    }

    /// The 1-based index of this zone within its base.
    pub fn index(&self) -> (i: i32)
        ensures
            i == self@.index,
    {
        self.index
    }

    /// The handle of the open file this zone belongs to.
    pub fn file_handle(&self) -> (h: i32)
        ensures
            h == self@.file,
    {
        self.file_fn
    }

    /// The 1-based index of the base this zone belongs to.
    pub fn base_index(&self) -> (i: i32)
        ensures
            i == self@.base,
    {
        self.base_index
    }
}

/// An opaque handle to a solution node in a zone.
///
/// A solution groups field variables (e.g. pressure, density, velocity)
/// that share a [`GridLocation`].  Solutions come from
/// [`Zone::write_solution`], [`Zone::solution`] and [`Zone::solutions`].
pub struct Solution {
    pub(crate) file_fn: i32,
    pub(crate) base_index: i32,
    pub(crate) zone_index: i32,
    pub(crate) index: i32,
}

impl View for Solution {
    type V = NodeView;

    closed spec fn view(&self) -> NodeView {
        NodeView {
            file: self.file_fn,
            base: self.base_index,
            zone: self.zone_index,
            index: self.index,
        }
    }
}

impl Solution {
    pub(crate) fn new(file_fn: i32, base_index: i32, zone_index: i32, index: i32) -> (s: Solution)
        ensures
            s@ == (NodeView { file: file_fn, base: base_index, zone: zone_index, index }),
    {
        Solution { file_fn, base_index, zone_index, index }
    }

    /// The 1-based index of this solution within its zone.
    pub fn index(&self) -> (i: i32)
        ensures
            i == self@.index,
    {
        self.index
    }

    /// The handle of the open file this solution belongs to.
    pub fn file_handle(&self) -> (h: i32)
        ensures
            h == self@.file,
    {
        self.file_fn
    }

    /// The 1-based index of the base this solution belongs to.
    pub fn base_index(&self) -> (i: i32)
        ensures
            i == self@.base,
    {
        self.base_index
    }

    /// The 1-based index of the zone this solution belongs to.
    pub fn zone_index(&self) -> (i: i32)
        ensures
            i == self@.zone,
    {
        self.zone_index
    }

    /// The number of fields in this solution, from the status and count
    /// the C library reported.
    pub fn field_count(&self, status: i32, n: i32) -> (r: CgnsResult<i32>)
        ensures
            r == counted(status, n),
    {
        check_sys_status(status)?;
        Ok(n)
    }
}

/// Metadata of a solution: its name and the grid location of its fields.
#[derive(Debug, Clone)]
pub struct SolutionInfo {
    pub name: String,
    pub location: GridLocation,
}

/// Metadata of a field of a solution: its name and data type.
#[derive(Debug, Clone)]
pub struct FieldInfo {
    pub name: String,
    pub data_type: DataType,
}

/// Whether a reported field (status, raw `DataType_t` code, name buffer) can
/// be decoded: the status is `CG_OK`, the name is UTF-8 and the code names a
/// data type.
pub open spec fn field_decodes(f: (i32, u32, Vec<u8>)) -> bool {
    &&& f.0 == CG_OK
    &&& c_string_text(f.2@) is Some
    &&& DataType::from_code(f.1) is Some
}

/// Position, from `i` on and below `n`, of the first reported field that
/// cannot be decoded; `n` when all can.
pub open spec fn first_bad_field(fields: Seq<(i32, u32, Vec<u8>)>, i: int, n: int) -> int
    decreases n - i,
{
    if i >= n {
        n
    } else if !field_decodes(fields[i]) {
        i
    } else {
        first_bad_field(fields, i + 1, n)
    }
}

/// The error reported for a field that cannot be decoded: its status when
/// not `CG_OK`, `Invalid` for a name that is not UTF-8, and `Invalid`
/// ("invalid data type") for a code naming no data type.
pub open spec fn field_error(f: (i32, u32, Vec<u8>), e: CgnsError) -> bool {
    if f.0 != CG_OK {
        e == CgnsError::CgnsCode(f.0)
    } else if c_string_text(f.2@) is None {
        e matches CgnsError::Invalid(m) && m@ == c_string_error(f.2@)
    } else {
        e matches CgnsError::Invalid(m) && m@ == "invalid data type"@
    }
}

/// `first_bad_field` is the first position at or after `i` that cannot be
/// decoded.
pub proof fn lemma_first_bad_field(fields: Seq<(i32, u32, Vec<u8>)>, i: int, n: int, k: int)
    requires
        i <= k <= n,
        forall|j: int| i <= j < k ==> field_decodes(fields[j]),
        k == n || !field_decodes(fields[k]),
    ensures
        first_bad_field(fields, i, n) == k,
    decreases k - i,
{
    if i < k {
        lemma_first_bad_field(fields, i + 1, n, k);
    }
}

impl Solution {
    /// The metadata of this solution, from what the C library reported:
    /// the status, the filled name buffer and the raw `GridLocation_t`
    /// code (a code naming no location reads as `Null`).
    pub fn info(&self, status: i32, name: &[u8], location: u32) -> (r: CgnsResult<SolutionInfo>)
        ensures
            status != CG_OK ==> (r matches Err(e) && e == CgnsError::CgnsCode(status)),
            status == CG_OK ==> match c_string_text(name@) {
                None => r matches Err(CgnsError::Invalid(m)) && m@ == c_string_error(name@),
                Some(t) => r matches Ok(info) && info.name@ == t && info.location == match GridLocation::from_code(location) {
                    Some(l) => l,
                    None => GridLocation::Null,
                },
            },
    {
        check_sys_status(status)?;
        let text = read_c_string(name)?;
        let location = match GridLocation::from_raw(location) {
            Some(l) => l,
            None => GridLocation::Null,
        };
        Ok(SolutionInfo { name: String::from_str(text), location })
    }

    /// The names of the fields of this solution.
    ///
    /// `count_status` and `nfields` are what the C library reported for
    /// the field count, and `infos[i]` the status and name buffer it
    /// reported for field `i + 1`.
    #[verifier::loop_isolation(false)]
    pub fn field_names(&self, count_status: i32, nfields: i32, infos: &Vec<(i32, Vec<u8>)>) -> (r:
        CgnsResult<Vec<String>>)
        requires
            count_status == CG_OK ==> 0 <= nfields <= infos@.len(),
        ensures
            count_status != CG_OK ==> (r matches Err(e) && e == CgnsError::CgnsCode(count_status)),
            count_status == CG_OK ==> listing_outcome(
                status_entries(infos@),
                nfields as int,
                r,
                |s: String, k: int, t: Seq<char>| s@ == t,
            ),
    {
        let n = self.field_count(count_status, nfields)?;
        let ghost entries = status_entries(infos@);
        let mut out: Vec<String> = Vec::new();
        let mut i: i32 = 0;
        while i < n
            invariant
                0 <= i <= n,
                out@.len() == i,
                forall|j: int| 0 <= j < i ==> entry_text(entries[j]) is Some,
                forall|j: int| 0 <= j < i ==> #[trigger] out@[j]@ == entry_text(entries[j])->Some_0,
            decreases n - i,
        {
            let entry = status_entry(infos, i as usize);
            match entry_name(entry) {
                Ok(field) => {
                    out.push(field);
                },
                Err(err) => {
                    proof {
                        lemma_failure_index(entries, 0, n as int, i as int);
                    }
                    return Err(err);
                },
            }
            i = i + 1;
        }
        proof {
            lemma_failure_index(entries, 0, n as int, n as int);
        }
        Ok(out)
    }

    /// The names and data types of the fields of this solution.
    ///
    /// `count_status` and `nfields` are what the C library reported for
    /// the field count, and `infos[i]` the status, raw `DataType_t` code
    /// and name buffer it reported for field `i + 1`.  The first field that
    /// cannot be decoded gives the error.
    #[verifier::loop_isolation(false)]
    pub fn field_info_list(&self, count_status: i32, nfields: i32, infos: &Vec<(i32, u32, Vec<u8>)>) -> (r:
        CgnsResult<Vec<FieldInfo>>)
        requires
            count_status == CG_OK ==> 0 <= nfields <= infos@.len(),
        ensures
            count_status != CG_OK ==> (r matches Err(e) && e == CgnsError::CgnsCode(count_status)),
            count_status == CG_OK ==> ({
                let k = first_bad_field(infos@, 0, nfields as int);
                if k < nfields {
                    r matches Err(e) && field_error(infos@[k], e)
                } else {
                    r matches Ok(v) && v@.len() == nfields && forall|i: int|
                        0 <= i < nfields ==> (#[trigger] v@[i]).name@ == c_string_text(infos@[i].2@)->Some_0
                            && DataType::from_code(infos@[i].1) == Some(v@[i].data_type)
                }
            }),
    {
        let n = self.field_count(count_status, nfields)?;
        let mut out: Vec<FieldInfo> = Vec::new();
        let mut i: i32 = 0;
        while i < n
            invariant
                0 <= i <= n,
                out@.len() == i,
                forall|j: int| 0 <= j < i ==> field_decodes(infos@[j]),
                forall|j: int|
                    0 <= j < i ==> (#[trigger] out@[j]).name@ == c_string_text(infos@[j].2@)->Some_0
                        && DataType::from_code(infos@[j].1) == Some(out@[j].data_type),
            decreases n - i,
        {
            let f = &infos[i as usize];
            if f.0 != CG_OK {
                proof {
                    lemma_first_bad_field(infos@, 0, n as int, i as int);
                }
                return Err(CgnsError::CgnsCode(f.0));
            }
            let text = match read_c_string(f.2.as_slice()) {
                Ok(t) => t,
                Err(e) => {
                    proof {
                        lemma_first_bad_field(infos@, 0, n as int, i as int);
                    }
                    return Err(e);
                },
            };
            let data_type = match DataType::from_raw(f.1) {
                Some(t) => t,
                None => {
                    proof {
                        lemma_first_bad_field(infos@, 0, n as int, i as int);
                    }
                    return Err(CgnsError::Invalid(String::from_str("invalid data type")));
                },
            };
            out.push(FieldInfo { name: String::from_str(text), data_type });
            i = i + 1;
        }
        proof {
            lemma_first_bad_field(infos@, 0, n as int, n as int);
        }
        Ok(out)
    }
}

/// A count reported together with a status code: the count when the status
/// is `CG_OK`, otherwise the status as `CgnsCode`.
pub open spec fn counted(status: i32, n: i32) -> CgnsResult<i32> {
    if status == CG_OK {
        Ok(n)
    } else {
        Err(CgnsError::CgnsCode(status))
    }
}

/// The node the C library just wrote in zone `z` under index `i`.
pub open spec fn node_in(z: ZoneView, i: int) -> NodeView {
    NodeView { file: z.file, base: z.base, zone: z.index, index: i as i32 }
}

/// The entries a sequence of reported connection-metadata reads stands for:
/// a failed read is `Invalid` with its message, a successful one its name
/// buffer.
pub open spec fn conn_entries(reads: Seq<Result<RawConnectivityInfo, String>>) -> Seq<NameEntry> {
    reads.map_values(
        |r: Result<RawConnectivityInfo, String>|
            match r {
                Ok(raw) => NameEntry::Named(raw.name@),
                Err(msg) => NameEntry::Failed(CgnsError::Invalid(msg)),
            },
    )
}

/// The entries a sequence of reported boundary-condition reads stands for:
/// a failed read is a failure with status `-1`, a successful one its name
/// buffer.
pub open spec fn bc_entries(reads: Seq<Result<RawBcInfo, String>>) -> Seq<NameEntry> {
    reads.map_values(
        |r: Result<RawBcInfo, String>|
            match r {
                Ok(raw) => NameEntry::Named(raw.name@),
                Err(_) => NameEntry::Failed(CgnsError::CgnsCode(-1i32)),
            },
    )
}

impl Zone {
    /// The type of this zone, from the status and raw `ZoneType_t` code
    /// the C library reported; `Invalid` when the code names no zone type.
    pub fn zone_type(&self, status: i32, raw: u32) -> (r: CgnsResult<ZoneType>)
        ensures
            status != CG_OK ==> (r matches Err(e) && e == CgnsError::CgnsCode(status)),
            status == CG_OK ==> match ZoneType::from_code(raw) {
                Some(t) => r == Ok::<ZoneType, CgnsError>(t),
                None => r matches Err(CgnsError::Invalid(m)) && m@ == "unknown zone type"@,
            },
    {
        check_sys_status(status)?;
        match ZoneType::from_raw(raw) {
            Some(t) => Ok(t),
            None => Err(CgnsError::Invalid(String::from_str("unknown zone type"))),
        }
    }

    /// The index dimension of this zone (3 for a 3-D structured zone, 1
    /// for an unstructured zone), from the status and value the C library
    /// reported.
    pub fn index_dim(&self, status: i32, dim: i32) -> (r: CgnsResult<i32>)
        ensures
            r == counted(status, dim),
    {
        check_sys_status(status)?;
        Ok(dim)
    }

    /// The length of the zone-size array of a zone of index dimension
    /// `index_dim`: vertex, cell and boundary-vertex sizes for each index
    /// direction.
    pub fn size_len(index_dim: i32) -> (n: usize)
        requires
            0 <= index_dim,
            3 * index_dim <= usize::MAX,
        ensures
            n == 3 * index_dim,
    {
        3 * (index_dim as usize)
    }

    /// The zone-size array of this zone, from the status and the array the
    /// C library filled (of [`size_len`](Self::size_len) entries).
    pub fn size(&self, status: i32, size: Vec<i64>) -> (r: CgnsResult<Vec<i64>>)
        ensures
            status != CG_OK ==> (r matches Err(e) && e == CgnsError::CgnsCode(status)),
            status == CG_OK ==> r == Ok::<Vec<i64>, CgnsError>(size),
    {
        check_sys_status(status)?;
        Ok(size)
    }

    /// The number of coordinate arrays, from the status and count the C
    /// library reported.
    pub fn coord_count(&self, status: i32, n: i32) -> (r: CgnsResult<i32>)
        ensures
            r == counted(status, n),
    {
        check_sys_status(status)?;
        Ok(n)
    }

    /// The names of the coordinate arrays.
    ///
    /// `count_status` and `ncoords` are what the C library reported for
    /// the coordinate count, and `infos[i]` the status and name buffer it
    /// reported for coordinate array `i + 1`.
    #[verifier::loop_isolation(false)]
    pub fn coord_names(&self, count_status: i32, ncoords: i32, infos: &Vec<(i32, Vec<u8>)>) -> (r:
        CgnsResult<Vec<String>>)
        requires
            count_status == CG_OK ==> 0 <= ncoords <= infos@.len(),
        ensures
            count_status != CG_OK ==> (r matches Err(e) && e == CgnsError::CgnsCode(count_status)),
            count_status == CG_OK ==> listing_outcome(
                status_entries(infos@),
                ncoords as int,
                r,
                |s: String, k: int, t: Seq<char>| s@ == t,
            ),
    {
        let n = self.coord_count(count_status, ncoords)?;
        let ghost entries = status_entries(infos@);
        let mut out: Vec<String> = Vec::new();
        let mut i: i32 = 0;
        while i < n
            invariant
                0 <= i <= n,
                out@.len() == i,
                forall|j: int| 0 <= j < i ==> entry_text(entries[j]) is Some,
                forall|j: int| 0 <= j < i ==> #[trigger] out@[j]@ == entry_text(entries[j])->Some_0,
            decreases n - i,
        {
            let entry = status_entry(infos, i as usize);
            match entry_name(entry) {
                Ok(coord) => {
                    out.push(coord);
                },
                Err(err) => {
                    proof {
                        lemma_failure_index(entries, 0, n as int, i as int);
                    }
                    return Err(err);
                },
            }
            i = i + 1;
        }
        proof {
            lemma_failure_index(entries, 0, n as int, n as int);
        }
        Ok(out)
    }

    /// The number of solutions, from the status and count the C library
    /// reported.
    pub fn solution_count(&self, status: i32, n: i32) -> (r: CgnsResult<i32>)
        ensures
            r == counted(status, n),
    {
        check_sys_status(status)?;
        Ok(n)
    }

    /// The solution just written in this zone; `written` is the index the
    /// C library gave it, or its failure.
    pub fn write_solution(&self, written: Result<i32, String>) -> (r: CgnsResult<Solution>)
        ensures
            match written {
                Ok(i) => r matches Ok(s) && s@ == node_in(self@, i as int),
                Err(_) => r matches Err(e) && e == CgnsError::CgnsCode(-1i32),
            },
    {
        match written {
            Ok(index) => Ok(Solution::new(self.file_fn, self.base_index, self.index, index)),
            Err(_) => Err(CgnsError::CgnsCode(-1)),
        }
    }

    /// Find a solution by name.
    ///
    /// `count_status` and `nsols` are what the C library reported for the
    /// solution count, and `infos[i]` the status and name buffer it
    /// reported for solution `i + 1`.  The first solution with that name is
    /// returned; `NotFound` when there is none.
    #[verifier::loop_isolation(false)]
    pub fn solution(&self, name: &str, count_status: i32, nsols: i32, infos: &Vec<(i32, Vec<u8>)>) -> (r:
        CgnsResult<Solution>)
        requires
            count_status == CG_OK ==> nsols <= infos@.len(),
        ensures
            count_status != CG_OK ==> (r matches Err(e) && e == CgnsError::CgnsCode(count_status)),
            count_status == CG_OK ==> search_outcome(
                status_entries(infos@),
                name@,
                nsols as int,
                r,
                |s: Solution, k: int| s@ == node_in(self@, k + 1),
                not_found_text("solution"@, name@),
            ),
    {
        let n = self.solution_count(count_status, nsols)?;
        let ghost entries = status_entries(infos@);
        let mut i: i32 = 0;
        while i < n
            invariant
                0 <= i,
                i <= n || n < 0,
                forall|j: int| 0 <= j < i ==> passes_over(entries[j], name@),
            decreases n - i,
        {
            let entry = status_entry(infos, i as usize);
            match match_entry(entry, name) {
                EntryMatch::Matches => {
                    proof {
                        lemma_stop_index(entries, name@, 0, n as int, i as int);
                    }
                    return Ok(Solution::new(self.file_fn, self.base_index, self.index, i + 1));
                },
                EntryMatch::Differs => {},
                EntryMatch::Unreadable(err) => {
                    proof {
                        lemma_stop_index(entries, name@, 0, n as int, i as int);
                    }
                    return Err(err);
                },
            }
            i = i + 1;
        }
        proof {
            if n >= 0 {
                lemma_stop_index(entries, name@, 0, n as int, n as int);
            }
        }
        Err(CgnsError::NotFound(not_found_message("solution", name)))
    }

    /// All solutions of this zone, numbered from 1, from the status and
    /// count the C library reported.
    pub fn solutions(&self, count_status: i32, nsols: i32) -> (r: CgnsResult<Vec<Solution>>)
        requires
            count_status == CG_OK ==> nsols >= 0,
        ensures
            count_status != CG_OK ==> (r matches Err(e) && e == CgnsError::CgnsCode(count_status)),
            count_status == CG_OK ==> (r matches Ok(v) && v@.len() == nsols && forall|i: int|
                0 <= i < nsols ==> #[trigger] v@[i]@ == node_in(self@, i + 1)),
    {
        let n = self.solution_count(count_status, nsols)?;
        let mut out: Vec<Solution> = Vec::new();
        let mut i: i32 = 0;
        while i < n
            invariant
                0 <= i <= n,
                out@.len() == i,
                forall|j: int| 0 <= j < i ==> #[trigger] out@[j]@ == node_in(self@, j + 1),
            decreases n - i,
        {
            out.push(Solution::new(self.file_fn, self.base_index, self.index, i + 1));
            i = i + 1;
        }
        Ok(out)
    }

    /// The number of sections (element groups), from the count the C
    /// library reported.
    pub fn section_count(&self, nsections: Result<i32, String>) -> (r: CgnsResult<i32>)
        ensures
            r == sys_result(nsections),
    {
        from_sys_result(nsections)
    }

    /// All sections of this zone, numbered from 1, from the section count
    /// the C library reported.
    pub fn sections(&self, nsections: Result<i32, String>) -> (r: CgnsResult<Vec<Section>>)
        requires
            nsections matches Ok(n) ==> n >= 0,
        ensures
            match nsections {
                Ok(n) => r matches Ok(v) && v@.len() == n && forall|i: int|
                    0 <= i < n ==> #[trigger] v@[i]@ == node_in(self@, i + 1),
                Err(_) => r matches Err(e) && e == CgnsError::CgnsCode(-1i32),
            },
    {
        let n = self.section_count(nsections)?;
        let mut out: Vec<Section> = Vec::new();
        let mut i: i32 = 0;
        while i < n
            invariant
                0 <= i <= n,
                out@.len() == i,
                forall|j: int| 0 <= j < i ==> #[trigger] out@[j]@ == node_in(self@, j + 1),
            decreases n - i,
        {
            out.push(Section::new(self.file_fn, self.base_index, self.index, i + 1));
            i = i + 1;
        }
        Ok(out)
    }

    /// Find a section by name.
    ///
    /// `nsections` is the section count the C library reported and
    /// `infos[i]` the status and name buffer it reported for section
    /// `i + 1`.  The first section with that name is returned; `NotFound`
    /// when there is none.
    #[verifier::loop_isolation(false)]
    pub fn section(&self, name: &str, nsections: Result<i32, String>, infos: &Vec<(i32, Vec<u8>)>) -> (r:
        CgnsResult<Section>)
        requires
            nsections matches Ok(n) ==> n <= infos@.len(),
        ensures
            nsections is Err ==> (r matches Err(e) && e == CgnsError::CgnsCode(-1i32)),
            nsections matches Ok(n) ==> search_outcome(
                status_entries(infos@),
                name@,
                n as int,
                r,
                |s: Section, k: int| s@ == node_in(self@, k + 1),
                not_found_text("section"@, name@),
            ),
    {
        let n = self.section_count(nsections)?;
        let ghost entries = status_entries(infos@);
        let mut i: i32 = 0;
        while i < n
            invariant
                0 <= i,
                i <= n || n < 0,
                forall|j: int| 0 <= j < i ==> passes_over(entries[j], name@),
            decreases n - i,
        {
            let entry = status_entry(infos, i as usize);
            match match_entry(entry, name) {
                EntryMatch::Matches => {
                    proof {
                        lemma_stop_index(entries, name@, 0, n as int, i as int);
                    }
                    return Ok(Section::new(self.file_fn, self.base_index, self.index, i + 1));
                },
                EntryMatch::Differs => {},
                EntryMatch::Unreadable(err) => {
                    proof {
                        lemma_stop_index(entries, name@, 0, n as int, i as int);
                    }
                    return Err(err);
                },
            }
            i = i + 1;
        }
        proof {
            if n >= 0 {
                lemma_stop_index(entries, name@, 0, n as int, n as int);
            }
        }
        Err(CgnsError::NotFound(not_found_message("section", name)))
    }

    /// The section just written in this zone; `written` is the index the C
    /// library gave it, or its failure.
    ///
    /// `start` and `end` passed to the C library are the 1-based element
    /// numbers within the zone, and the flat connectivity uses 1-based
    /// vertex IDs.
    pub fn write_section(&self, written: Result<i32, String>) -> (r: CgnsResult<Section>)
        ensures
            match written {
                Ok(i) => r matches Ok(s) && s@ == node_in(self@, i as int),
                Err(_) => r matches Err(e) && e == CgnsError::CgnsCode(-1i32),
            },
    {
        match written {
            Ok(index) => Ok(Section::new(self.file_fn, self.base_index, self.index, index)),
            Err(_) => Err(CgnsError::CgnsCode(-1)),
        }
    }

    /// The number of boundary conditions, from the count the C library
    /// reported.
    pub fn bc_count(&self, nbocos: Result<i32, String>) -> (r: CgnsResult<i32>)
        ensures
            r == sys_result(nbocos),
    {
        from_sys_result(nbocos)
    }

    /// The boundary condition just written on this zone; `written` is the
    /// index the C library gave it, or its failure.
    pub fn write_bc(&self, written: Result<i32, String>) -> (r: CgnsResult<Bc>)
        ensures
            match written {
                Ok(i) => r matches Ok(b) && b@ == node_in(self@, i as int),
                Err(_) => r matches Err(e) && e == CgnsError::CgnsCode(-1i32),
            },
    {
        match written {
            Ok(index) => Ok(Bc::new(self.file_fn, self.base_index, self.index, index)),
            Err(_) => Err(CgnsError::CgnsCode(-1)),
        }
    }

    /// All boundary conditions on this zone, numbered from 1, from the
    /// count the C library reported.
    pub fn bcs(&self, nbocos: Result<i32, String>) -> (r: CgnsResult<Vec<Bc>>)
        requires
            nbocos matches Ok(n) ==> n >= 0,
        ensures
            match nbocos {
                Ok(n) => r matches Ok(v) && v@.len() == n && forall|i: int|
                    0 <= i < n ==> #[trigger] v@[i]@ == node_in(self@, i + 1),
                Err(_) => r matches Err(e) && e == CgnsError::CgnsCode(-1i32),
            },
    {
        let n = self.bc_count(nbocos)?;
        let mut out: Vec<Bc> = Vec::new();
        let mut i: i32 = 0;
        while i < n
            invariant
                0 <= i <= n,
                out@.len() == i,
                forall|j: int| 0 <= j < i ==> #[trigger] out@[j]@ == node_in(self@, j + 1),
            decreases n - i,
        {
            out.push(Bc::new(self.file_fn, self.base_index, self.index, i + 1));
            i = i + 1;
        }
        Ok(out)
    }

    /// Find a boundary condition by name.
    ///
    /// `nbocos` is the boundary-condition count the C library reported and
    /// `infos[i]` the metadata it reported for boundary condition `i + 1`
    /// (or the failure to read it).  The first one with that name is
    /// returned; `NotFound` when there is none.
    #[verifier::loop_isolation(false)]
    pub fn bc(&self, name: &str, nbocos: Result<i32, String>, infos: &Vec<Result<RawBcInfo, String>>) -> (r:
        CgnsResult<Bc>)
        requires
            nbocos matches Ok(n) ==> 0 <= n <= infos@.len(),
        ensures
            nbocos is Err ==> (r matches Err(e) && e == CgnsError::CgnsCode(-1i32)),
            nbocos matches Ok(n) ==> search_outcome(
                bc_entries(infos@),
                name@,
                n as int,
                r,
                |b: Bc, k: int| b@ == node_in(self@, k + 1),
                not_found_text("BC"@, name@),
            ),
    {
        let all = self.bcs(nbocos)?;
        let n = all.len();
        let ghost entries = bc_entries(infos@);
        let mut i: usize = 0;
        while i < n
            invariant
                0 <= i <= n,
                n == all@.len(),
                forall|j: int| 0 <= j < i ==> passes_over(entries[j], name@),
            decreases n - i,
        {
            let entry: Result<&[u8], CgnsError> = match &infos[i] {
                Ok(raw) => Ok(raw.name.as_slice()),
                Err(_) => Err(CgnsError::CgnsCode(-1)),
            };
            assert((match entry {
                Ok(b) => NameEntry::Named(b@),
                Err(err) => NameEntry::Failed(err),
            }) == entries[i as int]);
            match match_entry(entry, name) {
                EntryMatch::Matches => {
                    proof {
                        lemma_stop_index(entries, name@, 0, n as int, i as int);
                    }
                    let found = &all[i];
                    assert(found@ == node_in(self@, i + 1));
                    return Ok(Bc::new(self.file_fn, self.base_index, self.index, found.index()));
                },
                EntryMatch::Differs => {},
                EntryMatch::Unreadable(err) => {
                    proof {
                        lemma_stop_index(entries, name@, 0, n as int, i as int);
                    }
                    return Err(err);
                },
            }
            i = i + 1;
        }
        proof {
            lemma_stop_index(entries, name@, 0, n as int, n as int);
        }
        Err(CgnsError::NotFound(not_found_message("BC", name)))
    }

    /// The number of 1-to-1 zone interfaces, from the count the C library
    /// reported.
    pub fn n1to1(&self, n1to1: Result<i32, String>) -> (r: CgnsResult<i32>)
        ensures
            r == sys_result(n1to1),
    {
        from_sys_result(n1to1)
    }

    /// The 1-to-1 interface just written on this zone; `written` is the
    /// index the C library gave it, or its failure.
    pub fn write_1to1(&self, written: Result<i32, String>) -> (r: CgnsResult<OneToOne>)
        ensures
            match written {
                Ok(i) => r matches Ok(o) && o@ == node_in(self@, i as int),
                Err(_) => r matches Err(e) && e == CgnsError::CgnsCode(-1i32),
            },
    {
        match written {
            Ok(index) => Ok(OneToOne::new(self.file_fn, self.base_index, self.index, index)),
            Err(_) => Err(CgnsError::CgnsCode(-1)),
        }
    }

    /// All 1-to-1 interfaces of this zone, numbered from 1, from the count
    /// the C library reported.
    pub fn one_to_ones(&self, n1to1: Result<i32, String>) -> (r: CgnsResult<Vec<OneToOne>>)
        requires
            n1to1 matches Ok(n) ==> n >= 0,
        ensures
            match n1to1 {
                Ok(n) => r matches Ok(v) && v@.len() == n && forall|i: int|
                    0 <= i < n ==> #[trigger] v@[i]@ == node_in(self@, i + 1),
                Err(_) => r matches Err(e) && e == CgnsError::CgnsCode(-1i32),
            },
    {
        let n = self.n1to1(n1to1)?;
        let mut out: Vec<OneToOne> = Vec::new();
        let mut i: i32 = 0;
        while i < n
            invariant
                0 <= i <= n,
                out@.len() == i,
                forall|j: int| 0 <= j < i ==> #[trigger] out@[j]@ == node_in(self@, j + 1),
            decreases n - i,
        {
            out.push(OneToOne::new(self.file_fn, self.base_index, self.index, i + 1));
            i = i + 1;
        }
        Ok(out)
    }

    /// The number of general connections, from the count the C library
    /// reported.
    pub fn nconns(&self, nconns: Result<i32, String>) -> (r: CgnsResult<i32>)
        ensures
            r == sys_result(nconns),
    {
        from_sys_result(nconns)
    }

    /// The general connection just written on this zone; `written` is the
    /// index the C library gave it, or its failure.
    pub fn write_conn(&self, written: Result<i32, String>) -> (r: CgnsResult<GeneralConnectivity>)
        ensures
            match written {
                Ok(i) => r matches Ok(c) && c@ == node_in(self@, i as int),
                Err(_) => r matches Err(e) && e == CgnsError::CgnsCode(-1i32),
            },
    {
        match written {
            Ok(index) => Ok(GeneralConnectivity::new(self.file_fn, self.base_index, self.index, index)),
            Err(_) => Err(CgnsError::CgnsCode(-1)),
        }
    }

    /// Find a general connection by name.
    ///
    /// `nconns` is the connection count the C library reported and
    /// `infos[i]` the metadata it reported for connection `i + 1` (or the
    /// message of its failure, kept in `Invalid`).  The first connection
    /// with that name is returned; `NotFound` when there is none.
    #[verifier::loop_isolation(false)]
    pub fn conn(&self, name: &str, nconns: Result<i32, String>, infos: &Vec<Result<RawConnectivityInfo, String>>) -> (r:
        CgnsResult<GeneralConnectivity>)
        requires
            nconns matches Ok(n) ==> n <= infos@.len(),
        ensures
            nconns is Err ==> (r matches Err(e) && e == CgnsError::CgnsCode(-1i32)),
            nconns matches Ok(n) ==> search_outcome(
                conn_entries(infos@),
                name@,
                n as int,
                r,
                |c: GeneralConnectivity, k: int| c@ == node_in(self@, k + 1),
                not_found_text("connection"@, name@),
            ),
    {
        let n = self.nconns(nconns)?;
        let ghost entries = conn_entries(infos@);
        let mut i: i32 = 0;
        while i < n
            invariant
                0 <= i,
                i <= n || n < 0,
                forall|j: int| 0 <= j < i ==> passes_over(entries[j], name@),
            decreases n - i,
        {
            let entry: Result<&[u8], CgnsError> = match &infos[i as usize] {
                Ok(raw) => Ok(raw.name.as_slice()),
                Err(msg) => Err(CgnsError::Invalid(msg.clone())),
            };
            assert((match entry {
                Ok(b) => NameEntry::Named(b@),
                Err(err) => NameEntry::Failed(err),
            }) == entries[i as int]);
            match match_entry(entry, name) {
                EntryMatch::Matches => {
                    proof {
                        lemma_stop_index(entries, name@, 0, n as int, i as int);
                    }
                    return Ok(GeneralConnectivity::new(self.file_fn, self.base_index, self.index, i + 1));
                },
                EntryMatch::Differs => {},
                EntryMatch::Unreadable(err) => {
                    proof {
                        lemma_stop_index(entries, name@, 0, n as int, i as int);
                    }
                    return Err(err);
                },
            }
            i = i + 1;
        }
        proof {
            if n >= 0 {
                lemma_stop_index(entries, name@, 0, n as int, n as int);
            }
        }
        Err(CgnsError::NotFound(not_found_message("connection", name)))
    }
}

} // verus!
