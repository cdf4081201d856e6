//! Bases: the top-level data groups of a CGNS file.

use vstd::prelude::*;
use vstd::string::StringExecFns;
use crate::error::{CgnsError, CgnsResult, CG_OK, from_sys_result, sys_result, check_sys_status, sys_status};
use crate::util::{entry_text, listing_outcome, lemma_failure_index, reported_entries, reported_entry, entry_name, check_no_nul, c_string_end, nul_error_text};
use crate::zone::{Zone, ZoneView};
use crate::data::{
    AngleUnits, DataClass, LengthUnits, MassUnits, SimulationType, TemperatureUnits, TimeUnits,
    UnitsSystem,
};
use vstd::utf8::encode_utf8;
use vstd::string::StringSliceAdditionalSpecFns;

verus! {

/// What a base handle designates: the file handle, the base's 1-based index
/// and its name.
pub struct BaseView {
    pub file: i32,
    pub index: i32,
    pub name: Seq<char>,
}

/// A handle to a base (a top-level data group with a cell dimension and a
/// physical dimension) in an open file.
pub struct Base {
    pub(crate) file_fn: i32,
    pub(crate) index: i32,
    pub(crate) name: String,
}

impl View for Base {
    type V = BaseView;

    closed spec fn view(&self) -> BaseView {
        BaseView { file: self.file_fn, index: self.index, name: self.name@ }
    }
}

impl Base {
    pub(crate) fn new(file_fn: i32, index: i32, name: String) -> (b: Base)
        ensures
            b@ == (BaseView { file: file_fn, index, name: name@ }),
    {
        Base { file_fn, index, name }
    }

    /// The 1-based index of this base in its file.
    pub fn index(&self) -> (i: i32)
        ensures
            i == self@.index,
    {
        self.index
    }

    /// The handle of the open file this base belongs to.
    pub fn file_handle(&self) -> (h: i32)
        ensures
            h == self@.file,
    {
        self.file_fn
    }

    /// The name of this base.
    pub fn name(&self) -> (r: CgnsResult<String>)
        ensures
            r matches Ok(s) && s@ == self@.name,
    {
        Ok(self.name.clone())
    }
}

/// The outcome of creating a zone in base `b`, from the index the C
/// library gave it or its failure.
pub open spec fn created_zone(b: BaseView, written: Result<i32, String>, r: CgnsResult<Zone>) -> bool {
    match written {
        Ok(i) => r matches Ok(z) && z@ == (ZoneView { file: b.file, base: b.index, index: i }),
        Err(_) => r matches Err(e) && e == CgnsError::CgnsCode(-1i32),
    }
}

/// The variant a raw code names, or the `Null` variant when it names none.
pub open spec fn units_from_codes(raw: Seq<u32>) -> UnitsSystem {
    UnitsSystem {
        mass: match MassUnits::from_code(raw[0]) {
            Some(u) => u,
            None => MassUnits::Null,
        },
        length: match LengthUnits::from_code(raw[1]) {
            Some(u) => u,
            None => LengthUnits::Null,
        },
        time: match TimeUnits::from_code(raw[2]) {
            Some(u) => u,
            None => TimeUnits::Null,
        },
        temperature: match TemperatureUnits::from_code(raw[3]) {
            Some(u) => u,
            None => TemperatureUnits::Null,
        },
        angle: match AngleUnits::from_code(raw[4]) {
            Some(u) => u,
            None => AngleUnits::Null,
        },
    }
}

/// Unit codes that name no unit read as the `Null` unit of their kind.
pub proof fn lemma_unknown_unit_codes_are_null(raw: Seq<u32>)
    requires
        raw.len() == 5,
        MassUnits::from_code(raw[0]) is None,
        LengthUnits::from_code(raw[1]) is None,
        TimeUnits::from_code(raw[2]) is None,
        TemperatureUnits::from_code(raw[3]) is None,
        AngleUnits::from_code(raw[4]) is None,
    ensures
        units_from_codes(raw) == (UnitsSystem {
            mass: MassUnits::Null,
            length: LengthUnits::Null,
            time: TimeUnits::Null,
            temperature: TemperatureUnits::Null,
            angle: AngleUnits::Null,
        }),
{
}

/// Units written as their raw codes read back as the same units.
pub proof fn lemma_units_read_back(u: UnitsSystem)
    ensures
        units_from_codes(
            seq![u.mass.code(), u.length.code(), u.time.code(), u.temperature.code(), u.angle.code()],
        ) == u,
{
}

/// A data class written as its raw code reads back as the same class.
pub proof fn lemma_dataclass_read_back(dc: DataClass)
    ensures
        (match DataClass::from_code(dc.code()) {
            Some(c) => c,
            None => DataClass::Null,
        }) == dc,
{
}

/// A simulation type written as its raw code reads back as the same type.
pub proof fn lemma_simulation_type_read_back(st: SimulationType)
    ensures
        (match SimulationType::from_code(st.code()) {
            Some(t) => t,
            None => SimulationType::Null,
        }) == st,
{
}

impl Base {
    /// The path of this base's node in the file tree, `"/<name>"`, as the C
    /// library's navigation takes it.  `Invalid` when the path holds a NUL
    /// byte and so cannot be passed as a C string.
    pub fn node_path(&self) -> (r: CgnsResult<String>)
        ensures
            ({
                let bytes = encode_utf8("/"@ + self@.name);
                &&& c_string_end(bytes) == bytes.len() ==> (r matches Ok(p) && p@ == "/"@
                    + self@.name)
                &&& c_string_end(bytes) < bytes.len() ==> (r matches Err(CgnsError::Invalid(m))
                    && m@ == nul_error_text(c_string_end(bytes)))
            }),
    {
        let path = String::from_str("/").concat(self.name.as_str());
        match check_no_nul(path.as_str()) {
            Ok(()) => Ok(path),
            Err(e) => Err(e),
        }
    }

    /// The structured zone just written in this base; `written` is the
    /// index the C library gave it, or its failure.
    ///
    /// The zone-size array passed to the C library has 3 entries
    /// `[ni_v, nj_v, nk_v]` or 9 entries (vertex sizes, cell sizes, zeros);
    /// data is in Fortran (column-major) order.
    pub fn create_zone_structured(&self, written: Result<i32, String>) -> (r: CgnsResult<Zone>)
        ensures
            created_zone(self@, written, r),
    {
        match written {
            Ok(index) => Ok(Zone::new(self.file_fn, self.index, index)),
            Err(_) => Err(CgnsError::CgnsCode(-1)),
        }
    }

    /// The zone-size array of an unstructured zone:
    /// `[num_vertices, num_elements, 0]`.
    pub fn unstructured_zone_size(num_vertices: i64, num_elements: i64) -> (size: [i64; 3])
        ensures
            size@ == seq![num_vertices, num_elements, 0i64],
    {
        let size = [num_vertices, num_elements, 0];
        assert(size@ =~= seq![num_vertices, num_elements, 0i64]);
        size
    }

    /// The unstructured zone just written in this base (with the size array
    /// of [`unstructured_zone_size`](Self::unstructured_zone_size));
    /// `written` is the index the C library gave it, or its failure.
    pub fn create_zone_unstructured(&self, written: Result<i32, String>) -> (r: CgnsResult<Zone>)
        ensures
            created_zone(self@, written, r),
    {
        match written {
            Ok(index) => Ok(Zone::new(self.file_fn, self.index, index)),
            Err(_) => Err(CgnsError::CgnsCode(-1)),
        }
    }

    /// The number of zones, from the count the C library reported.
    pub fn zone_count(&self, nzones: Result<i32, String>) -> (r: CgnsResult<i32>)
        ensures
            r == sys_result(nzones),
    {
        from_sys_result(nzones)
    }

    /// All zones of this base, numbered from 1, from the zone count the C
    /// library reported.
    pub fn zones(&self, nzones: Result<i32, String>) -> (r: CgnsResult<Vec<Zone>>)
        requires
            nzones matches Ok(n) ==> n >= 0,
        ensures
            match nzones {
                Ok(n) => r matches Ok(v) && v@.len() == n && forall|i: int|
                    0 <= i < n ==> #[trigger] v@[i]@ == (ZoneView {
                        file: self@.file,
                        base: self@.index,
                        index: (i + 1) as i32,
                    }),
                Err(_) => r matches Err(e) && e == CgnsError::CgnsCode(-1i32),
            },
    {
        let n = self.zone_count(nzones)?;
        let mut zones: Vec<Zone> = Vec::new();
        let mut i: i32 = 0;
        while i < n
            invariant
                0 <= i <= n,
                zones@.len() == i,
                forall|j: int|
                    0 <= j < i ==> #[trigger] zones@[j]@ == (ZoneView {
                        file: self@.file,
                        base: self@.index,
                        index: (j + 1) as i32,
                    }),
            decreases n - i,
        {
            zones.push(Zone::new(self.file_fn, self.index, i + 1));
            i = i + 1;
        }
        Ok(zones)
    }

    /// The cell dimension of this base (2 for 2-D, 3 for 3-D), from the
    /// value the C library reported.
    pub fn cell_dim(&self, reported: Result<i32, String>) -> (r: CgnsResult<i32>)
        ensures
            r == sys_result(reported),
    {
        from_sys_result(reported)
    }

    /// The physical dimension of this base, from the value the C library
    /// read with the base metadata.
    pub fn phys_dim(&self, reported: Result<i32, String>) -> (r: CgnsResult<i32>)
        ensures
            r == sys_result(reported),
    {
        from_sys_result(reported)
    }

    /// The outcome of writing units (Mass, Length, Time, Temperature,
    /// Angle) on this base, from the status of navigating to the base node
    /// (at [`node_path`](Self::node_path)) and the status of the write.  The
    /// codes written are the units' [`to_raw`](crate::data::MassUnits::to_raw)
    /// values.
    pub fn write_units(&self, goto_status: i32, write_status: i32) -> (r: CgnsResult<()>)
        ensures
            r == (if goto_status != CG_OK {
                sys_status(goto_status)
            } else {
                sys_status(write_status)
            }),
    {
        check_sys_status(goto_status)?;
        check_sys_status(write_status)
    }

    /// The outcome of writing the data class of this base, from the status
    /// of navigating to the base node and the status of the write.
    pub fn write_dataclass(&self, goto_status: i32, write_status: i32) -> (r: CgnsResult<()>)
        ensures
            r == (if goto_status != CG_OK {
                sys_status(goto_status)
            } else {
                sys_status(write_status)
            }),
    {
        check_sys_status(goto_status)?;
        check_sys_status(write_status)
    }

    /// The outcome of writing the simulation type of this base, from what
    /// the C library reported.
    pub fn write_simulation_type(&self, written: Result<(), String>) -> (r: CgnsResult<()>)
        ensures
            r == sys_result(written),
    {
        from_sys_result(written)
    }

    /// The index of the family just written in this base, from what the C
    /// library reported.
    pub fn write_family(&self, written: Result<i32, String>) -> (r: CgnsResult<i32>)
        ensures
            r == sys_result(written),
    {
        from_sys_result(written)
    }

    /// The number of families, from the count the C library reported.
    pub fn family_count(&self, nfamilies: Result<i32, String>) -> (r: CgnsResult<i32>)
        ensures
            r == sys_result(nfamilies),
    {
        from_sys_result(nfamilies)
    }

    /// All family names in this base.
    ///
    /// `nfamilies` is the family count the C library reported and
    /// `names[i]` the name buffer it filled for family `i + 1` (or the
    /// failure to read it).
    #[verifier::loop_isolation(false)]
    pub fn family_names(
        &self,
        nfamilies: Result<i32, String>,
        names: &Vec<Result<Vec<u8>, String>>,
    ) -> (r: CgnsResult<Vec<String>>)
        requires
            nfamilies matches Ok(n) ==> 0 <= n <= names@.len(),
        ensures
            nfamilies is Err ==> (r matches Err(e) && e == CgnsError::CgnsCode(-1i32)),
            nfamilies matches Ok(n) ==> listing_outcome(
                reported_entries(names@),
                n as int,
                r,
                |s: String, k: int, t: Seq<char>| s@ == t,
            ),
    {
        let n = self.family_count(nfamilies)?;
        let ghost entries = reported_entries(names@);
        let mut out: Vec<String> = Vec::new();
        let mut i: i32 = 0;
        while i < n
            invariant
                0 <= i <= n,
                out@.len() == i,
                forall|j: int| 0 <= j < i ==> entry_text(entries[j]) is Some,
                forall|j: int| 0 <= j < i ==> #[trigger] out@[j]@ == entry_text(entries[j])->Some_0,
            decreases n - i,
        {
            let entry = reported_entry(names, i as usize);
            match entry_name(entry) {
                Ok(family) => {
                    out.push(family);
                },
                Err(err) => {
                    proof {
                        lemma_failure_index(entries, 0, n as int, i as int);
                    }
                    return Err(err);
                },
            }
            i = i + 1;
        }
        proof {
            lemma_failure_index(entries, 0, n as int, n as int);
        }
        Ok(out)
    }

    /// The units of this base, from what the C library reported: the
    /// status of navigating to the base node, the status of reading the
    /// units, and the five raw unit codes read (mass, length, time,
    /// temperature, angle).  A code naming no unit reads as `Null`.
    pub fn read_units(&self, goto_status: i32, read_status: i32, raw: [u32; 5]) -> (r: CgnsResult<
        UnitsSystem,
    >)
        ensures
            goto_status != CG_OK ==> (r matches Err(e) && e == CgnsError::CgnsCode(goto_status)),
            goto_status == CG_OK && read_status != CG_OK ==> (r matches Err(e) && e
                == CgnsError::CgnsCode(read_status)),
            goto_status == CG_OK && read_status == CG_OK ==> r == Ok::<UnitsSystem, CgnsError>(
                units_from_codes(raw@),
            ),
    {
        check_sys_status(goto_status)?;
        check_sys_status(read_status)?;
        let mass = match MassUnits::from_raw(raw[0]) {
            Some(u) => u,
            None => MassUnits::Null,
        };
        let length = match LengthUnits::from_raw(raw[1]) {
            Some(u) => u,
            None => LengthUnits::Null,
        };
        let time = match TimeUnits::from_raw(raw[2]) {
            Some(u) => u,
            None => TimeUnits::Null,
        };
        let temperature = match TemperatureUnits::from_raw(raw[3]) {
            Some(u) => u,
            None => TemperatureUnits::Null,
        };
        let angle = match AngleUnits::from_raw(raw[4]) {
            Some(u) => u,
            None => AngleUnits::Null,
        };
        Ok(UnitsSystem::new(mass, length, time, temperature, angle))
    }

    /// The data class of this base, from what the C library reported: the
    /// status of navigating to the base node, the status of reading the
    /// data class, and the raw code read.  A code naming no class reads as
    /// `Null`.
    pub fn read_dataclass(&self, goto_status: i32, read_status: i32, raw: u32) -> (r: CgnsResult<
        DataClass,
    >)
        ensures
            goto_status != CG_OK ==> (r matches Err(e) && e == CgnsError::CgnsCode(goto_status)),
            goto_status == CG_OK && read_status != CG_OK ==> (r matches Err(e) && e
                == CgnsError::CgnsCode(read_status)),
            goto_status == CG_OK && read_status == CG_OK ==> r == Ok::<DataClass, CgnsError>(
                match DataClass::from_code(raw) {
                    Some(c) => c,
                    None => DataClass::Null,
                },
            ),
    {
        check_sys_status(goto_status)?;
        check_sys_status(read_status)?;
        match DataClass::from_raw(raw) {
            Some(c) => Ok(c),
            None => Ok(DataClass::Null),
        }
    }

    /// The simulation type of this base, from the raw code the C library
    /// read (or its failure).  A code naming no type reads as `Null`.
    pub fn read_simulation_type(&self, read: Result<u32, String>) -> (r: CgnsResult<SimulationType>)
        ensures
            match read {
                Ok(raw) => r == Ok::<SimulationType, CgnsError>(
                    match SimulationType::from_code(raw) {
                        Some(t) => t,
                        None => SimulationType::Null,
                    },
                ),
                Err(_) => r matches Err(e) && e == CgnsError::CgnsCode(-1i32),
            },
    {
        match read {
            Ok(raw) => match SimulationType::from_raw(raw) {
                Some(t) => Ok(t),
                None => Ok(SimulationType::Null),
            },
            Err(_) => Err(CgnsError::CgnsCode(-1)),
        }
    }
}

} // verus!
