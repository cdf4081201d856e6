//! The typed vocabulary of the CGNS format: enumerations with their C codes.

use vstd::prelude::*;

verus! {

/// Where on the mesh a solution variable is stored.
///
/// Each variant corresponds to one value of the C enumeration `GridLocation_t`;
/// [`GridLocation::to_raw`] gives that value and [`GridLocation::from_raw`] reads it back.
#[derive(Debug, Clone, Copy, PartialEq, Eq, Structural)]
pub enum GridLocation {
    /// Value defined at grid vertices (nodes).
    Vertex,
    /// Value defined at cell centres.
    CellCenter,
    /// Value defined at face centres (3-D).
    FaceCenter,
    /// Value on constant-i faces.
    IFaceCenter,
    /// Value on constant-j faces.
    JFaceCenter,
    /// Value on constant-k faces.
    KFaceCenter,
    /// Value at edge centres.
    EdgeCenter,
    /// Unspecified / placeholder.
    Null,
}

impl GridLocation {
    /// The value of this variant in the C enumeration `GridLocation_t`.
    pub open spec fn code(self) -> u32 {
        match self {
            GridLocation::Vertex => 2,
            GridLocation::CellCenter => 3,
            GridLocation::FaceCenter => 4,
            GridLocation::IFaceCenter => 5,
            GridLocation::JFaceCenter => 6,
            GridLocation::KFaceCenter => 7,
            GridLocation::EdgeCenter => 8,
            GridLocation::Null => 0,
        }
    }

    /// The variant whose `GridLocation_t` value is `raw`, if there is one.
    pub open spec fn from_code(raw: u32) -> Option<GridLocation> {
        match raw {
            0 => Some(GridLocation::Null),
            2 => Some(GridLocation::Vertex),
            3 => Some(GridLocation::CellCenter),
            4 => Some(GridLocation::FaceCenter),
            5 => Some(GridLocation::IFaceCenter),
            6 => Some(GridLocation::JFaceCenter),
            7 => Some(GridLocation::KFaceCenter),
            8 => Some(GridLocation::EdgeCenter),
            _ => None,
        }
    }

    /// Convert to the raw `GridLocation_t` value passed to the C library.
    pub fn to_raw(self) -> (raw: u32)
        ensures
            raw == self.code(),
    {
        match self {
            GridLocation::Vertex => 2,
            GridLocation::CellCenter => 3,
            GridLocation::FaceCenter => 4,
            GridLocation::IFaceCenter => 5,
            GridLocation::JFaceCenter => 6,
            GridLocation::KFaceCenter => 7,
            GridLocation::EdgeCenter => 8,
            GridLocation::Null => 0,
        }
    }

    /// Interpret a raw `GridLocation_t` value read from the C library;
    /// `None` when the value names no variant of this type.
    pub fn from_raw(raw: u32) -> (r: Option<GridLocation>)
        ensures
            r == GridLocation::from_code(raw),
    {
        match raw {
            0 => Some(GridLocation::Null),
            2 => Some(GridLocation::Vertex),
            3 => Some(GridLocation::CellCenter),
            4 => Some(GridLocation::FaceCenter),
            5 => Some(GridLocation::IFaceCenter),
            6 => Some(GridLocation::JFaceCenter),
            7 => Some(GridLocation::KFaceCenter),
            8 => Some(GridLocation::EdgeCenter),
            _ => None,
        }
    }
}

/// Reading back the raw value of any `GridLocation` gives the same variant.
pub proof fn lemma_grid_location_round_trip(x: GridLocation)
    ensures
        GridLocation::from_code(x.code()) == Some(x),
{
}

/// Whenever a raw `GridLocation_t` value is recognised, converting the variant back
/// gives that same raw value; so `to_raw` is injective and `from_raw` inverts it.
pub proof fn lemma_grid_location_raw_inverse(raw: u32)
    ensures
        GridLocation::from_code(raw) matches Some(x) ==> x.code() == raw,
{
}

/// The codes are the values of the CGNS C enumeration `GridLocation_t` (Null 0, Vertex 2, CellCenter 3, FaceCenter 4, IFaceCenter 5, JFaceCenter 6, KFaceCenter 7, EdgeCenter 8): `to_raw`
/// gives a variant's value there, and `from_raw` reads a value back as the
/// variant that has it, or as nothing when no variant has it.
pub proof fn lemma_grid_location_cgns_values(raw: u32)
    ensures
        GridLocation::Null.code() == 0,
        GridLocation::Vertex.code() == 2,
        GridLocation::CellCenter.code() == 3,
        GridLocation::FaceCenter.code() == 4,
        GridLocation::IFaceCenter.code() == 5,
        GridLocation::JFaceCenter.code() == 6,
        GridLocation::KFaceCenter.code() == 7,
        GridLocation::EdgeCenter.code() == 8,
        GridLocation::from_code(raw) matches Some(x) ==> x.code() == raw,
        (forall|x: GridLocation| #[trigger] x.code() != raw) ==> GridLocation::from_code(raw) is None,
{
    match GridLocation::from_code(raw) {
        Some(y) => {
            assert(y.code() == raw);
        },
        None => {},
    }
}

/// CGNS data-type identifier (integer sizes, float sizes, character).
///
/// Each variant corresponds to one value of the C enumeration `DataType_t`;
/// [`DataType::to_raw`] gives that value and [`DataType::from_raw`] reads it back.
#[derive(Debug, Clone, Copy, PartialEq, Eq, Structural)]
pub enum DataType {
    /// 32-bit integer (`Integer`).
    I4,
    /// 64-bit integer (`LongInteger`).
    I8,
    /// 32-bit float (`RealSingle`).
    R4,
    /// 64-bit float (`RealDouble`).
    R8,
    /// Character data (`Character`).
    Char,
}

impl DataType {
    /// The value of this variant in the C enumeration `DataType_t`.
    pub open spec fn code(self) -> u32 {
        match self {
            DataType::I4 => 2,
            DataType::I8 => 6,
            DataType::R4 => 3,
            DataType::R8 => 4,
            DataType::Char => 5,
        }
    }

    /// The variant whose `DataType_t` value is `raw`, if there is one.
    pub open spec fn from_code(raw: u32) -> Option<DataType> {
        match raw {
            2 => Some(DataType::I4),
            3 => Some(DataType::R4),
            4 => Some(DataType::R8),
            5 => Some(DataType::Char),
            6 => Some(DataType::I8),
            _ => None,
        }
    }

    /// Convert to the raw `DataType_t` value passed to the C library.
    pub fn to_raw(self) -> (raw: u32)
        ensures
            raw == self.code(),
    {
        match self {
            DataType::I4 => 2,
            DataType::I8 => 6,
            DataType::R4 => 3,
            DataType::R8 => 4,
            DataType::Char => 5,
        }
    }

    /// Interpret a raw `DataType_t` value read from the C library;
    /// `None` when the value names no variant of this type.
    pub fn from_raw(raw: u32) -> (r: Option<DataType>)
        ensures
            r == DataType::from_code(raw),
    {
        match raw {
            2 => Some(DataType::I4),
            3 => Some(DataType::R4),
            4 => Some(DataType::R8),
            5 => Some(DataType::Char),
            6 => Some(DataType::I8),
            _ => None,
        }
    }
}

/// Reading back the raw value of any `DataType` gives the same variant.
pub proof fn lemma_data_type_round_trip(x: DataType)
    ensures
        DataType::from_code(x.code()) == Some(x),
{
}

/// Whenever a raw `DataType_t` value is recognised, converting the variant back
/// gives that same raw value; so `to_raw` is injective and `from_raw` inverts it.
pub proof fn lemma_data_type_raw_inverse(raw: u32)
    ensures
        DataType::from_code(raw) matches Some(x) ==> x.code() == raw,
{
}

/// The codes are the values of the CGNS C enumeration `DataType_t` (I4 2, R4 3, R8 4, Char 5, I8 6): `to_raw`
/// gives a variant's value there, and `from_raw` reads a value back as the
/// variant that has it, or as nothing when no variant has it.
pub proof fn lemma_data_type_cgns_values(raw: u32)
    ensures
        DataType::I4.code() == 2,
        DataType::R4.code() == 3,
        DataType::R8.code() == 4,
        DataType::Char.code() == 5,
        DataType::I8.code() == 6,
        DataType::from_code(raw) matches Some(x) ==> x.code() == raw,
        (forall|x: DataType| #[trigger] x.code() != raw) ==> DataType::from_code(raw) is None,
{
    match DataType::from_code(raw) {
        Some(y) => {
            assert(y.code() == raw);
        },
        None => {},
    }
}

/// Whether a zone uses structured (ijk) or unstructured (element-based) topology.
///
/// Each variant corresponds to one value of the C enumeration `ZoneType_t`;
/// [`ZoneType::to_raw`] gives that value and [`ZoneType::from_raw`] reads it back.
#[derive(Debug, Clone, Copy, PartialEq, Eq, Structural)]
pub enum ZoneType {
    /// Structured (ijk-ordered) zone.
    Structured,
    /// Unstructured (element-based) zone.
    Unstructured,
}

impl ZoneType {
    /// The value of this variant in the C enumeration `ZoneType_t`.
    pub open spec fn code(self) -> u32 {
        match self {
            ZoneType::Structured => 2,
            ZoneType::Unstructured => 3,
        }
    }

    /// The variant whose `ZoneType_t` value is `raw`, if there is one.
    pub open spec fn from_code(raw: u32) -> Option<ZoneType> {
        match raw {
            2 => Some(ZoneType::Structured),
            3 => Some(ZoneType::Unstructured),
            _ => None,
        }
    }

    /// Convert to the raw `ZoneType_t` value passed to the C library.
    pub fn to_raw(self) -> (raw: u32)
        ensures
            raw == self.code(),
    {
        match self {
            ZoneType::Structured => 2,
            ZoneType::Unstructured => 3,
        }
    }

    /// Interpret a raw `ZoneType_t` value read from the C library;
    /// `None` when the value names no variant of this type.
    pub fn from_raw(raw: u32) -> (r: Option<ZoneType>)
        ensures
            r == ZoneType::from_code(raw),
    {
        match raw {
            2 => Some(ZoneType::Structured),
            3 => Some(ZoneType::Unstructured),
            _ => None,
        }
    }
}

/// Reading back the raw value of any `ZoneType` gives the same variant.
pub proof fn lemma_zone_type_round_trip(x: ZoneType)
    ensures
        ZoneType::from_code(x.code()) == Some(x),
{
}

/// Whenever a raw `ZoneType_t` value is recognised, converting the variant back
/// gives that same raw value; so `to_raw` is injective and `from_raw` inverts it.
pub proof fn lemma_zone_type_raw_inverse(raw: u32)
    ensures
        ZoneType::from_code(raw) matches Some(x) ==> x.code() == raw,
{
}

/// The codes are the values of the CGNS C enumeration `ZoneType_t` (Structured 2, Unstructured 3): `to_raw`
/// gives a variant's value there, and `from_raw` reads a value back as the
/// variant that has it, or as nothing when no variant has it.
pub proof fn lemma_zone_type_cgns_values(raw: u32)
    ensures
        ZoneType::Structured.code() == 2,
        ZoneType::Unstructured.code() == 3,
        ZoneType::from_code(raw) matches Some(x) ==> x.code() == raw,
        (forall|x: ZoneType| #[trigger] x.code() != raw) ==> ZoneType::from_code(raw) is None,
{
    match ZoneType::from_code(raw) {
        Some(y) => {
            assert(y.code() == raw);
        },
        None => {},
    }
}

/// CGNS element type for unstructured mesh sections.
///
/// Each variant includes the number of vertices after the name
/// (e.g. `Tri3` has 3 vertices, `Tetra4` has 4).  Use [`ElementType::npe`]
/// to query the canonical number of nodes per element.
///
/// For a section of type `Tri3` with 2 elements, the flat connectivity is
/// `[tri1_v1, tri1_v2, tri1_v3, tri2_v1, tri2_v2, tri2_v3]`; all node
/// indices are **1-based** vertex IDs within the zone.
///
/// `Mixed`, `NgoneN` and `NfaceN` hold elements of varying size;
/// `Null` / `UserDefined` are placeholders.
///
/// Each variant corresponds to one value of the C enumeration `ElementType_t`;
/// [`ElementType::to_raw`] gives that value and [`ElementType::from_raw`] reads it back.
#[derive(Debug, Clone, Copy, PartialEq, Eq, Structural)]
pub enum ElementType {
    Null,
    UserDefined,
    Node,
    Bar2,
    Bar3,
    Tri3,
    Tri6,
    Quad4,
    Quad8,
    Quad9,
    Tetra4,
    Tetra10,
    Pyra5,
    Pyra14,
    Penta6,
    Penta15,
    Penta18,
    Hexa8,
    Hexa20,
    Hexa27,
    Mixed,
    NgoneN,
    NfaceN,
}

impl ElementType {
    /// The value of this variant in the C enumeration `ElementType_t`.
    pub open spec fn code(self) -> u32 {
        match self {
            ElementType::Null => 0,
            ElementType::UserDefined => 1,
            ElementType::Node => 2,
            ElementType::Bar2 => 3,
            ElementType::Bar3 => 4,
            ElementType::Tri3 => 5,
            ElementType::Tri6 => 6,
            ElementType::Quad4 => 7,
            ElementType::Quad8 => 8,
            ElementType::Quad9 => 9,
            ElementType::Tetra4 => 10,
            ElementType::Tetra10 => 11,
            ElementType::Pyra5 => 12,
            ElementType::Pyra14 => 13,
            ElementType::Penta6 => 14,
            ElementType::Penta15 => 15,
            ElementType::Penta18 => 16,
            ElementType::Hexa8 => 17,
            ElementType::Hexa20 => 18,
            ElementType::Hexa27 => 19,
            ElementType::Mixed => 20,
            ElementType::NgoneN => 22,
            ElementType::NfaceN => 23,
        }
    }

    /// The variant whose `ElementType_t` value is `raw`, if there is one.
    pub open spec fn from_code(raw: u32) -> Option<ElementType> {
        match raw {
            0 => Some(ElementType::Null),
            1 => Some(ElementType::UserDefined),
            2 => Some(ElementType::Node),
            3 => Some(ElementType::Bar2),
            4 => Some(ElementType::Bar3),
            5 => Some(ElementType::Tri3),
            6 => Some(ElementType::Tri6),
            7 => Some(ElementType::Quad4),
            8 => Some(ElementType::Quad8),
            9 => Some(ElementType::Quad9),
            10 => Some(ElementType::Tetra4),
            11 => Some(ElementType::Tetra10),
            12 => Some(ElementType::Pyra5),
            13 => Some(ElementType::Pyra14),
            14 => Some(ElementType::Penta6),
            15 => Some(ElementType::Penta15),
            16 => Some(ElementType::Penta18),
            17 => Some(ElementType::Hexa8),
            18 => Some(ElementType::Hexa20),
            19 => Some(ElementType::Hexa27),
            20 => Some(ElementType::Mixed),
            22 => Some(ElementType::NgoneN),
            23 => Some(ElementType::NfaceN),
            _ => None,
        }
    }

    /// Convert to the raw `ElementType_t` value passed to the C library.
    pub fn to_raw(self) -> (raw: u32)
        ensures
            raw == self.code(),
    {
        match self {
            ElementType::Null => 0,
            ElementType::UserDefined => 1,
            ElementType::Node => 2,
            ElementType::Bar2 => 3,
            ElementType::Bar3 => 4,
            ElementType::Tri3 => 5,
            ElementType::Tri6 => 6,
            ElementType::Quad4 => 7,
            ElementType::Quad8 => 8,
            ElementType::Quad9 => 9,
            ElementType::Tetra4 => 10,
            ElementType::Tetra10 => 11,
            ElementType::Pyra5 => 12,
            ElementType::Pyra14 => 13,
            ElementType::Penta6 => 14,
            ElementType::Penta15 => 15,
            ElementType::Penta18 => 16,
            ElementType::Hexa8 => 17,
            ElementType::Hexa20 => 18,
            ElementType::Hexa27 => 19,
            ElementType::Mixed => 20,
            ElementType::NgoneN => 22,
            ElementType::NfaceN => 23,
        }
    }

    /// Interpret a raw `ElementType_t` value read from the C library;
    /// `None` when the value names no variant of this type.
    pub fn from_raw(raw: u32) -> (r: Option<ElementType>)
        ensures
            r == ElementType::from_code(raw),
    {
        match raw {
            0 => Some(ElementType::Null),
            1 => Some(ElementType::UserDefined),
            2 => Some(ElementType::Node),
            3 => Some(ElementType::Bar2),
            4 => Some(ElementType::Bar3),
            5 => Some(ElementType::Tri3),
            6 => Some(ElementType::Tri6),
            7 => Some(ElementType::Quad4),
            8 => Some(ElementType::Quad8),
            9 => Some(ElementType::Quad9),
            10 => Some(ElementType::Tetra4),
            11 => Some(ElementType::Tetra10),
            12 => Some(ElementType::Pyra5),
            13 => Some(ElementType::Pyra14),
            14 => Some(ElementType::Penta6),
            15 => Some(ElementType::Penta15),
            16 => Some(ElementType::Penta18),
            17 => Some(ElementType::Hexa8),
            18 => Some(ElementType::Hexa20),
            19 => Some(ElementType::Hexa27),
            20 => Some(ElementType::Mixed),
            22 => Some(ElementType::NgoneN),
            23 => Some(ElementType::NfaceN),
            _ => None,
        }
    }
}

/// Reading back the raw value of any `ElementType` gives the same variant.
pub proof fn lemma_element_type_round_trip(x: ElementType)
    ensures
        ElementType::from_code(x.code()) == Some(x),
{
}

/// Whenever a raw `ElementType_t` value is recognised, converting the variant back
/// gives that same raw value; so `to_raw` is injective and `from_raw` inverts it.
pub proof fn lemma_element_type_raw_inverse(raw: u32)
    ensures
        ElementType::from_code(raw) matches Some(x) ==> x.code() == raw,
{
}

/// The codes are the values of the CGNS C enumeration `ElementType_t` (Null 0, UserDefined 1, Node 2, Bar2 3, Bar3 4, Tri3 5, Tri6 6, Quad4 7, Quad8 8, Quad9 9, Tetra4 10, Tetra10 11, Pyra5 12, Pyra14 13, Penta6 14, Penta15 15, Penta18 16, Hexa8 17, Hexa20 18, Hexa27 19, Mixed 20, NgoneN 22, NfaceN 23): `to_raw`
/// gives a variant's value there, and `from_raw` reads a value back as the
/// variant that has it, or as nothing when no variant has it.
pub proof fn lemma_element_type_cgns_values(raw: u32)
    ensures
        ElementType::Null.code() == 0,
        ElementType::UserDefined.code() == 1,
        ElementType::Node.code() == 2,
        ElementType::Bar2.code() == 3,
        ElementType::Bar3.code() == 4,
        ElementType::Tri3.code() == 5,
        ElementType::Tri6.code() == 6,
        ElementType::Quad4.code() == 7,
        ElementType::Quad8.code() == 8,
        ElementType::Quad9.code() == 9,
        ElementType::Tetra4.code() == 10,
        ElementType::Tetra10.code() == 11,
        ElementType::Pyra5.code() == 12,
        ElementType::Pyra14.code() == 13,
        ElementType::Penta6.code() == 14,
        ElementType::Penta15.code() == 15,
        ElementType::Penta18.code() == 16,
        ElementType::Hexa8.code() == 17,
        ElementType::Hexa20.code() == 18,
        ElementType::Hexa27.code() == 19,
        ElementType::Mixed.code() == 20,
        ElementType::NgoneN.code() == 22,
        ElementType::NfaceN.code() == 23,
        ElementType::from_code(raw) matches Some(x) ==> x.code() == raw,
        (forall|x: ElementType| #[trigger] x.code() != raw) ==> ElementType::from_code(raw) is None,
{
    match ElementType::from_code(raw) {
        Some(y) => {
            assert(y.code() == raw);
        },
        None => {},
    }
}

/// CGNS boundary condition type.
///
/// Each variant corresponds to one value of the C enumeration `BCType_t`;
/// [`BcType::to_raw`] gives that value and [`BcType::from_raw`] reads it back.
#[derive(Debug, Clone, Copy, PartialEq, Eq, Structural)]
pub enum BcType {
    Null,
    UserDefined,
    AxisymmetricWedge,
    DegenerateLine,
    DegeneratePoint,
    Dirichlet,
    Extrapolate,
    Farfield,
    General,
    Inflow,
    InflowSubsonic,
    InflowSupersonic,
    Neumann,
    Outflow,
    OutflowSubsonic,
    OutflowSupersonic,
    SymmetryPlane,
    SymmetryPolar,
    TunnelInflow,
    TunnelOutflow,
    Wall,
    WallInviscid,
    WallViscous,
    WallViscousHeatFlux,
    WallViscousIsothermal,
}

impl BcType {
    /// The value of this variant in the C enumeration `BCType_t`.
    pub open spec fn code(self) -> u32 {
        match self {
            BcType::Null => 0,
            BcType::UserDefined => 1,
            BcType::AxisymmetricWedge => 2,
            BcType::DegenerateLine => 3,
            BcType::DegeneratePoint => 4,
            BcType::Dirichlet => 5,
            BcType::Extrapolate => 6,
            BcType::Farfield => 7,
            BcType::General => 8,
            BcType::Inflow => 9,
            BcType::InflowSubsonic => 10,
            BcType::InflowSupersonic => 11,
            BcType::Neumann => 12,
            BcType::Outflow => 13,
            BcType::OutflowSubsonic => 14,
            BcType::OutflowSupersonic => 15,
            BcType::SymmetryPlane => 16,
            BcType::SymmetryPolar => 17,
            BcType::TunnelInflow => 18,
            BcType::TunnelOutflow => 19,
            BcType::Wall => 20,
            BcType::WallInviscid => 21,
            BcType::WallViscous => 22,
            BcType::WallViscousHeatFlux => 23,
            BcType::WallViscousIsothermal => 24,
        }
    }

    /// The variant whose `BCType_t` value is `raw`, if there is one.
    pub open spec fn from_code(raw: u32) -> Option<BcType> {
        match raw {
            0 => Some(BcType::Null),
            1 => Some(BcType::UserDefined),
            2 => Some(BcType::AxisymmetricWedge),
            3 => Some(BcType::DegenerateLine),
            4 => Some(BcType::DegeneratePoint),
            5 => Some(BcType::Dirichlet),
            6 => Some(BcType::Extrapolate),
            7 => Some(BcType::Farfield),
            8 => Some(BcType::General),
            9 => Some(BcType::Inflow),
            10 => Some(BcType::InflowSubsonic),
            11 => Some(BcType::InflowSupersonic),
            12 => Some(BcType::Neumann),
            13 => Some(BcType::Outflow),
            14 => Some(BcType::OutflowSubsonic),
            15 => Some(BcType::OutflowSupersonic),
            16 => Some(BcType::SymmetryPlane),
            17 => Some(BcType::SymmetryPolar),
            18 => Some(BcType::TunnelInflow),
            19 => Some(BcType::TunnelOutflow),
            20 => Some(BcType::Wall),
            21 => Some(BcType::WallInviscid),
            22 => Some(BcType::WallViscous),
            23 => Some(BcType::WallViscousHeatFlux),
            24 => Some(BcType::WallViscousIsothermal),
            _ => None,
        }
    }

    /// Convert to the raw `BCType_t` value passed to the C library.
    pub fn to_raw(self) -> (raw: u32)
        ensures
            raw == self.code(),
    {
        match self {
            BcType::Null => 0,
            BcType::UserDefined => 1,
            BcType::AxisymmetricWedge => 2,
            BcType::DegenerateLine => 3,
            BcType::DegeneratePoint => 4,
            BcType::Dirichlet => 5,
            BcType::Extrapolate => 6,
            BcType::Farfield => 7,
            BcType::General => 8,
            BcType::Inflow => 9,
            BcType::InflowSubsonic => 10,
            BcType::InflowSupersonic => 11,
            BcType::Neumann => 12,
            BcType::Outflow => 13,
            BcType::OutflowSubsonic => 14,
            BcType::OutflowSupersonic => 15,
            BcType::SymmetryPlane => 16,
            BcType::SymmetryPolar => 17,
            BcType::TunnelInflow => 18,
            BcType::TunnelOutflow => 19,
            BcType::Wall => 20,
            BcType::WallInviscid => 21,
            BcType::WallViscous => 22,
            BcType::WallViscousHeatFlux => 23,
            BcType::WallViscousIsothermal => 24,
        }
    }

    /// Interpret a raw `BCType_t` value read from the C library;
    /// `None` when the value names no variant of this type.
    pub fn from_raw(raw: u32) -> (r: Option<BcType>)
        ensures
            r == BcType::from_code(raw),
    {
        match raw {
            0 => Some(BcType::Null),
            1 => Some(BcType::UserDefined),
            2 => Some(BcType::AxisymmetricWedge),
            3 => Some(BcType::DegenerateLine),
            4 => Some(BcType::DegeneratePoint),
            5 => Some(BcType::Dirichlet),
            6 => Some(BcType::Extrapolate),
            7 => Some(BcType::Farfield),
            8 => Some(BcType::General),
            9 => Some(BcType::Inflow),
            10 => Some(BcType::InflowSubsonic),
            11 => Some(BcType::InflowSupersonic),
            12 => Some(BcType::Neumann),
            13 => Some(BcType::Outflow),
            14 => Some(BcType::OutflowSubsonic),
            15 => Some(BcType::OutflowSupersonic),
            16 => Some(BcType::SymmetryPlane),
            17 => Some(BcType::SymmetryPolar),
            18 => Some(BcType::TunnelInflow),
            19 => Some(BcType::TunnelOutflow),
            20 => Some(BcType::Wall),
            21 => Some(BcType::WallInviscid),
            22 => Some(BcType::WallViscous),
            23 => Some(BcType::WallViscousHeatFlux),
            24 => Some(BcType::WallViscousIsothermal),
            _ => None,
        }
    }
}

/// Reading back the raw value of any `BcType` gives the same variant.
pub proof fn lemma_bc_type_round_trip(x: BcType)
    ensures
        BcType::from_code(x.code()) == Some(x),
{
}

/// Whenever a raw `BCType_t` value is recognised, converting the variant back
/// gives that same raw value; so `to_raw` is injective and `from_raw` inverts it.
pub proof fn lemma_bc_type_raw_inverse(raw: u32)
    ensures
        BcType::from_code(raw) matches Some(x) ==> x.code() == raw,
{
}

/// The codes are the values of the CGNS C enumeration `BCType_t` (Null 0, UserDefined 1, AxisymmetricWedge 2, DegenerateLine 3, DegeneratePoint 4, Dirichlet 5, Extrapolate 6, Farfield 7, General 8, Inflow 9, InflowSubsonic 10, InflowSupersonic 11, Neumann 12, Outflow 13, OutflowSubsonic 14, OutflowSupersonic 15, SymmetryPlane 16, SymmetryPolar 17, TunnelInflow 18, TunnelOutflow 19, Wall 20, WallInviscid 21, WallViscous 22, WallViscousHeatFlux 23, WallViscousIsothermal 24): `to_raw`
/// gives a variant's value there, and `from_raw` reads a value back as the
/// variant that has it, or as nothing when no variant has it.
pub proof fn lemma_bc_type_cgns_values(raw: u32)
    ensures
        BcType::Null.code() == 0,
        BcType::UserDefined.code() == 1,
        BcType::AxisymmetricWedge.code() == 2,
        BcType::DegenerateLine.code() == 3,
        BcType::DegeneratePoint.code() == 4,
        BcType::Dirichlet.code() == 5,
        BcType::Extrapolate.code() == 6,
        BcType::Farfield.code() == 7,
        BcType::General.code() == 8,
        BcType::Inflow.code() == 9,
        BcType::InflowSubsonic.code() == 10,
        BcType::InflowSupersonic.code() == 11,
        BcType::Neumann.code() == 12,
        BcType::Outflow.code() == 13,
        BcType::OutflowSubsonic.code() == 14,
        BcType::OutflowSupersonic.code() == 15,
        BcType::SymmetryPlane.code() == 16,
        BcType::SymmetryPolar.code() == 17,
        BcType::TunnelInflow.code() == 18,
        BcType::TunnelOutflow.code() == 19,
        BcType::Wall.code() == 20,
        BcType::WallInviscid.code() == 21,
        BcType::WallViscous.code() == 22,
        BcType::WallViscousHeatFlux.code() == 23,
        BcType::WallViscousIsothermal.code() == 24,
        BcType::from_code(raw) matches Some(x) ==> x.code() == raw,
        (forall|x: BcType| #[trigger] x.code() != raw) ==> BcType::from_code(raw) is None,
{
    match BcType::from_code(raw) {
        Some(y) => {
            assert(y.code() == raw);
        },
        None => {},
    }
}

/// CGNS mass units.
///
/// Each variant corresponds to one value of the C enumeration `MassUnits_t`;
/// [`MassUnits::to_raw`] gives that value and [`MassUnits::from_raw`] reads it back.
#[derive(Debug, Clone, Copy, PartialEq, Eq, Structural)]
pub enum MassUnits {
    Null,
    UserDefined,
    Kilogram,
    Gram,
    Slug,
    PoundMass,
}

impl MassUnits {
    /// The value of this variant in the C enumeration `MassUnits_t`.
    pub open spec fn code(self) -> u32 {
        match self {
            MassUnits::Null => 0,
            MassUnits::UserDefined => 1,
            MassUnits::Kilogram => 2,
            MassUnits::Gram => 3,
            MassUnits::Slug => 4,
            MassUnits::PoundMass => 5,
        }
    }

    /// The variant whose `MassUnits_t` value is `raw`, if there is one.
    pub open spec fn from_code(raw: u32) -> Option<MassUnits> {
        match raw {
            0 => Some(MassUnits::Null),
            1 => Some(MassUnits::UserDefined),
            2 => Some(MassUnits::Kilogram),
            3 => Some(MassUnits::Gram),
            4 => Some(MassUnits::Slug),
            5 => Some(MassUnits::PoundMass),
            _ => None,
        }
    }

    /// Convert to the raw `MassUnits_t` value passed to the C library.
    pub fn to_raw(self) -> (raw: u32)
        ensures
            raw == self.code(),
    {
        match self {
            MassUnits::Null => 0,
            MassUnits::UserDefined => 1,
            MassUnits::Kilogram => 2,
            MassUnits::Gram => 3,
            MassUnits::Slug => 4,
            MassUnits::PoundMass => 5,
        }
    }

    /// Interpret a raw `MassUnits_t` value read from the C library;
    /// `None` when the value names no variant of this type.
    pub fn from_raw(raw: u32) -> (r: Option<MassUnits>)
        ensures
            r == MassUnits::from_code(raw),
    {
        match raw {
            0 => Some(MassUnits::Null),
            1 => Some(MassUnits::UserDefined),
            2 => Some(MassUnits::Kilogram),
            3 => Some(MassUnits::Gram),
            4 => Some(MassUnits::Slug),
            5 => Some(MassUnits::PoundMass),
            _ => None,
        }
    }
}

/// Reading back the raw value of any `MassUnits` gives the same variant.
pub proof fn lemma_mass_units_round_trip(x: MassUnits)
    ensures
        MassUnits::from_code(x.code()) == Some(x),
{
}

/// Whenever a raw `MassUnits_t` value is recognised, converting the variant back
/// gives that same raw value; so `to_raw` is injective and `from_raw` inverts it.
pub proof fn lemma_mass_units_raw_inverse(raw: u32)
    ensures
        MassUnits::from_code(raw) matches Some(x) ==> x.code() == raw,
{
}

/// The codes are the values of the CGNS C enumeration `MassUnits_t` (Null 0, UserDefined 1, Kilogram 2, Gram 3, Slug 4, PoundMass 5): `to_raw`
/// gives a variant's value there, and `from_raw` reads a value back as the
/// variant that has it, or as nothing when no variant has it.
pub proof fn lemma_mass_units_cgns_values(raw: u32)
    ensures
        MassUnits::Null.code() == 0,
        MassUnits::UserDefined.code() == 1,
        MassUnits::Kilogram.code() == 2,
        MassUnits::Gram.code() == 3,
        MassUnits::Slug.code() == 4,
        MassUnits::PoundMass.code() == 5,
        MassUnits::from_code(raw) matches Some(x) ==> x.code() == raw,
        (forall|x: MassUnits| #[trigger] x.code() != raw) ==> MassUnits::from_code(raw) is None,
{
    match MassUnits::from_code(raw) {
        Some(y) => {
            assert(y.code() == raw);
        },
        None => {},
    }
}

/// CGNS length units.
///
/// Each variant corresponds to one value of the C enumeration `LengthUnits_t`;
/// [`LengthUnits::to_raw`] gives that value and [`LengthUnits::from_raw`] reads it back.
#[derive(Debug, Clone, Copy, PartialEq, Eq, Structural)]
pub enum LengthUnits {
    Null,
    UserDefined,
    Meter,
    Centimeter,
    Millimeter,
    Foot,
    Inch,
}

impl LengthUnits {
    /// The value of this variant in the C enumeration `LengthUnits_t`.
    pub open spec fn code(self) -> u32 {
        match self {
            LengthUnits::Null => 0,
            LengthUnits::UserDefined => 1,
            LengthUnits::Meter => 2,
            LengthUnits::Centimeter => 3,
            LengthUnits::Millimeter => 4,
            LengthUnits::Foot => 5,
            LengthUnits::Inch => 6,
        }
    }

    /// The variant whose `LengthUnits_t` value is `raw`, if there is one.
    pub open spec fn from_code(raw: u32) -> Option<LengthUnits> {
        match raw {
            0 => Some(LengthUnits::Null),
            1 => Some(LengthUnits::UserDefined),
            2 => Some(LengthUnits::Meter),
            3 => Some(LengthUnits::Centimeter),
            4 => Some(LengthUnits::Millimeter),
            5 => Some(LengthUnits::Foot),
            6 => Some(LengthUnits::Inch),
            _ => None,
        }
    }

    /// Convert to the raw `LengthUnits_t` value passed to the C library.
    pub fn to_raw(self) -> (raw: u32)
        ensures
            raw == self.code(),
    {
        match self {
            LengthUnits::Null => 0,
            LengthUnits::UserDefined => 1,
            LengthUnits::Meter => 2,
            LengthUnits::Centimeter => 3,
            LengthUnits::Millimeter => 4,
            LengthUnits::Foot => 5,
            LengthUnits::Inch => 6,
        }
    }

    /// Interpret a raw `LengthUnits_t` value read from the C library;
    /// `None` when the value names no variant of this type.
    pub fn from_raw(raw: u32) -> (r: Option<LengthUnits>)
        ensures
            r == LengthUnits::from_code(raw),
    {
        match raw {
            0 => Some(LengthUnits::Null),
            1 => Some(LengthUnits::UserDefined),
            2 => Some(LengthUnits::Meter),
            3 => Some(LengthUnits::Centimeter),
            4 => Some(LengthUnits::Millimeter),
            5 => Some(LengthUnits::Foot),
            6 => Some(LengthUnits::Inch),
            _ => None,
        }
    }
}

/// Reading back the raw value of any `LengthUnits` gives the same variant.
pub proof fn lemma_length_units_round_trip(x: LengthUnits)
    ensures
        LengthUnits::from_code(x.code()) == Some(x),
{
}

/// Whenever a raw `LengthUnits_t` value is recognised, converting the variant back
/// gives that same raw value; so `to_raw` is injective and `from_raw` inverts it.
pub proof fn lemma_length_units_raw_inverse(raw: u32)
    ensures
        LengthUnits::from_code(raw) matches Some(x) ==> x.code() == raw,
{
}

/// The codes are the values of the CGNS C enumeration `LengthUnits_t` (Null 0, UserDefined 1, Meter 2, Centimeter 3, Millimeter 4, Foot 5, Inch 6): `to_raw`
/// gives a variant's value there, and `from_raw` reads a value back as the
/// variant that has it, or as nothing when no variant has it.
pub proof fn lemma_length_units_cgns_values(raw: u32)
    ensures
        LengthUnits::Null.code() == 0,
        LengthUnits::UserDefined.code() == 1,
        LengthUnits::Meter.code() == 2,
        LengthUnits::Centimeter.code() == 3,
        LengthUnits::Millimeter.code() == 4,
        LengthUnits::Foot.code() == 5,
        LengthUnits::Inch.code() == 6,
        LengthUnits::from_code(raw) matches Some(x) ==> x.code() == raw,
        (forall|x: LengthUnits| #[trigger] x.code() != raw) ==> LengthUnits::from_code(raw) is None,
{
    match LengthUnits::from_code(raw) {
        Some(y) => {
            assert(y.code() == raw);
        },
        None => {},
    }
}

/// CGNS time units.
///
/// Each variant corresponds to one value of the C enumeration `TimeUnits_t`;
/// [`TimeUnits::to_raw`] gives that value and [`TimeUnits::from_raw`] reads it back.
#[derive(Debug, Clone, Copy, PartialEq, Eq, Structural)]
pub enum TimeUnits {
    Null,
    UserDefined,
    Second,
}

impl TimeUnits {
    /// The value of this variant in the C enumeration `TimeUnits_t`.
    pub open spec fn code(self) -> u32 {
        match self {
            TimeUnits::Null => 0,
            TimeUnits::UserDefined => 1,
            TimeUnits::Second => 2,
        }
    }

    /// The variant whose `TimeUnits_t` value is `raw`, if there is one.
    pub open spec fn from_code(raw: u32) -> Option<TimeUnits> {
        match raw {
            0 => Some(TimeUnits::Null),
            1 => Some(TimeUnits::UserDefined),
            2 => Some(TimeUnits::Second),
            _ => None,
        }
    }

    /// Convert to the raw `TimeUnits_t` value passed to the C library.
    pub fn to_raw(self) -> (raw: u32)
        ensures
            raw == self.code(),
    {
        match self {
            TimeUnits::Null => 0,
            TimeUnits::UserDefined => 1,
            TimeUnits::Second => 2,
        }
    }

    /// Interpret a raw `TimeUnits_t` value read from the C library;
    /// `None` when the value names no variant of this type.
    pub fn from_raw(raw: u32) -> (r: Option<TimeUnits>)
        ensures
            r == TimeUnits::from_code(raw),
    {
        match raw {
            0 => Some(TimeUnits::Null),
            1 => Some(TimeUnits::UserDefined),
            2 => Some(TimeUnits::Second),
            _ => None,
        }
    }
}

/// Reading back the raw value of any `TimeUnits` gives the same variant.
pub proof fn lemma_time_units_round_trip(x: TimeUnits)
    ensures
        TimeUnits::from_code(x.code()) == Some(x),
{
}

/// Whenever a raw `TimeUnits_t` value is recognised, converting the variant back
/// gives that same raw value; so `to_raw` is injective and `from_raw` inverts it.
pub proof fn lemma_time_units_raw_inverse(raw: u32)
    ensures
        TimeUnits::from_code(raw) matches Some(x) ==> x.code() == raw,
{
}

/// The codes are the values of the CGNS C enumeration `TimeUnits_t` (Null 0, UserDefined 1, Second 2): `to_raw`
/// gives a variant's value there, and `from_raw` reads a value back as the
/// variant that has it, or as nothing when no variant has it.
pub proof fn lemma_time_units_cgns_values(raw: u32)
    ensures
        TimeUnits::Null.code() == 0,
        TimeUnits::UserDefined.code() == 1,
        TimeUnits::Second.code() == 2,
        TimeUnits::from_code(raw) matches Some(x) ==> x.code() == raw,
        (forall|x: TimeUnits| #[trigger] x.code() != raw) ==> TimeUnits::from_code(raw) is None,
{
    match TimeUnits::from_code(raw) {
        Some(y) => {
            assert(y.code() == raw);
        },
        None => {},
    }
}

/// CGNS temperature units.
///
/// Each variant corresponds to one value of the C enumeration `TemperatureUnits_t`;
/// [`TemperatureUnits::to_raw`] gives that value and [`TemperatureUnits::from_raw`] reads it back.
#[derive(Debug, Clone, Copy, PartialEq, Eq, Structural)]
pub enum TemperatureUnits {
    Null,
    UserDefined,
    Kelvin,
    Celsius,
    Rankine,
    Fahrenheit,
}

impl TemperatureUnits {
    /// The value of this variant in the C enumeration `TemperatureUnits_t`.
    pub open spec fn code(self) -> u32 {
        match self {
            TemperatureUnits::Null => 0,
            TemperatureUnits::UserDefined => 1,
            TemperatureUnits::Kelvin => 2,
            TemperatureUnits::Celsius => 3,
            TemperatureUnits::Rankine => 4,
            TemperatureUnits::Fahrenheit => 5,
        }
    }

    /// The variant whose `TemperatureUnits_t` value is `raw`, if there is one.
    pub open spec fn from_code(raw: u32) -> Option<TemperatureUnits> {
        match raw {
            0 => Some(TemperatureUnits::Null),
            1 => Some(TemperatureUnits::UserDefined),
            2 => Some(TemperatureUnits::Kelvin),
            3 => Some(TemperatureUnits::Celsius),
            4 => Some(TemperatureUnits::Rankine),
            5 => Some(TemperatureUnits::Fahrenheit),
            _ => None,
        }
    }

    /// Convert to the raw `TemperatureUnits_t` value passed to the C library.
    pub fn to_raw(self) -> (raw: u32)
        ensures
            raw == self.code(),
    {
        match self {
            TemperatureUnits::Null => 0,
            TemperatureUnits::UserDefined => 1,
            TemperatureUnits::Kelvin => 2,
            TemperatureUnits::Celsius => 3,
            TemperatureUnits::Rankine => 4,
            TemperatureUnits::Fahrenheit => 5,
        }
    }

    /// Interpret a raw `TemperatureUnits_t` value read from the C library;
    /// `None` when the value names no variant of this type.
    pub fn from_raw(raw: u32) -> (r: Option<TemperatureUnits>)
        ensures
            r == TemperatureUnits::from_code(raw),
    {
        match raw {
            0 => Some(TemperatureUnits::Null),
            1 => Some(TemperatureUnits::UserDefined),
            2 => Some(TemperatureUnits::Kelvin),
            3 => Some(TemperatureUnits::Celsius),
            4 => Some(TemperatureUnits::Rankine),
            5 => Some(TemperatureUnits::Fahrenheit),
            _ => None,
        }
    }
}

/// Reading back the raw value of any `TemperatureUnits` gives the same variant.
pub proof fn lemma_temperature_units_round_trip(x: TemperatureUnits)
    ensures
        TemperatureUnits::from_code(x.code()) == Some(x),
{
}

/// Whenever a raw `TemperatureUnits_t` value is recognised, converting the variant back
/// gives that same raw value; so `to_raw` is injective and `from_raw` inverts it.
pub proof fn lemma_temperature_units_raw_inverse(raw: u32)
    ensures
        TemperatureUnits::from_code(raw) matches Some(x) ==> x.code() == raw,
{
}

/// The codes are the values of the CGNS C enumeration `TemperatureUnits_t` (Null 0, UserDefined 1, Kelvin 2, Celsius 3, Rankine 4, Fahrenheit 5): `to_raw`
/// gives a variant's value there, and `from_raw` reads a value back as the
/// variant that has it, or as nothing when no variant has it.
pub proof fn lemma_temperature_units_cgns_values(raw: u32)
    ensures
        TemperatureUnits::Null.code() == 0,
        TemperatureUnits::UserDefined.code() == 1,
        TemperatureUnits::Kelvin.code() == 2,
        TemperatureUnits::Celsius.code() == 3,
        TemperatureUnits::Rankine.code() == 4,
        TemperatureUnits::Fahrenheit.code() == 5,
        TemperatureUnits::from_code(raw) matches Some(x) ==> x.code() == raw,
        (forall|x: TemperatureUnits| #[trigger] x.code() != raw) ==> TemperatureUnits::from_code(raw) is None,
{
    match TemperatureUnits::from_code(raw) {
        Some(y) => {
            assert(y.code() == raw);
        },
        None => {},
    }
}

/// CGNS angle units.
///
/// Each variant corresponds to one value of the C enumeration `AngleUnits_t`;
/// [`AngleUnits::to_raw`] gives that value and [`AngleUnits::from_raw`] reads it back.
#[derive(Debug, Clone, Copy, PartialEq, Eq, Structural)]
pub enum AngleUnits {
    Null,
    UserDefined,
    Degree,
    Radian,
}

impl AngleUnits {
    /// The value of this variant in the C enumeration `AngleUnits_t`.
    pub open spec fn code(self) -> u32 {
        match self {
            AngleUnits::Null => 0,
            AngleUnits::UserDefined => 1,
            AngleUnits::Degree => 2,
            AngleUnits::Radian => 3,
        }
    }

    /// The variant whose `AngleUnits_t` value is `raw`, if there is one.
    pub open spec fn from_code(raw: u32) -> Option<AngleUnits> {
        match raw {
            0 => Some(AngleUnits::Null),
            1 => Some(AngleUnits::UserDefined),
            2 => Some(AngleUnits::Degree),
            3 => Some(AngleUnits::Radian),
            _ => None,
        }
    }

    /// Convert to the raw `AngleUnits_t` value passed to the C library.
    pub fn to_raw(self) -> (raw: u32)
        ensures
            raw == self.code(),
    {
        match self {
            AngleUnits::Null => 0,
            AngleUnits::UserDefined => 1,
            AngleUnits::Degree => 2,
            AngleUnits::Radian => 3,
        }
    }

    /// Interpret a raw `AngleUnits_t` value read from the C library;
    /// `None` when the value names no variant of this type.
    pub fn from_raw(raw: u32) -> (r: Option<AngleUnits>)
        ensures
            r == AngleUnits::from_code(raw),
    {
        match raw {
            0 => Some(AngleUnits::Null),
            1 => Some(AngleUnits::UserDefined),
            2 => Some(AngleUnits::Degree),
            3 => Some(AngleUnits::Radian),
            _ => None,
        }
    }
}

/// Reading back the raw value of any `AngleUnits` gives the same variant.
pub proof fn lemma_angle_units_round_trip(x: AngleUnits)
    ensures
        AngleUnits::from_code(x.code()) == Some(x),
{
}

/// Whenever a raw `AngleUnits_t` value is recognised, converting the variant back
/// gives that same raw value; so `to_raw` is injective and `from_raw` inverts it.
pub proof fn lemma_angle_units_raw_inverse(raw: u32)
    ensures
        AngleUnits::from_code(raw) matches Some(x) ==> x.code() == raw,
{
}

/// The codes are the values of the CGNS C enumeration `AngleUnits_t` (Null 0, UserDefined 1, Degree 2, Radian 3): `to_raw`
/// gives a variant's value there, and `from_raw` reads a value back as the
/// variant that has it, or as nothing when no variant has it.
pub proof fn lemma_angle_units_cgns_values(raw: u32)
    ensures
        AngleUnits::Null.code() == 0,
        AngleUnits::UserDefined.code() == 1,
        AngleUnits::Degree.code() == 2,
        AngleUnits::Radian.code() == 3,
        AngleUnits::from_code(raw) matches Some(x) ==> x.code() == raw,
        (forall|x: AngleUnits| #[trigger] x.code() != raw) ==> AngleUnits::from_code(raw) is None,
{
    match AngleUnits::from_code(raw) {
        Some(y) => {
            assert(y.code() == raw);
        },
        None => {},
    }
}

/// CGNS data classification.
///
/// Each variant corresponds to one value of the C enumeration `DataClass_t`;
/// [`DataClass::to_raw`] gives that value and [`DataClass::from_raw`] reads it back.
#[derive(Debug, Clone, Copy, PartialEq, Eq, Structural)]
pub enum DataClass {
    Null,
    UserDefined,
    Dimensional,
    NormalizedByDimensional,
    NormalizedByUnknownDimensional,
    NondimensionalParameter,
    DimensionlessConstant,
}

impl DataClass {
    /// The value of this variant in the C enumeration `DataClass_t`.
    pub open spec fn code(self) -> u32 {
        match self {
            DataClass::Null => 0,
            DataClass::UserDefined => 1,
            DataClass::Dimensional => 2,
            DataClass::NormalizedByDimensional => 3,
            DataClass::NormalizedByUnknownDimensional => 4,
            DataClass::NondimensionalParameter => 5,
            DataClass::DimensionlessConstant => 6,
        }
    }

    /// The variant whose `DataClass_t` value is `raw`, if there is one.
    pub open spec fn from_code(raw: u32) -> Option<DataClass> {
        match raw {
            0 => Some(DataClass::Null),
            1 => Some(DataClass::UserDefined),
            2 => Some(DataClass::Dimensional),
            3 => Some(DataClass::NormalizedByDimensional),
            4 => Some(DataClass::NormalizedByUnknownDimensional),
            5 => Some(DataClass::NondimensionalParameter),
            6 => Some(DataClass::DimensionlessConstant),
            _ => None,
        }
    }

    /// Convert to the raw `DataClass_t` value passed to the C library.
    pub fn to_raw(self) -> (raw: u32)
        ensures
            raw == self.code(),
    {
        match self {
            DataClass::Null => 0,
            DataClass::UserDefined => 1,
            DataClass::Dimensional => 2,
            DataClass::NormalizedByDimensional => 3,
            DataClass::NormalizedByUnknownDimensional => 4,
            DataClass::NondimensionalParameter => 5,
            DataClass::DimensionlessConstant => 6,
        }
    }

    /// Interpret a raw `DataClass_t` value read from the C library;
    /// `None` when the value names no variant of this type.
    pub fn from_raw(raw: u32) -> (r: Option<DataClass>)
        ensures
            r == DataClass::from_code(raw),
    {
        match raw {
            0 => Some(DataClass::Null),
            1 => Some(DataClass::UserDefined),
            2 => Some(DataClass::Dimensional),
            3 => Some(DataClass::NormalizedByDimensional),
            4 => Some(DataClass::NormalizedByUnknownDimensional),
            5 => Some(DataClass::NondimensionalParameter),
            6 => Some(DataClass::DimensionlessConstant),
            _ => None,
        }
    }
}

/// Reading back the raw value of any `DataClass` gives the same variant.
pub proof fn lemma_data_class_round_trip(x: DataClass)
    ensures
        DataClass::from_code(x.code()) == Some(x),
{
}

/// Whenever a raw `DataClass_t` value is recognised, converting the variant back
/// gives that same raw value; so `to_raw` is injective and `from_raw` inverts it.
pub proof fn lemma_data_class_raw_inverse(raw: u32)
    ensures
        DataClass::from_code(raw) matches Some(x) ==> x.code() == raw,
{
}

/// The codes are the values of the CGNS C enumeration `DataClass_t` (Null 0, UserDefined 1, Dimensional 2, NormalizedByDimensional 3, NormalizedByUnknownDimensional 4, NondimensionalParameter 5, DimensionlessConstant 6): `to_raw`
/// gives a variant's value there, and `from_raw` reads a value back as the
/// variant that has it, or as nothing when no variant has it.
pub proof fn lemma_data_class_cgns_values(raw: u32)
    ensures
        DataClass::Null.code() == 0,
        DataClass::UserDefined.code() == 1,
        DataClass::Dimensional.code() == 2,
        DataClass::NormalizedByDimensional.code() == 3,
        DataClass::NormalizedByUnknownDimensional.code() == 4,
        DataClass::NondimensionalParameter.code() == 5,
        DataClass::DimensionlessConstant.code() == 6,
        DataClass::from_code(raw) matches Some(x) ==> x.code() == raw,
        (forall|x: DataClass| #[trigger] x.code() != raw) ==> DataClass::from_code(raw) is None,
{
    match DataClass::from_code(raw) {
        Some(y) => {
            assert(y.code() == raw);
        },
        None => {},
    }
}

/// Type of grid connectivity interface.
///
/// Each variant corresponds to one value of the C enumeration `GridConnectivityType_t`;
/// [`GridConnectivityType::to_raw`] gives that value and [`GridConnectivityType::from_raw`] reads it back.
#[derive(Debug, Clone, Copy, PartialEq, Eq, Structural)]
pub enum GridConnectivityType {
    Null,
    UserDefined,
    Overset,
    Abutting,
    Abutting1to1,
}

impl GridConnectivityType {
    /// The value of this variant in the C enumeration `GridConnectivityType_t`.
    pub open spec fn code(self) -> u32 {
        match self {
            GridConnectivityType::Null => 0,
            GridConnectivityType::UserDefined => 1,
            GridConnectivityType::Overset => 2,
            GridConnectivityType::Abutting => 3,
            GridConnectivityType::Abutting1to1 => 4,
        }
    }

    /// The variant whose `GridConnectivityType_t` value is `raw`, if there is one.
    pub open spec fn from_code(raw: u32) -> Option<GridConnectivityType> {
        match raw {
            0 => Some(GridConnectivityType::Null),
            1 => Some(GridConnectivityType::UserDefined),
            2 => Some(GridConnectivityType::Overset),
            3 => Some(GridConnectivityType::Abutting),
            4 => Some(GridConnectivityType::Abutting1to1),
            _ => None,
        }
    }

    /// Convert to the raw `GridConnectivityType_t` value passed to the C library.
    pub fn to_raw(self) -> (raw: u32)
        ensures
            raw == self.code(),
    {
        match self {
            GridConnectivityType::Null => 0,
            GridConnectivityType::UserDefined => 1,
            GridConnectivityType::Overset => 2,
            GridConnectivityType::Abutting => 3,
            GridConnectivityType::Abutting1to1 => 4,
        }
    }

    /// Interpret a raw `GridConnectivityType_t` value read from the C library;
    /// `None` when the value names no variant of this type.
    pub fn from_raw(raw: u32) -> (r: Option<GridConnectivityType>)
        ensures
            r == GridConnectivityType::from_code(raw),
    {
        match raw {
            0 => Some(GridConnectivityType::Null),
            1 => Some(GridConnectivityType::UserDefined),
            2 => Some(GridConnectivityType::Overset),
            3 => Some(GridConnectivityType::Abutting),
            4 => Some(GridConnectivityType::Abutting1to1),
            _ => None,
        }
    }
}

/// Reading back the raw value of any `GridConnectivityType` gives the same variant.
pub proof fn lemma_grid_connectivity_type_round_trip(x: GridConnectivityType)
    ensures
        GridConnectivityType::from_code(x.code()) == Some(x),
{
}

/// Whenever a raw `GridConnectivityType_t` value is recognised, converting the variant back
/// gives that same raw value; so `to_raw` is injective and `from_raw` inverts it.
pub proof fn lemma_grid_connectivity_type_raw_inverse(raw: u32)
    ensures
        GridConnectivityType::from_code(raw) matches Some(x) ==> x.code() == raw,
{
}

/// The codes are the values of the CGNS C enumeration `GridConnectivityType_t` (Null 0, UserDefined 1, Overset 2, Abutting 3, Abutting1to1 4): `to_raw`
/// gives a variant's value there, and `from_raw` reads a value back as the
/// variant that has it, or as nothing when no variant has it.
pub proof fn lemma_grid_connectivity_type_cgns_values(raw: u32)
    ensures
        GridConnectivityType::Null.code() == 0,
        GridConnectivityType::UserDefined.code() == 1,
        GridConnectivityType::Overset.code() == 2,
        GridConnectivityType::Abutting.code() == 3,
        GridConnectivityType::Abutting1to1.code() == 4,
        GridConnectivityType::from_code(raw) matches Some(x) ==> x.code() == raw,
        (forall|x: GridConnectivityType| #[trigger] x.code() != raw) ==> GridConnectivityType::from_code(raw) is None,
{
    match GridConnectivityType::from_code(raw) {
        Some(y) => {
            assert(y.code() == raw);
        },
        None => {},
    }
}

/// CGNS simulation type.
///
/// Each variant corresponds to one value of the C enumeration `SimulationType_t`;
/// [`SimulationType::to_raw`] gives that value and [`SimulationType::from_raw`] reads it back.
#[derive(Debug, Clone, Copy, PartialEq, Eq, Structural)]
pub enum SimulationType {
    Null,
    UserDefined,
    TimeAccurate,
    NonTimeAccurate,
}

impl SimulationType {
    /// The value of this variant in the C enumeration `SimulationType_t`.
    pub open spec fn code(self) -> u32 {
        match self {
            SimulationType::Null => 0,
            SimulationType::UserDefined => 1,
            SimulationType::TimeAccurate => 2,
            SimulationType::NonTimeAccurate => 3,
        }
    }

    /// The variant whose `SimulationType_t` value is `raw`, if there is one.
    pub open spec fn from_code(raw: u32) -> Option<SimulationType> {
        match raw {
            0 => Some(SimulationType::Null),
            1 => Some(SimulationType::UserDefined),
            2 => Some(SimulationType::TimeAccurate),
            3 => Some(SimulationType::NonTimeAccurate),
            _ => None,
        }
    }

    /// Convert to the raw `SimulationType_t` value passed to the C library.
    pub fn to_raw(self) -> (raw: u32)
        ensures
            raw == self.code(),
    {
        match self {
            SimulationType::Null => 0,
            SimulationType::UserDefined => 1,
            SimulationType::TimeAccurate => 2,
            SimulationType::NonTimeAccurate => 3,
        }
    }

    /// Interpret a raw `SimulationType_t` value read from the C library;
    /// `None` when the value names no variant of this type.
    pub fn from_raw(raw: u32) -> (r: Option<SimulationType>)
        ensures
            r == SimulationType::from_code(raw),
    {
        match raw {
            0 => Some(SimulationType::Null),
            1 => Some(SimulationType::UserDefined),
            2 => Some(SimulationType::TimeAccurate),
            3 => Some(SimulationType::NonTimeAccurate),
            _ => None,
        }
    }
}

/// Reading back the raw value of any `SimulationType` gives the same variant.
pub proof fn lemma_simulation_type_round_trip(x: SimulationType)
    ensures
        SimulationType::from_code(x.code()) == Some(x),
{
}

/// Whenever a raw `SimulationType_t` value is recognised, converting the variant back
/// gives that same raw value; so `to_raw` is injective and `from_raw` inverts it.
pub proof fn lemma_simulation_type_raw_inverse(raw: u32)
    ensures
        SimulationType::from_code(raw) matches Some(x) ==> x.code() == raw,
{
}

/// The codes are the values of the CGNS C enumeration `SimulationType_t` (Null 0, UserDefined 1, TimeAccurate 2, NonTimeAccurate 3): `to_raw`
/// gives a variant's value there, and `from_raw` reads a value back as the
/// variant that has it, or as nothing when no variant has it.
pub proof fn lemma_simulation_type_cgns_values(raw: u32)
    ensures
        SimulationType::Null.code() == 0,
        SimulationType::UserDefined.code() == 1,
        SimulationType::TimeAccurate.code() == 2,
        SimulationType::NonTimeAccurate.code() == 3,
        SimulationType::from_code(raw) matches Some(x) ==> x.code() == raw,
        (forall|x: SimulationType| #[trigger] x.code() != raw) ==> SimulationType::from_code(raw) is None,
{
    match SimulationType::from_code(raw) {
        Some(y) => {
            assert(y.code() == raw);
        },
        None => {},
    }
}

/// How a point set is specified for a boundary condition or connectivity.
///
/// Each variant corresponds to one value of the C enumeration `PointSetType_t`;
/// [`PointSetType::to_raw`] gives that value and [`PointSetType::from_raw`] reads it back.
#[derive(Debug, Clone, Copy, PartialEq, Eq, Structural)]
pub enum PointSetType {
    PointList,
    PointListDonor,
    PointRange,
    PointRangeDonor,
    ElementRange,
    ElementList,
    CellListDonor,
}

impl PointSetType {
    /// The value of this variant in the C enumeration `PointSetType_t`.
    pub open spec fn code(self) -> u32 {
        match self {
            PointSetType::PointList => 2,
            PointSetType::PointListDonor => 3,
            PointSetType::PointRange => 4,
            PointSetType::PointRangeDonor => 5,
            PointSetType::ElementRange => 6,
            PointSetType::ElementList => 7,
            PointSetType::CellListDonor => 8,
        }
    }

    /// The variant whose `PointSetType_t` value is `raw`, if there is one.
    pub open spec fn from_code(raw: u32) -> Option<PointSetType> {
        match raw {
            2 => Some(PointSetType::PointList),
            3 => Some(PointSetType::PointListDonor),
            4 => Some(PointSetType::PointRange),
            5 => Some(PointSetType::PointRangeDonor),
            6 => Some(PointSetType::ElementRange),
            7 => Some(PointSetType::ElementList),
            8 => Some(PointSetType::CellListDonor),
            _ => None,
        }
    }

    /// Convert to the raw `PointSetType_t` value passed to the C library.
    pub fn to_raw(self) -> (raw: u32)
        ensures
            raw == self.code(),
    {
        match self {
            PointSetType::PointList => 2,
            PointSetType::PointListDonor => 3,
            PointSetType::PointRange => 4,
            PointSetType::PointRangeDonor => 5,
            PointSetType::ElementRange => 6,
            PointSetType::ElementList => 7,
            PointSetType::CellListDonor => 8,
        }
    }

    /// Interpret a raw `PointSetType_t` value read from the C library;
    /// `None` when the value names no variant of this type.
    pub fn from_raw(raw: u32) -> (r: Option<PointSetType>)
        ensures
            r == PointSetType::from_code(raw),
    {
        match raw {
            2 => Some(PointSetType::PointList),
            3 => Some(PointSetType::PointListDonor),
            4 => Some(PointSetType::PointRange),
            5 => Some(PointSetType::PointRangeDonor),
            6 => Some(PointSetType::ElementRange),
            7 => Some(PointSetType::ElementList),
            8 => Some(PointSetType::CellListDonor),
            _ => None,
        }
    }
}

/// Reading back the raw value of any `PointSetType` gives the same variant.
pub proof fn lemma_point_set_type_round_trip(x: PointSetType)
    ensures
        PointSetType::from_code(x.code()) == Some(x),
{
}

/// Whenever a raw `PointSetType_t` value is recognised, converting the variant back
/// gives that same raw value; so `to_raw` is injective and `from_raw` inverts it.
pub proof fn lemma_point_set_type_raw_inverse(raw: u32)
    ensures
        PointSetType::from_code(raw) matches Some(x) ==> x.code() == raw,
{
}

/// The codes are the values of the CGNS C enumeration `PointSetType_t` (PointList 2, PointListDonor 3, PointRange 4, PointRangeDonor 5, ElementRange 6, ElementList 7, CellListDonor 8): `to_raw`
/// gives a variant's value there, and `from_raw` reads a value back as the
/// variant that has it, or as nothing when no variant has it.
pub proof fn lemma_point_set_type_cgns_values(raw: u32)
    ensures
        PointSetType::PointList.code() == 2,
        PointSetType::PointListDonor.code() == 3,
        PointSetType::PointRange.code() == 4,
        PointSetType::PointRangeDonor.code() == 5,
        PointSetType::ElementRange.code() == 6,
        PointSetType::ElementList.code() == 7,
        PointSetType::CellListDonor.code() == 8,
        PointSetType::from_code(raw) matches Some(x) ==> x.code() == raw,
        (forall|x: PointSetType| #[trigger] x.code() != raw) ==> PointSetType::from_code(raw) is None,
{
    match PointSetType::from_code(raw) {
        Some(y) => {
            assert(y.code() == raw);
        },
        None => {},
    }
}

impl ElementType {
    /// Canonical number of nodes per element of this type: the number in
    /// the variant's name, and 0 for the variable-size types (`Mixed`,
    /// `NgoneN`, `NfaceN`) and the placeholders (`Null`, `UserDefined`).
    pub open spec fn nodes_per_element(self) -> int {
        match self {
            ElementType::Null => 0,
            ElementType::UserDefined => 0,
            ElementType::Node => 1,
            ElementType::Bar2 => 2,
            ElementType::Bar3 => 3,
            ElementType::Tri3 => 3,
            ElementType::Tri6 => 6,
            ElementType::Quad4 => 4,
            ElementType::Quad8 => 8,
            ElementType::Quad9 => 9,
            ElementType::Tetra4 => 4,
            ElementType::Tetra10 => 10,
            ElementType::Pyra5 => 5,
            ElementType::Pyra14 => 14,
            ElementType::Penta6 => 6,
            ElementType::Penta15 => 15,
            ElementType::Penta18 => 18,
            ElementType::Hexa8 => 8,
            ElementType::Hexa20 => 20,
            ElementType::Hexa27 => 27,
            ElementType::Mixed => 0,
            ElementType::NgoneN => 0,
            ElementType::NfaceN => 0,
        }
    }

    /// Whether elements of this type have a varying number of nodes.
    pub open spec fn is_variable_size(self) -> bool {
        ||| self == ElementType::Mixed
        ||| self == ElementType::NgoneN
        ||| self == ElementType::NfaceN
    }

    /// Return the canonical number of nodes (vertices) per element, as the
    /// CGNS element table (`cg_npe`) gives it.
    ///
    /// Returns `0` for variable-size types (`Mixed`, `NgoneN`, `NfaceN`)
    /// and for the placeholder types.
    pub fn npe(self) -> (n: i32)
        ensures
            n == self.nodes_per_element(),
    {
        match self {
            ElementType::Null => 0,
            ElementType::UserDefined => 0,
            ElementType::Node => 1,
            ElementType::Bar2 => 2,
            ElementType::Bar3 => 3,
            ElementType::Tri3 => 3,
            ElementType::Tri6 => 6,
            ElementType::Quad4 => 4,
            ElementType::Quad8 => 8,
            ElementType::Quad9 => 9,
            ElementType::Tetra4 => 4,
            ElementType::Tetra10 => 10,
            ElementType::Pyra5 => 5,
            ElementType::Pyra14 => 14,
            ElementType::Penta6 => 6,
            ElementType::Penta15 => 15,
            ElementType::Penta18 => 18,
            ElementType::Hexa8 => 8,
            ElementType::Hexa20 => 20,
            ElementType::Hexa27 => 27,
            ElementType::Mixed => 0,
            ElementType::NgoneN => 0,
            ElementType::NfaceN => 0,
        }
    }
}

/// An element type has zero nodes per element exactly when it is a
/// variable-size type or a placeholder; every fixed-size type has between
/// 1 and 27 nodes.
pub proof fn lemma_npe_zero_iff_not_fixed(t: ElementType)
    ensures
        t.nodes_per_element() == 0 <==> (t.is_variable_size() || t == ElementType::Null
            || t == ElementType::UserDefined),
        0 <= t.nodes_per_element() <= 27,
{
}

/// Nodes per element follow the CGNS element table (`cg_npe`): a
/// fixed-size type has the node count in its name (a line of 2 or 3 nodes,
/// a triangle of 3 or 6, a quadrilateral of 4, 8 or 9, a tetrahedron of 4
/// or 10, a pyramid of 5 or 14, a prism of 6, 15 or 18, a hexahedron of 8,
/// 20 or 27, a node of 1); the others have 0.
pub proof fn lemma_nodes_per_element_values()
    ensures
        ElementType::Node.nodes_per_element() == 1,
        ElementType::Bar2.nodes_per_element() == 2,
        ElementType::Bar3.nodes_per_element() == 3,
        ElementType::Tri3.nodes_per_element() == 3,
        ElementType::Tri6.nodes_per_element() == 6,
        ElementType::Quad4.nodes_per_element() == 4,
        ElementType::Quad8.nodes_per_element() == 8,
        ElementType::Quad9.nodes_per_element() == 9,
        ElementType::Tetra4.nodes_per_element() == 4,
        ElementType::Tetra10.nodes_per_element() == 10,
        ElementType::Pyra5.nodes_per_element() == 5,
        ElementType::Pyra14.nodes_per_element() == 14,
        ElementType::Penta6.nodes_per_element() == 6,
        ElementType::Penta15.nodes_per_element() == 15,
        ElementType::Penta18.nodes_per_element() == 18,
        ElementType::Hexa8.nodes_per_element() == 8,
        ElementType::Hexa20.nodes_per_element() == 20,
        ElementType::Hexa27.nodes_per_element() == 27,
        ElementType::Null.nodes_per_element() == 0,
        ElementType::UserDefined.nodes_per_element() == 0,
        ElementType::Mixed.nodes_per_element() == 0,
        ElementType::NgoneN.nodes_per_element() == 0,
        ElementType::NfaceN.nodes_per_element() == 0,
{
}

/// A system of physical units for a base.
#[derive(Debug, Clone, Copy, PartialEq, Eq, Structural)]
pub struct UnitsSystem {
    pub mass: MassUnits,
    pub length: LengthUnits,
    pub time: TimeUnits,
    pub temperature: TemperatureUnits,
    pub angle: AngleUnits,
}

impl UnitsSystem {
    /// Build a units system from its five components.
    pub fn new(
        mass: MassUnits,
        length: LengthUnits,
        time: TimeUnits,
        temperature: TemperatureUnits,
        angle: AngleUnits,
    ) -> (u: UnitsSystem)
        ensures
            u == (UnitsSystem { mass, length, time, temperature, angle }),
    {
        UnitsSystem { mass, length, time, temperature, angle }
    }
}

} // verus!
