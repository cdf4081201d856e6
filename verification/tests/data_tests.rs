use cgns::data::{
    AngleUnits, BcType, DataClass, DataType, ElementType, GridConnectivityType, GridLocation,
    LengthUnits, MassUnits, PointSetType, SimulationType, TemperatureUnits, TimeUnits, UnitsSystem,
    ZoneType,
};

#[test]
fn grid_location_codes() {
    let all = [
        (GridLocation::Null, 0u32),
        (GridLocation::Vertex, 2),
        (GridLocation::CellCenter, 3),
        (GridLocation::FaceCenter, 4),
        (GridLocation::IFaceCenter, 5),
        (GridLocation::JFaceCenter, 6),
        (GridLocation::KFaceCenter, 7),
        (GridLocation::EdgeCenter, 8),
    ];
    for (v, code) in all {
        assert_eq!(v.to_raw(), code);
        assert_eq!(GridLocation::from_raw(code), Some(v));
    }
    assert_eq!(GridLocation::from_raw(1), None);
    assert_eq!(GridLocation::from_raw(9), None);
}

#[test]
fn data_type_codes() {
    assert_eq!(DataType::I4.to_raw(), 2);
    assert_eq!(DataType::R4.to_raw(), 3);
    assert_eq!(DataType::R8.to_raw(), 4);
    assert_eq!(DataType::Char.to_raw(), 5);
    assert_eq!(DataType::I8.to_raw(), 6);
    for v in [DataType::I4, DataType::I8, DataType::R4, DataType::R8, DataType::Char] {
        assert_eq!(DataType::from_raw(v.to_raw()), Some(v));
    }
    assert_eq!(DataType::from_raw(0), None);
    assert_eq!(DataType::from_raw(7), None);
}

#[test]
fn zone_type_codes() {
    assert_eq!(ZoneType::Structured.to_raw(), 2);
    assert_eq!(ZoneType::Unstructured.to_raw(), 3);
    assert_eq!(ZoneType::from_raw(2), Some(ZoneType::Structured));
    assert_eq!(ZoneType::from_raw(3), Some(ZoneType::Unstructured));
    assert_eq!(ZoneType::from_raw(0), None);
}

fn all_element_types() -> Vec<ElementType> {
    vec![
        ElementType::Null,
        ElementType::UserDefined,
        ElementType::Node,
        ElementType::Bar2,
        ElementType::Bar3,
        ElementType::Tri3,
        ElementType::Tri6,
        ElementType::Quad4,
        ElementType::Quad8,
        ElementType::Quad9,
        ElementType::Tetra4,
        ElementType::Tetra10,
        ElementType::Pyra5,
        ElementType::Pyra14,
        ElementType::Penta6,
        ElementType::Penta15,
        ElementType::Penta18,
        ElementType::Hexa8,
        ElementType::Hexa20,
        ElementType::Hexa27,
        ElementType::Mixed,
        ElementType::NgoneN,
        ElementType::NfaceN,
    ]
}

#[test]
fn element_type_round_trip_and_codes() {
    for t in all_element_types() {
        assert_eq!(ElementType::from_raw(t.to_raw()), Some(t));
    }
    assert_eq!(ElementType::Tri3.to_raw(), 5);
    assert_eq!(ElementType::Hexa8.to_raw(), 17);
    assert_eq!(ElementType::Mixed.to_raw(), 20);
    assert_eq!(ElementType::NgoneN.to_raw(), 22);
    assert_eq!(ElementType::NfaceN.to_raw(), 23);
    // 21 (PYRA_13) is not one of this binding's element types.
    assert_eq!(ElementType::from_raw(21), None);
    assert_eq!(ElementType::from_raw(1000), None);
}

#[test]
fn element_npe_matches_connectivity_lengths() {
    let bar2: Vec<i64> = vec![1, 2];
    let bar3: Vec<i64> = vec![1, 2, 12];
    let tri3: Vec<i64> = vec![4, 3, 9];
    let tri6: Vec<i64> = vec![4, 3, 9, 14, 31, 32];
    let quad4: Vec<i64> = vec![1, 2, 3, 4];
    let quad8: Vec<i64> = vec![1, 2, 3, 4, 12, 13, 14, 15];
    let quad9: Vec<i64> = vec![1, 2, 3, 4, 12, 13, 14, 15, 24];
    let tetra4: Vec<i64> = vec![8, 7, 10, 11];
    let tetra10: Vec<i64> = vec![8, 7, 10, 11, 22, 35, 36, 41, 40, 42];
    let pyra5: Vec<i64> = vec![5, 6, 7, 8, 11];
    let pyra14: Vec<i64> = vec![5, 6, 7, 8, 11, 20, 21, 22, 23, 38, 39, 40, 41, 29];
    let penta6: Vec<i64> = vec![4, 3, 9, 8, 7, 10];
    let penta15: Vec<i64> = vec![4, 3, 9, 8, 7, 10, 14, 31, 32, 19, 18, 35, 22, 34, 35];
    let penta18: Vec<i64> = vec![
        4, 3, 9, 8, 7, 10, 14, 31, 32, 19, 18, 35, 22, 34, 35, 27, 36, 37,
    ];
    let hexa8: Vec<i64> = vec![1, 2, 3, 4, 5, 6, 7, 8];
    let hexa20: Vec<i64> = (1..=20).collect();
    let hexa27: Vec<i64> = (1..=27).collect();
    let cases: Vec<(ElementType, Vec<i64>)> = vec![
        (ElementType::Bar2, bar2),
        (ElementType::Bar3, bar3),
        (ElementType::Tri3, tri3),
        (ElementType::Tri6, tri6),
        (ElementType::Quad4, quad4),
        (ElementType::Quad8, quad8),
        (ElementType::Quad9, quad9),
        (ElementType::Tetra4, tetra4),
        (ElementType::Tetra10, tetra10),
        (ElementType::Pyra5, pyra5),
        (ElementType::Pyra14, pyra14),
        (ElementType::Penta6, penta6),
        (ElementType::Penta15, penta15),
        (ElementType::Penta18, penta18),
        (ElementType::Hexa8, hexa8),
        (ElementType::Hexa20, hexa20),
        (ElementType::Hexa27, hexa27),
    ];
    for (t, conn) in cases {
        assert_eq!(conn.len(), t.npe() as usize, "wrong npe for {:?}", t);
    }
    assert_eq!(ElementType::Node.npe(), 1);
}

#[test]
fn element_npe_zero_for_variable_and_placeholder_types() {
    assert_eq!(ElementType::Mixed.npe(), 0);
    assert_eq!(ElementType::NgoneN.npe(), 0);
    assert_eq!(ElementType::NfaceN.npe(), 0);
    assert_eq!(ElementType::Null.npe(), 0);
    assert_eq!(ElementType::UserDefined.npe(), 0);
}

#[test]
fn bc_type_codes() {
    let all = [
        BcType::Null,
        BcType::UserDefined,
        BcType::AxisymmetricWedge,
        BcType::DegenerateLine,
        BcType::DegeneratePoint,
        BcType::Dirichlet,
        BcType::Extrapolate,
        BcType::Farfield,
        BcType::General,
        BcType::Inflow,
        BcType::InflowSubsonic,
        BcType::InflowSupersonic,
        BcType::Neumann,
        BcType::Outflow,
        BcType::OutflowSubsonic,
        BcType::OutflowSupersonic,
        BcType::SymmetryPlane,
        BcType::SymmetryPolar,
        BcType::TunnelInflow,
        BcType::TunnelOutflow,
        BcType::Wall,
        BcType::WallInviscid,
        BcType::WallViscous,
        BcType::WallViscousHeatFlux,
        BcType::WallViscousIsothermal,
    ];
    for (i, t) in all.iter().enumerate() {
        assert_eq!(t.to_raw(), i as u32);
        assert_eq!(BcType::from_raw(i as u32), Some(*t));
    }
    // 25 is FamilySpecified, which this binding does not model.
    assert_eq!(BcType::from_raw(25), None);
}

#[test]
fn unit_codes_round_trip() {
    for u in [MassUnits::Null, MassUnits::UserDefined, MassUnits::Kilogram, MassUnits::Gram, MassUnits::Slug, MassUnits::PoundMass] {
        assert_eq!(MassUnits::from_raw(u.to_raw()), Some(u));
    }
    for u in [LengthUnits::Null, LengthUnits::UserDefined, LengthUnits::Meter, LengthUnits::Centimeter, LengthUnits::Millimeter, LengthUnits::Foot, LengthUnits::Inch] {
        assert_eq!(LengthUnits::from_raw(u.to_raw()), Some(u));
    }
    for u in [TimeUnits::Null, TimeUnits::UserDefined, TimeUnits::Second] {
        assert_eq!(TimeUnits::from_raw(u.to_raw()), Some(u));
    }
    for u in [TemperatureUnits::Null, TemperatureUnits::UserDefined, TemperatureUnits::Kelvin, TemperatureUnits::Celsius, TemperatureUnits::Rankine, TemperatureUnits::Fahrenheit] {
        assert_eq!(TemperatureUnits::from_raw(u.to_raw()), Some(u));
    }
    for u in [AngleUnits::Null, AngleUnits::UserDefined, AngleUnits::Degree, AngleUnits::Radian] {
        assert_eq!(AngleUnits::from_raw(u.to_raw()), Some(u));
    }
    assert_eq!(MassUnits::Kilogram.to_raw(), 2);
    assert_eq!(LengthUnits::Meter.to_raw(), 2);
    assert_eq!(TimeUnits::Second.to_raw(), 2);
    assert_eq!(TemperatureUnits::Kelvin.to_raw(), 2);
    assert_eq!(AngleUnits::Radian.to_raw(), 3);
    assert_eq!(MassUnits::from_raw(6), None);
    assert_eq!(LengthUnits::from_raw(7), None);
    assert_eq!(TimeUnits::from_raw(3), None);
    assert_eq!(TemperatureUnits::from_raw(6), None);
    assert_eq!(AngleUnits::from_raw(4), None);
}

#[test]
fn dataclass_connectivity_simulation_point_set_codes() {
    for d in [DataClass::Null, DataClass::UserDefined, DataClass::Dimensional, DataClass::NormalizedByDimensional, DataClass::NormalizedByUnknownDimensional, DataClass::NondimensionalParameter, DataClass::DimensionlessConstant] {
        assert_eq!(DataClass::from_raw(d.to_raw()), Some(d));
    }
    assert_eq!(DataClass::Dimensional.to_raw(), 2);
    for g in [GridConnectivityType::Null, GridConnectivityType::UserDefined, GridConnectivityType::Overset, GridConnectivityType::Abutting, GridConnectivityType::Abutting1to1] {
        assert_eq!(GridConnectivityType::from_raw(g.to_raw()), Some(g));
    }
    assert_eq!(GridConnectivityType::Abutting1to1.to_raw(), 4);
    for s in [SimulationType::Null, SimulationType::UserDefined, SimulationType::TimeAccurate, SimulationType::NonTimeAccurate] {
        assert_eq!(SimulationType::from_raw(s.to_raw()), Some(s));
    }
    assert_eq!(SimulationType::NonTimeAccurate.to_raw(), 3);
    for p in [PointSetType::PointList, PointSetType::PointListDonor, PointSetType::PointRange, PointSetType::PointRangeDonor, PointSetType::ElementRange, PointSetType::ElementList, PointSetType::CellListDonor] {
        assert_eq!(PointSetType::from_raw(p.to_raw()), Some(p));
    }
    assert_eq!(PointSetType::PointList.to_raw(), 2);
    assert_eq!(PointSetType::PointRange.to_raw(), 4);
    assert_eq!(PointSetType::from_raw(0), None);
    assert_eq!(PointSetType::from_raw(1), None);
}

#[test]
fn units_system_new_keeps_components() {
    let u = UnitsSystem::new(
        MassUnits::Kilogram,
        LengthUnits::Meter,
        TimeUnits::Second,
        TemperatureUnits::Kelvin,
        AngleUnits::Radian,
    );
    assert_eq!(u.mass, MassUnits::Kilogram);
    assert_eq!(u.length, LengthUnits::Meter);
    assert_eq!(u.time, TimeUnits::Second);
    assert_eq!(u.temperature, TemperatureUnits::Kelvin);
    assert_eq!(u.angle, AngleUnits::Radian);
}
