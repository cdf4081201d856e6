use cgns::data::{BcType, PointSetType, ZoneType};
use cgns::error::CgnsError;
use cgns::{CgnsFile, RawBcInfo, Zone};

fn name_buf(name: &str) -> Vec<u8> {
    let mut buf = vec![0u8; 64];
    buf[..name.len()].copy_from_slice(name.as_bytes());
    buf
}

fn status_reads(names: &[&str]) -> Vec<(i32, Vec<u8>)> {
    names.iter().map(|n| (0, name_buf(n))).collect()
}

fn zone() -> Zone {
    let file = CgnsFile::open(Ok(7)).unwrap();
    let base = file.create_base("Base", Ok(1)).unwrap();
    base.create_zone_structured(Ok(2)).unwrap()
}

fn bc_raw(name: &str, bc_type: BcType, ps: PointSetType, n: i64) -> RawBcInfo {
    RawBcInfo { name: name_buf(name), bc_type: bc_type.to_raw(), point_set_type: ps.to_raw(), num_points: n }
}

#[test]
fn zone_type_from_status_and_code() {
    let z = zone();
    assert_eq!(z.zone_type(0, ZoneType::Structured.to_raw()).unwrap(), ZoneType::Structured);
    assert_eq!(z.zone_type(0, ZoneType::Unstructured.to_raw()).unwrap(), ZoneType::Unstructured);
    assert!(matches!(z.zone_type(3, 2), Err(CgnsError::CgnsCode(3))));
    match z.zone_type(0, 0) {
        Err(CgnsError::Invalid(m)) => assert_eq!(m, "unknown zone type"),
        _ => panic!("expected Invalid"),
    }
}

#[test]
fn coord_count_and_names() {
    let z = zone();
    assert_eq!(z.coord_count(0, 3).unwrap(), 3);
    assert!(matches!(z.coord_count(1, 3), Err(CgnsError::CgnsCode(1))));
    let infos = status_reads(&["CoordinateX", "CoordinateY", "CoordinateZ"]);
    assert_eq!(
        z.coord_names(0, 3, &infos).expect("coord names"),
        vec!["CoordinateX", "CoordinateY", "CoordinateZ"]
    );
    let mut failing = status_reads(&["CoordinateX", "CoordinateY"]);
    failing[1].0 = 5;
    assert!(matches!(z.coord_names(0, 2, &failing), Err(CgnsError::CgnsCode(5))));
}

#[test]
fn test_multiple_solutions_and_fields() {
    let z = zone();
    let infos = status_reads(&["Sol1", "Sol2"]);
    assert_eq!(z.solution_count(0, 2).expect("sol count"), 2);
    let sol1 = z.solution("Sol1", 0, 2, &infos).expect("find Sol1");
    assert_eq!(sol1.index(), 1);
    assert_eq!(sol1.field_count(0, 2).expect("field count"), 2);
    let sol2 = z.solution("Sol2", 0, 2, &infos).expect("find Sol2");
    assert_eq!(sol2.index(), 2);
    assert_eq!(sol2.zone_index(), 2);
    assert_eq!(sol2.base_index(), 1);
    assert_eq!(sol2.file_handle(), 7);
    assert_eq!(sol2.field_count(0, 1).expect("field count"), 1);
    assert!(matches!(sol2.field_count(9, 1), Err(CgnsError::CgnsCode(9))));
}

#[test]
fn solution_not_found_and_listing() {
    let z = zone();
    let infos = status_reads(&["VertexSol", "CellSol"]);
    match z.solution("Missing", 0, 2, &infos) {
        Err(CgnsError::NotFound(m)) => assert_eq!(m, "solution 'Missing' not found"),
        _ => panic!("expected NotFound"),
    }
    let sols = z.solutions(0, 2).unwrap();
    assert_eq!(sols.len(), 2);
    assert_eq!(sols[1].index(), 2);
    assert!(matches!(z.solutions(4, 2), Err(CgnsError::CgnsCode(4))));
    let w = z.write_solution(Ok(3)).unwrap();
    assert_eq!(w.index(), 3);
}

#[test]
fn sections_listing_and_lookup() {
    let z = zone();
    let secs = z.sections(Ok(2)).expect("sections");
    assert_eq!(secs.len(), 2);
    assert_eq!(secs[0].index(), 1);
    assert_eq!(secs[1].zone_index(), 2);
    let infos = status_reads(&["Tris", "Tets"]);
    let tets = z.section("Tets", Ok(2), &infos).expect("find Tets");
    assert_eq!(tets.index(), 2);
    match z.section("Quads", Ok(2), &infos) {
        Err(CgnsError::NotFound(m)) => assert_eq!(m, "section 'Quads' not found"),
        _ => panic!("expected NotFound"),
    }
    assert_eq!(z.section_count(Ok(2)).unwrap(), 2);
    assert_eq!(z.write_section(Ok(5)).unwrap().index(), 5);
}

#[test]
fn test_boundary_conditions() {
    let z = zone();
    assert_eq!(z.bc_count(Ok(1)).expect("bc count"), 1);
    let bc = z.write_bc(Ok(1)).expect("write BC");
    assert_eq!(bc.index(), 1);
    let bcs = z.bcs(Ok(3)).unwrap();
    assert_eq!(bcs.len(), 3);
    assert_eq!(bcs[2].index(), 3);
}

#[test]
fn test_bc_types() {
    let z = zone();
    let infos = vec![
        Ok(bc_raw("Wall", BcType::Wall, PointSetType::PointRange, 2)),
        Ok(bc_raw("Inflow", BcType::InflowSubsonic, PointSetType::PointRange, 2)),
        Ok(bc_raw("Outflow", BcType::OutflowSupersonic, PointSetType::PointRange, 2)),
        Ok(bc_raw("Farfield", BcType::Farfield, PointSetType::PointRange, 2)),
        Ok(bc_raw("Symmetry", BcType::SymmetryPlane, PointSetType::PointRange, 2)),
    ];
    assert_eq!(z.bc_count(Ok(5)).expect("BC count"), 5);
    let expected = [
        ("Wall", BcType::Wall),
        ("Inflow", BcType::InflowSubsonic),
        ("Outflow", BcType::OutflowSupersonic),
        ("Farfield", BcType::Farfield),
        ("Symmetry", BcType::SymmetryPlane),
    ];
    for (i, (name, t)) in expected.iter().enumerate() {
        let bc = z.bc(name, Ok(5), &infos).expect("find BC");
        assert_eq!(bc.index(), i as i32 + 1);
        let info = bc.info(infos[i].clone()).expect("info");
        assert_eq!(info.bc_type, *t);
        assert_eq!(info.name, *name);
    }
    match z.bc("Nope", Ok(5), &infos) {
        Err(CgnsError::NotFound(m)) => assert_eq!(m, "BC 'Nope' not found"),
        _ => panic!("expected NotFound"),
    }
}

#[test]
fn bc_lookup_stops_at_read_failure() {
    let z = zone();
    let infos = vec![Ok(bc_raw("A", BcType::Wall, PointSetType::PointList, 1)), Err("e".to_string())];
    assert!(z.bc("A", Ok(2), &infos).is_ok());
    assert!(matches!(z.bc("B", Ok(2), &infos), Err(CgnsError::CgnsCode(-1))));
}

#[test]
fn test_1to1_connectivity() {
    let z = zone();
    assert_eq!(z.n1to1(Ok(1)).expect("n1to1"), 1);
    let o = z.write_1to1(Ok(1)).expect("write 1to1");
    assert_eq!(o.index(), 1);
    let all = z.one_to_ones(Ok(2)).unwrap();
    assert_eq!(all.len(), 2);
    assert_eq!(all[1].index(), 2);
    assert_eq!(all[1].zone_index(), 2);
    assert!(z.one_to_ones(Ok(0)).unwrap().is_empty());
}
