use cgns::data::{BcType, DataType, ElementType, GridConnectivityType, GridLocation, PointSetType, ZoneType};
use cgns::error::CgnsError;
use cgns::{
    Bc, CgnsFile, GeneralConnectivity, RawBcInfo, RawConnectivityInfo, RawOneToOne,
    RawSectionInfo, Section, Zone,
};

fn name_buf(name: &str) -> Vec<u8> {
    let mut buf = vec![0u8; 64];
    buf[..name.len()].copy_from_slice(name.as_bytes());
    buf
}

fn zone() -> Zone {
    let file = CgnsFile::open(Ok(7)).unwrap();
    let base = file.create_base("Base", Ok(1)).unwrap();
    base.create_zone_unstructured(Ok(1)).unwrap()
}

fn section() -> Section {
    zone().write_section(Ok(1)).unwrap()
}

fn raw_section(name: &str, t: ElementType, start: i64, end: i64, nbndry: i32) -> RawSectionInfo {
    RawSectionInfo { name: name_buf(name), element_type: t.to_raw(), start, end, nbndry, parent_flag: 0 }
}

#[test]
fn test_unstructured_tri3() {
    let sec = section();
    let conn: Vec<i64> = vec![1, 2, 3, 2, 4, 3, 1, 3, 4];
    let raw = raw_section("TriSection", ElementType::Tri3, 1, 3, 0);
    let info = sec.info(Ok(raw.clone())).expect("section info");
    assert_eq!(info.name, "TriSection");
    assert_eq!(info.element_type, ElementType::Tri3);
    assert_eq!(info.start, 1);
    assert_eq!(info.end, 3);
    assert_eq!(sec.element_count(Ok(raw.clone())).expect("element count"), 3);

    let read_conn = sec.read_connectivity(Ok(9), Ok(conn.clone())).expect("read connectivity");
    assert_eq!(read_conn, conn);

    let arr = sec.read_connectivity_ndarray(Ok(raw), Ok(conn)).expect("ndarray");
    assert_eq!(arr.array.shape(), &[3, 3]);
    assert_eq!(arr.array[(0, 0)], 1);
    assert_eq!(arr.array[(2, 2)], 4);
}

#[test]
fn test_unstructured_tetra4() {
    let sec = section();
    let conn: Vec<i64> = vec![1, 2, 3, 4, 2, 5, 4, 3];
    let raw = raw_section("TetSection", ElementType::Tetra4, 1, 2, 0);
    let info = sec.info(Ok(raw.clone())).expect("section info");
    assert_eq!(info.element_type, ElementType::Tetra4);
    assert_eq!(sec.element_count(Ok(raw.clone())).expect("element count"), 2);
    let arr = sec.read_connectivity_ndarray(Ok(raw), Ok(conn)).expect("ndarray");
    assert_eq!(arr.array.shape(), &[2, 4]);
    assert_eq!(arr.array[(1, 1)], 5);
}

#[test]
fn test_unstructured_hexa8() {
    let sec = section();
    let conn: Vec<i64> = vec![1, 2, 3, 4, 5, 6, 7, 8];
    let raw = raw_section("HexSection", ElementType::Hexa8, 1, 1, 0);
    let arr = sec.read_connectivity_ndarray(Ok(raw), Ok(conn)).expect("ndarray");
    assert_eq!(arr.array.shape(), &[1, 8]);
}

#[test]
fn ndarray_rejects_mixed_zero_npe_and_ragged() {
    let sec = section();
    let mixed = raw_section("M", ElementType::Mixed, 1, 1, 0);
    match sec.read_connectivity_ndarray(Ok(mixed), Ok(vec![5, 1, 2, 3])) {
        Err(CgnsError::Invalid(m)) => {
            assert_eq!(m, "cannot reshape Mixed element connectivity with fixed npe")
        }
        _ => panic!("expected Invalid"),
    }
    let ngon = raw_section("N", ElementType::NgoneN, 1, 1, 0);
    match sec.read_connectivity_ndarray(Ok(ngon), Ok(vec![1, 2, 3])) {
        Err(CgnsError::Invalid(m)) => {
            assert_eq!(m, "cannot reshape element type with zero vertices per element")
        }
        _ => panic!("expected Invalid"),
    }
    let tri = raw_section("T", ElementType::Tri3, 1, 1, 0);
    match sec.read_connectivity_ndarray(Ok(tri.clone()), Ok(vec![1, 2, 3, 4])) {
        Err(CgnsError::Invalid(m)) => assert_eq!(m, "connectivity size not divisible by npe"),
        _ => panic!("expected Invalid"),
    }
    assert!(matches!(
        sec.read_connectivity_ndarray(Ok(tri.clone()), Err(CgnsError::CgnsCode(4))),
        Err(CgnsError::CgnsCode(4))
    ));
    let empty = sec.read_connectivity_ndarray(Ok(tri), Ok(vec![])).unwrap();
    assert_eq!(empty.array.shape(), &[0, 3]);
}

#[test]
fn section_info_failures_and_defaults() {
    let sec = section();
    match sec.info(Err("cg_section_read failed".to_string())) {
        Err(CgnsError::Invalid(m)) => assert_eq!(m, "cg_section_read failed"),
        _ => panic!("expected Invalid"),
    }
    let mut raw = raw_section("S", ElementType::Tri3, 1, 1, 0);
    raw.element_type = 99;
    assert_eq!(sec.info(Ok(raw.clone())).unwrap().element_type, ElementType::Null);
    raw.name = vec![0xff, 0];
    assert!(matches!(sec.info(Ok(raw)), Err(CgnsError::Invalid(_))));
    assert!(matches!(sec.read_connectivity(Err("size".to_string()), Ok(vec![])), Err(CgnsError::Invalid(_))));
    assert!(matches!(sec.read_connectivity(Ok(1), Err("read".to_string())), Err(CgnsError::Invalid(_))));
    assert_eq!(Section::connectivity_buffer_len(12), 12);
}

#[test]
fn element_count_with_offsets() {
    let sec = section();
    let quads = raw_section("Quads", ElementType::Quad4, 5, 6, 2);
    assert_eq!(sec.element_count(Ok(quads.clone())).unwrap(), 2);
    let info = sec.info(Ok(quads)).unwrap();
    assert_eq!(info.nbndry, 2);
    assert_eq!(info.start, 5);
    assert_eq!(info.end, 6);
}

fn bc() -> Bc {
    zone().write_bc(Ok(1)).unwrap()
}

#[test]
fn bc_info_and_points() {
    let b = bc();
    let raw = RawBcInfo {
        name: name_buf("AllWalls"),
        bc_type: BcType::Wall.to_raw(),
        point_set_type: PointSetType::PointList.to_raw(),
        num_points: 8,
    };
    let info = b.info(Ok(raw.clone())).expect("BC info");
    assert_eq!(info.name, "AllWalls");
    assert_eq!(info.bc_type, BcType::Wall);
    assert_eq!(info.point_set_type, PointSetType::PointList);
    assert_eq!(info.num_points, 8);
    // An unstructured zone has index dimension 1: one value per point.
    let len = Bc::point_buffer_len(&info, 1);
    assert_eq!(len, 8);
    let mut buffer = vec![0i64; len];
    buffer.copy_from_slice(&[1, 2, 3, 4, 5, 6, 7, 8]);
    let pts = b.read_points(Ok(raw), 1, Ok(buffer)).expect("BC points");
    assert_eq!(pts, [1i64, 2, 3, 4, 5, 6, 7, 8]);
}

#[test]
fn bc_info_defaults_and_failures() {
    let b = bc();
    let raw = RawBcInfo { name: name_buf("X"), bc_type: 999, point_set_type: 999, num_points: 1 };
    let info = b.info(Ok(raw.clone())).unwrap();
    assert_eq!(info.bc_type, BcType::Null);
    assert_eq!(info.point_set_type, PointSetType::PointList);
    assert!(matches!(b.info(Err("e".to_string())), Err(CgnsError::CgnsCode(-1))));
    assert!(matches!(b.read_points(Ok(raw), 3, Err("e".to_string())), Err(CgnsError::CgnsCode(-1))));
    assert_eq!(Bc::point_buffer_len(&info, 3), 3);
    assert_eq!(Bc::point_buffer_len(&info, 0), 0);
}

#[test]
fn test_multiple_1to1() {
    let o = zone().write_1to1(Ok(1)).unwrap();
    let raw = RawOneToOne {
        name: name_buf("Z1_to_Z2"),
        donor_name: name_buf("Zone2"),
        range: [2, 1, 1, 2, 2, 2],
        donor_range: [1, 1, 1, 1, 2, 2],
        transform: [1, 2, 3],
    };
    let info = o.read(Ok(raw)).expect("read 1to1");
    assert_eq!(info.name, "Z1_to_Z2");
    assert_eq!(info.donor_name, "Zone2");
    assert_eq!(info.range, vec![2, 1, 1, 2, 2, 2]);
    assert_eq!(info.donor_range, vec![1, 1, 1, 1, 2, 2]);
    assert_eq!(info.transform, vec![1, 2, 3]);
    assert!(matches!(o.read(Err("e".to_string())), Err(CgnsError::CgnsCode(-1))));
}

fn conn() -> GeneralConnectivity {
    zone().write_conn(Ok(1)).unwrap()
}

fn raw_conn() -> RawConnectivityInfo {
    RawConnectivityInfo {
        name: name_buf("TestConn"),
        location: GridLocation::Vertex.to_raw(),
        connection_type: GridConnectivityType::Abutting.to_raw(),
        point_set_type: PointSetType::PointRange.to_raw(),
        num_points: 2,
        donor_name: name_buf("Zone"),
        donor_zone_type: ZoneType::Structured.to_raw(),
        donor_point_set_type: PointSetType::PointListDonor.to_raw(),
        donor_data_type: DataType::I8.to_raw(),
        num_donor_data: 2,
    }
}

#[test]
fn test_conn_minimal() {
    let c = conn();
    let info = c.info(Ok(raw_conn())).expect("conn info");
    assert_eq!(info.name, "TestConn");
    assert_eq!(info.num_points, 2);
    assert_eq!(info.num_donor_data, 2);
    assert_eq!(info.location, GridLocation::Vertex);
    assert_eq!(info.connection_type, GridConnectivityType::Abutting);
    assert_eq!(info.donor_zone_type, ZoneType::Structured);
    assert_eq!(GeneralConnectivity::data_lengths(&info, 3), (6, 6));
    let data = c
        .read_data(Ok(raw_conn()), 3, Ok((vec![1i64, 1, 1, 1, 2, 2], vec![1i64, 1, 1, 1, 2, 2])))
        .expect("read_data");
    assert_eq!(data.points, vec![1i64, 1, 1, 1, 2, 2]);
    assert_eq!(data.donor_data, vec![1i64, 1, 1, 1, 2, 2]);
    assert_eq!(data.info.donor_name, "Zone");
}

#[test]
fn conn_info_rejects_bad_codes_in_order() {
    let c = conn();
    let mut raw = raw_conn();
    raw.location = 99;
    raw.donor_data_type = 99;
    match c.info(Ok(raw)) {
        Err(CgnsError::Invalid(m)) => assert_eq!(m, "invalid grid location"),
        _ => panic!("expected Invalid"),
    }
    let mut raw = raw_conn();
    raw.donor_data_type = 99;
    match c.info(Ok(raw)) {
        Err(CgnsError::Invalid(m)) => assert_eq!(m, "invalid donor data type"),
        _ => panic!("expected Invalid"),
    }
    let mut raw = raw_conn();
    raw.donor_zone_type = 1;
    match c.info(Ok(raw)) {
        Err(CgnsError::Invalid(m)) => assert_eq!(m, "invalid zone type"),
        _ => panic!("expected Invalid"),
    }
    match c.info(Err("conn_info failed".to_string())) {
        Err(CgnsError::Invalid(m)) => assert_eq!(m, "conn_info failed"),
        _ => panic!("expected Invalid"),
    }
    let mut raw = raw_conn();
    raw.name = vec![0xff, 0];
    assert_eq!(c.info(Ok(raw)).unwrap().name, "");
    match c.read_data(Ok(raw_conn()), 3, Err("conn_read failed".to_string())) {
        Err(CgnsError::Invalid(m)) => assert_eq!(m, "conn_read failed"),
        _ => panic!("expected Invalid"),
    }
}

fn invalid_text<T>(r: Result<T, CgnsError>) -> String {
    match r {
        Err(CgnsError::Invalid(m)) => m,
        Err(other) => panic!("expected Invalid, got {:?}", other),
        Ok(_) => panic!("expected Invalid, got a value"),
    }
}

#[test]
fn undecodable_section_name_gives_the_same_error_everywhere() {
    let sec = section();
    let mut raw = raw_section("Tris", ElementType::Tri3, 1, 4, 0);
    raw.name = vec![b'T', 0xff, b'x', 0];
    let expected = std::str::from_utf8(&[b'T', 0xff, b'x']).unwrap_err().to_string();
    assert_eq!(invalid_text(sec.info(Ok(raw.clone()))), expected);
    assert_eq!(invalid_text(sec.element_count(Ok(raw.clone()))), expected);
    assert_eq!(invalid_text(sec.read_connectivity_ndarray(Ok(raw), Ok(vec![1, 2, 3]))), expected);
}

#[test]
fn undecodable_bc_name_gives_the_same_error_in_lookup_and_info() {
    let z = zone();
    let raw = RawBcInfo {
        name: vec![0xc3, 0x28, 0],
        bc_type: BcType::Wall.to_raw(),
        point_set_type: PointSetType::PointList.to_raw(),
        num_points: 1,
    };
    let expected = std::str::from_utf8(&[0xc3, 0x28]).unwrap_err().to_string();
    let b = z.bcs(Ok(1)).unwrap().remove(0);
    assert_eq!(invalid_text(b.info(Ok(raw.clone()))), expected);
    assert_eq!(invalid_text(z.bc("Wall", Ok(1), &vec![Ok(raw)])), expected);
}

#[test]
fn connection_data_has_one_value_per_direction_per_point() {
    let c = conn();
    let info = c.info(Ok(raw_conn())).unwrap();
    let (np, nd) = GeneralConnectivity::data_lengths(&info, 2);
    assert_eq!((np, nd), (4, 4));
    let data = c.read_data(Ok(raw_conn()), 2, Ok((vec![7i64; np], vec![8i64; nd]))).unwrap();
    assert_eq!(data.points.len(), 4);
    assert_eq!(data.donor_data, vec![8i64; 4]);
}
