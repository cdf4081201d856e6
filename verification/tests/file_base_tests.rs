use cgns::data::{AngleUnits, DataClass, LengthUnits, MassUnits, SimulationType, TemperatureUnits, TimeUnits};
use cgns::error::CgnsError;
use cgns::{Base, CgnsFile};

fn name_buf(name: &str) -> Vec<u8> {
    let mut buf = vec![0u8; 64];
    buf[..name.len()].copy_from_slice(name.as_bytes());
    buf
}

fn reads(names: &[&str]) -> Vec<Result<Vec<u8>, String>> {
    names.iter().map(|n| Ok(name_buf(n))).collect()
}

fn open_file() -> CgnsFile {
    CgnsFile::open(Ok(5)).expect("open")
}

#[test]
fn open_create_modify_take_the_handle() {
    assert_eq!(CgnsFile::open(Ok(3)).unwrap().handle(), 3);
    assert_eq!(CgnsFile::create(Ok(4)).unwrap().handle(), 4);
    assert_eq!(CgnsFile::modify(Ok(9)).unwrap().handle(), 9);
    assert!(CgnsFile::open(Ok(3)).unwrap().needs_close());
}

#[test]
fn test_open_nonexistent() {
    let result = CgnsFile::open(Err("/nonexistent/path/test.cgns".to_string()));
    assert!(result.is_err());
    assert!(matches!(result, Err(CgnsError::CgnsCode(-1))));
}

#[test]
fn test_explicit_close() {
    let mut file = CgnsFile::create(Ok(1)).expect("create");
    assert!(file.needs_close());
    file.close(Ok(())).expect("close");
    assert!(!file.needs_close());
    // Double close should be a no-op, whatever the library would say.
    file.close(Err("already closed".to_string())).expect("close again");
    assert!(!file.needs_close());
    assert_eq!(file.handle(), 1);
}

#[test]
fn failed_close_leaves_file_open() {
    let mut file = open_file();
    assert!(matches!(file.close(Err("io".to_string())), Err(CgnsError::CgnsCode(-1))));
    assert!(file.needs_close());
    assert!(file.close(Ok(())).is_ok());
    assert!(!file.needs_close());
}

#[test]
fn create_base_keeps_name_and_index() {
    let file = open_file();
    let base = file.create_base("TestBase", Ok(1)).expect("create base");
    assert_eq!(base.index(), 1);
    assert_eq!(base.file_handle(), 5);
    assert_eq!(base.name().unwrap(), "TestBase");
    assert!(matches!(file.create_base("X", Err("e".to_string())), Err(CgnsError::CgnsCode(-1))));
}

#[test]
fn test_multiple_bases() {
    let file = open_file();
    let names = reads(&["BaseA", "BaseB", "BaseC"]);
    assert_eq!(file.base_count(Ok(3)).expect("count"), 3);
    let bases = file.bases(Ok(3), &names).expect("bases");
    assert_eq!(bases.len(), 3);
    assert_eq!(bases[0].name().expect("name"), "BaseA");
    assert_eq!(bases[1].name().expect("name"), "BaseB");
    assert_eq!(bases[2].name().expect("name"), "BaseC");
    assert_eq!(bases[0].index(), 1);
    assert_eq!(bases[2].index(), 3);
}

#[test]
fn base_lookup_finds_first_match() {
    let file = open_file();
    let names = reads(&["Base", "Base2", "Base2"]);
    let b = file.base("Base2", Ok(3), &names).expect("find base");
    assert_eq!(b.index(), 2);
    assert_eq!(b.name().unwrap(), "Base2");
    let b = file.base("Base", Ok(3), &names).expect("find base");
    assert_eq!(b.index(), 1);
}

#[test]
fn test_base_not_found() {
    let file = open_file();
    let names = reads(&["RealBase"]);
    let result = file.base("ImaginaryBase", Ok(1), &names);
    assert!(result.is_err());
    match result {
        Err(CgnsError::NotFound(m)) => assert_eq!(m, "base 'ImaginaryBase' not found"),
        _ => panic!("expected NotFound"),
    }
}

#[test]
fn test_empty_file() {
    let file = open_file();
    let names: Vec<Result<Vec<u8>, String>> = vec![];
    assert_eq!(file.base_count(Ok(0)).expect("count"), 0);
    let bases = file.bases(Ok(0), &names).expect("bases");
    assert!(bases.is_empty());
}

#[test]
fn base_lookup_reports_read_failures_and_bad_names() {
    let file = open_file();
    let names = vec![Ok(name_buf("A")), Err("read failed".to_string()), Ok(name_buf("B"))];
    assert!(file.base("A", Ok(3), &names).is_ok());
    assert!(matches!(file.base("B", Ok(3), &names), Err(CgnsError::CgnsCode(-1))));
    assert!(matches!(file.bases(Ok(3), &names), Err(CgnsError::CgnsCode(-1))));
    let bad = vec![Ok(vec![0xffu8, 0]), Ok(name_buf("B"))];
    assert!(matches!(file.base("B", Ok(2), &bad), Err(CgnsError::Invalid(_))));
    assert!(matches!(file.base("A", Err("e".to_string()), &bad), Err(CgnsError::CgnsCode(-1))));
}

#[test]
fn test_modify_mode() {
    let file = CgnsFile::modify(Ok(2)).expect("modify");
    assert_eq!(file.base_count(Ok(1)).expect("base count"), 1);
    let base2 = file.create_base("Base2", Ok(2)).expect("create base2");
    assert_eq!(base2.index(), 2);
    let names = reads(&["Base", "Base2"]);
    assert!(file.base("Base", Ok(2), &names).is_ok());
    assert!(file.base("Base2", Ok(2), &names).is_ok());
}

fn base() -> Base {
    open_file().create_base("Base", Ok(1)).unwrap()
}

#[test]
fn test_multiple_zones() {
    let b = base();
    assert_eq!(b.zone_count(Ok(2)).expect("count"), 2);
    let zones = b.zones(Ok(2)).expect("zones");
    assert_eq!(zones.len(), 2);
    assert_eq!(zones[0].index(), 1);
    assert_eq!(zones[1].index(), 2);
    assert_eq!(zones[1].base_index(), 1);
    assert_eq!(zones[1].file_handle(), 5);
    assert!(matches!(b.zones(Err("e".to_string())), Err(CgnsError::CgnsCode(-1))));
}

#[test]
fn create_zones() {
    let b = base();
    let z = b.create_zone_structured(Ok(3)).expect("create zone");
    assert_eq!(z.index(), 3);
    let u = b.create_zone_unstructured(Ok(4)).expect("create zone");
    assert_eq!(u.index(), 4);
    assert_eq!(Base::unstructured_zone_size(10, 5), [10, 5, 0]);
    assert!(b.create_zone_structured(Err("e".to_string())).is_err());
}

#[test]
fn node_path_of_base() {
    let b = base();
    assert_eq!(b.node_path().unwrap(), "/Base");
    let bad = open_file().create_base("Ba\0se", Ok(1)).unwrap();
    match bad.node_path() {
        Err(CgnsError::Invalid(m)) => assert_eq!(m, "nul byte found in provided data at position: 3"),
        _ => panic!("expected Invalid"),
    }
}

#[test]
fn test_units_dataclass_simulation_type() {
    let b = base();
    let raw = [
        MassUnits::Kilogram.to_raw(),
        LengthUnits::Meter.to_raw(),
        TimeUnits::Second.to_raw(),
        TemperatureUnits::Kelvin.to_raw(),
        AngleUnits::Radian.to_raw(),
    ];
    let units = b.read_units(0, 0, raw).expect("read units");
    assert_eq!(units.mass, MassUnits::Kilogram);
    assert_eq!(units.length, LengthUnits::Meter);
    assert_eq!(units.time, TimeUnits::Second);
    assert_eq!(units.temperature, TemperatureUnits::Kelvin);
    assert_eq!(units.angle, AngleUnits::Radian);

    let dc = b.read_dataclass(0, 0, DataClass::Dimensional.to_raw()).expect("read dataclass");
    assert_eq!(dc, DataClass::Dimensional);

    let st = b
        .read_simulation_type(Ok(SimulationType::NonTimeAccurate.to_raw()))
        .expect("read sim type");
    assert_eq!(st, SimulationType::NonTimeAccurate);
}

#[test]
fn unknown_codes_read_as_null() {
    let b = base();
    let units = b.read_units(0, 0, [99, 99, 99, 99, 99]).unwrap();
    assert_eq!(units.mass, MassUnits::Null);
    assert_eq!(units.angle, AngleUnits::Null);
    assert_eq!(b.read_dataclass(0, 0, 77).unwrap(), DataClass::Null);
    assert_eq!(b.read_simulation_type(Ok(77)).unwrap(), SimulationType::Null);
    assert!(matches!(b.read_units(2, 0, [0; 5]), Err(CgnsError::CgnsCode(2))));
    assert!(matches!(b.read_units(0, 4, [0; 5]), Err(CgnsError::CgnsCode(4))));
    assert!(matches!(b.read_dataclass(0, 1, 2), Err(CgnsError::CgnsCode(1))));
    assert!(matches!(b.read_simulation_type(Err("e".to_string())), Err(CgnsError::CgnsCode(-1))));
}

#[test]
fn test_family_names_readback() {
    let b = base();
    let names = reads(&["Farfield", "Wing", "Fuselage", "Tail"]);
    assert_eq!(b.family_count(Ok(4)).expect("family count"), 4);
    let names = b.family_names(Ok(4), &names).expect("family names");
    assert_eq!(names.len(), 4);
    assert!(names.contains(&"Farfield".to_string()));
    assert!(names.contains(&"Wing".to_string()));
    assert!(names.contains(&"Fuselage".to_string()));
    assert!(names.contains(&"Tail".to_string()));
}

#[test]
fn family_names_report_first_failure() {
    let b = base();
    let names = vec![Ok(name_buf("Wing")), Ok(vec![0xc3, 0x28, 0]), Err("x".to_string())];
    assert!(matches!(b.family_names(Ok(3), &names), Err(CgnsError::Invalid(_))));
    assert_eq!(b.family_names(Ok(1), &names).unwrap(), vec!["Wing".to_string()]);
}
