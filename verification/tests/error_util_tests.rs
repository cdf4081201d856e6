use cgns::error::{check_sys_status, from_sys_result, CgnsError, CG_OK};
use cgns::util::{c_string_len, check_no_nul, read_c_string, same_text};

#[test]
fn from_sys_result_maps_failures_to_minus_one() {
    let ok: Result<i32, String> = Ok(7);
    assert!(matches!(from_sys_result(ok), Ok(7)));
    let err: Result<i32, String> = Err("boom".to_string());
    assert!(matches!(from_sys_result(err), Err(CgnsError::CgnsCode(-1))));
}

#[test]
fn check_sys_status_keeps_code() {
    assert!(check_sys_status(CG_OK).is_ok());
    assert!(matches!(check_sys_status(1), Err(CgnsError::CgnsCode(1))));
    assert!(matches!(check_sys_status(-3), Err(CgnsError::CgnsCode(-3))));
}

#[test]
fn from_string_gives_code_minus_one() {
    let e: CgnsError = CgnsError::from("anything".to_string());
    assert!(matches!(e, CgnsError::CgnsCode(-1)));
}

#[test]
fn error_messages() {
    assert_eq!(
        CgnsError::CgnsCode(-12).message("file not open"),
        "CGNS error (code -12): file not open"
    );
    assert_eq!(CgnsError::CgnsCode(3).message("x"), "CGNS error (code 3): x");
    assert_eq!(CgnsError::Invalid("bad".to_string()).message("ignored"), "invalid: bad");
    assert_eq!(
        CgnsError::NotFound("base 'B' not found".to_string()).message(""),
        "not found: base 'B' not found"
    );
    assert_eq!(CgnsError::Io("disk".to_string()).message(""), "I/O: disk");
}

#[test]
fn read_c_string_stops_at_nul() {
    let mut buf = vec![0u8; 64];
    buf[..8].copy_from_slice(b"TestBase");
    assert_eq!(c_string_len(&buf), 8);
    assert_eq!(read_c_string(&buf).unwrap(), "TestBase");
}

#[test]
fn read_c_string_without_nul_takes_whole_buffer() {
    let buf = b"Zone".to_vec();
    assert_eq!(c_string_len(&buf), 4);
    assert_eq!(read_c_string(&buf).unwrap(), "Zone");
    let empty: Vec<u8> = vec![];
    assert_eq!(read_c_string(&empty).unwrap(), "");
    let all_nul = vec![0u8; 4];
    assert_eq!(read_c_string(&all_nul).unwrap(), "");
}

#[test]
fn read_c_string_ignores_bytes_after_nul() {
    let buf = vec![b'A', b'b', 0, 0xff, 0xfe, b'z'];
    assert_eq!(read_c_string(&buf).unwrap(), "Ab");
}

#[test]
fn read_c_string_rejects_invalid_utf8() {
    let buf = vec![b'A', 0xff, 0];
    assert!(matches!(read_c_string(&buf), Err(CgnsError::Invalid(_))));
}

#[test]
fn read_c_string_decodes_multibyte_text() {
    let mut buf = "Zoné".as_bytes().to_vec();
    buf.push(0);
    buf.push(b'x');
    assert_eq!(read_c_string(&buf).unwrap(), "Zoné");
}

#[test]
fn same_text_compares_exactly() {
    assert!(same_text("Base", "Base"));
    assert!(!same_text("Base", "Base2"));
    assert!(!same_text("Base", "base"));
    assert!(same_text("", ""));
}

#[test]
fn check_no_nul_reports_position() {
    assert!(check_no_nul("Density").is_ok());
    match check_no_nul("ab\0cd") {
        Err(CgnsError::Invalid(m)) => {
            assert_eq!(m, "nul byte found in provided data at position: 2")
        }
        other => panic!("unexpected {:?}", other),
    }
}

#[test]
fn test_invalid_filename_nul_byte() {
    assert!(check_no_nul("bad\0file").is_err(), "filename with null byte should fail");
}
