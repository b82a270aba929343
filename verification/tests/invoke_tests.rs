use winframe::check;
use winframe::com::ComLibraryHandle;
use winframe::errors::{get_last_err, Error};
use winframe::mapping;
use winframe::mappings;

fn code_of(e: Error) -> u32 {
    e.code()
}

#[test]
fn last_err_zero_passes_value_through() {
    let r = check::check_last_err(123u32, 0, "SetWindowLongPtrW");
    assert_eq!(r.unwrap(), 123);
    let r = mapping::map_last_err(7i64, 0, "SetWindowLongPtrW");
    assert_eq!(r.unwrap(), 7);
    let r = mappings::map_last_err("x", 0, "SetWindowLongPtrW");
    assert_eq!(r.unwrap(), "x");
}

#[test]
fn last_err_nonzero_maps_to_win32_hresult() {
    // Error code 5 (access denied) folds into the Win32 facility:
    // 0x80070005.
    let r = check::check_last_err(123u32, 5, "SetWindowLongPtrW");
    let e = r.err().expect("a set error code means failure");
    assert_eq!(e.code(), 0x8007_0005);
    assert_eq!(e.source_hint(), "SetWindowLongPtrW");
    let e = mapping::map_last_err(0u8, 5, "f").err().unwrap();
    assert_eq!(e.code(), 0x8007_0005);
    let e = mappings::map_last_err(0u8, 5, "f").err().unwrap();
    assert_eq!(e.code(), 0x8007_0005);
}

#[test]
fn hresult_shaped_codes_pass_through_unchanged() {
    let e = get_last_err("f", 0x8899_000C);
    assert_eq!(code_of(e), 0x8899_000C);
}

#[test]
fn small_codes_keep_low_bits_only() {
    let e = get_last_err("f", 0x0001_0002);
    assert_eq!(code_of(e), 0x8007_0002);
}

#[test]
fn bool_checks() {
    assert!(check::check_bool(true, 0, "ShowWindow").is_ok());
    let e = check::check_bool(false, 87, "ShowWindow").err().unwrap();
    assert_eq!(e.code(), 0x8007_0057);
    assert!(mapping::map_bool(true, 0, "f").is_ok());
    assert!(mappings::map_bool(true, 0, "f").is_ok());
    let e = mappings::map_bool(false, 87, "f").err().unwrap();
    assert_eq!(e.code(), 0x8007_0057);
}

#[test]
fn res_checks_wrap_the_raw_code() {
    assert_eq!(check::check_res(Ok::<u32, u32>(9), "EndDraw").unwrap(), 9);
    let e = check::check_res(Err::<u32, u32>(0x8899_000C), "EndDraw").err().unwrap();
    assert_eq!(e.code(), 0x8899_000C);
    assert_eq!(e.source_hint(), "EndDraw");
    let e = mapping::map_res(Err::<(), u32>(3), "f").err().unwrap();
    assert_eq!(e.code(), 3);
    let e = mappings::map_result(Err::<(), u32>(3), "f").err().unwrap();
    assert_eq!(e.code(), 3);
}

#[test]
fn ptr_checks_reject_null() {
    let r: Result<isize, Error> = check::check_ptr(42isize, 0, "CreateWindowExW");
    assert_eq!(r.unwrap(), 42);
    let e = check::check_ptr(0isize, 1400, "CreateWindowExW").err().unwrap();
    assert_eq!(e.code(), 0x8007_0578);
    assert_eq!(e.source_hint(), "CreateWindowExW");
    let r: Result<usize, Error> = mapping::map_ptr(8usize, 0, "f");
    assert_eq!(r.unwrap(), 8);
    assert!(mapping::map_ptr(0usize, 2, "f").is_err());
    let r: Result<isize, Error> = mappings::map_ptr(-3isize, 0, "f");
    assert_eq!(r.unwrap(), -3);
    assert!(mappings::map_ptr(0isize, 2, "f").is_err());
}

#[test]
fn com_library_initializes_once_per_thread() {
    let mut h = ComLibraryHandle::new();
    assert_eq!(h.count(), 0);
    assert!(h.acquire());
    assert!(!h.acquire());
    assert!(!h.acquire());
    assert_eq!(h.count(), 3);
    assert!(!h.release());
    assert!(!h.release());
    assert!(h.release());
    assert_eq!(h.count(), 0);
    // A fresh acquisition after full release initializes again.
    assert!(h.acquire());
    assert!(h.release());
}
