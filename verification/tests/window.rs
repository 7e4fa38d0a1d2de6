use qayeq::tab::manager::{is_download_mime_type, is_recorded};
use qayeq::window::keys::{ShiftTaps, DOUBLE_TAP_NANOS};

const MS: u128 = 1_000_000;

#[test]
fn two_clean_taps_on_shift_in_time_are_a_double_tap() {
    let mut taps = ShiftTaps::default();
    taps.key_pressed(true, false);
    assert!(!taps.shift_released(1000 * MS));
    taps.key_pressed(true, false);
    assert!(taps.shift_released(1349 * MS));
    // The double tap is forgotten: a third tap begins anew.
    taps.key_pressed(true, false);
    assert!(!taps.shift_released(1400 * MS));
    taps.key_pressed(true, false);
    assert!(taps.shift_released(1500 * MS));
}

#[test]
fn a_late_tap_begins_anew() {
    assert_eq!(DOUBLE_TAP_NANOS, 350 * MS);
    let mut taps = ShiftTaps::default();
    taps.key_pressed(true, false);
    assert!(!taps.shift_released(1000 * MS));
    taps.key_pressed(true, false);
    assert!(!taps.shift_released(1350 * MS));
    taps.key_pressed(true, false);
    assert!(taps.shift_released(1350 * MS + 349 * MS + 999_999));
}

#[test]
fn another_key_or_modifier_spoils_the_tap() {
    let mut taps = ShiftTaps::default();
    assert!(!taps.shift_released(0));
    assert_eq!(taps, ShiftTaps::default());
    taps.key_pressed(true, false);
    taps.key_pressed(false, false);
    assert!(!taps.shift_released(10));
    assert_eq!(taps.last_release, None);
    // Shift with Control held does not begin a tap, and does not spoil one.
    taps.key_pressed(true, true);
    assert!(!taps.shift_released(20));
    taps.key_pressed(true, false);
    assert!(!taps.shift_released(30));
    taps.key_pressed(true, true);
    assert!(taps.shift_released(40));
    // A clock that went back counts as no time gone.
    let mut back = ShiftTaps { clean: true, last_release: Some(100) };
    assert!(back.shift_released(50));
}

#[test]
fn archives_and_programs_are_downloaded() {
    for mime in [
        "application/octet-stream",
        "application/x-iso9660-image",
        "application/zip",
        "application/x-tar",
        "application/gzip",
        "application/x-gzip",
        "application/x-bzip2",
        "application/x-xz",
        "application/x-7z-compressed",
        "application/x-rar-compressed",
        "application/vnd.rar",
        "application/x-executable",
        "application/x-deb",
        "application/x-rpm",
        "application/x-redhat-package-manager",
        "application/x-apple-diskimage",
        "application/x-msdos-program",
        "application/x-msdownload",
        "application/zip; charset=binary",
        "application/zipper",
    ] {
        assert!(is_download_mime_type(mime), "{}", mime);
    }
    for mime in ["", "text/html", "application/json", "application/zi", "Application/zip", " application/zip", "image/png"] {
        assert!(!is_download_mime_type(mime), "{}", mime);
    }
}

#[test]
fn the_browsers_own_pages_are_not_recorded() {
    assert!(!is_recorded("about:blank"));
    assert!(!is_recorded("about:"));
    assert!(is_recorded("https://about:blank/"));
    assert!(is_recorded("About:blank"));
    assert!(is_recorded(""));
}
