use recoil::shadow::immutable::{clear_immutable, is_immutable, set_append_only, set_immutable, set_immutable_recursive};
use recoil::shadow::linking::{link_file, preserve_metadata, LinkOutcome};
use recoil::shadow::scanner::{scan_and_mirror, ScanResult};
use recoil::utils::fs_detect::LinkStrategy;

#[test]
fn scan_reports_empty_statistics() {
    let r = scan_and_mirror("/", "/.recoil-debian/root-mirror", &LinkStrategy::HardLink, None).unwrap();
    assert_eq!(r, ScanResult::default());
    assert_eq!(r.total_entries(), 0);
    assert_eq!(r.summarise(), "0 files  0 dirs  0 errors");
    let s = ScanResult { files_mirrored: 12, dirs_created: 3, symlinks_mirrored: 4, errors: 1, ..ScanResult::default() };
    assert_eq!(s.total_entries(), 19);
    assert_eq!(s.summarise(), "12 files  3 dirs  1 errors");
}

#[test]
fn shadow_operations_report_success() {
    assert!(set_immutable("/x").is_ok());
    assert!(clear_immutable("/x").is_ok());
    assert_eq!(is_immutable("/x").unwrap(), false);
    assert!(set_append_only("/x").is_ok());
    assert!(set_immutable_recursive("/x").is_ok());
    assert!(preserve_metadata("/a", "/b").is_ok());
    let _: LinkOutcome = link_file("/a", "/b", &LinkStrategy::Reflink).unwrap();
}
