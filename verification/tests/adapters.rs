//! Tests of the foundation value adapters: text encoding and decoding,
//! URLs, file handles, dictionaries and error objects.

use virtualization_rs::base::decimal_string;
use virtualization_rs::base::CODE_CODEC_FAULT;
use virtualization_rs::base::CODE_SUCCESS;
use virtualization_rs::base::FileHandleKind;
use virtualization_rs::base::NSDictionary;
use virtualization_rs::base::NSError;
use virtualization_rs::base::NSFileHandle;
use virtualization_rs::base::NSString;
use virtualization_rs::base::NSURL;
use virtualization_rs::host::Host;

#[test]
fn text_round_trip_ascii() {
    let text = NSString::new("hello world");
    assert_eq!(text.len(), 11);
    assert_eq!(text.as_str().unwrap(), "hello world");
}

#[test]
fn text_round_trip_empty() {
    let text = NSString::new("");
    assert_eq!(text.len(), 0);
    assert_eq!(text.as_str().unwrap(), "");
}

#[test]
fn text_round_trip_multibyte() {
    let text = NSString::new("héllo → wörld");
    assert_eq!(text.len(), "héllo → wörld".len());
    assert_eq!(text.as_str().unwrap(), "héllo → wörld");
}

#[test]
fn text_encodes_utf8_bytes() {
    let text = NSString::new("hé");
    assert_eq!(text.bytes().as_slice(), "hé".as_bytes());
}

#[test]
fn text_decode_of_foreign_bytes() {
    let text = NSString::from_bytes(vec![104, 105]);
    assert_eq!(text.as_str().unwrap(), "hi");
}

#[test]
fn codec_fault_on_invalid_bytes() {
    let text = NSString::from_bytes(vec![0xff, 0xfe, 0x80]);
    let err = text.as_str().unwrap_err();
    assert_eq!(err.code(), CODE_CODEC_FAULT);
    assert!(err.is_failure());
}

#[test]
fn absolute_url_absolutizes_relative_path() {
    let url = NSURL::file_url_with_path("images/disk.img", false);
    let absolute = url.absolute_url();
    assert_eq!(absolute.path().as_str(), "/images/disk.img");
    assert!(!absolute.is_directory());
}

#[test]
fn absolute_url_idempotent() {
    let url = NSURL::file_url_with_path("images/disk.img", false);
    let once = url.absolute_url();
    let twice = once.absolute_url();
    assert_eq!(once.path(), twice.path());
    assert_eq!(once.is_directory(), twice.is_directory());

    let already = NSURL::file_url_with_path("/var/vm/disk.img", true);
    let once = already.absolute_url();
    assert_eq!(once.path().as_str(), "/var/vm/disk.img");
    assert!(once.is_directory());
    let twice = once.absolute_url();
    assert_eq!(twice.path().as_str(), "/var/vm/disk.img");
}

#[test]
fn url_reachability_follows_host_files() {
    let mut host = Host::new(true);
    host.add_file(String::from("/boot/kernel"));
    let there = NSURL::file_url_with_path("/boot/kernel", false);
    let missing = NSURL::file_url_with_path("/boot/initrd", false);
    assert!(there.check_resource_is_reachable_and_return_error(&host));
    assert!(!missing.check_resource_is_reachable_and_return_error(&host));
    // A relative path is resolved against the root before the lookup.
    let relative = NSURL::file_url_with_path("boot/kernel", false);
    let elsewhere = NSURL::file_url_with_path("kernel", false);
    assert!(relative.check_resource_is_reachable_and_return_error(&host));
    assert!(!elsewhere.check_resource_is_reachable_and_return_error(&host));
}

#[test]
fn url_with_string_keeps_the_string() {
    let url = NSURL::url_with_string("/nvram/store");
    assert_eq!(url.path().as_str(), "/nvram/store");
    assert!(!url.is_directory());
}

#[test]
fn file_handle_kinds() {
    assert_eq!(NSFileHandle::new().kind(), FileHandleKind::NullDevice);
    assert_eq!(
        NSFileHandle::file_handle_with_standard_input().kind(),
        FileHandleKind::StandardInput
    );
    assert_eq!(
        NSFileHandle::file_handle_with_standard_output().kind(),
        FileHandleKind::StandardOutput
    );
}

#[test]
fn dictionary_keeps_pairs_in_order() {
    let mut info = NSDictionary::new();
    assert_eq!(info.count(), 0);
    info.insert(String::from("reason"), String::from("missing file"));
    info.insert(String::from("path"), String::from("/boot/kernel"));
    assert_eq!(info.count(), 2);
    assert_eq!(info.all_keys(), vec![String::from("reason"), String::from("path")]);
    assert_eq!(
        info.all_values(),
        vec![String::from("missing file"), String::from("/boot/kernel")]
    );
}

#[test]
fn error_nil_is_the_success_sentinel() {
    let nil = NSError::nil();
    assert_eq!(nil.code(), CODE_SUCCESS);
    assert!(!nil.is_failure());
    assert_eq!(nil.localized_description(), "");
    assert_eq!(nil.user_info().count(), 0);
}

#[test]
fn decimal_rendering() {
    assert_eq!(decimal_string(0), "0");
    assert_eq!(decimal_string(7), "7");
    assert_eq!(decimal_string(2147483648), "2147483648");
    assert_eq!(decimal_string(-305), "-305");
    assert_eq!(decimal_string(i64::MAX), "9223372036854775807");
    assert_eq!(decimal_string(i64::MIN), "-9223372036854775808");
}

#[test]
fn error_dump_renders_every_line() {
    let mut info = NSDictionary::new();
    info.insert(String::from("path"), String::from("/boot/kernel"));
    let err = NSError::with_details(
        -2,
        String::from("could not start"),
        String::from("unreadable"),
        String::from("check the path"),
        String::from("starting"),
        info,
    );
    assert_eq!(
        err.dump_lines(),
        vec![
            String::from("code: -2"),
            String::from("localizedDescription : could not start"),
            String::from("localizedFailureReason : unreadable"),
            String::from("localizedRecoverySuggestion : check the path"),
            String::from("helpAnchor : starting"),
            String::from("userInfo :"),
            String::from("    key: path, value: /boot/kernel"),
        ]
    );
}

#[test]
fn error_carries_its_diagnostics() {
    let mut info = NSDictionary::new();
    info.insert(String::from("file"), String::from("/boot/kernel"));
    let err = NSError::with_details(
        7,
        String::from("could not start"),
        String::from("the kernel is unreadable"),
        String::from("check the path"),
        String::from("starting"),
        info,
    );
    assert_eq!(err.code(), 7);
    assert!(err.is_failure());
    assert_eq!(err.localized_description(), "could not start");
    assert_eq!(err.localized_failure_reason(), "the kernel is unreadable");
    assert_eq!(err.localized_recovery_suggestion(), "check the path");
    assert_eq!(err.help_anchor(), "starting");
    assert_eq!(err.user_info().all_keys(), vec![String::from("file")]);
    assert_eq!(err.user_info().all_values(), vec![String::from("/boot/kernel")]);
}
