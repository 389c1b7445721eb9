use ruspiro_push::Arch;
use ruspiro_push::arch_from_arg;
use ruspiro_push::arch_from_filename;
use ruspiro_push::str_contains;

#[test]
fn filename_kernel7_is_aarch32() {
    assert_eq!(arch_from_filename("kernel7.img"), Some(Arch::AArch32));
    assert_eq!(arch_from_filename("./build/kernel7.img"), Some(Arch::AArch32));
}

#[test]
fn filename_kernel8_is_aarch64() {
    assert_eq!(arch_from_filename("kernel8.img"), Some(Arch::AArch64));
    assert_eq!(arch_from_filename("/tmp/out/kernel8.img.bak"), Some(Arch::AArch64));
}

#[test]
fn filename_unknown_resolves_nothing() {
    assert_eq!(arch_from_filename("kernel9.img"), None);
    assert_eq!(arch_from_filename("vmlinuz"), None);
    assert_eq!(arch_from_filename(""), None);
    assert_eq!(arch_from_filename("kernel7img"), None);
}

#[test]
fn filename_kernel7_takes_precedence() {
    assert_eq!(arch_from_filename("kernel8.img-kernel7.img"), Some(Arch::AArch32));
}

#[test]
fn arg_32_and_64() {
    assert_eq!(arch_from_arg("32"), Some(Arch::AArch32));
    assert_eq!(arch_from_arg("64"), Some(Arch::AArch64));
}

#[test]
fn arg_anything_else_resolves_nothing() {
    assert_eq!(arch_from_arg(""), None);
    assert_eq!(arch_from_arg("48"), None);
    assert_eq!(arch_from_arg("320"), None);
    assert_eq!(arch_from_arg("aarch64"), None);
}

#[test]
fn substring_search() {
    assert!(str_contains("abcdef", "cde"));
    assert!(str_contains("abcdef", ""));
    assert!(str_contains("abcdef", "abcdef"));
    assert!(!str_contains("abcdef", "abcdefg"));
    assert!(!str_contains("abcdef", "ce"));
    assert!(!str_contains("", "a"));
}

#[test]
fn architecture_codes() {
    assert_eq!(Arch::AArch32.code(), 32);
    assert_eq!(Arch::AArch64.code(), 64);
}
