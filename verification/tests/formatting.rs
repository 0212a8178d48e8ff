use erasure_calc::text::{digit_str, rounded_quotient, to_decimal};
use erasure_calc::utils::{format_bytes, StorageUnit};

#[test]
fn test_format_bytes() {
    assert_eq!(format_bytes(1024), "1.00 KiB");
    assert_eq!(format_bytes(1024 * 1024), "1.00 MiB");
    assert_eq!(format_bytes(1024 * 1024 * 1024), "1.00 GiB");
    assert_eq!(format_bytes(1024 * 1024 * 1024 * 1024), "1.00 TiB");
    assert_eq!(format_bytes(1024 * 1024 * 1024 * 1024 * 1024), "1.00 PiB");
    assert_eq!(format_bytes(1024 * 1024 * 1024 * 1024 * 1024 * 1024), "1.00 EiB");
    assert_eq!(format_bytes(1024 * 1024 * 1024 * 1024 * 1024 * 1024 * 1024), "1.00 ZiB");
}

#[test]
fn format_bytes_below_one_kib_is_a_plain_count() {
    assert_eq!(format_bytes(0), "0 B");
    assert_eq!(format_bytes(1), "1 B");
    assert_eq!(format_bytes(1023), "1023 B");
}

#[test]
fn format_bytes_keeps_two_digits() {
    assert_eq!(format_bytes(1536), "1.50 KiB");
    assert_eq!(format_bytes(1029), "1.00 KiB");
    assert_eq!(format_bytes(5772436045824), "5.25 TiB");
    assert_eq!(format_bytes(30717606100992), "27.94 TiB");
    assert_eq!(format_bytes(12345678901234567890), "10.71 EiB");
    assert_eq!(format_bytes(1770887431076116955136), "1.50 ZiB");
}

#[test]
fn format_bytes_rounds_up_into_the_next_thousand() {
    assert_eq!(format_bytes(1048575), "1024.00 KiB");
}

#[test]
fn format_bytes_of_the_largest_count() {
    assert_eq!(format_bytes(u128::MAX), "288230376151711744.00 ZiB");
}

#[test]
fn format_bytes_rounds_ties_to_even() {
    assert_eq!(format_bytes(1152), "1.12 KiB");
    assert_eq!(format_bytes(1664), "1.62 KiB");
    assert_eq!(format_bytes(1408), "1.38 KiB");
}

#[test]
fn format_bytes_agrees_with_float_formatting() {
    let samples: Vec<u128> = vec![1024, 1029, 1152, 1408, 1536, 1664, 1048575, 5772436045824, 30717606100992];
    for bytes in samples {
        let unit: (f64, &str) = if bytes >= 1099511627776 {
            (1099511627776.0, "TiB")
        } else {
            (1024.0, "KiB")
        };
        assert_eq!(format_bytes(bytes), format!("{:.2} {}", bytes as f64 / unit.0, unit.1));
    }
}

#[test]
fn decimal_text_of_integers() {
    assert_eq!(to_decimal(0), "0");
    assert_eq!(to_decimal(9), "9");
    assert_eq!(to_decimal(10), "10");
    assert_eq!(to_decimal(4294967295), "4294967295");
    assert_eq!(to_decimal(u128::MAX), "340282366920938463463374607431768211455");
    assert_eq!(digit_str(7), "7");
}

#[test]
fn rounded_quotient_breaks_ties_towards_even() {
    assert_eq!(rounded_quotient(5, 2), 2);
    assert_eq!(rounded_quotient(7, 2), 4);
    assert_eq!(rounded_quotient(10, 4), 2);
    assert_eq!(rounded_quotient(11, 4), 3);
    assert_eq!(rounded_quotient(9, 4), 2);
    assert_eq!(rounded_quotient(0, 3), 0);
    assert_eq!(rounded_quotient(u128::MAX, 1), u128::MAX);
    assert_eq!(rounded_quotient(u128::MAX, u128::MAX), 1);
    assert_eq!(rounded_quotient(u128::MAX - 1, u128::MAX), 1);
}

#[test]
fn storage_units_step_by_1024() {
    assert_eq!(StorageUnit::Bytes.to_bytes(), 1);
    assert_eq!(StorageUnit::KiB.to_bytes(), 1024);
    assert_eq!(StorageUnit::MiB.to_bytes(), 1024 * StorageUnit::KiB.to_bytes());
    assert_eq!(StorageUnit::GiB.to_bytes(), 1024 * StorageUnit::MiB.to_bytes());
    assert_eq!(StorageUnit::TiB.to_bytes(), 1024 * StorageUnit::GiB.to_bytes());
    assert_eq!(StorageUnit::PiB.to_bytes(), 1024 * StorageUnit::TiB.to_bytes());
    assert_eq!(StorageUnit::EiB.to_bytes(), 1024 * StorageUnit::PiB.to_bytes());
    assert_eq!(StorageUnit::ZiB.to_bytes(), 1024 * StorageUnit::EiB.to_bytes());
    assert_eq!(StorageUnit::ZiB.to_bytes(), 1180591620717411303424);
}
