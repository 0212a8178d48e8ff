use erasure_calc::calc::{calculate, calculate_parity_counts, calculate_stripe_sizes};
use erasure_calc::configuration::Configuration;
use erasure_calc::error::CalcError;
use erasure_calc::ratio::{Efficiency, SignedRatio};
use erasure_calc::utils::StorageUnit;

#[test]
fn test_basic_calculation() {
    let config = Configuration::new_with_unit(
        1, // racks
        4, // servers per rack
        4, // drives per server
        4,
        StorageUnit::TiB,
        8, // stripe size
        3, // parity count
    )
    .unwrap();

    let result = calculate(&config).unwrap();

    assert_eq!(result.total_servers, 4);
    assert_eq!(result.max_drive_tolerance, 3);
    let storage_efficiency =
        result.storage_efficiency.data_drives as f64 / result.storage_efficiency.stripe_size as f64;
    assert!(storage_efficiency > 0.6 && storage_efficiency < 0.7);
    assert!((storage_efficiency - 0.625).abs() < 1e-9);
}

#[test]
fn calculation_of_a_small_cluster() {
    let config = Configuration::new_with_unit(1, 4, 4, 4, StorageUnit::TiB, 8, 3).unwrap();
    let result = calculate(&config).unwrap();
    assert_eq!(result.raw_capacity, 16 * 4 * 1099511627776);
    assert_eq!(result.usable_capacity, 40 * 1099511627776);
    assert_eq!(result.storage_efficiency, Efficiency { data_drives: 5, stripe_size: 8 });
    assert_eq!(result.power_estimate_watts, 1200);
    assert_eq!(result.network_bandwidth_gbps, 100);
    assert_eq!(result.max_server_tolerance, 0);
    assert_eq!(result.max_rack_tolerance, 0);
}

#[test]
fn calculation_of_the_large_cluster() {
    let config = Configuration::new_with_unit(26, 5, 24, 28608, StorageUnit::GiB, 13, 3).unwrap();
    let result = calculate(&config).unwrap();
    assert_eq!(result.raw_capacity, 95838931035095040);
    assert_eq!(result.usable_capacity, 73722254642380800);
    assert_eq!(result.total_servers, 130);
    assert_eq!(result.power_estimate_watts, 39000);
    assert_eq!(result.network_bandwidth_gbps, 3250);
    assert_eq!(result.max_drive_tolerance, 3);
    assert_eq!(result.max_server_tolerance, 0);
    assert_eq!(result.max_rack_tolerance, 3);
}

#[test]
fn usable_capacity_rounds_down() {
    let config = Configuration::new(1, 1, 1, 10, 3, 1).unwrap();
    let result = calculate(&config).unwrap();
    assert_eq!(result.raw_capacity, 10);
    assert_eq!(result.usable_capacity, 6);
    let config = Configuration::new(1, 1, 1, 100, 100, 43).unwrap();
    assert_eq!(calculate(&config).unwrap().usable_capacity, 57);
}

#[test]
fn usable_capacity_is_exact_beyond_53_bits() {
    let config = Configuration::new(1, 1, 1, u128::MAX, 8, 3).unwrap();
    let result = calculate(&config).unwrap();
    assert_eq!(result.raw_capacity, u128::MAX);
    assert_eq!(result.usable_capacity, 212676479325586539664609129644855132159);
    let config = Configuration::new(1, 1, 1, u128::MAX, u32::MAX, 1).unwrap();
    assert_eq!(
        calculate(&config).unwrap().usable_capacity,
        340282366841710300930663525760219742206
    );
}

#[test]
fn usable_capacity_never_exceeds_raw_capacity() {
    for parity in 0..=6u32 {
        let config = Configuration::new(3, 7, 5, 1000003, 6, parity).unwrap();
        let result = calculate(&config).unwrap();
        assert!(result.usable_capacity <= result.raw_capacity);
        assert_eq!(result.usable_capacity == result.raw_capacity, parity == 0);
        assert_eq!(result.max_drive_tolerance, parity);
    }
}

#[test]
fn a_stripe_of_parity_alone_has_no_usable_capacity() {
    let config = Configuration::new(1, 1, 1, 1024, 4, 4).unwrap();
    let result = calculate(&config).unwrap();
    assert_eq!(result.raw_capacity, 1024);
    assert_eq!(result.usable_capacity, 0);
    assert_eq!(result.storage_efficiency, Efficiency { data_drives: 0, stripe_size: 4 });
}

#[test]
fn a_stripe_of_one_drive_keeps_the_raw_capacity() {
    let config = Configuration::new(1, 1, 1, 1024, 1, 0).unwrap();
    let result = calculate(&config).unwrap();
    assert_eq!(result.usable_capacity, 1024);
    assert_eq!(result.storage_efficiency, Efficiency { data_drives: 1, stripe_size: 1 });
}

#[test]
fn server_tolerance_needs_a_server_per_stripe_drive() {
    let narrow = Configuration::new(1, 7, 2, 1024, 8, 3).unwrap();
    assert_eq!(calculate(&narrow).unwrap().max_server_tolerance, 0);
    let exact = Configuration::new(1, 8, 2, 1024, 8, 3).unwrap();
    assert_eq!(calculate(&exact).unwrap().max_server_tolerance, 3);
    let wide = Configuration::new(1, 9, 2, 1024, 8, 3).unwrap();
    assert_eq!(calculate(&wide).unwrap().max_server_tolerance, 3);
}

#[test]
fn rack_tolerance_needs_a_rack_per_stripe_drive() {
    let narrow = Configuration::new(7, 1, 2, 1024, 8, 3).unwrap();
    assert_eq!(calculate(&narrow).unwrap().max_rack_tolerance, 0);
    let exact = Configuration::new(8, 1, 2, 1024, 8, 3).unwrap();
    assert_eq!(calculate(&exact).unwrap().max_rack_tolerance, 3);
    let wide = Configuration::new(9, 1, 2, 1024, 8, 3).unwrap();
    assert_eq!(calculate(&wide).unwrap().max_rack_tolerance, 3);
}

#[test]
fn calculation_reports_overflow() {
    let servers = Configuration::new(65536, 65536, 1, 1, 4, 2).unwrap();
    assert_eq!(calculate(&servers), Err(CalcError::Overflow));
    let power = Configuration::new(14316558, 1, 1, 1, 4, 2).unwrap();
    assert_eq!(calculate(&power), Err(CalcError::Overflow));
    let raw = Configuration::new(2, 1, 1, u128::MAX, 4, 2).unwrap();
    assert_eq!(calculate(&raw), Err(CalcError::Overflow));
    let edge = Configuration::new(14316557, 1, 1, 1, 4, 2).unwrap();
    let result = calculate(&edge).unwrap();
    assert_eq!(result.power_estimate_watts, 4294967100);
    assert_eq!(result.network_bandwidth_gbps, 357913925);
}

#[test]
fn calculation_is_repeatable() {
    let config = Configuration::new(3, 7, 5, 1000003, 6, 2).unwrap();
    assert_eq!(calculate(&config), calculate(&config));
}

#[test]
fn rendering_of_a_result() {
    let config = Configuration::new_with_unit(26, 5, 24, 28608, StorageUnit::GiB, 13, 3).unwrap();
    let result = calculate(&config).unwrap();
    let expected = "Storage Configuration Results:\n\
----------------------------\n\
Usable Capacity:     65.48 PiB\n\
Raw Capacity:        85.12 PiB\n\
Storage Efficiency:  76.9%\n\
Total Servers:       130\n\
Failure Tolerance:\n  - Racks:           3 rack failures per stripe\n  - Servers:         0 server failures per stripe\n  - Drives:          3 drive failures per stripe\n\
Power estimate       39000 Watt\n\
Network Bandwidth    3250 Gbps\n";
    assert_eq!(result.render(), expected);
}

#[test]
fn efficiency_as_a_percentage() {
    let mut s = String::new();
    Efficiency { data_drives: 5, stripe_size: 8 }.append_percent(&mut s);
    assert_eq!(s, "62.5%");
    let mut s = String::from("x");
    Efficiency { data_drives: 8, stripe_size: 8 }.append_percent(&mut s);
    assert_eq!(s, "x100.0%");
    let mut s = String::new();
    Efficiency { data_drives: 1, stripe_size: 16 }.append_percent(&mut s);
    assert_eq!(s, "6.2%");
    let mut s = String::new();
    Efficiency { data_drives: 3, stripe_size: 16 }.append_percent(&mut s);
    assert_eq!(s, "18.8%");
    let mut s = String::new();
    Efficiency { data_drives: 0, stripe_size: 4 }.append_percent(&mut s);
    assert_eq!(s, "0.0%");
}

#[test]
fn efficiency_percentage_agrees_with_float_formatting() {
    for (data, stripe) in [(5u32, 8u32), (10, 13), (1, 16), (3, 16), (8, 8), (0, 4), (2, 3)] {
        let mut s = String::new();
        Efficiency { data_drives: data, stripe_size: stripe }.append_percent(&mut s);
        assert_eq!(s, format!("{:.1}%", data as f64 / stripe as f64 * 100.0));
    }
}

#[test]
fn efficiency_differences_are_exact() {
    let a = Efficiency { data_drives: 5, stripe_size: 8 };
    let b = Efficiency { data_drives: 10, stripe_size: 13 };
    assert_eq!(a.minus(&a), SignedRatio { negative: false, numerator: 0, denominator: 64 });
    assert_eq!(a.minus(&b), SignedRatio { negative: true, numerator: 15, denominator: 104 });
    assert_eq!(b.minus(&a), SignedRatio { negative: false, numerator: 15, denominator: 104 });
    let top = Efficiency { data_drives: u32::MAX, stripe_size: u32::MAX };
    assert_eq!(
        top.minus(&top),
        SignedRatio { negative: false, numerator: 0, denominator: 18446744065119617025 }
    );
}

#[test]
fn relative_changes_are_exact() {
    assert_eq!(SignedRatio::zero(), SignedRatio { negative: false, numerator: 0, denominator: 1 });
    assert_eq!(
        SignedRatio::relative_change(100, 150),
        SignedRatio { negative: false, numerator: 50, denominator: 100 }
    );
    assert_eq!(
        SignedRatio::relative_change(150, 100),
        SignedRatio { negative: true, numerator: 50, denominator: 150 }
    );
    assert_eq!(
        SignedRatio::relative_change(7, 7),
        SignedRatio { negative: false, numerator: 0, denominator: 7 }
    );
}

#[test]
fn stripe_sizes_are_even_from_four_to_sixteen() {
    assert_eq!(calculate_stripe_sizes(20), vec![4, 6, 8, 10, 12, 14, 16]);
    assert_eq!(calculate_stripe_sizes(5), vec![4]);
    assert_eq!(calculate_stripe_sizes(16), vec![4, 6, 8, 10, 12, 14, 16]);
    assert_eq!(calculate_stripe_sizes(15), vec![4, 6, 8, 10, 12, 14]);
    assert_eq!(calculate_stripe_sizes(4), vec![4]);
    assert_eq!(calculate_stripe_sizes(3), Vec::<u32>::new());
    assert_eq!(calculate_stripe_sizes(0), Vec::<u32>::new());
    assert_eq!(calculate_stripe_sizes(u32::MAX), vec![4, 6, 8, 10, 12, 14, 16]);
}

#[test]
fn parity_counts_descend_from_half_the_stripe() {
    assert_eq!(calculate_parity_counts(8), vec![4, 3, 2, 1]);
    assert_eq!(calculate_parity_counts(9), vec![4, 3, 2, 1]);
    assert_eq!(calculate_parity_counts(5), vec![2, 1]);
    assert_eq!(calculate_parity_counts(2), vec![1]);
    assert_eq!(calculate_parity_counts(1), Vec::<u32>::new());
    assert_eq!(calculate_parity_counts(0), Vec::<u32>::new());
}
