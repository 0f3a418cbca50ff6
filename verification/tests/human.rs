use swap_manager::human::human_readable_bytes;

fn by_floats(n: u64) -> String {
    let units = ["B", "KiB", "MiB", "GiB", "TiB"];
    let mut val = n as f64;
    let mut idx = 0usize;
    while val >= 1024.0 && idx + 1 < units.len() {
        val /= 1024.0;
        idx += 1;
    }
    if idx == 0 {
        format!("{} {}", n, units[0])
    } else {
        format!("{:.2} {}", val, units[idx])
    }
}

#[test]
fn reads_the_documented_examples() {
    assert_eq!(human_readable_bytes(0), "0 B");
    assert_eq!(human_readable_bytes(1023), "1023 B");
    assert_eq!(human_readable_bytes(1024), "1.00 KiB");
    assert_eq!(human_readable_bytes(1536), "1.50 KiB");
}

#[test]
fn each_unit_begins_at_its_power_of_1024() {
    assert_eq!(human_readable_bytes(1_048_576), "1.00 MiB");
    assert_eq!(human_readable_bytes(1_073_741_824), "1.00 GiB");
    assert_eq!(human_readable_bytes(1_099_511_627_776), "1.00 TiB");
}

#[test]
fn the_unit_is_chosen_before_the_rounding() {
    assert_eq!(human_readable_bytes(1_048_575), "1024.00 KiB");
    assert_eq!(human_readable_bytes(1_073_741_823), "1024.00 MiB");
    assert_eq!(human_readable_bytes(1_099_511_627_775), "1024.00 GiB");
}

#[test]
fn no_unit_lies_beyond_the_largest() {
    assert_eq!(human_readable_bytes(1024 * 1_099_511_627_776), "1024.00 TiB");
    assert_eq!(human_readable_bytes(u64::MAX), "16777216.00 TiB");
}

#[test]
fn a_tie_goes_to_the_even_hundredth() {
    // 1152 / 1024 = 1.125 and 1408 / 1024 = 1.375
    assert_eq!(human_readable_bytes(1152), "1.12 KiB");
    assert_eq!(human_readable_bytes(1408), "1.38 KiB");
    // one MiB and an eighth
    assert_eq!(human_readable_bytes(1_179_648), "1.12 MiB");
}

#[test]
fn hundredths_round_to_the_nearest() {
    assert_eq!(human_readable_bytes(1029), "1.00 KiB");
    assert_eq!(human_readable_bytes(1030), "1.01 KiB");
    assert_eq!(human_readable_bytes(5 * 1_073_741_824), "5.00 GiB");
    assert_eq!(human_readable_bytes(512 * 1_048_576), "512.00 MiB");
    assert_eq!(human_readable_bytes(1_610_612_736), "1.50 GiB");
}

#[test]
fn agrees_with_floating_point_on_small_counts() {
    for n in 0u64..70_000 {
        assert_eq!(human_readable_bytes(n), by_floats(n), "n = {}", n);
    }
}

#[test]
fn agrees_with_floating_point_across_the_units() {
    let mut n: u64 = 1;
    let mut k: u64 = 0;
    while n < (1u64 << 53) {
        for d in [0u64, 1, 2, 127, 128, 129, 511, 512, 513] {
            let m = n + d;
            assert_eq!(human_readable_bytes(m), by_floats(m), "n = {}", m);
            let below = n - 1;
            assert_eq!(human_readable_bytes(below), by_floats(below), "n = {}", below);
        }
        k += 1;
        n = n * 3 / 2 + k;
    }
}

#[test]
fn agrees_with_floating_point_on_every_tie_in_kib() {
    // every count that is an odd multiple of 128 stands exactly between
    // two hundredths of a KiB
    let mut n: u64 = 1024 + 128;
    while n < 1_048_576 {
        assert_eq!(human_readable_bytes(n), by_floats(n), "n = {}", n);
        n += 256;
    }
}
