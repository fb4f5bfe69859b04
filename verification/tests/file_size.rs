use cargo_wasm::WasmOpt;

#[test]
fn check_file_size() {
    assert_eq!(WasmOpt::file_size(0), "0 bytes");
    assert_eq!(WasmOpt::file_size(1), "1 byte");
    assert_eq!(WasmOpt::file_size(1023), "1023 bytes");
    assert_eq!(WasmOpt::file_size(1024), "1.00 KiB");
    assert_eq!(WasmOpt::file_size(1536), "1.50 KiB");
    assert_eq!(WasmOpt::file_size(2048), "2.00 KiB");
    assert_eq!(WasmOpt::file_size(1_048_576), "1.00 MB");
    assert_eq!(WasmOpt::file_size(1_572_864), "1.50 MB");
}

fn with_floats(raw_size: u64) -> String {
    if raw_size == 1 {
        String::from("1 byte")
    } else if raw_size < 1024 {
        format!("{} bytes", raw_size)
    } else if raw_size < 1_048_576 {
        format!("{:.2} KiB", raw_size as f64 / 1024 as f64)
    } else {
        format!("{:.2} MB", raw_size as f64 / 1_048_576 as f64)
    }
}

#[test]
fn file_size_rounds_ties_to_even() {
    // 1152 / 1024 = 1.125 and 1408 / 1024 = 1.375, both halfway between two hundredths
    assert_eq!(WasmOpt::file_size(1152), "1.12 KiB");
    assert_eq!(WasmOpt::file_size(1408), "1.38 KiB");
    assert_eq!(WasmOpt::file_size(1152), with_floats(1152));
    assert_eq!(WasmOpt::file_size(1408), with_floats(1408));
}

#[test]
fn file_size_agrees_with_floating_point_formatting() {
    let mut n: u64 = 0;
    while n < 3_000_000 {
        assert_eq!(WasmOpt::file_size(n), with_floats(n), "at {}", n);
        n += 127;
    }
    let mut k: u64 = 128;
    while k < 1_048_576 {
        assert_eq!(WasmOpt::file_size(k), with_floats(k), "at {}", k);
        k += 128;
    }
}

#[test]
fn file_size_of_counts_beyond_exact_doubles() {
    let samples: [u64; 12] = [
        (1 << 53) - 1,
        1 << 53,
        (1 << 53) + 1,
        (1 << 53) + 2,
        (1 << 53) + 3,
        (1 << 54) + 2,
        (1 << 54) + 6,
        (1 << 60) + 128,
        (1 << 60) + 384,
        (1 << 63) + 1024,
        u64::MAX - 1,
        u64::MAX,
    ];
    for n in samples.iter() {
        assert_eq!(WasmOpt::file_size(*n), with_floats(*n), "at {}", n);
    }
    let mut n: u64 = 1 << 53;
    let mut step: u64 = 1;
    while n < u64::MAX / 2 {
        assert_eq!(WasmOpt::file_size(n), with_floats(n), "at {}", n);
        assert_eq!(WasmOpt::file_size(n - 1), with_floats(n - 1), "at {}", n - 1);
        n += n / 3 + step;
        step += 2;
    }
}
