use dotstate::doctor::Doctor;
use dotstate::paths::component_count;
use dotstate::paths::ends_with;
use dotstate::paths::is_same_path;
use dotstate::paths::join;
use dotstate::paths::split_components;
use dotstate::paths::starts_with;
use dotstate::strings::decimal;
use dotstate::strings::signed_decimal;
use dotstate::strings::text_precedes;
use std::path::Path;

const PATHS: [&str; 30] = [
    "",
    ".",
    "..",
    "/",
    "//",
    "a",
    "a/",
    "a//",
    "/a",
    "./a",
    "././a",
    "a/.",
    "a/./b",
    "a/../b",
    "a/b/c",
    "a//b///c/",
    ".nvim",
    ".nvim/init.lua",
    ".config/nvim",
    ".config/nvim/lua/plugins/init.lua",
    "foo/bar",
    "foo/bar/config.toml",
    "foo/barbaz",
    "./nvim/init.lua",
    "nvim/init.lua",
    "a/b.",
    "a/.b",
    "a/.b.c",
    "/repo/work/.zshrc",
    "work/.zshrc",
];

#[test]
fn components_are_those_of_the_standard_library() {
    for path in PATHS {
        let expected: Vec<String> = Path::new(path)
            .components()
            .map(|c| c.as_os_str().to_string_lossy().to_string())
            .collect();
        let got: Vec<String> = split_components(path).iter().map(|p| p.iter().collect()).collect();
        assert_eq!(got, expected, "components of {:?}", path);
        assert_eq!(component_count(path), expected.len());
    }
}

#[test]
fn comparisons_are_those_of_the_standard_library() {
    for a in PATHS {
        for b in PATHS {
            let pa = Path::new(a);
            let pb = Path::new(b);
            assert_eq!(starts_with(a, b), pa.starts_with(pb), "{:?} starts with {:?}", a, b);
            assert_eq!(ends_with(a, b), pa.ends_with(pb), "{:?} ends with {:?}", a, b);
            assert_eq!(is_same_path(a, b), pa == pb, "{:?} same as {:?}", a, b);
            assert_eq!(
                join(a, b),
                pa.join(pb).to_string_lossy().to_string(),
                "{:?} joined with {:?}",
                a,
                b
            );
        }
    }
}

#[test]
fn numbers_are_written_as_the_standard_library_writes_them() {
    for n in [0u64, 1, 9, 10, 99, 100, 1023, 1024, 65535, 4294967296, u64::MAX] {
        assert_eq!(decimal(n), n.to_string());
    }
    for n in [0i32, 1, -1, 10, -10, 2147483647, -2147483648, 90, -90] {
        assert_eq!(signed_decimal(n), n.to_string());
    }
}

fn size_by_floating_point(bytes: u64) -> String {
    if bytes < 1024 {
        format!("{bytes} B")
    } else if bytes < 1024 * 1024 {
        format!("{:.1} KB", bytes as f64 / 1024.0)
    } else if bytes < 1024 * 1024 * 1024 {
        format!("{:.1} MB", bytes as f64 / (1024.0 * 1024.0))
    } else {
        format!("{:.2} GB", bytes as f64 / (1024.0 * 1024.0 * 1024.0))
    }
}

#[test]
fn sizes_agree_with_floating_point_formatting() {
    let mut samples: Vec<u64> = vec![
        0, 1, 1023, 1024, 1075, 1076, 1280, 1281, 1382, 1433, 1484, 1536, 2047, 2048, 10240,
        1048575, 1048576, 1100000, 1101005, 5767168, 104857600, 104857601, 1073741823, 1073741824,
        1079110533, 1610612736, 3275751424, 1 << 40, (1 << 50) + 12345,
    ];
    let mut x: u64 = 12345;
    for _ in 0..2000 {
        x = x.wrapping_mul(6364136223846793005).wrapping_add(1442695040888963407);
        samples.push(x >> 24);
        samples.push(x >> 40);
        samples.push(x >> 50);
    }
    for k in 0..4096u64 {
        samples.push(1024 + k * 51 + k / 5);
        samples.push(1024 * 1024 + k * 52428 + k * 13);
    }
    for bytes in samples {
        assert_eq!(Doctor::format_size(bytes), size_by_floating_point(bytes), "{} bytes", bytes);
    }
}

#[test]
fn texts_are_ordered_as_the_standard_library_orders_them() {
    let texts = [
        "",
        "a",
        "ab",
        "b",
        "B",
        "20240101-000000",
        "20240101-000001",
        "2024",
        "é",
        "e",
        "z",
        "\u{10000}",
        "\u{ffff}",
        "日本",
    ];
    for a in texts {
        for b in texts {
            assert_eq!(text_precedes(a, b), a <= b, "{:?} before {:?}", a, b);
        }
    }
}
