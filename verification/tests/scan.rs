use dotstate::scan::fields_of;
use dotstate::scan::is_space;
use dotstate::scan::lines_of;
use dotstate::scan::parse_i32;
use dotstate::scan::strip_prefix;
use dotstate::scan::trimmed;

const TEXTS: [&str; 22] = [
    "",
    " ",
    "\n",
    "\r\n",
    "a",
    "a\n",
    "a\nb",
    "a\r\nb\r\n",
    "a\rb\r",
    "a\r",
    "\r",
    "a\n\nb\n\n",
    "a\r\r\nb",
    "  lead and trail \t\n",
    "\u{a0}nbsp\u{2003}em space\u{3000}",
    "origin\thttps://x (fetch)\norigin\thttps://x (push)\n",
    "Filesystem Size Used Avail Use% Mounted on\n/dev/sda1 400G 180G 200G 45% /\n",
    " M src/a.rs\n?? b\n",
    "0\t0\n",
    "\t\n \r",
    "\u{feff}bom",
    "one\u{b}two\u{c}three\u{85}four",
];

#[test]
fn lines_are_those_of_the_standard_library() {
    for text in TEXTS {
        let expected: Vec<String> = text.lines().map(|l| l.to_string()).collect();
        assert_eq!(lines_of(text), expected, "lines of {:?}", text);
    }
    assert_eq!(lines_of("a\r\nb\rc\n\nd"), vec!["a", "b\rc", "", "d"]);
}

#[test]
fn fields_are_those_of_the_standard_library() {
    for text in TEXTS {
        let expected: Vec<String> = text.split_whitespace().map(|f| f.to_string()).collect();
        assert_eq!(fields_of(text), expected, "fields of {:?}", text);
    }
    assert_eq!(fields_of("  a \t b\nc  "), vec!["a", "b", "c"]);
}

#[test]
fn trimming_is_that_of_the_standard_library() {
    for text in TEXTS {
        assert_eq!(trimmed(text), text.trim(), "trimming {:?}", text);
    }
    assert_eq!(trimmed(" \t a b \n"), "a b");
    assert_eq!(trimmed(" \t \n"), "");
}

#[test]
fn numbers_are_read_as_the_standard_library_reads_them() {
    let texts = [
        "", "+", "-", "0", "-0", "+0", "7", "+7", "-7", "00012", "-00012", "2147483647",
        "2147483648", "-2147483648", "-2147483649", "+2147483647", "99999999999999999999999",
        "000000000000000000000000000001", "-99999999999999999999999", " 1", "1 ", "1_000", "1.5",
        "0x10", "--1", "+-1", "1-", "\u{ff11}", "\u{661}", "12a", "a12",
    ];
    for text in texts {
        assert_eq!(parse_i32(text), text.parse::<i32>().ok(), "reading {:?}", text);
    }
    assert_eq!(parse_i32("-2147483648"), Some(i32::MIN));
    assert_eq!(parse_i32("+42"), Some(42));
    assert_eq!(parse_i32("4 2"), None);
}

#[test]
fn white_space_is_that_of_the_standard_library() {
    for code in 0..=0x10ffff_u32 {
        if let Some(c) = char::from_u32(code) {
            assert_eq!(is_space(c), c.is_whitespace(), "U+{:04X}", code);
        }
    }
    assert!(is_space(' ') && is_space('\t') && is_space('\u{3000}'));
    assert!(!is_space('a') && !is_space('\u{200b}') && !is_space('\u{1c}'));
}

#[test]
fn a_prefix_is_cut_as_the_standard_library_cuts_it() {
    let texts = ["", "/", "/home", "/home/", "/home/u", "/home/u/.zshrc", "home/u", "/homes", "é/x", "é"];
    for s in texts {
        for prefix in texts {
            assert_eq!(
                strip_prefix(s, prefix),
                s.strip_prefix(prefix).map(|r| r.to_string()),
                "{:?} without {:?}",
                s,
                prefix
            );
        }
    }
}
