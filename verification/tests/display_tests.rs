use betting_platform::text::{f64_fixed_div, split_whitespace};

fn two_decimals(h: u64) -> String {
    format!("{}.{:02}", h / 100, h % 100)
}

fn one_decimal(t: u64) -> String {
    format!("{}.{}", t / 10, t % 10)
}

fn thousands(v: u64) -> String {
    two_decimals(f64_fixed_div(v, 1_000_000_000, 100))
}

fn coverage(v: u64) -> String {
    one_decimal(f64_fixed_div(v, 10_000, 10))
}

#[test]
fn display_follows_the_nearest_double() {
    // 1.005 is stored just below 1.005, 0.15 just below 0.15.
    assert_eq!(thousands(1_005_000_000), "1.00");
    assert_eq!(coverage(1_500), "0.1");
    assert_eq!(thousands(1_005_000_000), format!("{:.2}", 1_005_000_000u64 as f64 / 1_000_000_000.0));
    assert_eq!(coverage(1_500), format!("{:.1}", 1_500u64 as f64 / 10_000.0));
}

#[test]
fn display_exact_halves_go_to_even() {
    for v in [125_000_000u64, 375_000_000, 625_000_000, 2_125_000_000] {
        assert_eq!(thousands(v), format!("{:.2}", v as f64 / 1_000_000_000.0), "v = {}", v);
    }
    for v in [2_500u64, 7_500, 12_500, 500] {
        assert_eq!(coverage(v), format!("{:.1}", v as f64 / 10_000.0), "v = {}", v);
    }
}

#[test]
fn display_matches_float_formatting_widely() {
    let mut x: u64 = 0x9E37_79B9_7F4A_7C15;
    for i in 0..20_000u64 {
        x = x.wrapping_mul(6364136223846793005).wrapping_add(1442695040888963407);
        let v = match i % 4 {
            0 => x,
            1 => x >> 20,
            2 => (x >> 40) * 5_000_000,
            _ => x % 100_000,
        };
        assert_eq!(thousands(v), format!("{:.2}", v as f64 / 1_000_000_000.0), "v = {}", v);
        let c = x % 20_000;
        assert_eq!(coverage(c), format!("{:.1}", c as f64 / 10_000.0), "c = {}", c);
    }
    for v in [0u64, 1, 4_999_999, 5_000_000, u64::MAX, u64::MAX - 1, 1 << 53, (1 << 53) + 1, (1 << 54) + 2] {
        assert_eq!(thousands(v), format!("{:.2}", v as f64 / 1_000_000_000.0), "v = {}", v);
        assert_eq!(coverage(v), format!("{:.1}", v as f64 / 10_000.0), "v = {}", v);
    }
}

#[test]
fn words_match_std_split_whitespace() {
    for text in [
        "",
        "   ",
        "Will Bitcoin reach $100k?",
        "  leading and trailing  ",
        "tabs\tand\nnew\r\nlines",
        "no\u{a0}break\u{2003}em\u{3000}ideographic\u{85}next",
        "zero\u{200b}width stays",
        "élan  vital",
    ] {
        let expected: Vec<String> = text.split_whitespace().map(String::from).collect();
        assert_eq!(split_whitespace(text), expected, "text = {:?}", text);
    }
}
