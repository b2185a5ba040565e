use kithe_plot::model::data::{row_tokens, split_tokens, Delimiter};
use kithe_plot::model::number::{bits32_at_most, bits32_less, bits64_at_most, bits64_less, Real32, Real64};
use kithe_plot::text::{push_decimal, same_text, trim_str};
use kithe_plot::view::labels::{format_for_extension, legend_position_text, line_style_text, scale_suffix, scale_text};
use kithe_plot::model::types::{ImageFormat, LegendPosition, LineStyle, ScaleType};

#[test]
fn trim_removes_surrounding_white_space() {
    assert_eq!(trim_str("  a b \t\n"), "a b");
    assert_eq!(trim_str("\u{3000}x\u{a0}"), "x");
    assert_eq!(trim_str("   "), "");
    assert_eq!(trim_str(""), "");
    assert_eq!(trim_str("abc"), "abc");
}

#[test]
fn same_text_compares_characters() {
    assert!(same_text("abc", &"abc".to_string()));
    assert!(!same_text("abc", &"abd".to_string()));
    assert!(!same_text("ab", &"abc".to_string()));
}

#[test]
fn decimal_rendering() {
    let mut s = String::from("n=");
    push_decimal(&mut s, 0);
    assert_eq!(s, "n=0");
    let mut s = String::new();
    push_decimal(&mut s, 1234);
    assert_eq!(s, "1234");
    let mut s = String::new();
    push_decimal(&mut s, u64::MAX);
    assert_eq!(s, u64::MAX.to_string());
}

#[test]
fn comma_tokens_are_trimmed_and_non_empty() {
    assert_eq!(split_tokens("1, 2,,3 ", Delimiter::Comma), vec!["1", "2", "3"]);
    assert_eq!(split_tokens(" , ,", Delimiter::Comma), Vec::<String>::new());
    assert_eq!(split_tokens("", Delimiter::Comma), Vec::<String>::new());
    assert_eq!(split_tokens("a b,c", Delimiter::Comma), vec!["a b", "c"]);
}

#[test]
fn whitespace_tokens_are_words() {
    assert_eq!(split_tokens(" a  b\tc ", Delimiter::Whitespace), vec!["a", "b", "c"]);
    assert_eq!(split_tokens("x,y", Delimiter::Whitespace), vec!["x,y"]);
    assert_eq!(split_tokens("   ", Delimiter::Whitespace), Vec::<String>::new());
}

#[test]
fn rows_skip_blank_and_comment_lines() {
    let rows = row_tokens("# comment\n\n x , y \r\n  # also comment\n1,2\n", Delimiter::Comma);
    assert_eq!(rows, vec![vec!["x".to_string(), "y".to_string()], vec!["1".to_string(), "2".to_string()]]);
    let rows = row_tokens("1 2\n3 4", Delimiter::Whitespace);
    assert_eq!(rows.len(), 2);
    assert_eq!(rows[1], vec!["3", "4"]);
    assert!(row_tokens("", Delimiter::Comma).is_empty());
}

fn ieee64_cases() -> Vec<f64> {
    vec![0.0, -0.0, 1.0, -1.0, 2.5, -2.5, f64::INFINITY, f64::NEG_INFINITY, f64::NAN, f64::MIN_POSITIVE, -f64::MIN_POSITIVE, f64::MAX, f64::MIN, 1e-310, -1e-310]
}

#[test]
fn binary64_order_matches_ieee() {
    for a in ieee64_cases() {
        for b in ieee64_cases() {
            assert_eq!(bits64_at_most(a.to_bits(), b.to_bits()), a <= b, "{a} <= {b}");
            assert_eq!(bits64_less(a.to_bits(), b.to_bits()), a < b, "{a} < {b}");
        }
    }
    let min = Real64 { bits: 2.0f64.to_bits(), text: "2".to_string() };
    let max = Real64 { bits: 1.0f64.to_bits(), text: "1".to_string() };
    assert!(max.at_most(&min));
    assert!(!min.at_most(&max));
    assert!(max.less_than(&min));
    assert!(!min.less_than(&max));
    let nan = Real64 { bits: f64::NAN.to_bits(), text: "NaN".to_string() };
    assert!(!nan.less_than(&max));
    assert!(!max.less_than(&nan));
}

#[test]
fn binary32_order_matches_ieee() {
    let cases = vec![0.0f32, -0.0, 1.0, -1.0, 0.5, f32::INFINITY, f32::NEG_INFINITY, f32::NAN, f32::MIN_POSITIVE, f32::MAX, f32::MIN, 1e-40];
    for a in &cases {
        for b in &cases {
            assert_eq!(bits32_at_most(a.to_bits(), b.to_bits()), a <= b, "{a} <= {b}");
            assert_eq!(bits32_less(a.to_bits(), b.to_bits()), a < b, "{a} < {b}");
        }
    }
    let zero = Real32 { bits: 0.0f32.to_bits(), text: "0".to_string() };
    let neg = Real32 { bits: (-0.5f32).to_bits(), text: "-0.5".to_string() };
    let pos = Real32 { bits: 0.5f32.to_bits(), text: "0.5".to_string() };
    let nan = Real32 { bits: f32::NAN.to_bits(), text: "NaN".to_string() };
    assert!(!zero.is_positive());
    assert!(!neg.is_positive());
    assert!(pos.is_positive());
    assert!(!nan.is_positive());
    assert!(neg.at_most(&pos));
}

#[test]
fn labels_of_choices() {
    assert_eq!(line_style_text(LineStyle::Solid), "Solid");
    assert_eq!(line_style_text(LineStyle::Dashed), "Dashed");
    assert_eq!(line_style_text(LineStyle::Dotted), "Dotted");
    assert_eq!(scale_text(ScaleType::Linear), "Linear");
    assert_eq!(scale_text(ScaleType::Log10), "Log10");
    assert_eq!(scale_text(ScaleType::LogE), "LogE");
    assert_eq!(scale_suffix(ScaleType::Linear), "");
    assert_eq!(scale_suffix(ScaleType::Log10), " [log10]");
    assert_eq!(scale_suffix(ScaleType::LogE), " [ln]");
    assert_eq!(legend_position_text(LegendPosition::TopLeft), "Top Left");
    assert_eq!(legend_position_text(LegendPosition::TopRight), "Top Right");
    assert_eq!(legend_position_text(LegendPosition::BottomLeft), "Bottom Left");
    assert_eq!(legend_position_text(LegendPosition::BottomRight), "Bottom Right");
}

#[test]
fn white_space_is_that_of_std() {
    for n in 0u32..0x11_0000 {
        if let Some(c) = char::from_u32(n) {
            let s = format!("a{c}");
            assert_eq!(trim_str(&s) == "a", c.is_whitespace(), "U+{n:04X}");
        }
    }
}

#[test]
fn format_follows_extension() {
    for e in ["svg", "SVG", "Svg", "sVg"] {
        assert!(matches!(format_for_extension(e), ImageFormat::Svg));
    }
    for e in ["png", "", "svgz", "jpg", "sv"] {
        assert!(matches!(format_for_extension(e), ImageFormat::Png));
    }
}

#[test]
fn joined_fields_split_back() {
    let toks = vec!["1.5".to_string(), "a b".to_string(), "x".to_string()];
    assert_eq!(split_tokens(&toks.join(","), Delimiter::Comma), toks);
    assert_eq!(split_tokens(&toks.join(" , "), Delimiter::Comma), toks);
    let words = vec!["t".to_string(), "2.0".to_string(), "-3".to_string()];
    assert_eq!(split_tokens(&words.join(" "), Delimiter::Whitespace), words);
}
