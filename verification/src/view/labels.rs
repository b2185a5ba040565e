//! Display texts of the enumerations, as the controls and axis titles show them.
use vstd::prelude::*;
use crate::model::types::{ImageFormat, LegendPosition, LineStyle, ScaleType};
use crate::text::chars_of;

verus! {

pub open spec fn line_style_label(value: LineStyle) -> Seq<char> {
    match value {
        LineStyle::Solid => "Solid"@,
        LineStyle::Dashed => "Dashed"@,
        LineStyle::Dotted => "Dotted"@,
    }
}

pub open spec fn scale_label(value: ScaleType) -> Seq<char> {
    match value {
        ScaleType::Linear => "Linear"@,
        ScaleType::Log10 => "Log10"@,
        ScaleType::LogE => "LogE"@,
    }
}

pub open spec fn scale_suffix_of(value: ScaleType) -> Seq<char> {
    match value {
        ScaleType::Linear => ""@,
        ScaleType::Log10 => " [log10]"@,
        ScaleType::LogE => " [ln]"@,
    }
}

pub open spec fn legend_position_label(value: LegendPosition) -> Seq<char> {
    match value {
        LegendPosition::TopLeft => "Top Left"@,
        LegendPosition::TopRight => "Top Right"@,
        LegendPosition::BottomLeft => "Bottom Left"@,
        LegendPosition::BottomRight => "Bottom Right"@,
    }
}

/// The name of a line style in the style chooser.
pub fn line_style_text(value: LineStyle) -> (r: &'static str)
    ensures
        r@ == line_style_label(value),
{
    match value {
        LineStyle::Solid => "Solid",
        LineStyle::Dashed => "Dashed",
        LineStyle::Dotted => "Dotted",
    }
}

/// The name of an axis scale in the scale chooser.
pub fn scale_text(value: ScaleType) -> (r: &'static str)
    ensures
        r@ == scale_label(value),
{
    match value {
        ScaleType::Linear => "Linear",
        ScaleType::Log10 => "Log10",
        ScaleType::LogE => "LogE",
    }
}

/// What an axis title gets appended to show its scale.
pub fn scale_suffix(value: ScaleType) -> (r: &'static str)
    ensures
        r@ == scale_suffix_of(value),
{
    match value {
        ScaleType::Linear => "",
        ScaleType::Log10 => " [log10]",
        ScaleType::LogE => " [ln]",
    }
}

/// The name of a legend position in the position chooser.
pub fn legend_position_text(value: LegendPosition) -> (r: &'static str)
    ensures
        r@ == legend_position_label(value),
{
    match value {
        LegendPosition::TopLeft => "Top Left",
        LegendPosition::TopRight => "Top Right",
        LegendPosition::BottomLeft => "Bottom Left",
        LegendPosition::BottomRight => "Bottom Right",
    }
}

/// `c` is the letter in lower or in upper case.
pub open spec fn letter_is(c: char, lower: char, upper: char) -> bool {
    c == lower || c == upper
}

/// The extension is "svg" in any case.
pub open spec fn is_svg_extension(ext: Seq<char>) -> bool {
    ext.len() == 3 && letter_is(ext[0], 's', 'S') && letter_is(ext[1], 'v', 'V') && letter_is(
        ext[2],
        'g',
        'G',
    )
}

/// The image format chosen for a file extension: SVG for "svg" in any case,
/// PNG otherwise.
pub fn format_for_extension(ext: &str) -> (r: ImageFormat)
    ensures
        r == (if is_svg_extension(ext@) { ImageFormat::Svg } else { ImageFormat::Png }),
{
    let cs = chars_of(ext);
    if cs.len() == 3 && (cs[0] == 's' || cs[0] == 'S') && (cs[1] == 'v' || cs[1] == 'V') && (
    cs[2] == 'g' || cs[2] == 'G') {
        ImageFormat::Svg
    } else {
        ImageFormat::Png
    }
}

} // verus!
