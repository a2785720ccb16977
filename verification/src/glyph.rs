//! Drawing text into an RGBA pixel frame with a built-in 8x8 bitmap font.

use vstd::prelude::*;

verus! {

/// The 8x8 bitmap of a character, one byte per row, most significant bit
/// leftmost (a placeholder face for characters without a bitmap).
pub open spec fn glyph(ch: char) -> Seq<u8> {
    match ch {
        'A' | 'a' => seq![0x18u8, 0x3Cu8, 0x66u8, 0x66u8, 0x7Eu8, 0x66u8, 0x66u8, 0x00u8],
        'B' | 'b' => seq![0x7Cu8, 0x66u8, 0x66u8, 0x7Cu8, 0x66u8, 0x66u8, 0x7Cu8, 0x00u8],
        'C' | 'c' => seq![0x3Cu8, 0x66u8, 0x60u8, 0x60u8, 0x60u8, 0x66u8, 0x3Cu8, 0x00u8],
        'D' | 'd' => seq![0x78u8, 0x6Cu8, 0x66u8, 0x66u8, 0x66u8, 0x6Cu8, 0x78u8, 0x00u8],
        'E' | 'e' => seq![0x7Eu8, 0x60u8, 0x60u8, 0x78u8, 0x60u8, 0x60u8, 0x7Eu8, 0x00u8],
        'F' | 'f' => seq![0x7Eu8, 0x60u8, 0x60u8, 0x78u8, 0x60u8, 0x60u8, 0x60u8, 0x00u8],
        'G' | 'g' => seq![0x3Cu8, 0x66u8, 0x60u8, 0x6Eu8, 0x66u8, 0x66u8, 0x3Cu8, 0x00u8],
        'H' | 'h' => seq![0x66u8, 0x66u8, 0x66u8, 0x7Eu8, 0x66u8, 0x66u8, 0x66u8, 0x00u8],
        'I' | 'i' => seq![0x3Cu8, 0x18u8, 0x18u8, 0x18u8, 0x18u8, 0x18u8, 0x3Cu8, 0x00u8],
        'L' | 'l' => seq![0x60u8, 0x60u8, 0x60u8, 0x60u8, 0x60u8, 0x60u8, 0x7Eu8, 0x00u8],
        'M' | 'm' => seq![0x63u8, 0x77u8, 0x7Fu8, 0x6Bu8, 0x63u8, 0x63u8, 0x63u8, 0x00u8],
        'N' | 'n' => seq![0x66u8, 0x76u8, 0x7Eu8, 0x7Eu8, 0x6Eu8, 0x66u8, 0x66u8, 0x00u8],
        'O' | 'o' => seq![0x3Cu8, 0x66u8, 0x66u8, 0x66u8, 0x66u8, 0x66u8, 0x3Cu8, 0x00u8],
        'P' | 'p' => seq![0x7Cu8, 0x66u8, 0x66u8, 0x7Cu8, 0x60u8, 0x60u8, 0x60u8, 0x00u8],
        'R' | 'r' => seq![0x7Cu8, 0x66u8, 0x66u8, 0x7Cu8, 0x78u8, 0x6Cu8, 0x66u8, 0x00u8],
        'S' | 's' => seq![0x3Cu8, 0x66u8, 0x60u8, 0x3Cu8, 0x06u8, 0x66u8, 0x3Cu8, 0x00u8],
        'T' | 't' => seq![0x7Eu8, 0x18u8, 0x18u8, 0x18u8, 0x18u8, 0x18u8, 0x18u8, 0x00u8],
        'U' | 'u' => seq![0x66u8, 0x66u8, 0x66u8, 0x66u8, 0x66u8, 0x66u8, 0x3Cu8, 0x00u8],
        'V' | 'v' => seq![0x66u8, 0x66u8, 0x66u8, 0x66u8, 0x66u8, 0x3Cu8, 0x18u8, 0x00u8],
        'X' | 'x' => seq![0x66u8, 0x66u8, 0x3Cu8, 0x18u8, 0x3Cu8, 0x66u8, 0x66u8, 0x00u8],
        'Y' | 'y' => seq![0x66u8, 0x66u8, 0x66u8, 0x3Cu8, 0x18u8, 0x18u8, 0x18u8, 0x00u8],
        'Z' | 'z' => seq![0x7Eu8, 0x0Cu8, 0x18u8, 0x30u8, 0x60u8, 0x60u8, 0x7Eu8, 0x00u8],
        '|' => seq![0x18u8, 0x18u8, 0x18u8, 0x18u8, 0x18u8, 0x18u8, 0x18u8, 0x18u8],
        '-' => seq![0x00u8, 0x00u8, 0x00u8, 0x7Eu8, 0x00u8, 0x00u8, 0x00u8, 0x00u8],
        '=' => seq![0x00u8, 0x00u8, 0x7Eu8, 0x00u8, 0x7Eu8, 0x00u8, 0x00u8, 0x00u8],
        '>' => seq![0x18u8, 0x0Cu8, 0x06u8, 0x03u8, 0x06u8, 0x0Cu8, 0x18u8, 0x00u8],
        '<' => seq![0x18u8, 0x30u8, 0x60u8, 0xC0u8, 0x60u8, 0x30u8, 0x18u8, 0x00u8],
        '/' => seq![0x02u8, 0x06u8, 0x0Cu8, 0x18u8, 0x30u8, 0x60u8, 0x40u8, 0x00u8],
        '\\' => seq![0x40u8, 0x60u8, 0x30u8, 0x18u8, 0x0Cu8, 0x06u8, 0x02u8, 0x00u8],
        '#' => seq![0x36u8, 0x36u8, 0x7Fu8, 0x36u8, 0x7Fu8, 0x36u8, 0x36u8, 0x00u8],
        '[' => seq![0x3Eu8, 0x30u8, 0x30u8, 0x30u8, 0x30u8, 0x30u8, 0x3Eu8, 0x00u8],
        ']' => seq![0x7Cu8, 0x0Cu8, 0x0Cu8, 0x0Cu8, 0x0Cu8, 0x0Cu8, 0x7Cu8, 0x00u8],
        '0' => seq![0x3Cu8, 0x66u8, 0x6Eu8, 0x76u8, 0x66u8, 0x66u8, 0x3Cu8, 0x00u8],
        '1' => seq![0x18u8, 0x38u8, 0x18u8, 0x18u8, 0x18u8, 0x18u8, 0x7Eu8, 0x00u8],
        '2' => seq![0x3Cu8, 0x66u8, 0x06u8, 0x1Cu8, 0x30u8, 0x60u8, 0x7Eu8, 0x00u8],
        '3' => seq![0x3Cu8, 0x66u8, 0x06u8, 0x1Cu8, 0x06u8, 0x66u8, 0x3Cu8, 0x00u8],
        '4' => seq![0x18u8, 0x38u8, 0x58u8, 0x98u8, 0xFEu8, 0x18u8, 0x18u8, 0x00u8],
        '5' => seq![0x7Eu8, 0x60u8, 0x60u8, 0x7Cu8, 0x06u8, 0x06u8, 0x7Cu8, 0x00u8],
        '6' => seq![0x3Cu8, 0x60u8, 0x60u8, 0x7Cu8, 0x66u8, 0x66u8, 0x3Cu8, 0x00u8],
        '7' => seq![0x7Eu8, 0x06u8, 0x0Cu8, 0x18u8, 0x30u8, 0x30u8, 0x30u8, 0x00u8],
        '8' => seq![0x3Cu8, 0x66u8, 0x66u8, 0x3Cu8, 0x66u8, 0x66u8, 0x3Cu8, 0x00u8],
        '9' => seq![0x3Cu8, 0x66u8, 0x66u8, 0x3Eu8, 0x06u8, 0x0Cu8, 0x78u8, 0x00u8],
        '!' => seq![0x18u8, 0x18u8, 0x18u8, 0x18u8, 0x00u8, 0x00u8, 0x18u8, 0x00u8],
        '?' => seq![0x3Cu8, 0x66u8, 0x06u8, 0x0Cu8, 0x18u8, 0x00u8, 0x18u8, 0x00u8],
        '(' => seq![0x0Eu8, 0x1Cu8, 0x18u8, 0x18u8, 0x18u8, 0x1Cu8, 0x0Eu8, 0x00u8],
        ')' => seq![0x70u8, 0x38u8, 0x18u8, 0x18u8, 0x18u8, 0x38u8, 0x70u8, 0x00u8],
        '{' => seq![0x0Eu8, 0x18u8, 0x18u8, 0x70u8, 0x18u8, 0x18u8, 0x0Eu8, 0x00u8],
        '}' => seq![0x70u8, 0x18u8, 0x18u8, 0x0Eu8, 0x18u8, 0x18u8, 0x70u8, 0x00u8],
        '@' => seq![0x3Cu8, 0x66u8, 0x6Eu8, 0x6Au8, 0x6Eu8, 0x60u8, 0x3Cu8, 0x00u8],
        '&' => seq![0x38u8, 0x6Cu8, 0x38u8, 0x76u8, 0xDCu8, 0xCCu8, 0x76u8, 0x00u8],
        '%' => seq![0x62u8, 0x66u8, 0x0Cu8, 0x18u8, 0x30u8, 0x66u8, 0x46u8, 0x00u8],
        '$' => seq![0x18u8, 0x3Eu8, 0x60u8, 0x3Cu8, 0x06u8, 0x7Cu8, 0x18u8, 0x00u8],
        '+' => seq![0x00u8, 0x18u8, 0x18u8, 0x7Eu8, 0x18u8, 0x18u8, 0x00u8, 0x00u8],
        '*' => seq![0x00u8, 0x66u8, 0x3Cu8, 0xFFu8, 0x3Cu8, 0x66u8, 0x00u8, 0x00u8],
        '_' => seq![0x00u8, 0x00u8, 0x00u8, 0x00u8, 0x00u8, 0x00u8, 0xFFu8, 0x00u8],
        '~' => seq![0x00u8, 0x00u8, 0x76u8, 0xDCu8, 0x00u8, 0x00u8, 0x00u8, 0x00u8],
        '`' => seq![0x30u8, 0x18u8, 0x0Cu8, 0x00u8, 0x00u8, 0x00u8, 0x00u8, 0x00u8],
        '^' => seq![0x10u8, 0x38u8, 0x6Cu8, 0xC6u8, 0x00u8, 0x00u8, 0x00u8, 0x00u8],
        ',' => seq![0x00u8, 0x00u8, 0x00u8, 0x00u8, 0x18u8, 0x18u8, 0x30u8, 0x00u8],
        ';' => seq![0x00u8, 0x18u8, 0x18u8, 0x00u8, 0x18u8, 0x18u8, 0x30u8, 0x00u8],
        '"' => seq![0x66u8, 0x66u8, 0x24u8, 0x00u8, 0x00u8, 0x00u8, 0x00u8, 0x00u8],
        '\'' => seq![0x18u8, 0x18u8, 0x10u8, 0x00u8, 0x00u8, 0x00u8, 0x00u8, 0x00u8],
        '.' => seq![0x00u8, 0x00u8, 0x00u8, 0x00u8, 0x00u8, 0x18u8, 0x18u8, 0x00u8],
        ':' => seq![0x00u8, 0x18u8, 0x18u8, 0x00u8, 0x18u8, 0x18u8, 0x00u8, 0x00u8],
        ' ' => seq![0x00u8, 0x00u8, 0x00u8, 0x00u8, 0x00u8, 0x00u8, 0x00u8, 0x00u8],
        '\u{2500}' => seq![0x00u8, 0x00u8, 0x00u8, 0xFFu8, 0x00u8, 0x00u8, 0x00u8, 0x00u8],
        '\u{2502}' => seq![0x18u8, 0x18u8, 0x18u8, 0x18u8, 0x18u8, 0x18u8, 0x18u8, 0x18u8],
        '\u{250c}' => seq![0x00u8, 0x00u8, 0x00u8, 0x1Fu8, 0x18u8, 0x18u8, 0x18u8, 0x18u8],
        '\u{2510}' => seq![0x00u8, 0x00u8, 0x00u8, 0xF8u8, 0x18u8, 0x18u8, 0x18u8, 0x18u8],
        '\u{2514}' => seq![0x18u8, 0x18u8, 0x18u8, 0x1Fu8, 0x00u8, 0x00u8, 0x00u8, 0x00u8],
        '\u{2518}' => seq![0x18u8, 0x18u8, 0x18u8, 0xF8u8, 0x00u8, 0x00u8, 0x00u8, 0x00u8],
        '\u{251c}' => seq![0x18u8, 0x18u8, 0x18u8, 0x1Fu8, 0x18u8, 0x18u8, 0x18u8, 0x18u8],
        '\u{2524}' => seq![0x18u8, 0x18u8, 0x18u8, 0xF8u8, 0x18u8, 0x18u8, 0x18u8, 0x18u8],
        '\u{252c}' => seq![0x00u8, 0x00u8, 0x00u8, 0xFFu8, 0x18u8, 0x18u8, 0x18u8, 0x18u8],
        '\u{2534}' => seq![0x18u8, 0x18u8, 0x18u8, 0xFFu8, 0x00u8, 0x00u8, 0x00u8, 0x00u8],
        '\u{253c}' => seq![0x18u8, 0x18u8, 0x18u8, 0xFFu8, 0x18u8, 0x18u8, 0x18u8, 0x18u8],
        _ => seq![0x7Eu8, 0x81u8, 0xA5u8, 0x81u8, 0xBDu8, 0x99u8, 0x81u8, 0x7Eu8],
    }
}

/// The bitmap of a character.
pub fn glyph_rows(ch: char) -> (r: [u8; 8])
    ensures
        r@ == glyph(ch),
{
    let rows: [u8; 8] = match ch {
        'A' | 'a' => [0x18, 0x3C, 0x66, 0x66, 0x7E, 0x66, 0x66, 0x00],
        'B' | 'b' => [0x7C, 0x66, 0x66, 0x7C, 0x66, 0x66, 0x7C, 0x00],
        'C' | 'c' => [0x3C, 0x66, 0x60, 0x60, 0x60, 0x66, 0x3C, 0x00],
        'D' | 'd' => [0x78, 0x6C, 0x66, 0x66, 0x66, 0x6C, 0x78, 0x00],
        'E' | 'e' => [0x7E, 0x60, 0x60, 0x78, 0x60, 0x60, 0x7E, 0x00],
        'F' | 'f' => [0x7E, 0x60, 0x60, 0x78, 0x60, 0x60, 0x60, 0x00],
        'G' | 'g' => [0x3C, 0x66, 0x60, 0x6E, 0x66, 0x66, 0x3C, 0x00],
        'H' | 'h' => [0x66, 0x66, 0x66, 0x7E, 0x66, 0x66, 0x66, 0x00],
        'I' | 'i' => [0x3C, 0x18, 0x18, 0x18, 0x18, 0x18, 0x3C, 0x00],
        'L' | 'l' => [0x60, 0x60, 0x60, 0x60, 0x60, 0x60, 0x7E, 0x00],
        'M' | 'm' => [0x63, 0x77, 0x7F, 0x6B, 0x63, 0x63, 0x63, 0x00],
        'N' | 'n' => [0x66, 0x76, 0x7E, 0x7E, 0x6E, 0x66, 0x66, 0x00],
        'O' | 'o' => [0x3C, 0x66, 0x66, 0x66, 0x66, 0x66, 0x3C, 0x00],
        'P' | 'p' => [0x7C, 0x66, 0x66, 0x7C, 0x60, 0x60, 0x60, 0x00],
        'R' | 'r' => [0x7C, 0x66, 0x66, 0x7C, 0x78, 0x6C, 0x66, 0x00],
        'S' | 's' => [0x3C, 0x66, 0x60, 0x3C, 0x06, 0x66, 0x3C, 0x00],
        'T' | 't' => [0x7E, 0x18, 0x18, 0x18, 0x18, 0x18, 0x18, 0x00],
        'U' | 'u' => [0x66, 0x66, 0x66, 0x66, 0x66, 0x66, 0x3C, 0x00],
        'V' | 'v' => [0x66, 0x66, 0x66, 0x66, 0x66, 0x3C, 0x18, 0x00],
        'X' | 'x' => [0x66, 0x66, 0x3C, 0x18, 0x3C, 0x66, 0x66, 0x00],
        'Y' | 'y' => [0x66, 0x66, 0x66, 0x3C, 0x18, 0x18, 0x18, 0x00],
        'Z' | 'z' => [0x7E, 0x0C, 0x18, 0x30, 0x60, 0x60, 0x7E, 0x00],
        '|' => [0x18, 0x18, 0x18, 0x18, 0x18, 0x18, 0x18, 0x18],
        '-' => [0x00, 0x00, 0x00, 0x7E, 0x00, 0x00, 0x00, 0x00],
        '=' => [0x00, 0x00, 0x7E, 0x00, 0x7E, 0x00, 0x00, 0x00],
        '>' => [0x18, 0x0C, 0x06, 0x03, 0x06, 0x0C, 0x18, 0x00],
        '<' => [0x18, 0x30, 0x60, 0xC0, 0x60, 0x30, 0x18, 0x00],
        '/' => [0x02, 0x06, 0x0C, 0x18, 0x30, 0x60, 0x40, 0x00],
        '\\' => [0x40, 0x60, 0x30, 0x18, 0x0C, 0x06, 0x02, 0x00],
        '#' => [0x36, 0x36, 0x7F, 0x36, 0x7F, 0x36, 0x36, 0x00],
        '[' => [0x3E, 0x30, 0x30, 0x30, 0x30, 0x30, 0x3E, 0x00],
        ']' => [0x7C, 0x0C, 0x0C, 0x0C, 0x0C, 0x0C, 0x7C, 0x00],
        '0' => [0x3C, 0x66, 0x6E, 0x76, 0x66, 0x66, 0x3C, 0x00],
        '1' => [0x18, 0x38, 0x18, 0x18, 0x18, 0x18, 0x7E, 0x00],
        '2' => [0x3C, 0x66, 0x06, 0x1C, 0x30, 0x60, 0x7E, 0x00],
        '3' => [0x3C, 0x66, 0x06, 0x1C, 0x06, 0x66, 0x3C, 0x00],
        '4' => [0x18, 0x38, 0x58, 0x98, 0xFE, 0x18, 0x18, 0x00],
        '5' => [0x7E, 0x60, 0x60, 0x7C, 0x06, 0x06, 0x7C, 0x00],
        '6' => [0x3C, 0x60, 0x60, 0x7C, 0x66, 0x66, 0x3C, 0x00],
        '7' => [0x7E, 0x06, 0x0C, 0x18, 0x30, 0x30, 0x30, 0x00],
        '8' => [0x3C, 0x66, 0x66, 0x3C, 0x66, 0x66, 0x3C, 0x00],
        '9' => [0x3C, 0x66, 0x66, 0x3E, 0x06, 0x0C, 0x78, 0x00],
        '!' => [0x18, 0x18, 0x18, 0x18, 0x00, 0x00, 0x18, 0x00],
        '?' => [0x3C, 0x66, 0x06, 0x0C, 0x18, 0x00, 0x18, 0x00],
        '(' => [0x0E, 0x1C, 0x18, 0x18, 0x18, 0x1C, 0x0E, 0x00],
        ')' => [0x70, 0x38, 0x18, 0x18, 0x18, 0x38, 0x70, 0x00],
        '{' => [0x0E, 0x18, 0x18, 0x70, 0x18, 0x18, 0x0E, 0x00],
        '}' => [0x70, 0x18, 0x18, 0x0E, 0x18, 0x18, 0x70, 0x00],
        '@' => [0x3C, 0x66, 0x6E, 0x6A, 0x6E, 0x60, 0x3C, 0x00],
        '&' => [0x38, 0x6C, 0x38, 0x76, 0xDC, 0xCC, 0x76, 0x00],
        '%' => [0x62, 0x66, 0x0C, 0x18, 0x30, 0x66, 0x46, 0x00],
        '$' => [0x18, 0x3E, 0x60, 0x3C, 0x06, 0x7C, 0x18, 0x00],
        '+' => [0x00, 0x18, 0x18, 0x7E, 0x18, 0x18, 0x00, 0x00],
        '*' => [0x00, 0x66, 0x3C, 0xFF, 0x3C, 0x66, 0x00, 0x00],
        '_' => [0x00, 0x00, 0x00, 0x00, 0x00, 0x00, 0xFF, 0x00],
        '~' => [0x00, 0x00, 0x76, 0xDC, 0x00, 0x00, 0x00, 0x00],
        '`' => [0x30, 0x18, 0x0C, 0x00, 0x00, 0x00, 0x00, 0x00],
        '^' => [0x10, 0x38, 0x6C, 0xC6, 0x00, 0x00, 0x00, 0x00],
        ',' => [0x00, 0x00, 0x00, 0x00, 0x18, 0x18, 0x30, 0x00],
        ';' => [0x00, 0x18, 0x18, 0x00, 0x18, 0x18, 0x30, 0x00],
        '"' => [0x66, 0x66, 0x24, 0x00, 0x00, 0x00, 0x00, 0x00],
        '\'' => [0x18, 0x18, 0x10, 0x00, 0x00, 0x00, 0x00, 0x00],
        '.' => [0x00, 0x00, 0x00, 0x00, 0x00, 0x18, 0x18, 0x00],
        ':' => [0x00, 0x18, 0x18, 0x00, 0x18, 0x18, 0x00, 0x00],
        ' ' => [0x00, 0x00, 0x00, 0x00, 0x00, 0x00, 0x00, 0x00],
        '\u{2500}' => [0x00, 0x00, 0x00, 0xFF, 0x00, 0x00, 0x00, 0x00],
        '\u{2502}' => [0x18, 0x18, 0x18, 0x18, 0x18, 0x18, 0x18, 0x18],
        '\u{250c}' => [0x00, 0x00, 0x00, 0x1F, 0x18, 0x18, 0x18, 0x18],
        '\u{2510}' => [0x00, 0x00, 0x00, 0xF8, 0x18, 0x18, 0x18, 0x18],
        '\u{2514}' => [0x18, 0x18, 0x18, 0x1F, 0x00, 0x00, 0x00, 0x00],
        '\u{2518}' => [0x18, 0x18, 0x18, 0xF8, 0x00, 0x00, 0x00, 0x00],
        '\u{251c}' => [0x18, 0x18, 0x18, 0x1F, 0x18, 0x18, 0x18, 0x18],
        '\u{2524}' => [0x18, 0x18, 0x18, 0xF8, 0x18, 0x18, 0x18, 0x18],
        '\u{252c}' => [0x00, 0x00, 0x00, 0xFF, 0x18, 0x18, 0x18, 0x18],
        '\u{2534}' => [0x18, 0x18, 0x18, 0xFF, 0x00, 0x00, 0x00, 0x00],
        '\u{253c}' => [0x18, 0x18, 0x18, 0xFF, 0x18, 0x18, 0x18, 0x18],
        _ => [0x7E, 0x81, 0xA5, 0x81, 0xBD, 0x99, 0x81, 0x7E],
    };
    assert(rows@ =~= glyph(ch));
    rows
}

/// Whether the bit for column `col` of row `row` of a bitmap is set.
pub open spec fn bit_set(rows: Seq<u8>, row: int, col: int) -> bool {
    (rows[row] >> ((7 - col) as u8)) & 1u8 == 1u8
}

/// How many pixels one bitmap dot takes along an axis of `cell` pixels: an
/// eighth of the cell, at least one.
pub open spec fn scale(cell: usize) -> int {
    if cell / 8 >= 1 {
        (cell / 8) as int
    } else {
        1
    }
}

/// Whether drawing a character at (`x`, `y`) colours the pixel at (`px`,
/// `py`): it lies in the scaled 8x8 cell, its dot is set, and it is inside
/// the frame's width and length.
pub open spec fn painted(
    rows: Seq<u8>,
    x: int,
    y: int,
    sx: int,
    sy: int,
    sw: int,
    pixels: int,
    px: int,
    py: int,
) -> bool {
    &&& x <= px < x + 8 * sx
    &&& y <= py < y + 8 * sy
    &&& bit_set(rows, (py - y) / sy, (px - x) / sx)
    &&& px < sw
    &&& py * sw + px < pixels
}

/// The colour byte `k` (red, green, blue, opaque alpha).
pub open spec fn channel(k: int, r: u8, g: u8, b: u8) -> u8 {
    if k == 0 {
        r
    } else if k == 1 {
        g
    } else if k == 2 {
        b
    } else {
        255
    }
}

/// A frame byte after drawing: the colour where its pixel is painted, else
/// unchanged.
pub open spec fn drawn_byte(
    old: Seq<u8>,
    p: int,
    rows: Seq<u8>,
    x: int,
    y: int,
    sx: int,
    sy: int,
    sw: int,
    r: u8,
    g: u8,
    b: u8,
) -> u8 {
    let idx = p / 4;
    if sw > 0 && painted(rows, x, y, sx, sy, sw, old.len() as int / 4, idx % sw, idx / sw) {
        channel(p % 4, r, g, b)
    } else {
        old[p]
    }
}

proof fn lemma_pixel_index(px: int, py: int, sw: int)
    requires
        0 <= px < sw,
        0 <= py,
    ensures
        (py * sw + px) / sw == py,
        (py * sw + px) % sw == px,
{
    vstd::arithmetic::div_mod::lemma_fundamental_div_mod_converse(py * sw + px, sw, py, px);
}

proof fn lemma_byte_index(idx: int, k: int)
    requires
        0 <= idx,
        0 <= k < 4,
    ensures
        (4 * idx + k) / 4 == idx,
        (4 * idx + k) % 4 == k,
{
    vstd::arithmetic::div_mod::lemma_fundamental_div_mod_converse(4 * idx + k, 4, idx, k);
}

/// Draws a character into an RGBA frame `screen_width` pixels wide, its
/// 8x8 bitmap scaled to a `char_width` by `char_height` cell whose top-left
/// corner is at (`x`, `y`); pixels outside the frame are skipped.
pub fn draw_char_to_frame(
    frame: &mut [u8],
    ch: char,
    x: usize,
    y: usize,
    screen_width: usize,
    char_width: usize,
    char_height: usize,
    r: u8,
    g: u8,
    b: u8,
)
    requires
        x + 8 * scale(char_width) <= usize::MAX,
        y + 8 * scale(char_height) <= usize::MAX,
        (y + 8 * scale(char_height)) * screen_width <= usize::MAX,
    ensures
        final(frame)@.len() == old(frame)@.len(),
        forall|p: int|
            0 <= p < old(frame)@.len() ==> #[trigger] final(frame)@[p] == drawn_byte(
                old(frame)@,
                p,
                glyph(ch),
                x as int,
                y as int,
                scale(char_width),
                scale(char_height),
                screen_width as int,
                r,
                g,
                b,
            ),
{
    let pattern = glyph_rows(ch);
    let scale_x: usize = if char_width / 8 >= 1 { char_width / 8 } else { 1 };
    let scale_y: usize = if char_height / 8 >= 1 { char_height / 8 } else { 1 };
    let ghost old_frame = frame@;
    let ghost rows = glyph(ch);
    let ghost sw = screen_width as int;
    let ghost pixels = frame@.len() as int / 4;
    let len = frame.len();
    let height = 8 * scale_y;
    let width = 8 * scale_x;
    let mut j: usize = 0;
    while j < height
        invariant
            frame@.len() == old_frame.len(),
            len == old_frame.len(),
            pixels == old_frame.len() as int / 4,
            rows == glyph(ch),
            pattern@ == rows,
            sw == screen_width as int,
            scale_x == scale(char_width),
            scale_y == scale(char_height),
            height == 8 * scale_y,
            width == 8 * scale_x,
            x + width <= usize::MAX,
            y + height <= usize::MAX,
            (y + height) * screen_width <= usize::MAX,
            j <= height,
            forall|p: int|
                0 <= p < frame@.len() ==> #[trigger] frame@[p] == {
                    let idx = p / 4;
                    if sw > 0 && painted(rows, x as int, y as int, scale_x as int, scale_y as int, sw, pixels, idx % sw, idx / sw)
                        && idx / sw - y < j {
                        channel(p % 4, r, g, b)
                    } else {
                        old_frame[p]
                    }
                },
        decreases height - j,
    {
        let mut i: usize = 0;
        while i < width
            invariant
                frame@.len() == old_frame.len(),
                len == old_frame.len(),
                pixels == old_frame.len() as int / 4,
                rows == glyph(ch),
                pattern@ == rows,
                sw == screen_width as int,
                scale_x == scale(char_width),
                scale_y == scale(char_height),
                height == 8 * scale_y,
                width == 8 * scale_x,
                x + width <= usize::MAX,
                y + height <= usize::MAX,
                (y + height) * screen_width <= usize::MAX,
                j < height,
                i <= width,
                forall|p: int|
                    0 <= p < frame@.len() ==> #[trigger] frame@[p] == {
                        let idx = p / 4;
                        if sw > 0 && painted(rows, x as int, y as int, scale_x as int, scale_y as int, sw, pixels, idx % sw, idx / sw)
                            && (idx / sw - y < j || (idx / sw - y == j && idx % sw - x < i)) {
                            channel(p % 4, r, g, b)
                        } else {
                            old_frame[p]
                        }
                    },
            decreases width - i,
        {
            let row = j / scale_y;
            let col = i / scale_x;
            assert(row < 8 && col < 8) by (nonlinear_arith)
                requires
                    j < 8 * scale_y,
                    i < 8 * scale_x,
                    scale_x > 0,
                    scale_y > 0,
                    row == j / scale_y,
                    col == i / scale_x,
            ;
            let bit = (pattern[row] >> (7 - col) as u8) & 1u8;
            let px = x + i;
            let py = y + j;
            let ghost before = frame@;
            if bit == 1 && px < screen_width {
                assert(py * screen_width + px < (y + height) * screen_width) by (nonlinear_arith)
                    requires
                        py < y + height,
                        px < screen_width,
                ;
                let idx = py * screen_width + px;
                if idx < len / 4 {
                    let pi = idx * 4;
                    frame[pi] = r;
                    frame[pi + 1] = g;
                    frame[pi + 2] = b;
                    frame[pi + 3] = 255;
                }
            }
            proof {
                assert forall|p: int| 0 <= p < frame@.len() implies #[trigger] frame@[p] == {
                    let idx = p / 4;
                    if sw > 0 && painted(rows, x as int, y as int, scale_x as int, scale_y as int, sw, pixels, idx % sw, idx / sw)
                        && (idx / sw - y < j || (idx / sw - y == j && idx % sw - x < i + 1)) {
                        channel(p % 4, r, g, b)
                    } else {
                        old_frame[p]
                    }
                } by {
                    let idx = p / 4;
                    let k = p % 4;
                    if sw > 0 {
                        let qx = idx % sw;
                        let qy = idx / sw;
                        if qx == px && qy == py {
                            lemma_byte_index(idx, k);
                            assert(idx == py * sw + px) by {
                                vstd::arithmetic::div_mod::lemma_fundamental_div_mod(idx, sw);
                                assert(sw * qy == qy * sw) by (nonlinear_arith);
                            }
                            assert((py - y) / (scale_y as int) == row && (px - x) / (scale_x as int) == col);
                        } else {
                            if bit == 1 && px < screen_width && (py * sw + px) < pixels {
                                lemma_pixel_index(px as int, py as int, sw);
                                assert(p / 4 != py * sw + px);
                                assert(p < 4 * (py * sw + px) || p >= 4 * (py * sw + px) + 4);
                            }
                        }
                    }
                }
            }
            i = i + 1;
        }
        j = j + 1;
    }
}

/// The frame after drawing a character in white.
pub open spec fn paint(f: Seq<u8>, ch: char, x: int, y: int, cw: usize, chh: usize, sw: int) -> Seq<u8> {
    Seq::new(f.len(), |p: int| drawn_byte(f, p, glyph(ch), x, y, scale(cw), scale(chh), sw, 255, 255, 255))
}

/// The frame after drawing the first `n` characters of a line at height
/// `y`, one cell of `cw` pixels after another.
pub open spec fn paint_line(f: Seq<u8>, line: Seq<char>, n: int, y: int, cw: usize, chh: usize, sw: int) -> Seq<u8>
    decreases n,
{
    if n <= 0 {
        f
    } else {
        paint(paint_line(f, line, n - 1, y, cw, chh, sw), line[n - 1], (n - 1) * cw, y, cw, chh, sw)
    }
}

/// The smaller of two integers.
pub open spec fn least(a: int, b: int) -> int {
    if a <= b {
        a
    } else {
        b
    }
}

/// The frame after drawing the first `m` lines, one row of cells of `chh`
/// pixels after another; each line is cut at the last cell that fits the
/// width `sw`.
pub open spec fn paint_lines(f: Seq<u8>, lines: Seq<Seq<char>>, m: int, cw: usize, chh: usize, sw: int) -> Seq<u8>
    decreases m,
{
    if m <= 0 {
        f
    } else {
        paint_line(
            paint_lines(f, lines, m - 1, cw, chh, sw),
            lines[m - 1],
            least(lines[m - 1].len() as int, sw / (cw as int)),
            (m - 1) * chh,
            cw,
            chh,
            sw,
        )
    }
}

/// The frame cleared to opaque black, pixel by pixel (bytes after the last
/// whole pixel stay).
pub open spec fn cleared(f: Seq<u8>) -> Seq<u8> {
    Seq::new(
        f.len(),
        |p: int|
            if p < (f.len() / 4) * 4 {
                if p % 4 == 3 {
                    255u8
                } else {
                    0u8
                }
            } else {
                f[p]
            },
    )
}

/// The cell width for a frame `width` pixels wide: a third of a 35th of
/// it, kept between 16 and 32 pixels.
pub open spec fn cell_width(width: usize) -> usize {
    let w = (width / 35) / 3;
    if w < 16 {
        16
    } else if w > 32 {
        32
    } else {
        w
    }
}

/// The cell height for a frame `height` pixels high: a third of a 20th of
/// it, kept between 24 and 48 pixels.
pub open spec fn cell_height(height: usize) -> usize {
    let h = (height / 20) / 3;
    if h < 24 {
        24
    } else if h > 48 {
        48
    } else {
        h
    }
}

fn clear_frame(frame: &mut [u8])
    ensures
        final(frame)@ == cleared(old(frame)@),
{
    let n = frame.len() / 4;
    let ghost f0 = frame@;
    let mut k: usize = 0;
    while k < n
        invariant
            n == f0.len() / 4,
            4 * n <= f0.len(),
            f0.len() == frame.len(),
            frame@.len() == f0.len(),
            k <= n,
            forall|p: int|
                0 <= p < f0.len() ==> #[trigger] frame@[p] == (if p < 4 * k {
                    cleared(f0)[p]
                } else {
                    f0[p]
                }),
        decreases n - k,
    {
        let i = 4 * k;
        frame[i] = 0;
        frame[i + 1] = 0;
        frame[i + 2] = 0;
        frame[i + 3] = 255;
        proof {
            assert forall|p: int| 0 <= p < f0.len() implies #[trigger] frame@[p] == (if p < 4 * (k + 1) {
                cleared(f0)[p]
            } else {
                f0[p]
            }) by {
                if 4 * k <= p < 4 * k + 4 {
                    lemma_byte_index(k as int, p - 4 * k);
                }
            }
        }
        k = k + 1;
    }
    assert(frame@ =~= cleared(f0));
}

/// Draws the characters of one line at height `y`, cell after cell, while
/// a whole cell fits the width.
fn draw_line(frame: &mut [u8], line: &Vec<char>, y: usize, width: usize, cw: usize, chh: usize)
    requires
        16 <= cw <= 32,
        24 <= chh <= 48,
        width + 32 <= usize::MAX,
        y + chh <= usize::MAX,
        (y + chh + 1) * width <= usize::MAX,
    ensures
        final(frame)@ == paint_line(
            old(frame)@,
            line@,
            least(line@.len() as int, width as int / cw as int),
            y as int,
            cw,
            chh,
            width as int,
        ),
{
    let ghost f0 = frame@;
    let mut i: usize = 0;
    while i < line.len()
        invariant
            16 <= cw <= 32,
            24 <= chh <= 48,
            width + 32 <= usize::MAX,
            y + chh <= usize::MAX,
            (y + chh + 1) * width <= usize::MAX,
            i <= line@.len(),
            i * cw <= width,
            f0 == old(frame)@,
            frame@ == paint_line(f0, line@, i as int, y as int, cw, chh, width as int),
        decreases line@.len() - i,
    {
        let x = i * cw;
        if x + cw > width {
            proof {
                lemma_cells_fit(i as int, cw as int, width as int);
                assert(least(line@.len() as int, width as int / cw as int) == i);
            }
            return;
        }
        proof {
            assert(8 * scale(cw) <= cw && 8 * scale(chh) <= chh);
            assert((y + 8 * scale(chh)) * width <= (y + chh) * width) by (nonlinear_arith)
                requires
                    8 * scale(chh) <= chh,
            ;
            assert((y + chh + 1) * width == (y + chh) * width + width) by (nonlinear_arith);
        }
        let ghost before = frame@;
        draw_char_to_frame(frame, line[i], x, y, width, cw, chh, 255, 255, 255);
        assert(frame@ =~= paint(before, line@[i as int], x as int, y as int, cw, chh, width as int));
        proof {
            assert((i + 1) * cw == i * cw + cw) by (nonlinear_arith);
        }
        i = i + 1;
    }
    proof {
        lemma_cells_all_fit(i as int, cw as int, width as int);
    }
}

/// Where `i` cells fit a width and the next does not, `i` is the number
/// of cells that fit.
proof fn lemma_cells_fit(i: int, cw: int, width: int)
    requires
        cw > 0,
        i >= 0,
        i * cw <= width,
        i * cw + cw > width,
    ensures
        i == width / cw,
{
    assert(i * cw + cw == (i + 1) * cw) by (nonlinear_arith);
    vstd::arithmetic::div_mod::lemma_fundamental_div_mod(width, cw);
    let q = width / cw;
    let r = width % cw;
    assert(0 <= r < cw);
    assert(width == cw * q + r);
    if q < i {
        assert(cw * q + cw <= cw * i) by (nonlinear_arith)
            requires
                q < i,
                cw > 0,
        ;
        assert(i * cw == cw * i) by (nonlinear_arith);
    }
    if q > i {
        assert(cw * q >= cw * (i + 1)) by (nonlinear_arith)
            requires
                q > i,
                cw > 0,
        ;
        assert((i + 1) * cw == cw * (i + 1)) by (nonlinear_arith);
    }
}

/// Where `i` cells fit a width, at least `i` fit.
proof fn lemma_cells_all_fit(i: int, cw: int, width: int)
    requires
        cw > 0,
        i >= 0,
        i * cw <= width,
    ensures
        i <= width / cw,
{
    vstd::arithmetic::div_mod::lemma_fundamental_div_mod(width, cw);
    let q = width / cw;
    let r = width % cw;
    if q < i {
        assert(cw * q + cw <= cw * i) by (nonlinear_arith)
            requires
                q < i,
                cw > 0,
        ;
        assert(i * cw == cw * i) by (nonlinear_arith);
    }
}

/// Draws lines of text, white on black, into an RGBA frame `width` by
/// `height` pixels: the frame is cleared, the cell size follows the frame
/// size (see `cell_width` and `cell_height`), and lines and characters that
/// do not fit whole are left out.
pub fn render_tui_to_pixels(frame: &mut [u8], width: usize, height: usize, tui_lines: &Vec<String>)
    requires
        width + 32 <= usize::MAX,
        height + 48 <= usize::MAX,
        (height + 1) * width <= usize::MAX,
    ensures
        final(frame)@ == paint_lines(
            cleared(old(frame)@),
            crate::cache::strings_view(tui_lines@),
            least(tui_lines@.len() as int, height as int / cell_height(height) as int),
            cell_width(width),
            cell_height(height),
            width as int,
        ),
{
    clear_frame(frame);
    let w = (width / 35) / 3;
    let cw: usize = if w < 16 {
        16
    } else if w > 32 {
        32
    } else {
        w
    };
    let h = (height / 20) / 3;
    let chh: usize = if h < 24 {
        24
    } else if h > 48 {
        48
    } else {
        h
    };
    let ghost f0 = frame@;
    let ghost lines = crate::cache::strings_view(tui_lines@);
    let mut i: usize = 0;
    while i < tui_lines.len()
        invariant
            f0 == cleared(old(frame)@),
            lines == crate::cache::strings_view(tui_lines@),
            cw == cell_width(width),
            chh == cell_height(height),
            width + 32 <= usize::MAX,
            height + 48 <= usize::MAX,
            (height + 1) * width <= usize::MAX,
            i <= tui_lines@.len(),
            i * chh <= height,
            frame@ == paint_lines(f0, lines, i as int, cw, chh, width as int),
        decreases tui_lines@.len() - i,
    {
        let y = i * chh;
        if y + chh > height {
            proof {
                lemma_cells_fit(i as int, chh as int, height as int);
            }
            return;
        }
        let chars = crate::text::chars_of(tui_lines[i].as_str());
        proof {
            assert((y + chh + 1) * width <= (height + 1) * width) by (nonlinear_arith)
                requires
                    y + chh <= height,
            ;
        }
        draw_line(frame, &chars, y, width, cw, chh);
        proof {
            assert(lines[i as int] == chars@);
            assert((i + 1) * chh == i * chh + chh) by (nonlinear_arith);
        }
        i = i + 1;
    }
    proof {
        lemma_cells_all_fit(i as int, chh as int, height as int);
    }
}

} // verus!
