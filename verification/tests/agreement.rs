use image_resizer::dimension::{decode, Dimension};
use image_resizer::error::ErrorResponse;
use image_resizer::text::{decimal_text, parse_u32, split_chars};
use std::collections::HashMap;

/// A small generator of numbers that look random and are the same in every run.
struct Numbers(u64);

impl Numbers {
    fn next(&mut self) -> u64 {
        self.0 = self.0.wrapping_mul(6364136223846793005).wrapping_add(1442695040888963407);
        self.0 >> 33
    }

    fn below(&mut self, bound: u64) -> u64 {
        self.next() % bound
    }

    fn text(&mut self, alphabet: &[&str], longest: u64) -> String {
        let mut text = String::new();
        for _ in 0..self.below(longest + 1) {
            text.push_str(alphabet[self.below(alphabet.len() as u64) as usize]);
        }
        text
    }
}

/// The query read through a map of its parameters, as the standard library
/// builds it.
fn read_through_a_map(query: &str) -> Result<Dimension, ErrorResponse> {
    let params: HashMap<&str, &str> = query
        .split('&')
        .filter_map(|pair| {
            let some: Vec<&str> = pair.split('=').collect();
            match some.len() {
                2 => Some((some[0], some[1])),
                _ => None,
            }
        })
        .collect();
    match params.get("width") {
        Some(w) => w.parse::<u32>().map(Dimension::Width).map_err(|_| ErrorResponse::ImageWriteError {}),
        None => match params.get("height") {
            Some(h) => {
                h.parse::<u32>().map(Dimension::Height).map_err(|_| ErrorResponse::ImageWriteError {})
            }
            None => Err(ErrorResponse::ImageWriteError {}),
        },
    }
}

#[test]
fn decode_agrees_with_a_map_of_the_parameters() {
    let alphabet = ["width", "height", "=", "&", "=", "&", "1", "27", "+", "0", "x", "w", "-", ""];
    let mut numbers = Numbers(7);
    for _ in 0..20_000 {
        let query = numbers.text(&alphabet, 9);
        assert_eq!(decode(&query), read_through_a_map(&query), "query {query:?}");
    }
}

#[test]
fn number_reading_agrees_with_the_standard_parser() {
    let alphabet = ["0", "1", "2", "9", "4", "+", "-", " ", "a", "4294967295", "429496729"];
    let mut numbers = Numbers(11);
    for _ in 0..20_000 {
        let text = numbers.text(&alphabet, 4);
        let chars: Vec<char> = text.chars().collect();
        assert_eq!(parse_u32(&chars), text.parse::<u32>().ok(), "text {text:?}");
    }
}

#[test]
fn number_writing_agrees_with_the_standard_formatter() {
    let mut numbers = Numbers(13);
    for _ in 0..5_000 {
        let high = numbers.next() as u128;
        let low = numbers.next() as u128;
        let shift = numbers.below(97) as u32;
        let number = ((high << 64) | (low << 31) | high) >> shift;
        assert_eq!(decimal_text(number), number.to_string());
    }
}

#[test]
fn splitting_agrees_with_the_standard_split() {
    let alphabet = ["&", "&", "=", "a", "b", "\u{00e9}", ""];
    let mut numbers = Numbers(17);
    for _ in 0..5_000 {
        let text = numbers.text(&alphabet, 8);
        let chars: Vec<char> = text.chars().collect();
        let pieces: Vec<String> =
            split_chars(&chars, '&').into_iter().map(|piece| piece.into_iter().collect()).collect();
        let expected: Vec<String> = text.split('&').map(String::from).collect();
        assert_eq!(pieces, expected, "text {text:?}");
    }
}

#[test]
fn target_size_agrees_with_the_division_in_floating_point() {
    let mut numbers = Numbers(19);
    let mut compared = 0;
    while compared < 20_000 {
        let bits = 1 + numbers.below(32) as u32;
        let side = (numbers.next() as u32) >> (32 - bits);
        let bits = 1 + numbers.below(32) as u32;
        let width = (numbers.next() as u32) >> (32 - bits);
        let bits = 1 + numbers.below(32) as u32;
        let height = (numbers.next() as u32) >> (32 - bits);
        match side.checked_mul(height) {
            Some(product) => {
                let other = (product as f64 / width as f64) as u32;
                assert_eq!(Dimension::Width(side).target_size(width, height), Some((side, other)));
                compared += 1;
            }
            None => assert_eq!(Dimension::Width(side).target_size(width, height), None),
        }
        match side.checked_mul(width) {
            Some(product) => {
                let other = (product as f64 / height as f64) as u32;
                assert_eq!(Dimension::Height(side).target_size(width, height), Some((other, side)));
                compared += 1;
            }
            None => assert_eq!(Dimension::Height(side).target_size(width, height), None),
        }
    }
}

#[test]
fn target_size_agrees_with_floating_point_where_the_quotient_is_large() {
    for product in [u32::MAX, u32::MAX - 1, 1 << 31, (1 << 31) + 1, 4_294_967_291] {
        for base in [1u32, 2, 3, 5, 7, 65_535, 65_536, 65_537, u32::MAX - 1, u32::MAX] {
            let other = (product as f64 / base as f64) as u32;
            assert_eq!(Dimension::Width(1).target_size(base, product), Some((1, other)));
            assert_eq!(Dimension::Height(1).target_size(product, base), Some((other, 1)));
        }
    }
}
