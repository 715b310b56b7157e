//! Choosing a text colour that stands out from the background.

use vstd::prelude::*;
use crate::models::config::Color;

verus! {

/// The luminance from which on a background counts as light: 128, in thousandths.
pub const LIGHT_THRESHOLD_MILLIS: i32 = 128_000;

/// Whether a background counts as light: its luminance is 128 or more.
pub open spec fn is_light(background: Color) -> bool {
    background.luminance_millis() >= LIGHT_THRESHOLD_MILLIS
}

/// The text colour for a background: black on a light one, white on a dark one.
pub fn calculate_text_color(background: Color) -> (text: Color)
    ensures
        text == if is_light(background) {
            Color { r: 0, g: 0, b: 0, a: 255 }
        } else {
            Color { r: 255, g: 255, b: 255, a: 255 }
        },
{
    if background.luminance().millis() >= LIGHT_THRESHOLD_MILLIS {
        Color::black()
    } else {
        Color::white()
    }
}

/// The text colour to use: the one that the configuration sets, else the one
/// that goes with the sampled background, else white.
pub fn text_color_for(configured: Option<Color>, background: Option<Color>) -> (text: Color)
    ensures
        text == match (configured, background) {
            (Some(color), _) => color,
            (None, Some(sample)) => if is_light(sample) {
                Color { r: 0, g: 0, b: 0, a: 255 }
            } else {
                Color { r: 255, g: 255, b: 255, a: 255 }
            },
            (None, None) => Color { r: 255, g: 255, b: 255, a: 255 },
        },
{
    match configured {
        Some(color) => color,
        None => match background {
            Some(sample) => calculate_text_color(sample),
            None => Color::white(),
        },
    }
}

/// The chosen text colour is always the opposite of the background in
/// brightness: dark on light, light on dark.
pub proof fn law_text_contrasts_with_background(background: Color)
    ensures
        is_light(background) ==> !is_light(
            if is_light(background) {
                Color { r: 0, g: 0, b: 0, a: 255 }
            } else {
                Color { r: 255, g: 255, b: 255, a: 255 }
            },
        ),
        !is_light(background) ==> is_light(
            if is_light(background) {
                Color { r: 0, g: 0, b: 0, a: 255 }
            } else {
                Color { r: 255, g: 255, b: 255, a: 255 }
            },
        ),
{
}

} // verus!
