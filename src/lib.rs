//! Per-character text styling for terminal-like output: a color model with one-byte
//! color codes, a compact style record, and a sparse run list that maps offsets of a
//! text buffer to the style active there.

use vstd::prelude::*;

mod colors;
mod format;
mod formats;

pub use colors::{
    byte_hex, color_code, hex_digits, rgb_hex, color_of_code, hue_index, hue_of, lemma_code_round_trip,
    lemma_color_round_trip, lemma_unknown_code_is_default, palette_ansi_table, palette_index,
    palette_rgb_table, rgb_of, system_code, system_of_code, system_offset, system_rgb,
    tint_index, tint_of, Color, Hue, Rgb, SystemColor, Tint,
};
pub use format::{flag_bit, Format, FormatFlag};
pub use formats::{
    floor_index, lemma_floor_index, lemma_floor_index_unique, lemma_pop_keeps_coalesced,
    lemma_pop_set_inverse, lemma_set_idempotent, lemma_set_keeps_coalesced,
    lemma_set_pop_keep_order, pop_spec, runs_coalesced, runs_wf, set_spec, Formats,
};

verus! {

} // verus!
