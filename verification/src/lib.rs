//! Helper library for recording a Linux desktop with an external encoder.
//!
//! The library plans a screen or window capture: it parses the text reports
//! of the display-query tools, clips a window rectangle to the screen,
//! chooses an output canvas, and synthesizes the argument vector for the
//! encoder process. All logic here is verified; process spawning and other
//! I/O live outside the library.

use vstd::prelude::*;

mod cli;
mod decimal;
mod plan;
mod position;
mod probe;
mod resolution;
mod text;
mod window_info;

pub use cli::CLIArgs;
pub use cli::OutputTarget;
pub use cli::is_rtmp_target;
pub use cli::is_rtmp_url;
pub use cli::resolve_output;
pub use decimal::dec_int;
pub use decimal::dec_nat;
pub use decimal::i32_to_string;
pub use decimal::int_literal_val;
pub use decimal::is_int_literal;
pub use decimal::parse_i32;
pub use decimal::u64_to_string;
pub use plan::CapturePlan;
pub use plan::OutputDisposition;
pub use plan::audio_args;
pub use plan::build_crop_pad_filter;
pub use plan::build_encoder_args;
pub use plan::build_pad_filter;
pub use plan::build_recording_command;
pub use plan::capture_args;
pub use plan::container_args;
pub use plan::crop_pad_filter;
pub use plan::encoder_args;
pub use plan::frame_rate;
pub use plan::mute_args;
pub use plan::output_disposition;
pub use plan::pad_filter;
pub use plan::plan;
pub use plan::planned_canvas;
pub use plan::planned_filter;
pub use plan::recording_command;
pub use plan::recording_threads;
pub use plan::video_args;
pub use position::Position;
pub use probe::ProbeError;
pub use probe::ProbeField;
pub use probe::encoder_unavailable_message;
pub use probe::matching_lines;
pub use probe::parse_screen_resolution;
pub use probe::screen_resolution_of;
pub use probe::screen_token;
pub use probe::window_field;
pub use probe::window_field_value;
pub use resolution::Resolution;
pub use resolution::area;
pub use resolution::is_ladder_size;
pub use resolution::lemma_normalize_covers;
pub use resolution::lemma_normalize_monotonic;
pub use resolution::normalized_resolution;
pub use resolution::pad_dimension;
pub use resolution::padded8;
pub use text::contains_seq;
pub use text::contains_str;
pub use text::find_first;
pub use text::first_line;
pub use text::remove_spaces;
pub use text::split_char;
pub use text::split_on;
pub use text::without_spaces;
pub use window_info::WindowInfo;
pub use window_info::clip_extent;
pub use window_info::clipped_extent;
pub use window_info::plausible_window_fields;
pub use window_info::window_report_of;

verus! {

/// Relies on `num_cpus::get`, whose documentation promises that it
/// always returns at least 1.
#[verifier::external_body]
pub fn get_number_of_processors() -> (r: usize)
    ensures
        1 <= r,
{
    num_cpus::get()
}

} // verus!
