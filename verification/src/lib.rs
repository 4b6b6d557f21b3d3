//! A terminal countdown organizer: a list of named countdowns with a
//! selection cursor, a record-file codec that loads and saves them, and the
//! key-driven state machine that switches between viewing the countdowns and
//! the step-by-step creation of a new one.

use vstd::prelude::*;

mod clock;
mod codec;
mod countdown;
mod list;
mod state;
mod store;

pub use clock::{epoch_of_text, TIMESTAMP_MAX, TIMESTAMP_MIN};
pub use codec::{
    all_dec_digits, color_of_hex, dec_digit_char, dec_digit_val, dec_num, format_hex_color,
    format_index, hex_digit_char, hex_digit_val, hex_of_color, index_of_text,
    lemma_color_of_hex_bound, lemma_hex_color_round_trip, lemma_index_round_trip, parse_hex_color,
    parse_index, text_of_index,
};
pub use countdown::{saturating_difference, Countdown, CountdownModel};
pub use list::{
    lemma_select_round_trip, next_index, prev_index, CountdownList, CountdownListModel,
};
pub use store::{
    clamp_index, file_model, header_index, load, load_spec, parse_data_row, parse_row, parse_rows,
    save, ParseError, ParseFault, RecordFile, RecordFileModel,
};
pub use state::{
    empty_draft, key_transition, lemma_new_and_cancel_transitions, App, AppModel, AppState, Draft,
    DraftModel, KeyInput, Step,
};

verus! {

} // verus!
