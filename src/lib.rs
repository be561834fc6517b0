//! Clipboard history core: content classification, the bounded history
//! store, the monitor step, and the image data-URI codec.

mod classify;
mod codec;
mod item;
mod laws;
mod sample;
mod state;
mod text;

pub use classify::{
    classification, classify, is_image_uri, is_image_uri_text, is_noise, is_noise_text, kind_of,
    Classification,
};
pub use codec::{
    base64_decoding, base64_encoding, data_uri_from_base64, data_uri_of, decode_data_uri,
    decoded_data_uri, encode_data_uri, CodecError,
};
pub use item::{item_views, ClipboardItem, ItemKind, ItemView};
pub use laws::{
    lemma_full_history_evicts_oldest, lemma_noise_never_recorded, lemma_repeated_read_is_idle,
    lemma_replace_then_get, lemma_run_keeps_capacity,
};
pub use sample::{
    check_image_source, is_white_space, needs_image_probe, opt_chars, probe_needed,
    sample_from_reads, sample_of_reads, trimmed, trimmed_end, trimmed_start, ClipboardSample,
    PortError, SampleView,
};
pub use state::{
    id_in, ids_distinct, pushed, read_view, replaced, run, sample_content, step, ClipboardState,
    StateView, Tick, CAPACITY,
};
pub use text::{chars_of, contains_seq, has_infix, has_prefix, occurs_at, starts_with_seq};
