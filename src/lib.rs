//! Verified core of a client library for small radio-linked vehicles: caching
//! of downloaded tables of contents, batching of streamed data for polling
//! consumers, session and facade lifetime, and scan address handling.

mod console;
mod facade;
mod link_context;
mod session;
mod stream_batcher;
mod toc_cache;
mod toc_file;

pub use console::Console;
pub use facade::{TocFacade, TocStep};
pub use link_context::{
    bytes_view, scan_address, spec_scan_address, LinkContext, ScanError, ADDRESS_LEN, BROADCAST_ADDRESS_BYTE,
};
pub use session::{
    lemma_closed_session_stays_closed, lemma_follows_transitive, FacadeHandle, SessionError, SessionId,
    SessionRegistry, Subsystem,
};
pub use stream_batcher::{
    lemma_batches_reproduce_arrivals, PollAction, SourceEvent, StreamBatcher, CONSOLE_ITEM_TIMEOUT_MS,
    CONSOLE_MAX_BATCH,
};
pub use toc_cache::{
    bytes_equal, lemma_lookup_after_store, lemma_no_cache_always_misses, InMemoryTocCache, NoTocCache,
    TocCache,
};
pub use toc_file::{
    decode_entry, encode_entry, entry_bytes, entry_file_name, entry_file_name_of, entry_magic, entry_suffix,
    entry_temp_file_name, hex_digit, hex_of, lemma_entry_round_trip, lemma_file_names_distinct,
    lemma_record_reads_back, record_table, temp_suffix,
};
