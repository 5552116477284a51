//! Inventory and extraction of files from a device backup whose file contents
//! live in a content-addressed blob store and whose metadata lives in an index.

mod domain;
mod extract;
mod file;
mod file_flags;
mod file_id;
mod metadata;
mod metadata_id;
mod order;
mod query;
mod relative_path;
mod search;
mod search_service;
mod text;

pub use domain::{domain_result, Domain, DomainError, MAX_DOMAIN_LEN};
pub use extract::{
    blob_location, copied_count, destination_of, error_entries, error_view, join_path,
    lemma_no_failure_no_errors, lemma_outcomes_partition, lemma_single_failure, missing_count,
    ExtractError, ExtractResult, ExtractService, ExtractStep, FileOutcome,
};
pub use file::{File, FileView, RowError};
pub use file_flags::{has_bits, FileFlags, ALL_BITS};
pub use file_id::{file_id_result, is_file_id, lower_hex_text, FileId, FileIdError, FILE_ID_LEN};
pub use metadata::{utc_instant, BackupInfo, BackupInfoError, BackupTime, Metadata, MetadataView};
pub use metadata_id::{
    all_id_chars, alphanumeric, is_id_char, lowercase_of, metadata_id_result, MetadataId,
    MetadataIdError, METADATA_ID_LEN,
};
pub use order::{
    bytes_lt, compare_text, lex_lt, owner_path_le, record_le, record_lt, search_order, text_lt,
};
pub use query::{
    all_match, basic_matches, composite_matches, contains_text, is_substring, query_matches,
    some_match, BasicQuery, CompositeQuery, FileQuery,
};
pub use relative_path::{path_result, starts_at_root, RelativePath, RelativePathError};
pub use search::{
    is_search_result, lemma_empty_combinations_select_all, lemma_search_result_ordered_and_unique,
    search_records, selected, views, FileRepository, IndexError, MemoryIndex,
};
pub use search_service::{
    built_query, condition_of, conditions, lemma_query_shape, present_count, SearchError,
    SearchParams, SearchService,
};
pub use text::{all_hex, chars_of, hex_lower, is_hex_digit, string_from_chars};
