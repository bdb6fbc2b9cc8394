//! Planning and decision logic for fetching packages from a version catalog:
//! naming of artifacts, extraction of download locations from listing pages,
//! the download retry policy, the version listing and the concurrency gate.

mod gate;
mod matcher;
mod naming;
mod pattern;
mod retry;
mod versions;

pub use gate::{lemma_active_within_limit, Gate};
pub use matcher::{
    page_served, pinned_pattern, plan_download, resolve, select_url, ResolveError, DOWNLOAD_URL_PATTERN,
    PINNED_GAP, PINNED_PREFIX,
};
pub use naming::{display_name, file_name, versions_url, VERSIONS_URL_PREFIX};
pub use retry::{
    lemma_attempts_bounded, lemma_third_attempt_succeeds, next_step, AttemptResult, Outcome,
    MAX_ATTEMPTS,
};
pub use versions::{
    collect_versions, join_versions, lemma_lex_total,
    lemma_lex_transitive, list_page_versions, render_page_versions, str_lt, VERSION_PATTERN,
    VERSION_SEPARATOR,
};
