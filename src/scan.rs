//! The scan of a table: the request that is issued, the collection of its
//! pages, and what the export does with the outcome.
//!
//! The caller drives the store's paginator. It hands each outcome of a page
//! request to [`ScanProgress::step`] and fetches the next page while the answer
//! is [`ScanAction::FetchNext`]. Then [`finish_export`] says what is appended
//! to the output file.

use vstd::prelude::*;
use crate::config::ScanConfig;
use crate::export::{ExportError, export_text, render_export};
use crate::item::Item;

verus! {

/// The most items that one page request asks for.
pub const PAGE_LIMIT: i32 = 1000;

/// A scan of a whole table, projected to a single attribute.
#[derive(Debug, Clone)]
pub struct ScanRequest {
    pub table_name: String,
    pub projected_attribute: String,
    pub page_limit: i32,
}

impl ScanRequest {
    /// The scan that an export with `config` issues: the configured table,
    /// only the primary key attribute, at most `PAGE_LIMIT` items a page.
    pub fn for_config(config: &ScanConfig) -> (r: ScanRequest)
        ensures
            r.table_name == config.table_name,
            r.projected_attribute == config.primary_key_name,
            r.page_limit == PAGE_LIMIT,
    {
        ScanRequest {
            table_name: config.table_name.clone(),
            projected_attribute: config.primary_key_name.clone(),
            page_limit: PAGE_LIMIT,
        }
    }
}

/// Where a scan stands.
#[derive(Debug, PartialEq, Eq, Clone, Copy, Structural)]
pub enum ScanPhase {
    Scanning,
    Complete,
    Failed,
}

/// The outcome of one page request.
#[derive(Debug, Clone)]
pub enum ScanEvent {
    /// A page came back with these items.
    Page(Vec<Item>),
    /// The paginator has no page left.
    End,
    /// The page request failed.
    Failed,
}

/// What the caller does next.
#[derive(Debug, PartialEq, Eq, Clone, Copy, Structural)]
pub enum ScanAction {
    FetchNext,
    Stop,
}

/// What an export does when the scan failed part way.
#[derive(Debug, PartialEq, Eq, Clone, Copy, Structural)]
pub enum FailurePolicy {
    /// Write nothing and report success.
    Lenient,
    /// Write nothing and report the failure.
    Strict,
}

/// The items collected so far, in scan order, and the phase of the scan.
#[derive(Debug, Clone)]
pub struct ScanProgress {
    pub items: Vec<Item>,
    pub phase: ScanPhase,
}

impl ScanProgress {
    /// A scan that has collected nothing yet.
    pub fn new() -> (r: ScanProgress)
        ensures
            r.items@ == Seq::<Item>::empty(),
            r.phase == ScanPhase::Scanning,
    {
        ScanProgress { items: Vec::new(), phase: ScanPhase::Scanning }
    }

    /// Takes in the outcome of a page request. While scanning, a page's items
    /// are appended and the next page is asked for; the end of the pages
    /// completes the scan and a failure aborts it. Once the scan is over,
    /// events change nothing.
    pub fn step(&mut self, event: ScanEvent) -> (r: ScanAction)
        ensures
            old(self).phase == ScanPhase::Scanning ==> match event {
                ScanEvent::Page(p) => {
                    &&& final(self).items@ == old(self).items@ + p@
                    &&& final(self).phase == ScanPhase::Scanning
                    &&& r == ScanAction::FetchNext
                },
                ScanEvent::End => {
                    &&& final(self).items@ == old(self).items@
                    &&& final(self).phase == ScanPhase::Complete
                    &&& r == ScanAction::Stop
                },
                ScanEvent::Failed => {
                    &&& final(self).items@ == old(self).items@
                    &&& final(self).phase == ScanPhase::Failed
                    &&& r == ScanAction::Stop
                },
            },
            old(self).phase != ScanPhase::Scanning ==> {
                &&& final(self).items@ == old(self).items@
                &&& final(self).phase == old(self).phase
                &&& r == ScanAction::Stop
            },
    {
        if self.phase != ScanPhase::Scanning {
            return ScanAction::Stop;
        }
        match event {
            ScanEvent::Page(page) => {
                let mut page = page;
                self.items.append(&mut page);
                ScanAction::FetchNext
            },
            ScanEvent::End => {
                self.phase = ScanPhase::Complete;
                ScanAction::Stop
            },
            ScanEvent::Failed => {
                self.phase = ScanPhase::Failed;
                ScanAction::Stop
            },
        }
    }
}

/// What the export appends to the output file once the scan is over: the
/// records of the collected items (`Some`) when the scan completed; otherwise
/// nothing, with success under the lenient policy and `ExportError::Scan`
/// under the strict one.
pub fn finish_export(progress: &ScanProgress, config: &ScanConfig, policy: FailurePolicy) -> (r:
    Result<Option<Vec<u8>>, ExportError>)
    ensures
        progress.phase == ScanPhase::Complete ==> (r matches Ok(Some(b)) && b@ == export_text(
            progress.items@,
            config.primary_key_name@,
        )),
        progress.phase != ScanPhase::Complete && policy == FailurePolicy::Lenient ==> r matches Ok(
            None,
        ),
        progress.phase != ScanPhase::Complete && policy == FailurePolicy::Strict ==> r == Err::<
            Option<Vec<u8>>,
            ExportError,
        >(ExportError::Scan),
{
    if progress.phase == ScanPhase::Complete {
        Ok(Some(render_export(&progress.items, &config.primary_key_name)))
    } else {
        match policy {
            FailurePolicy::Lenient => Ok(None),
            FailurePolicy::Strict => Err(ExportError::Scan),
        }
    }
}

/// The number of items on all of `pages`.
pub open spec fn total_items(pages: Seq<Seq<Item>>) -> int
    decreases pages.len(),
{
    if pages.len() == 0 {
        0
    } else {
        total_items(pages.drop_last()) + pages.last().len()
    }
}

/// A scan that starts from nothing and takes in `pages` one by one, each step
/// appending a page as `ScanProgress::step` does (`held[k]` is what it holds
/// after `k` pages), holds the concatenation of all pages, in order, as many
/// items as the pages together: nothing is lost or repeated at a page boundary.
pub proof fn lemma_pages_collected(pages: Seq<Seq<Item>>, held: Seq<Seq<Item>>)
    requires
        held.len() == pages.len() + 1,
        held[0] == Seq::<Item>::empty(),
        forall|k: int| 0 <= k < pages.len() ==> #[trigger] held[k + 1] == held[k] + pages[k],
    ensures
        held.last() == pages.flatten(),
        held.last().len() == total_items(pages),
    decreases pages.len(),
{
    if pages.len() == 0 {
        assert(held.last() == held[0]);
    } else {
        let rest = pages.drop_last();
        let held_rest = held.drop_last();
        assert forall|k: int| 0 <= k < rest.len() implies #[trigger] held_rest[k + 1] == held_rest[k]
            + rest[k] by {
            assert(held[k + 1] == held[k] + pages[k]);
        }
        lemma_pages_collected(rest, held_rest);
        rest.lemma_flatten_push(pages.last());
        assert(rest.push(pages.last()) =~= pages);
        assert(held[pages.len() as int] == held[pages.len() - 1] + pages[pages.len() - 1]);
    }
}

} // verus!
