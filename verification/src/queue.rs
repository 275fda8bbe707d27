//! Choosing the queue families a device is opened with.

use crate::driver::queue_flags_contain;
use crate::error::{BootstrapError, ConfigIssue, Stage};
use vstd::prelude::*;

verus! {

/// Capability bit of a family that accepts graphics work.
pub const QUEUE_GRAPHICS: u32 = 0x1;

/// Capability bit of a family that accepts transfer work.
pub const QUEUE_TRANSFER: u32 = 0x4;

/// One row of a device's queue-family table, together with the answer to the
/// surface-support query for that family.
#[derive(Clone, Copy, Debug)]
pub struct QueueFamily {
    pub flags: u32,
    pub queue_count: u32,
    pub surface_support: bool,
}

/// The families picked for a device. Either may be missing.
#[derive(Clone, Copy, Debug)]
pub struct QueueFamilies {
    pub graphics_queue_index: Option<u32>,
    pub transfer_queue_index: Option<u32>,
}

/// Every bit of `wanted` is set in `flags`.
pub open spec fn has_capability(flags: u32, wanted: u32) -> bool {
    flags & wanted == wanted
}

impl QueueFamily {
    /// The family can carry graphics work and present to the surface.
    pub open spec fn graphics_present(self) -> bool {
        &&& self.queue_count > 0
        &&& has_capability(self.flags, QUEUE_GRAPHICS)
        &&& self.surface_support
    }

    /// The family is not a graphics-and-present family but can carry transfers.
    pub open spec fn transfer_candidate(self) -> bool {
        &&& self.queue_count > 0
        &&& !self.graphics_present()
        &&& has_capability(self.flags, QUEUE_TRANSFER)
    }

    /// A transfer candidate that cannot do graphics at all.
    pub open spec fn transfer_only(self) -> bool {
        &&& self.transfer_candidate()
        &&& !has_capability(self.flags, QUEUE_GRAPHICS)
    }

    /// The surface-support answer of this family can influence the selection.
    pub open spec fn support_matters(self) -> bool {
        self.queue_count > 0 && has_capability(self.flags, QUEUE_GRAPHICS)
    }

    /// Whether the surface has to be asked about this family at all. For a
    /// family where this is `false`, `surface_support` may be left `false`.
    pub fn needs_surface_query(&self) -> (needed: bool)
        ensures
            needed == self.support_matters(),
    {
        self.queue_count > 0 && queue_flags_contain(self.flags, QUEUE_GRAPHICS)
    }
}

/// `choice` is the lowest graphics-and-present family of `table`, or nothing
/// when the table has none.
pub open spec fn is_graphics_choice(table: Seq<QueueFamily>, choice: Option<u32>) -> bool {
    match choice {
        Some(k) => {
            &&& k < table.len()
            &&& table[k as int].graphics_present()
            &&& forall|j: int| 0 <= j < k ==> !(#[trigger] table[j]).graphics_present()
        },
        None => forall|j: int| 0 <= j < table.len() ==> !(#[trigger] table[j]).graphics_present(),
    }
}

/// `choice` is the last transfer-only family of `table`; where there is none,
/// the first transfer candidate; where there is none either, nothing.
pub open spec fn is_transfer_choice(table: Seq<QueueFamily>, choice: Option<u32>) -> bool {
    match choice {
        Some(k) => {
            &&& k < table.len()
            &&& table[k as int].transfer_candidate()
            &&& if table[k as int].transfer_only() {
                forall|j: int| k < j < table.len() ==> !(#[trigger] table[j]).transfer_only()
            } else {
                &&& forall|j: int| 0 <= j < table.len() ==> !(#[trigger] table[j]).transfer_only()
                &&& forall|j: int| 0 <= j < k ==> !(#[trigger] table[j]).transfer_candidate()
            }
        },
        None => forall|j: int| 0 <= j < table.len() ==> !(#[trigger] table[j]).transfer_candidate(),
    }
}

impl QueueFamilies {
    /// Both indices are the ones the selection rule yields for `table`.
    pub open spec fn selected_from(self, table: Seq<QueueFamily>) -> bool {
        &&& is_graphics_choice(table, self.graphics_queue_index)
        &&& is_transfer_choice(table, self.transfer_queue_index)
    }

    /// The graphics family, or the error that a device without one ends in.
    pub fn require_graphics(&self) -> (family: Result<u32, BootstrapError>)
        ensures
            match family {
                Ok(index) => self.graphics_queue_index == Some(index),
                Err(error) => {
                    &&& self.graphics_queue_index is None
                    &&& error == (BootstrapError::Configuration {
                        stage: Stage::QueueFamilies,
                        issue: ConfigIssue::NoGraphicsQueue,
                    })
                },
            },
    {
        match self.graphics_queue_index {
            Some(index) => Ok(index),
            None => Err(
                BootstrapError::Configuration {
                    stage: Stage::QueueFamilies,
                    issue: ConfigIssue::NoGraphicsQueue,
                },
            ),
        }
    }

    /// Walks the table in index order and picks the families to use.
    ///
    /// Families without queues are skipped. The first family that does
    /// graphics and can present becomes the graphics family. Among the other
    /// families that do transfers, one that cannot do graphics is preferred:
    /// such a family replaces whatever was picked before it.
    pub fn init(table: &Vec<QueueFamily>) -> (families: QueueFamilies)
        requires
            table@.len() <= u32::MAX,
        ensures
            families.selected_from(table@),
            families.graphics_queue_index matches Some(k) ==> table@[k as int].surface_support,
            forall|j: int|
                0 <= j < table@.len() && (#[trigger] table@[j]).graphics_present() ==> (
                families.graphics_queue_index matches Some(k) && k <= j),
    {
        let mut graphics: Option<u32> = None;
        let mut transfer: Option<u32> = None;
        let mut i: u32 = 0;
        while (i as usize) < table.len()
            invariant
                table@.len() <= u32::MAX,
                i <= table@.len(),
                is_graphics_choice(table@.take(i as int), graphics),
                is_transfer_choice(table@.take(i as int), transfer),
            decreases table@.len() - i,
        {
            let family = table[i as usize];
            if family.queue_count > 0 {
                let does_graphics = queue_flags_contain(family.flags, QUEUE_GRAPHICS);
                if does_graphics && family.surface_support {
                    if graphics.is_none() {
                        graphics = Some(i);
                    }
                } else if queue_flags_contain(family.flags, QUEUE_TRANSFER) {
                    if transfer.is_none() || !does_graphics {
                        transfer = Some(i);
                    }
                }
            }
            i = i + 1;
        }
        proof {
            assert(table@.take(i as int) == table@);
        }
        QueueFamilies { graphics_queue_index: graphics, transfer_queue_index: transfer }
    }
}

/// The selection rule leaves no freedom: two results for one table agree.
pub proof fn lemma_selection_is_unique(table: Seq<QueueFamily>, a: QueueFamilies, b: QueueFamilies)
    requires
        a.selected_from(table),
        b.selected_from(table),
    ensures
        a.graphics_queue_index == b.graphics_queue_index,
        a.transfer_queue_index == b.transfer_queue_index,
{
}

/// A picked family exists and has queues. The graphics family does graphics
/// and presents to the surface; the transfer family does transfers.
pub proof fn lemma_selected_families_qualify(table: Seq<QueueFamily>, families: QueueFamilies)
    requires
        families.selected_from(table),
    ensures
        families.graphics_queue_index matches Some(k) ==> {
            &&& k < table.len()
            &&& table[k as int].queue_count > 0
            &&& has_capability(table[k as int].flags, QUEUE_GRAPHICS)
            &&& table[k as int].surface_support
        },
        families.transfer_queue_index matches Some(k) ==> {
            &&& k < table.len()
            &&& table[k as int].queue_count > 0
            &&& has_capability(table[k as int].flags, QUEUE_TRANSFER)
        },
{
}

/// The two picked families are never the same family.
pub proof fn lemma_selected_families_differ(table: Seq<QueueFamily>, families: QueueFamilies)
    requires
        families.selected_from(table),
    ensures
        families.graphics_queue_index is Some && families.transfer_queue_index is Some
            ==> families.graphics_queue_index != families.transfer_queue_index,
{
}

/// Two tables agree on flags and queue counts, and on the surface answer of
/// every family for which `needs_surface_query` holds.
pub open spec fn agree_where_asked(a: Seq<QueueFamily>, b: Seq<QueueFamily>) -> bool {
    &&& a.len() == b.len()
    &&& forall|j: int|
        0 <= j < a.len() ==> {
            &&& (#[trigger] a[j]).flags == b[j].flags
            &&& a[j].queue_count == b[j].queue_count
            &&& a[j].support_matters() ==> a[j].surface_support == b[j].surface_support
        }
}

/// The surface answer of a family that needs no query has no influence: a
/// selection for one table is a selection for every table that agrees with it
/// where the surface was asked.
pub proof fn lemma_unasked_support_is_ignored(
    a: Seq<QueueFamily>,
    b: Seq<QueueFamily>,
    families: QueueFamilies,
)
    requires
        agree_where_asked(a, b),
        families.selected_from(a),
    ensures
        families.selected_from(b),
{
    assert forall|j: int| 0 <= j < a.len() implies {
        &&& (#[trigger] b[j]).graphics_present() == a[j].graphics_present()
        &&& b[j].transfer_candidate() == a[j].transfer_candidate()
        &&& b[j].transfer_only() == a[j].transfer_only()
    } by {}
}

} // verus!
