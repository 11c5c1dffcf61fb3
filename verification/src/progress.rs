//! Progress tracking: the watermark, the starting version, and the
//! chain-id guard.
//!
//! The watermark `last_success_version` of a processor advances only
//! after every side effect for transactions up to that version has been
//! applied; on restart the pipeline resumes just above it. The chain id
//! is fixed at first contact; a later mismatch refuses to start.

use vstd::prelude::*;

use crate::models::{LedgerInfo, ProcessorStatus, ProcessorStatusModel, ProcessorStatusQuery};
use crate::text::str_eq;

verus! {

/// Why the pipeline refused to run.
#[derive(Debug)]
pub struct ProcessError {
    pub message: String,
}

/// The watermark table: one row per processor name.
pub struct ProcessorStatusStore {
    pub rows: Vec<ProcessorStatus>,
}

impl ProcessorStatusStore {
    /// An empty table.
    pub fn new() -> (r: ProcessorStatusStore)
        ensures
            r.rows@.len() == 0,
    {
        ProcessorStatusStore { rows: Vec::new() }
    }

    /// The first row with this processor name.
    pub open spec fn spec_get(rows: Seq<ProcessorStatusModel>, processor: Seq<char>) -> Option<
        ProcessorStatusModel,
    >
        decreases rows.len(),
    {
        if rows.len() == 0 {
            Option::None
        } else if rows[0].processor == processor {
            Option::Some(rows[0])
        } else {
            Self::spec_get(rows.skip(1), processor)
        }
    }

    /// Looks up the watermark row of one processor.
    pub fn get_by_processor(&self, processor_name: &str) -> (r: Option<&ProcessorStatus>)
        ensures
            match r {
                Option::Some(row) => Self::spec_get(self.rows.deep_view(), processor_name@)
                    == Option::Some(row@),
                Option::None => Self::spec_get(self.rows.deep_view(), processor_name@) is None,
            },
    {
        let ghost models = self.rows.deep_view();
        proof {
            assert(models.skip(0) =~= models);
        }
        let mut i: usize = 0;
        while i < self.rows.len()
            invariant
                i <= self.rows@.len(),
                models == self.rows.deep_view(),
                forall|j: int| 0 <= j < i ==> #[trigger] models[j].processor != processor_name@,
                Self::spec_get(models, processor_name@) == Self::spec_get(
                    models.skip(i as int),
                    processor_name@,
                ),
            decreases self.rows@.len() - i,
        {
            proof {
                assert(models.skip(i as int)[0] == models[i as int]);
                assert(models.skip(i as int).skip(1) =~= models.skip(i + 1));
            }
            if str_eq(self.rows[i].processor.as_str(), processor_name) {
                return Some(&self.rows[i]);
            }
            i = i + 1;
        }
        proof {
            assert(models.skip(i as int) =~= Seq::<ProcessorStatusModel>::empty());
        }
        None
    }

    /// Writes one processor's watermark: a fresh row is inserted, an
    /// existing row is overwritten with the given values.
    pub fn upsert(&mut self, status: ProcessorStatus)
        ensures
            Self::spec_get(final(self).rows.deep_view(), status.processor@) == Option::Some(
                status@,
            ),
            forall|p: Seq<char>|
                p != status.processor@ ==> Self::spec_get(final(self).rows.deep_view(), p)
                    == Self::spec_get(old(self).rows.deep_view(), p),
    {
        let ghost models = self.rows.deep_view();
        let mut i: usize = 0;
        while i < self.rows.len()
            invariant
                i <= self.rows@.len(),
                self.rows == old(self).rows,
                models == self.rows.deep_view(),
                forall|j: int| 0 <= j < i ==> #[trigger] models[j].processor != status.processor@,
            decreases self.rows@.len() - i,
        {
            if str_eq(self.rows[i].processor.as_str(), status.processor.as_str()) {
                self.rows[i] = status;
                proof {
                    assert(self.rows.deep_view() =~= models.update(
                        i as int,
                        self.rows@[i as int]@,
                    ));
                    lemma_spec_get_update(models, i as int, self.rows@[i as int]@);
                }
                return ;
            }
            i = i + 1;
        }
        self.rows.push(status);
        proof {
            assert(self.rows.deep_view() =~= models.push(self.rows@.last()@));
            lemma_spec_get_push(models, self.rows@.last()@);
        }
    }
}

/// After an update at the first index holding a key, a lookup of that
/// key sees the new row and every other key is untouched.
proof fn lemma_spec_get_update(rows: Seq<ProcessorStatusModel>, i: int, row: ProcessorStatusModel)
    requires
        0 <= i < rows.len(),
        forall|j: int| 0 <= j < i ==> #[trigger] rows[j].processor != row.processor,
        rows[i].processor == row.processor,
    ensures
        ProcessorStatusStore::spec_get(rows.update(i, row), row.processor) == Option::Some(row),
        forall|p: Seq<char>|
            p != row.processor ==> ProcessorStatusStore::spec_get(rows.update(i, row), p)
                == ProcessorStatusStore::spec_get(rows, p),
    decreases i,
{
    let up = rows.update(i, row);
    if i == 0 {
        assert(up.len() == rows.len() && up[0] == row);
        assert(up.skip(1) =~= rows.skip(1));
        assert(ProcessorStatusStore::spec_get(up, row.processor) == Option::Some(row));
        assert forall|p: Seq<char>| p != row.processor implies ProcessorStatusStore::spec_get(
            up,
            p,
        ) == ProcessorStatusStore::spec_get(rows, p) by {
            assert(ProcessorStatusStore::spec_get(up, p) == ProcessorStatusStore::spec_get(
                up.skip(1),
                p,
            ));
            assert(ProcessorStatusStore::spec_get(rows, p) == ProcessorStatusStore::spec_get(
                rows.skip(1),
                p,
            ));
        }
    } else {
        assert(up.len() == rows.len() && up[0] == rows[0]);
        assert(up.skip(1) =~= rows.skip(1).update(i - 1, row));
        assert(rows.skip(1)[i - 1] == rows[i]);
        assert(forall|j: int|
            0 <= j < i - 1 ==> #[trigger] rows.skip(1)[j].processor != row.processor);
        lemma_spec_get_update(rows.skip(1), i - 1, row);
        assert(rows[0].processor != row.processor);
        assert(ProcessorStatusStore::spec_get(up, row.processor)
            == ProcessorStatusStore::spec_get(up.skip(1), row.processor));
        assert forall|p: Seq<char>| p != row.processor implies ProcessorStatusStore::spec_get(
            up,
            p,
        ) == ProcessorStatusStore::spec_get(rows, p) by {
            if p == rows[0].processor {
                assert(ProcessorStatusStore::spec_get(up, p) == Option::Some(rows[0]));
                assert(ProcessorStatusStore::spec_get(rows, p) == Option::Some(rows[0]));
            } else {
                assert(ProcessorStatusStore::spec_get(up, p) == ProcessorStatusStore::spec_get(
                    up.skip(1),
                    p,
                ));
                assert(ProcessorStatusStore::spec_get(rows, p) == ProcessorStatusStore::spec_get(
                    rows.skip(1),
                    p,
                ));
            }
        }
    }
}

/// After a push of a fresh key, a lookup of that key sees the new row
/// and every other key is untouched.
proof fn lemma_spec_get_push(rows: Seq<ProcessorStatusModel>, row: ProcessorStatusModel)
    requires
        forall|j: int| 0 <= j < rows.len() ==> #[trigger] rows[j].processor != row.processor,
    ensures
        ProcessorStatusStore::spec_get(rows.push(row), row.processor) == Option::Some(row),
        forall|p: Seq<char>|
            p != row.processor ==> ProcessorStatusStore::spec_get(rows.push(row), p)
                == ProcessorStatusStore::spec_get(rows, p),
    decreases rows.len(),
{
    let up = rows.push(row);
    if rows.len() == 0 {
        assert(up.len() == 1 && up[0] == row);
        assert(up.skip(1) =~= Seq::<ProcessorStatusModel>::empty());
        assert(ProcessorStatusStore::spec_get(up, row.processor) == Option::Some(row));
        assert forall|p: Seq<char>| p != row.processor implies ProcessorStatusStore::spec_get(
            up,
            p,
        ) == ProcessorStatusStore::spec_get(rows, p) by {
            assert(ProcessorStatusStore::spec_get(up, p) == ProcessorStatusStore::spec_get(
                up.skip(1),
                p,
            ));
        }
    } else {
        assert(up.len() == rows.len() + 1 && up[0] == rows[0]);
        assert(up.skip(1) =~= rows.skip(1).push(row));
        lemma_spec_get_push(rows.skip(1), row);
        assert(rows[0].processor != row.processor);
        assert(ProcessorStatusStore::spec_get(up, row.processor)
            == ProcessorStatusStore::spec_get(up.skip(1), row.processor));
        assert forall|p: Seq<char>| p != row.processor implies ProcessorStatusStore::spec_get(
            up,
            p,
        ) == ProcessorStatusStore::spec_get(rows, p) by {
            if p == rows[0].processor {
                assert(ProcessorStatusStore::spec_get(up, p) == Option::Some(rows[0]));
                assert(ProcessorStatusStore::spec_get(rows, p) == Option::Some(rows[0]));
            } else {
                assert(ProcessorStatusStore::spec_get(up, p) == ProcessorStatusStore::spec_get(
                    up.skip(1),
                    p,
                ));
                assert(ProcessorStatusStore::spec_get(rows, p) == ProcessorStatusStore::spec_get(
                    rows.skip(1),
                    p,
                ));
            }
        }
    }
}

/// Watermark monotonicity: batches reach the tracker in version order,
/// so writing one watermark and then a later one leaves a value at least
/// as high as either write; the stored version never decreases across
/// successive commits.
pub proof fn lemma_watermark_monotone(
    store0: ProcessorStatusStore,
    store1: ProcessorStatusStore,
    first: ProcessorStatus,
    second: ProcessorStatus,
)
    requires
        first.processor@ == second.processor@,
        first.last_success_version <= second.last_success_version,
        ProcessorStatusStore::spec_get(store0.rows.deep_view(), first.processor@) == Option::Some(
            first@,
        ),
        ProcessorStatusStore::spec_get(store1.rows.deep_view(), second.processor@) == Option::Some(
            second@,
        ),
    ensures
        ProcessorStatusStore::spec_get(
            store1.rows.deep_view(),
            first.processor@,
        )->0.last_success_version >= ProcessorStatusStore::spec_get(
            store0.rows.deep_view(),
            first.processor@,
        )->0.last_success_version,
{
}

/// The version the pipeline starts from: the configured one, or just
/// above the stored watermark, whichever is higher.
pub fn resolve_starting_version(
    config_starting_version: u64,
    stored: Option<&ProcessorStatusQuery>,
) -> (r: u64)
    ensures
        match stored {
            Option::Some(row) => {
                if row.last_success_version >= 0 && row.last_success_version + 1
                    > config_starting_version {
                    r == row.last_success_version + 1
                } else {
                    r == config_starting_version
                }
            },
            Option::None => r == config_starting_version,
        },
{
    match stored {
        Some(row) => {
            if row.last_success_version >= 0 {
                let next: u64 = (row.last_success_version as u64) + 1;
                if next > config_starting_version {
                    next
                } else {
                    config_starting_version
                }
            } else {
                config_starting_version
            }
        },
        None => config_starting_version,
    }
}

/// Verifies or establishes the chain id: the first run pins it, a later
/// run must see the same id or the pipeline refuses to start.
pub fn check_or_update_chain_id(stored: Option<&LedgerInfo>, grpc_chain_id: i64) -> (r: Result<
    LedgerInfo,
    ProcessError,
>)
    ensures
        r is Ok <==> (stored matches Option::Some(info) ==> info.chain_id == grpc_chain_id),
        r is Ok ==> r->Ok_0.chain_id == grpc_chain_id,
{
    match stored {
        Some(info) => {
            if info.chain_id == grpc_chain_id {
                Ok(LedgerInfo { chain_id: grpc_chain_id })
            } else {
                Err(
                    ProcessError {
                        message: String::from_str(
                            "chain id in the store does not match the transaction stream",
                        ),
                    },
                )
            }
        },
        None => Ok(LedgerInfo { chain_id: grpc_chain_id }),
    }
}

} // verus!
