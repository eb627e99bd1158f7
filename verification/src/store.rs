//! The backup transactions that a wallet keeps, one row for each statecoin
//! and number. Writing a row that is already there replaces it.

use vstd::prelude::*;
use crate::evidence::spec_chain_evidence;
use crate::transfer::{StatechainInfoView, TransferMsgView};
use crate::tx::TxOutpointView;
use crate::validator::{spec_backup_shape_ok, spec_shape_ok, spec_validate};
use crate::wallet::{backup_views, BackupTx, BackupTxView};

verus! {

/// The rows of backup transactions of a wallet.
#[derive(Clone, Debug, PartialEq, Eq)]
pub struct BackupStore {
    pub rows: Vec<BackupTx>,
}

/// Whether a row is the one for statecoin `statechain_id` and number
/// `tx_n`.
pub open spec fn spec_is_row(row: BackupTxView, statechain_id: Seq<char>, tx_n: u32) -> bool {
    row.statechain_id == statechain_id && row.tx_n == tx_n
}

/// No two rows are for the same statecoin and number.
pub open spec fn spec_rows_unique(rows: Seq<BackupTxView>) -> bool {
    forall|i: int, j: int|
        0 <= i < j < rows.len() ==> !spec_is_row(
            #[trigger] rows[i],
            (#[trigger] rows[j]).statechain_id,
            rows[j].tx_n,
        )
}

/// The position of the first row for a statecoin and number.
pub open spec fn spec_position(rows: Seq<BackupTxView>, statechain_id: Seq<char>, tx_n: u32) -> Option<
    int,
>
    decreases rows.len(),
{
    if rows.len() == 0 {
        None
    } else if spec_is_row(rows[0], statechain_id, tx_n) {
        Some(0)
    } else {
        match spec_position(rows.drop_first(), statechain_id, tx_n) {
            Some(i) => Some(i + 1),
            None => None,
        }
    }
}

/// The rows after `row` is written: in the place of the row for the same
/// statecoin and number where there is one, else at the end.
pub open spec fn spec_upsert(rows: Seq<BackupTxView>, row: BackupTxView) -> Seq<BackupTxView> {
    match spec_position(rows, row.statechain_id, row.tx_n) {
        Some(i) => rows.update(i, row),
        None => rows.push(row),
    }
}

/// The rows after a list of rows is written, one after the other.
pub open spec fn spec_upsert_all(rows: Seq<BackupTxView>, written: Seq<BackupTxView>) -> Seq<
    BackupTxView,
>
    decreases written.len(),
{
    if written.len() == 0 {
        rows
    } else {
        spec_upsert_all(spec_upsert(rows, written[0]), written.drop_first())
    }
}

/// The number of rows for a statecoin.
pub open spec fn spec_count(rows: Seq<BackupTxView>, statechain_id: Seq<char>) -> nat
    decreases rows.len(),
{
    if rows.len() == 0 {
        0
    } else {
        spec_count(rows.drop_last(), statechain_id) + if rows.last().statechain_id == statechain_id {
            1nat
        } else {
            0nat
        }
    }
}

/// A position that `spec_position` gives holds a row for the statecoin and
/// number, and where it gives none, no row is for them.
pub proof fn lemma_position(rows: Seq<BackupTxView>, statechain_id: Seq<char>, tx_n: u32)
    ensures
        match spec_position(rows, statechain_id, tx_n) {
            Some(i) => 0 <= i < rows.len() && spec_is_row(rows[i], statechain_id, tx_n),
            None => forall|j: int|
                0 <= j < rows.len() ==> !spec_is_row(#[trigger] rows[j], statechain_id, tx_n),
        },
    decreases rows.len(),
{
    if rows.len() > 0 && !spec_is_row(rows[0], statechain_id, tx_n) {
        let rest = rows.drop_first();
        lemma_position(rest, statechain_id, tx_n);
        match spec_position(rest, statechain_id, tx_n) {
            Some(i) => {
                assert(rest[i] == rows[i + 1]);
            },
            None => {
                assert forall|j: int| 0 <= j < rows.len() implies !spec_is_row(
                    #[trigger] rows[j],
                    statechain_id,
                    tx_n,
                ) by {
                    if j > 0 {
                        assert(rest[j - 1] == rows[j]);
                    }
                }
            },
        }
    }
}

/// Writing a row keeps the rows unique.
pub proof fn lemma_upsert_keeps_unique(rows: Seq<BackupTxView>, row: BackupTxView)
    requires
        spec_rows_unique(rows),
    ensures
        spec_rows_unique(spec_upsert(rows, row)),
{
    lemma_position(rows, row.statechain_id, row.tx_n);
    let after = spec_upsert(rows, row);
    match spec_position(rows, row.statechain_id, row.tx_n) {
        Some(at) => {
            assert forall|i: int, j: int| 0 <= i < j < after.len() implies !spec_is_row(
                #[trigger] after[i],
                (#[trigger] after[j]).statechain_id,
                after[j].tx_n,
            ) by {
                assert(spec_is_row(rows[at], row.statechain_id, row.tx_n));
                if i == at {
                    assert(!spec_is_row(rows[at], rows[j].statechain_id, rows[j].tx_n));
                } else if j == at {
                    assert(!spec_is_row(rows[i], rows[at].statechain_id, rows[at].tx_n));
                } else {
                    assert(!spec_is_row(rows[i], rows[j].statechain_id, rows[j].tx_n));
                }
            }
        },
        None => {
            assert forall|i: int, j: int| 0 <= i < j < after.len() implies !spec_is_row(
                #[trigger] after[i],
                (#[trigger] after[j]).statechain_id,
                after[j].tx_n,
            ) by {
                if j < rows.len() {
                    assert(!spec_is_row(rows[i], rows[j].statechain_id, rows[j].tx_n));
                } else {
                    assert(!spec_is_row(rows[i], row.statechain_id, row.tx_n));
                }
            }
        },
    }
}

/// A row at the end counts for its own statecoin and for no other.
pub proof fn lemma_count_push(rows: Seq<BackupTxView>, row: BackupTxView, statechain_id: Seq<char>)
    ensures
        spec_count(rows.push(row), statechain_id) == spec_count(rows, statechain_id) + if row.statechain_id
            == statechain_id {
            1nat
        } else {
            0nat
        },
{
    assert(rows.push(row).drop_last() =~= rows);
}

/// Writing rows that are new to the store adds one row for each: where no
/// written row is for a statecoin and number that the store or another
/// written row has, the count for a statecoin grows by the number of
/// written rows that are for it.
proof fn lemma_fresh_rows_add(
    rows: Seq<BackupTxView>,
    written: Seq<BackupTxView>,
    statechain_id: Seq<char>,
)
    requires
        forall|i: int, j: int|
            0 <= i < rows.len() && 0 <= j < written.len() ==> !spec_is_row(
                #[trigger] rows[i],
                (#[trigger] written[j]).statechain_id,
                written[j].tx_n,
            ),
        spec_rows_unique(written),
        forall|j: int| 0 <= j < written.len() ==> (#[trigger] written[j]).statechain_id == statechain_id,
    ensures
        spec_count(spec_upsert_all(rows, written), statechain_id) == spec_count(rows, statechain_id)
            + written.len(),
    decreases written.len(),
{
    if written.len() > 0 {
        let first = written[0];
        let rest = written.drop_first();
        lemma_position(rows, first.statechain_id, first.tx_n);
        assert(spec_position(rows, first.statechain_id, first.tx_n) is None) by {
            if spec_position(rows, first.statechain_id, first.tx_n) is Some {
                let at = spec_position(rows, first.statechain_id, first.tx_n).unwrap();
                assert(!spec_is_row(rows[at], written[0].statechain_id, written[0].tx_n));
            }
        }
        let grown = rows.push(first);
        assert(spec_upsert(rows, first) == grown);
        lemma_count_push(rows, first, statechain_id);
        assert forall|i: int, j: int| 0 <= i < grown.len() && 0 <= j < rest.len() implies !spec_is_row(
            #[trigger] grown[i],
            (#[trigger] rest[j]).statechain_id,
            rest[j].tx_n,
        ) by {
            assert(rest[j] == written[j + 1]);
            if i < rows.len() {
                assert(grown[i] == rows[i]);
            } else {
                assert(grown[i] == written[0]);
                assert(!spec_is_row(written[0], written[j + 1].statechain_id, written[j + 1].tx_n));
            }
        }
        assert forall|i: int, j: int| 0 <= i < j < rest.len() implies !spec_is_row(
            #[trigger] rest[i],
            (#[trigger] rest[j]).statechain_id,
            rest[j].tx_n,
        ) by {
            assert(rest[i] == written[i + 1] && rest[j] == written[j + 1]);
        }
        assert forall|j: int| 0 <= j < rest.len() implies (#[trigger] rest[j]).statechain_id
            == statechain_id by {
            assert(rest[j] == written[j + 1]);
        }
        lemma_fresh_rows_add(grown, rest, statechain_id);
    }
}

/// A store without rows for a statecoin counts nothing for it.
proof fn lemma_count_none(rows: Seq<BackupTxView>, statechain_id: Seq<char>)
    requires
        forall|i: int| 0 <= i < rows.len() ==> (#[trigger] rows[i]).statechain_id != statechain_id,
    ensures
        spec_count(rows, statechain_id) == 0,
    decreases rows.len(),
{
    if rows.len() > 0 {
        let shorter = rows.drop_last();
        assert forall|i: int| 0 <= i < shorter.len() implies (#[trigger] shorter[i]).statechain_id
            != statechain_id by {
            assert(shorter[i] == rows[i]);
        }
        lemma_count_none(shorter, statechain_id);
    }
}

/// After the backup transactions of a received statecoin are written to a
/// store that had none for it, the store holds exactly as many rows for
/// the statecoin as there were backup transactions: given that they all
/// name the statecoin and carry numbers that differ from one another.
pub proof fn lemma_received_chain_is_stored(
    rows: Seq<BackupTxView>,
    written: Seq<BackupTxView>,
    statechain_id: Seq<char>,
)
    requires
        forall|i: int| 0 <= i < rows.len() ==> (#[trigger] rows[i]).statechain_id != statechain_id,
        forall|j: int| 0 <= j < written.len() ==> (#[trigger] written[j]).statechain_id == statechain_id,
        forall|i: int, j: int|
            0 <= i < j < written.len() ==> (#[trigger] written[i]).tx_n != (#[trigger] written[j]).tx_n,
    ensures
        spec_count(spec_upsert_all(rows, written), statechain_id) == written.len(),
{
    lemma_count_none(rows, statechain_id);
    assert(spec_rows_unique(written));
    lemma_fresh_rows_add(rows, written, statechain_id);
}

/// After a transfer message that validates is received into a store that
/// had no rows for its statecoin, the store holds exactly as many rows for
/// the statecoin as the message has backup transactions.
pub proof fn lemma_validated_chain_is_stored(
    rows: Seq<BackupTxView>,
    message: TransferMsgView,
    info: StatechainInfoView,
    tx0_hex: Seq<char>,
    outpoint: TxOutpointView,
    new_user_pubkey: Seq<char>,
    tolerance: u32,
)
    requires
        forall|i: int|
            0 <= i < rows.len() ==> (#[trigger] rows[i]).statechain_id != message.statechain_id,
        spec_validate(
            spec_chain_evidence(message, info, tx0_hex, outpoint, new_user_pubkey),
            info,
            tolerance,
        ) is Ok,
    ensures
        spec_count(spec_upsert_all(rows, message.backup_transactions), message.statechain_id)
            == message.backup_transactions.len(),
{
    let evidence = spec_chain_evidence(message, info, tx0_hex, outpoint, new_user_pubkey);
    let written = message.backup_transactions;
    assert(spec_shape_ok(evidence, info));
    assert forall|j: int| 0 <= j < written.len() implies (#[trigger] written[j]).statechain_id
        == message.statechain_id && written[j].tx_n == j + 1 by {
        assert(spec_backup_shape_ok(evidence.backups[j], j, evidence.outpoint));
    }
    lemma_received_chain_is_stored(rows, written, message.statechain_id);
}

impl BackupStore {
    /// A store without rows.
    pub fn new() -> (store: BackupStore)
        ensures
            store.rows@.len() == 0,
    {
        BackupStore { rows: Vec::new() }
    }

    /// The position of the row for a statecoin and number, if there is one.
    pub fn position(&self, statechain_id: &String, tx_n: u32) -> (found: Option<usize>)
        ensures
            match found {
                Some(i) => spec_position(backup_views(self.rows@), statechain_id@, tx_n) == Some(
                    i as int,
                ) && i < self.rows@.len(),
                None => spec_position(backup_views(self.rows@), statechain_id@, tx_n) is None,
            },
    {
        let ghost all = backup_views(self.rows@);
        let mut i: usize = 0;
        assert(all.skip(0) =~= all);
        while i < self.rows.len()
            invariant
                0 <= i <= self.rows@.len(),
                all == backup_views(self.rows@),
                spec_position(all, statechain_id@, tx_n) == match spec_position(
                    all.skip(i as int),
                    statechain_id@,
                    tx_n,
                ) {
                    Some(k) => Some(k + i),
                    None => None,
                },
            decreases self.rows@.len() - i,
        {
            assert(all.skip(i as int)[0] == self.rows@[i as int]@);
            assert(all.skip(i as int).drop_first() =~= all.skip(i + 1));
            if self.rows[i].statechain_id == *statechain_id && self.rows[i].tx_n == tx_n {
                return Some(i);
            }
            i = i + 1;
        }
        assert(all.skip(i as int).len() == 0);
        None
    }

    /// Writes a row: over the row for the same statecoin and number where
    /// there is one, else as a new row.
    pub fn upsert(&mut self, row: BackupTx)
        ensures
            backup_views(final(self).rows@) == spec_upsert(backup_views(old(self).rows@), row@),
    {
        let ghost before = backup_views(self.rows@);
        let ghost written = row@;
        match self.position(&row.statechain_id, row.tx_n) {
            Some(at) => {
                self.rows.set(at, row);
                assert(backup_views(self.rows@) =~= before.update(at as int, written));
            },
            None => {
                self.rows.push(row);
                assert(backup_views(self.rows@) =~= before.push(written));
            },
        }
    }

    /// Writes the backup transactions of a statecoin, one after the other.
    pub fn insert_or_update_backup_txs(&mut self, backup_transactions: &Vec<BackupTx>)
        ensures
            backup_views(final(self).rows@) == spec_upsert_all(
                backup_views(old(self).rows@),
                backup_views(backup_transactions@),
            ),
    {
        let ghost start = backup_views(self.rows@);
        let ghost all = backup_views(backup_transactions@);
        let mut i: usize = 0;
        assert(all.skip(0) =~= all);
        while i < backup_transactions.len()
            invariant
                0 <= i <= backup_transactions@.len(),
                all == backup_views(backup_transactions@),
                spec_upsert_all(start, all) == spec_upsert_all(
                    backup_views(self.rows@),
                    all.skip(i as int),
                ),
            decreases backup_transactions@.len() - i,
        {
            assert(all.skip(i as int)[0] == backup_transactions@[i as int]@);
            assert(all.skip(i as int).drop_first() =~= all.skip(i + 1));
            self.upsert(backup_transactions[i].duplicate());
            i = i + 1;
        }
        assert(all.skip(i as int).len() == 0);
    }

    /// The number of rows for a statecoin.
    pub fn count_of(&self, statechain_id: &String) -> (count: usize)
        ensures
            count == spec_count(backup_views(self.rows@), statechain_id@),
    {
        let ghost all = backup_views(self.rows@);
        let mut count: usize = 0;
        let mut i: usize = 0;
        while i < self.rows.len()
            invariant
                0 <= i <= self.rows@.len(),
                all == backup_views(self.rows@),
                count <= i,
                count == spec_count(all.take(i as int), statechain_id@),
            decreases self.rows@.len() - i,
        {
            proof {
                assert(all.take(i + 1).drop_last() =~= all.take(i as int));
                assert(all.take(i + 1).last() == self.rows@[i as int]@);
            }
            if self.rows[i].statechain_id == *statechain_id {
                count = count + 1;
            }
            i = i + 1;
        }
        assert(all.take(i as int) =~= all);
        count
    }
}

} // verus!
