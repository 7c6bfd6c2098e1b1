//! The entry store: every persisted row of the `water` table, with ids
//! assigned at insertion, starting at 1 and increasing by one. The "latest"
//! row is the one with the greatest id. Rows are never deleted; the only
//! mutation is overwriting a row's `water_intake`.

use vstd::prelude::*;

verus! {

/// One persisted entry: the calendar date it was created, the millilitres
/// drunk so far, and the day's target in millilitres.
pub struct WaterRow {
    pub id: i32,
    pub date: String,
    pub water_intake: i32,
    pub target: i32,
}

/// Row `id`s are positive and sit at position `id - 1`; every target is
/// positive (enforced at insertion), so a percentage is always defined.
pub struct WaterStore {
    rows: Vec<WaterRow>,
}

/// The row `GetById(id)` finds: ids start at 1 and are dense, so a lookup
/// succeeds exactly for `1 <= id <= len`.
pub open spec fn spec_lookup(s: Seq<WaterRow>, id: int) -> Option<WaterRow> {
    if 1 <= id <= s.len() {
        Some(s[id - 1])
    } else {
        None
    }
}

/// The latest row: the one with the maximum id, i.e. the last inserted.
pub open spec fn spec_latest(s: Seq<WaterRow>) -> Option<WaterRow> {
    if s.len() == 0 {
        None
    } else {
        Some(s.last())
    }
}

/// `r` with its intake overwritten; every other column keeps its value.
pub open spec fn with_intake(r: WaterRow, water_intake: i32) -> WaterRow {
    WaterRow { id: r.id, date: r.date, water_intake: water_intake, target: r.target }
}

/// `post` is `pre` with `delta` added to the latest row's intake and nothing
/// else changed: the observable effect of one additive update.
pub open spec fn updates_latest_by(pre: Seq<WaterRow>, post: Seq<WaterRow>, delta: int) -> bool {
    &&& pre.len() > 0
    &&& post.len() == pre.len()
    &&& post.last().id == pre.last().id
    &&& post.last().date == pre.last().date
    &&& post.last().water_intake == pre.last().water_intake + delta
    &&& post.last().target == pre.last().target
    &&& forall|i: int| 0 <= i < pre.len() - 1 ==> post[i] == pre[i]
}

impl View for WaterStore {
    type V = Seq<WaterRow>;

    closed spec fn view(&self) -> Seq<WaterRow> {
        self.rows@
    }
}

impl WaterStore {
    pub open spec fn inv(self) -> bool {
        &&& self@.len() <= i32::MAX
        &&& forall|i: int| 0 <= i < self@.len() ==> (#[trigger] self@[i]).id == i + 1
        &&& forall|i: int| 0 <= i < self@.len() ==> (#[trigger] self@[i]).target > 0
    }

    pub fn new() -> (s: WaterStore)
        ensures
            s.inv(),
            s@ =~= Seq::<WaterRow>::empty(),
    {
        WaterStore { rows: Vec::new() }
    }

    /// Appends one row; the store assigns the next id. Targets must be
    /// positive and intakes non-negative, which validation guarantees.
    pub fn insert(&mut self, date: String, water_intake: i32, target: i32) -> (id: i32)
        requires
            old(self).inv(),
            old(self)@.len() < i32::MAX,
            water_intake >= 0,
            target > 0,
        ensures
            final(self).inv(),
            id == old(self)@.len() + 1,
            final(self)@ =~= old(self)@.push(
                (WaterRow { id, date, water_intake, target }),
            ),
    {
        let id: i32 = (self.rows.len() as i32) + 1;
        self.rows.push(WaterRow { id, date, water_intake, target });
        id
    }

    /// Every row, in insertion order.
    pub fn list_all(&self) -> (r: &Vec<WaterRow>)
        ensures
            r@ == self@,
    {
        &self.rows
    }

    /// Point lookup by id; `None` exactly when no row carries `id`.
    pub fn get_by_id(&self, id: i32) -> (r: Option<&WaterRow>)
        requires
            self.inv(),
        ensures
            match r {
                Some(row) => spec_lookup(self@, id as int) == Some(*row),
                None => spec_lookup(self@, id as int) is None,
            },
    {
        if id >= 1 && (id as usize) <= self.rows.len() {
            Some(&self.rows[(id as usize) - 1])
        } else {
            None
        }
    }

    /// The row with the maximum id, read atomically; `None` exactly on an
    /// empty store.
    pub fn get_latest(&self) -> (r: Option<&WaterRow>)
        requires
            self.inv(),
        ensures
            match r {
                Some(row) => spec_latest(self@) == Some(*row) && row.id as int == self@.len(),
                None => self@.len() == 0,
            },
    {
        if self.rows.len() == 0 {
            None
        } else {
            Some(&self.rows[self.rows.len() - 1])
        }
    }

    /// Overwrites the intake column of the row carrying `id`; a no-op (not
    /// an error) when no row matches.
    pub fn update_intake(&mut self, id: i32, new_intake: i32) -> (updated: bool)
        requires
            old(self).inv(),
        ensures
            final(self).inv(),
            updated == (1 <= id && id as int <= old(self)@.len()),
            updated ==> final(self)@ =~= old(self)@.update(
                id as int - 1,
                with_intake(old(self)@[id as int - 1], new_intake),
            ),
            !updated ==> final(self)@ == old(self)@,
    {
        if id >= 1 && (id as usize) <= self.rows.len() {
            let idx: usize = (id as usize) - 1;
            let mut row = self.rows.remove(idx);
            row.water_intake = new_intake;
            self.rows.insert(idx, row);
            proof {
                assert(self.rows@ =~= old(self)@.update(
                    id as int - 1,
                    with_intake(old(self)@[id as int - 1], new_intake),
                ));
            }
            true
        } else {
            false
        }
    }
}

/// Inserting a row and then fetching it by its assigned id yields that row,
/// with every column as it was inserted.
pub proof fn lemma_insert_then_lookup(s: Seq<WaterRow>, r: WaterRow)
    requires
        r.id as int == s.len() + 1,
    ensures
        spec_lookup(s.push(r), r.id as int) == Some(r),
{
}

/// After any insert, the latest row is the row just inserted, whatever the
/// store held before.
pub proof fn lemma_latest_is_last_insert(s: Seq<WaterRow>, r: WaterRow)
    ensures
        spec_latest(s.push(r)) == Some(r),
{
}

/// Additive updates accumulate: applying a delta of `d1` and then `d2` to
/// the latest row leaves its intake raised by `d1 + d2`.
pub proof fn lemma_update_is_additive(
    s0: Seq<WaterRow>,
    s1: Seq<WaterRow>,
    s2: Seq<WaterRow>,
    d1: int,
    d2: int,
)
    requires
        updates_latest_by(s0, s1, d1),
        updates_latest_by(s1, s2, d2),
    ensures
        updates_latest_by(s0, s2, d1 + d2),
{
}

/// An empty store has no latest row and no lookup succeeds against it.
pub proof fn lemma_empty_store(id: int)
    ensures
        spec_latest(Seq::<WaterRow>::empty()) is None,
        spec_lookup(Seq::<WaterRow>::empty(), id) is None,
{
}

} // verus!
