//! The pure core of each request handler: what the service computes and how
//! the store changes, for every payload. The surrounding process does the
//! transport and persistence; every rule lives here.

use vstd::prelude::*;

verus! {

use vstd::string::StringExecFns;
use crate::entry::Water;
use crate::entry::ValidationError;
use crate::entry::amend;
use crate::entry::validate_payload;
use crate::percent::compute_percentage;
use crate::percent::percentage_of;
use crate::render::dec_int;
use crate::render::display_rows;
use crate::render::format_row;
use crate::render::push_i64;
use crate::render::row_text;
use crate::render::rows_text;
use crate::store::WaterStore;
use crate::store::spec_lookup;
use crate::store::updates_latest_by;
use crate::store::with_intake;

/// Body of a request that adds an entry.
pub struct WaterPayload {
    pub water_intake: i32,
    pub target: i32,
}

/// Body of a request that adds a delta to the latest entry's intake.
pub struct UpdateWater {
    pub water_intake: i32,
}

/// Body of a request that views one entry.
pub struct ViewWaterById {
    pub id: i32,
}

/// Why an update of the latest entry could not be carried out.
#[derive(PartialEq, Eq, Structural, Debug, Clone, Copy)]
pub enum UpdateError {
    /// The store holds no rows, so there is no latest entry.
    Empty,
    /// The amended intake would leave the representable range.
    Overflow,
}

/// What an update reports back: the latest entry as it stood, and as it
/// stands after the amendment.
pub struct UpdateReport {
    pub previous: String,
    pub updated: String,
}

/// The liveness line of the service.
pub fn root() -> (r: &'static str)
    ensures
        r@ == "Server is up and running!\n"@,
{
    "Server is up and running!\n"
}

/// Validates the payload, derives the entry (dated today, with its
/// percentage), and appends it to the store, which assigns the next id.
pub fn add_water(store: &mut WaterStore, payload: WaterPayload) -> (r: Result<
    Water,
    ValidationError,
>)
    requires
        old(store).inv(),
        old(store)@.len() < i32::MAX,
    ensures
        final(store).inv(),
        r is Ok <==> payload.water_intake >= 0 && payload.target > 0,
        r matches Err(e) ==> final(store)@ == old(store)@ && (e is NegativeIntake
            <==> payload.water_intake < 0),
        r matches Ok(w) ==> {
            &&& w.water_intake == payload.water_intake
            &&& w.target == payload.target
            &&& w.percentage == percentage_of(payload.water_intake as int, payload.target as int)
            &&& final(store)@.len() == old(store)@.len() + 1
            &&& final(store)@.last().id as int == old(store)@.len() + 1
            &&& final(store)@.last().date@ == w.date@
            &&& final(store)@.last().water_intake == payload.water_intake
            &&& final(store)@.last().target == payload.target
            &&& forall|i: int|
                0 <= i < old(store)@.len() ==> final(store)@[i] == old(store)@[i]
        },
{
    match validate_payload(payload.water_intake, payload.target) {
        Err(e) => Err(e),
        Ok(_unit) => {
            let w = Water::new(payload.water_intake, payload.target);
            let date = w.date.clone();
            let _id = store.insert(date, payload.water_intake, payload.target);
            Ok(w)
        },
    }
}

/// Renders the whole log, or the fixed notice when the store is empty.
pub fn view_water(store: &WaterStore) -> (r: String)
    requires
        store.inv(),
    ensures
        store@.len() == 0 ==> r@ == "There is no water"@,
        store@.len() > 0 ==> r@ == rows_text(store@),
{
    let rows = store.list_all();
    if rows.len() == 0 {
        String::from_str("There is no water")
    } else {
        display_rows(rows)
    }
}

/// The notice returned when a lookup finds no row.
pub open spec fn not_found_text(id: int) -> Seq<char> {
    "Water with id "@ + dec_int(id) + " not found"@
}

/// Renders the row carrying `id`, or the not-found notice.
pub fn get_water_by_id(store: &WaterStore, id: i32) -> (r: String)
    requires
        store.inv(),
    ensures
        spec_lookup(store@, id as int) matches Some(row) ==> r@ == row_text(row),
        spec_lookup(store@, id as int) is None ==> r@ == not_found_text(id as int),
{
    match store.get_by_id(id) {
        Some(row) => format_row(row),
        None => {
            let mut out = String::new();
            out.append("Water with id ");
            push_i64(&mut out, id as i64);
            out.append(" not found");
            proof {
                assert(out@ =~= not_found_text(id as int));
            }
            out
        },
    }
}

/// The lookup handler: answers with the row, or the not-found notice.
pub fn get_water_id(store: &WaterStore, payload: ViewWaterById) -> (r: String)
    requires
        store.inv(),
    ensures
        spec_lookup(store@, payload.id as int) matches Some(row) ==> r@ == row_text(row),
        spec_lookup(store@, payload.id as int) is None ==> r@ == not_found_text(payload.id as int),
{
    get_water_by_id(store, payload.id)
}

/// How an update describes the latest entry as it stood.
pub open spec fn previous_text(id: int, date: Seq<char>, water_intake: int, target: int) -> Seq<
    char,
> {
    "Latest entry (ID: "@ + dec_int(id) + "): Date: "@ + date + ", Current Water Intake: "@
        + dec_int(water_intake) + ", Target: "@ + dec_int(target)
}

/// How an update describes the entry after the amendment.
pub open spec fn updated_text(date: Seq<char>, water_intake: int, target: int) -> Seq<char> {
    "Updated entry: Date: "@ + date + ", Water Intake: "@ + dec_int(water_intake) + ", Target: "@
        + dec_int(target)
}

fn render_previous(id: i32, date: &str, water_intake: i32, target: i32) -> (out: String)
    ensures
        out@ == previous_text(id as int, date@, water_intake as int, target as int),
{
    let mut out = String::new();
    out.append("Latest entry (ID: ");
    push_i64(&mut out, id as i64);
    out.append("): Date: ");
    out.append(date);
    out.append(", Current Water Intake: ");
    push_i64(&mut out, water_intake as i64);
    out.append(", Target: ");
    push_i64(&mut out, target as i64);
    proof {
        assert(out@ =~= previous_text(id as int, date@, water_intake as int, target as int));
    }
    out
}

fn render_updated(date: &str, water_intake: i32, target: i32) -> (out: String)
    ensures
        out@ == updated_text(date@, water_intake as int, target as int),
{
    let mut out = String::new();
    out.append("Updated entry: Date: ");
    out.append(date);
    out.append(", Water Intake: ");
    push_i64(&mut out, water_intake as i64);
    out.append(", Target: ");
    push_i64(&mut out, target as i64);
    proof {
        assert(out@ =~= updated_text(date@, water_intake as int, target as int));
    }
    out
}

/// Adds the payload's delta to the latest entry's intake — one atomic
/// read-amend-write against the store — and reports the entry before and
/// after. Fails on an empty store, or when the sum leaves the representable
/// range; the store is untouched on failure.
pub fn update_water(store: &mut WaterStore, payload: UpdateWater) -> (r: Result<
    UpdateReport,
    UpdateError,
>)
    requires
        old(store).inv(),
    ensures
        final(store).inv(),
        old(store)@.len() == 0 ==> (r matches Err(e) && e is Empty && final(store)@ == old(
            store)@),
        old(store)@.len() > 0 && !(i32::MIN <= old(store)@.last().water_intake
            + payload.water_intake <= i32::MAX) ==> (r matches Err(e) && e is Overflow && final(
            store)@ == old(store)@),
        old(store)@.len() > 0 && i32::MIN <= old(store)@.last().water_intake
            + payload.water_intake <= i32::MAX ==> {
            &&& updates_latest_by(old(store)@, final(store)@, payload.water_intake as int)
            &&& final(store)@ =~= old(store)@.update(
                old(store)@.len() - 1,
                with_intake(
                    old(store)@.last(),
                    (old(store)@.last().water_intake + payload.water_intake) as i32,
                ),
            )
            &&& r matches Ok(rep) && rep.previous@ == previous_text(
                old(store)@.last().id as int,
                old(store)@.last().date@,
                old(store)@.last().water_intake as int,
                old(store)@.last().target as int,
            ) && rep.updated@ == updated_text(
                old(store)@.last().date@,
                old(store)@.last().water_intake + payload.water_intake,
                old(store)@.last().target as int,
            )
        },
{
    match store.get_latest() {
        None => Err(UpdateError::Empty),
        Some(row) => {
            let id = row.id;
            let current_intake = row.water_intake;
            let target = row.target;
            match amend(current_intake, payload.water_intake) {
                None => Err(UpdateError::Overflow),
                Some(new_intake) => {
                    let previous = render_previous(id, row.date.as_str(), current_intake, target);
                    let updated = render_updated(row.date.as_str(), new_intake, target);
                    let _updated_some_row = store.update_intake(id, new_intake);
                    proof {
                        let pre = old(store)@;
                        assert(store@.last() == with_intake(pre.last(), new_intake));
                        assert(updates_latest_by(pre, store@, payload.water_intake as int));
                    }
                    Ok(UpdateReport { previous, updated })
                },
            }
        },
    }
}

/// The percentage reached by the row the store hands out first, rendered as
/// `"<percentage>%"`; the fixed notice when there are no rows.
pub fn get_percentage(store: &WaterStore) -> (r: String)
    requires
        store.inv(),
    ensures
        store@.len() == 0 ==> r@ == "There are no entries available"@,
        store@.len() > 0 ==> r@ == dec_int(
            percentage_of(store@[0].water_intake as int, store@[0].target as int),
        ) + "%"@,
{
    let rows = store.list_all();
    if rows.len() == 0 {
        String::from_str("There are no entries available")
    } else {
        let p = compute_percentage(rows[0].water_intake, rows[0].target);
        let mut out = String::new();
        push_i64(&mut out, p);
        out.append("%");
        proof {
            assert(out@ =~= dec_int(
                percentage_of(store@[0].water_intake as int, store@[0].target as int),
            ) + "%"@);
        }
        out
    }
}

} // verus!
