//! The category table as a mathematical value: a sequence of rows in
//! storage order, and what each repository operation means on it.

use crate::domain::categories::model::{
    CategoryCreateView, CategoryUpdateView, CategoryView, DEFAULT_TIMESTAMP,
};
use vstd::prelude::*;

verus! {

/// Whether `part` occurs in `text` as a contiguous run of characters, case
/// and all. The empty text occurs everywhere.
pub open spec fn contains_text(text: Seq<char>, part: Seq<char>) -> bool {
    exists|at: int| occurs_at(text, part, at)
}

/// Whether `part` stands in `text` from position `at` on.
pub open spec fn occurs_at(text: Seq<char>, part: Seq<char>, at: int) -> bool {
    &&& 0 <= at
    &&& at + part.len() <= text.len()
    &&& text.subrange(at, at + part.len()) == part
}

/// Whether a row's name passes the name filter. No filter passes every name.
pub open spec fn name_matches(filter: Option<Seq<char>>, name: Seq<char>) -> bool {
    match filter {
        Some(part) => contains_text(name, part),
        None => true,
    }
}

/// The rows whose name passes the filter, in storage order.
pub open spec fn matching_rows(rows: Seq<CategoryView>, filter: Option<Seq<char>>) -> Seq<
    CategoryView,
> {
    rows.filter(|row: CategoryView| name_matches(filter, row.name))
}

/// Number of rows skipped before page `page`: pages are numbered from 1.
pub open spec fn page_offset(page: int, page_size: int) -> int {
    page_size * (page - 1)
}

/// The rows of page `page` where each page holds `page_size` rows: those at
/// positions `page_offset(page, page_size)` up to, and without,
/// `page_offset(page, page_size) + page_size`, as far as there are any.
pub open spec fn page_of<A>(rows: Seq<A>, page: int, page_size: int) -> Seq<A> {
    let offset = page_offset(page, page_size);
    let start = if offset < rows.len() { offset } else { rows.len() as int };
    let end = if offset + page_size < rows.len() { offset + page_size } else { rows.len() as int };
    rows.subrange(start, end)
}

/// What a search returns: the requested page of the matching rows with the
/// number of all matching rows, or nothing when that page holds no row.
pub open spec fn find_rows(
    rows: Seq<CategoryView>,
    filter: Option<Seq<char>>,
    page: int,
    page_size: int,
) -> Option<(Seq<CategoryView>, nat)> {
    let matching = matching_rows(rows, filter);
    let records = page_of(matching, page, page_size);
    if records.len() == 0 {
        None
    } else {
        Some((records, matching.len()))
    }
}

/// Whether `at` is the first position of a row with identifier `id`.
pub open spec fn is_first_index(rows: Seq<CategoryView>, id: u128, at: int) -> bool {
    &&& 0 <= at < rows.len()
    &&& rows[at].id == id
    &&& forall|before: int| 0 <= before < at ==> (#[trigger] rows[before]).id != id
}

/// Whether some row has identifier `id`.
pub open spec fn has_id(rows: Seq<CategoryView>, id: u128) -> bool {
    exists|at: int| is_first_index(rows, id, at)
}

/// The first position of a row with identifier `id`, where there is one.
pub open spec fn first_index_of(rows: Seq<CategoryView>, id: u128) -> int {
    choose|at: int| is_first_index(rows, id, at)
}

/// The row with identifier `id`, if any.
pub open spec fn row_by_id(rows: Seq<CategoryView>, id: u128) -> Option<CategoryView> {
    if has_id(rows, id) {
        Some(rows[first_index_of(rows, id)])
    } else {
        None
    }
}

/// Whether `row` is what storing `command` gives: the command's identifier,
/// name and description, the active flag set, and both timestamps set by
/// storage.
pub open spec fn is_stored_form(row: CategoryView, command: CategoryCreateView) -> bool {
    &&& row.id == command.id
    &&& row.name == command.name
    &&& row.description == command.description
    &&& row.is_active
    &&& row.created_at != DEFAULT_TIMESTAMP
    &&& row.updated_at != DEFAULT_TIMESTAMP
}

/// Whether `row` is what applying `command` to `before` gives: name and
/// description replaced, the update time not earlier, all else kept.
pub open spec fn is_updated_form(
    row: CategoryView,
    before: CategoryView,
    command: CategoryUpdateView,
) -> bool {
    &&& row.id == before.id
    &&& row.name == command.name
    &&& row.description == command.description
    &&& row.is_active == before.is_active
    &&& row.created_at == before.created_at
    &&& row.updated_at >= before.updated_at
}

/// The table after `row` was stored.
pub open spec fn rows_after_insert(rows: Seq<CategoryView>, row: CategoryView) -> Seq<
    CategoryView,
> {
    rows.push(row)
}

/// The table after the row with the identifier of `row` was replaced by `row`.
pub open spec fn rows_after_update(rows: Seq<CategoryView>, row: CategoryView) -> Seq<
    CategoryView,
> {
    rows.update(first_index_of(rows, row.id), row)
}

/// The table after every row with identifier `id` was removed.
pub open spec fn rows_after_delete(rows: Seq<CategoryView>, id: u128) -> Seq<CategoryView> {
    rows.filter(|row: CategoryView| row.id != id)
}

/// A position that holds `id` with no earlier one is the position that
/// lookups by `id` find.
pub proof fn lemma_first_index(rows: Seq<CategoryView>, id: u128, at: int)
    requires
        is_first_index(rows, id, at),
    ensures
        has_id(rows, id),
        first_index_of(rows, id) == at,
        row_by_id(rows, id) == Some(rows[at]),
{
    let chosen = first_index_of(rows, id);
    assert(is_first_index(rows, id, chosen));
    if chosen < at {
        assert(rows[chosen].id != id);
    }
    if at < chosen {
        assert(rows[at].id != id);
    }
}

/// Where no row holds `id`, lookups by `id` find nothing.
pub proof fn lemma_absent(rows: Seq<CategoryView>, id: u128)
    requires
        forall|at: int| 0 <= at < rows.len() ==> (#[trigger] rows[at]).id != id,
    ensures
        !has_id(rows, id),
        row_by_id(rows, id) is None,
{
    if has_id(rows, id) {
        let chosen = first_index_of(rows, id);
        assert(is_first_index(rows, id, chosen));
        assert(rows[chosen].id != id);
    }
}

/// Where some row holds `id`, lookups by `id` find a row, at or before it.
pub proof fn lemma_present(rows: Seq<CategoryView>, id: u128, at: int)
    requires
        0 <= at < rows.len(),
        rows[at].id == id,
    ensures
        has_id(rows, id),
        0 <= first_index_of(rows, id) <= at,
        rows[first_index_of(rows, id)].id == id,
    decreases at,
{
    if exists|before: int| 0 <= before < at && (#[trigger] rows[before]).id == id {
        let before = choose|before: int| 0 <= before < at && (#[trigger] rows[before]).id == id;
        lemma_present(rows, id, before);
    } else {
        assert(is_first_index(rows, id, at));
        lemma_first_index(rows, id, at);
    }
}

/// Filtering a sequence that grew by one item keeps what was kept before
/// and decides on the new item alone.
pub proof fn lemma_filter_push<A>(items: Seq<A>, item: A, keep: spec_fn(A) -> bool)
    ensures
        items.push(item).filter(keep) == if keep(item) {
            items.filter(keep).push(item)
        } else {
            items.filter(keep)
        },
{
    reveal(Seq::filter);
    assert(items.push(item).drop_last() =~= items);
}

/// The matching rows of a table that grew by one row.
pub proof fn lemma_matching_rows_push(
    rows: Seq<CategoryView>,
    row: CategoryView,
    filter: Option<Seq<char>>,
)
    ensures
        matching_rows(rows.push(row), filter) == if name_matches(filter, row.name) {
            matching_rows(rows, filter).push(row)
        } else {
            matching_rows(rows, filter)
        },
{
    lemma_filter_push(rows, row, |row: CategoryView| name_matches(filter, row.name));
}

/// No row is skipped before the first page, and never a negative number.
pub proof fn lemma_page_offset_bounds(page: int, page_size: int)
    requires
        page >= 1,
        page_size >= 0,
    ensures
        page_offset(page, page_size) >= 0,
        page == 1 ==> page_offset(page, page_size) == 0,
        page_offset(page + 1, page_size) == page_offset(page, page_size) + page_size,
{
    assert(page_size * (page - 1) >= 0) by (nonlinear_arith)
        requires
            page >= 1,
            page_size >= 0,
    ;
    assert(page_size * (page + 1 - 1) == page_size * (page - 1) + page_size)
        by (nonlinear_arith);
    assert(page == 1 ==> page_size * (page - 1) == 0) by (nonlinear_arith);
}

/// A page of a sequence that grew by one item takes the new item exactly
/// where its position falls on that page.
pub proof fn lemma_page_of_push<A>(rows: Seq<A>, row: A, page: int, page_size: int)
    requires
        page >= 1,
        page_size >= 0,
    ensures
        page_of(rows.push(row), page, page_size) == if page_offset(page, page_size) <= rows.len()
            < page_offset(page, page_size) + page_size {
            page_of(rows, page, page_size).push(row)
        } else {
            page_of(rows, page, page_size)
        },
{
    lemma_page_offset_bounds(page, page_size);
    let offset = page_offset(page, page_size);
    if offset <= rows.len() < offset + page_size {
        assert(page_of(rows.push(row), page, page_size) =~= page_of(rows, page, page_size).push(
            row,
        ));
    } else {
        assert(page_of(rows.push(row), page, page_size) =~= page_of(rows, page, page_size));
    }
}

/// The table without `id`, of a table that grew by one row.
pub proof fn lemma_rows_after_delete_push(rows: Seq<CategoryView>, row: CategoryView, id: u128)
    ensures
        rows_after_delete(rows.push(row), id) == if row.id != id {
            rows_after_delete(rows, id).push(row)
        } else {
            rows_after_delete(rows, id)
        },
{
    lemma_filter_push(rows, row, |row: CategoryView| row.id != id);
}

/// A search whose filter no stored name passes finds nothing, whatever
/// page is asked for.
pub proof fn lemma_no_match_finds_nothing(
    rows: Seq<CategoryView>,
    filter: Option<Seq<char>>,
    page: int,
    page_size: int,
)
    requires
        page >= 1,
        page_size >= 0,
        forall|at: int| 0 <= at < rows.len() ==> !name_matches(filter, (#[trigger] rows[at]).name),
    ensures
        find_rows(rows, filter, page, page_size) is None,
{
    let keep = |row: CategoryView| name_matches(filter, row.name);
    assert(rows.all(|row: CategoryView| !keep(row)));
    rows.lemma_all_neg_filter_empty(keep);
    lemma_page_offset_bounds(page, page_size);
}

/// Each record of a page is the row that stands at the page's offset plus
/// the record's position, so two different pages of one size share no
/// position.
pub proof fn lemma_page_of_positions<A>(rows: Seq<A>, page: int, page_size: int, at: int)
    requires
        page >= 1,
        page_size >= 0,
        0 <= at < page_of(rows, page, page_size).len(),
    ensures
        at < page_size,
        page_offset(page, page_size) + at < rows.len(),
        page_of(rows, page, page_size)[at] == rows[page_offset(page, page_size) + at],
{
    lemma_page_offset_bounds(page, page_size);
}

/// A category that was stored is what a lookup by its identifier finds,
/// and lookups by other identifiers find what they found before.
pub proof fn lemma_insert_then_find_by_id(rows: Seq<CategoryView>, row: CategoryView, other: u128)
    requires
        row_by_id(rows, row.id) is None,
    ensures
        row_by_id(rows_after_insert(rows, row), row.id) == Some(row),
        other != row.id ==> row_by_id(rows_after_insert(rows, row), other) == row_by_id(
            rows,
            other,
        ),
{
    let after = rows_after_insert(rows, row);
    assert forall|at: int| 0 <= at < rows.len() implies (#[trigger] rows[at]).id != row.id by {
        if rows[at].id == row.id {
            lemma_present(rows, row.id, at);
        }
    }
    assert(is_first_index(after, row.id, rows.len() as int));
    lemma_first_index(after, row.id, rows.len() as int);
    if other != row.id {
        if has_id(rows, other) {
            let at = first_index_of(rows, other);
            assert(is_first_index(rows, other, at));
            assert(is_first_index(after, other, at));
            lemma_first_index(after, other, at);
        } else {
            assert forall|at: int| 0 <= at < after.len() implies (#[trigger] after[at]).id
                != other by {
                if at < rows.len() && rows[at].id == other {
                    lemma_present(rows, other, at);
                }
            }
            lemma_absent(after, other);
        }
    }
}

/// A category that was updated is what a lookup by its identifier finds
/// afterwards.
pub proof fn lemma_update_then_find_by_id(rows: Seq<CategoryView>, row: CategoryView)
    requires
        row_by_id(rows, row.id) is Some,
    ensures
        row_by_id(rows_after_update(rows, row), row.id) == Some(row),
        rows_after_update(rows, row).len() == rows.len(),
{
    let at = first_index_of(rows, row.id);
    assert(is_first_index(rows, row.id, at));
    let after = rows_after_update(rows, row);
    assert(is_first_index(after, row.id, at));
    lemma_first_index(after, row.id, at);
}

/// After a category was deleted a lookup by its identifier finds nothing.
pub proof fn lemma_delete_then_find_by_id(rows: Seq<CategoryView>, id: u128)
    ensures
        row_by_id(rows_after_delete(rows, id), id) is None,
{
    let after = rows_after_delete(rows, id);
    let keep = |row: CategoryView| row.id != id;
    assert forall|at: int| 0 <= at < after.len() implies (#[trigger] after[at]).id != id by {
        rows.lemma_filter_pred(keep, at);
    }
    lemma_absent(after, id);
}

/// Whether no two rows share an identifier.
pub open spec fn has_unique_ids(rows: Seq<CategoryView>) -> bool {
    forall|first: int, second: int|
        0 <= first < second < rows.len() ==> (#[trigger] rows[first]).id != (
        #[trigger] rows[second]).id
}

/// Filtering keeps identifiers unique.
pub proof fn lemma_filter_keeps_ids_unique(
    rows: Seq<CategoryView>,
    keep: spec_fn(CategoryView) -> bool,
)
    requires
        has_unique_ids(rows),
    ensures
        has_unique_ids(rows.filter(keep)),
    decreases rows.len(),
{
    reveal(Seq::filter);
    if rows.len() > 0 {
        let front = rows.drop_last();
        assert(has_unique_ids(front)) by {
            assert forall|first: int, second: int| 0 <= first < second < front.len() implies (
            #[trigger] front[first]).id != (#[trigger] front[second]).id by {
                assert(rows[first].id != rows[second].id);
            }
        }
        lemma_filter_keeps_ids_unique(front, keep);
        let kept = front.filter(keep);
        if keep(rows.last()) {
            let after = kept.push(rows.last());
            assert forall|first: int, second: int| 0 <= first < second < after.len() implies (
            #[trigger] after[first]).id != (#[trigger] after[second]).id by {
                if second == kept.len() {
                    front.lemma_filter_contains_rev(keep, kept[first]);
                    let at = choose|at: int| 0 <= at < front.len() && front[at] == kept[first];
                    assert(rows[at].id != rows[rows.len() - 1].id);
                } else {
                    assert(kept[first].id != kept[second].id);
                }
            }
        }
    }
}

/// Storing a category under a free identifier keeps identifiers unique.
pub proof fn lemma_insert_keeps_ids_unique(rows: Seq<CategoryView>, row: CategoryView)
    requires
        has_unique_ids(rows),
        row_by_id(rows, row.id) is None,
    ensures
        has_unique_ids(rows_after_insert(rows, row)),
{
    let after = rows_after_insert(rows, row);
    assert forall|first: int, second: int| 0 <= first < second < after.len() implies (
    #[trigger] after[first]).id != (#[trigger] after[second]).id by {
        if second == rows.len() {
            if rows[first].id == row.id {
                lemma_present(rows, row.id, first);
            }
        } else {
            assert(rows[first].id != rows[second].id);
        }
    }
}

/// Replacing a category by one of the same identifier keeps identifiers
/// unique.
pub proof fn lemma_update_keeps_ids_unique(rows: Seq<CategoryView>, row: CategoryView)
    requires
        has_unique_ids(rows),
        row_by_id(rows, row.id) is Some,
    ensures
        has_unique_ids(rows_after_update(rows, row)),
{
    let at = first_index_of(rows, row.id);
    assert(is_first_index(rows, row.id, at));
    let after = rows_after_update(rows, row);
    assert forall|first: int, second: int| 0 <= first < second < after.len() implies (
    #[trigger] after[first]).id != (#[trigger] after[second]).id by {
        assert(rows[first].id != rows[second].id);
    }
}

/// Removing a category keeps identifiers unique.
pub proof fn lemma_delete_keeps_ids_unique(rows: Seq<CategoryView>, id: u128)
    requires
        has_unique_ids(rows),
    ensures
        has_unique_ids(rows_after_delete(rows, id)),
{
    lemma_filter_keeps_ids_unique(rows, |row: CategoryView| row.id != id);
}

/// Two different pages of one search share no category: in a table of
/// unique identifiers no record of page `first_page` has the identifier
/// of a record of page `second_page`.
pub proof fn lemma_pages_share_no_category(
    rows: Seq<CategoryView>,
    filter: Option<Seq<char>>,
    first_page: int,
    second_page: int,
    page_size: int,
    first: int,
    second: int,
)
    requires
        has_unique_ids(rows),
        1 <= first_page < second_page,
        page_size >= 0,
        0 <= first < page_of(matching_rows(rows, filter), first_page, page_size).len(),
        0 <= second < page_of(matching_rows(rows, filter), second_page, page_size).len(),
    ensures
        page_of(matching_rows(rows, filter), first_page, page_size)[first].id != page_of(
            matching_rows(rows, filter),
            second_page,
            page_size,
        )[second].id,
{
    let matching = matching_rows(rows, filter);
    lemma_filter_keeps_ids_unique(rows, |row: CategoryView| name_matches(filter, row.name));
    lemma_page_of_positions(matching, first_page, page_size, first);
    lemma_page_of_positions(matching, second_page, page_size, second);
    assert(page_size * (first_page - 1) + page_size <= page_size * (second_page - 1))
        by (nonlinear_arith)
        requires
            1 <= first_page < second_page,
            page_size >= 0,
    ;
    let low = page_offset(first_page, page_size) + first;
    let high = page_offset(second_page, page_size) + second;
    assert(low < high);
    assert(matching[low].id != matching[high].id);
}

/// A category that was created is what a lookup by the identifier of its
/// command finds: the same in every field, active, and with timestamps
/// that storage has set.
pub proof fn lemma_create_then_find_by_id(
    rows: Seq<CategoryView>,
    command: CategoryCreateView,
    stored: CategoryView,
)
    requires
        row_by_id(rows, command.id) is None,
        is_stored_form(stored, command),
    ensures
        row_by_id(rows_after_insert(rows, stored), command.id) == Some(stored),
        stored.name == command.name,
        stored.description == command.description,
        stored.is_active,
        stored.created_at != DEFAULT_TIMESTAMP,
        stored.updated_at != DEFAULT_TIMESTAMP,
{
    lemma_insert_then_find_by_id(rows, stored, command.id);
}

} // verus!
