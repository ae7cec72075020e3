//! A category repository that keeps its table in memory.
//!
//! It stands in for a storage engine wherever none is at hand: it keeps the
//! repository contract, stamps rows from a counter of its own, and can be
//! switched off to show what callers do when storage fails.

use crate::domain::categories::model::{
    clone_text, text_view, CategoryCreateModel, CategoryModel, CategoryUpdateModel, CategoryView,
};
use crate::domain::categories::repository::{CategoryPage, CategoryRepository};
use crate::domain::categories::resources::category_not_found;
use crate::domain::categories::table::{
    contains_text, is_first_index, lemma_absent, lemma_first_index, lemma_matching_rows_push,
    lemma_page_of_push, lemma_page_offset_bounds, lemma_rows_after_delete_push, matching_rows,
    name_matches, occurs_at, page_of, page_offset, row_by_id, rows_after_delete,
    rows_after_insert,
};
use crate::domain::error::{DomainError, DomainErrorView, ErrorKind};
use vstd::prelude::*;

verus! {

/// Whether `part` stands in `text` from character position `at` on.
fn occurs_here(text: &str, part: &str, at: usize, text_len: usize, part_len: usize) -> (found:
    bool)
    requires
        text_len == text@.len(),
        part_len == part@.len(),
        at + part_len <= text_len,
    ensures
        found == occurs_at(text@, part@, at as int),
{
    let mut k: usize = 0;
    while k < part_len
        invariant
            k <= part_len,
            text_len == text@.len(),
            part_len == part@.len(),
            at + part_len <= text_len,
            forall|j: int| 0 <= j < k ==> text@[at + j] == part@[j],
        decreases part_len - k,
    {
        if text.get_char(at + k) != part.get_char(k) {
            assert(text@.subrange(at as int, at + part_len)[k as int] != part@[k as int]);
            return false;
        }
        k += 1;
    }
    assert(text@.subrange(at as int, at + part_len) =~= part@);
    true
}

/// Whether `part` occurs in `text`, character for character.
pub fn contains(text: &str, part: &str) -> (found: bool)
    ensures
        found == contains_text(text@, part@),
{
    let text_len: usize = text.unicode_len();
    let part_len: usize = part.unicode_len();
    if part_len > text_len {
        assert(forall|at: int| !occurs_at(text@, part@, at));
        return false;
    }
    let last: usize = text_len - part_len;
    let mut at: usize = 0;
    while at < last
        invariant
            at <= last,
            last == text_len - part_len,
            text_len == text@.len(),
            part_len == part@.len(),
            forall|k: int| 0 <= k < at ==> !occurs_at(text@, part@, k),
        decreases last - at,
    {
        if occurs_here(text, part, at, text_len, part_len) {
            return true;
        }
        at += 1;
    }
    let found = occurs_here(text, part, last, text_len, part_len);
    assert(forall|k: int| k > last ==> !occurs_at(text@, part@, k));
    found
}

/// Whether `name` passes the name filter.
pub fn name_passes(filter: &Option<String>, name: &str) -> (passes: bool)
    ensures
        passes == name_matches(text_view(*filter), name@),
{
    match filter {
        Some(part) => contains(name, part.as_str()),
        None => true,
    }
}

/// What every operation tells while the repository is switched off.
pub open spec fn storage_unavailable() -> DomainErrorView {
    DomainErrorView {
        kind: ErrorKind::InternalServerError,
        message: "category storage is unavailable"@,
    }
}

/// The timestamp that is handed out while the clock shows `clock`.
pub open spec fn timestamp_at(clock: i64) -> i64 {
    if clock <= 0 {
        1i64
    } else {
        clock
    }
}

/// What the clock shows after it handed a timestamp out at `clock`.
pub open spec fn clock_after(clock: i64) -> i64 {
    if timestamp_at(clock) < i64::MAX {
        (timestamp_at(clock) + 1) as i64
    } else {
        timestamp_at(clock)
    }
}

/// Categories kept in a vector, in the order in which they were stored.
pub struct MemoryCategoryRepository {
    rows: Vec<CategoryModel>,
    clock: i64,
    available: bool,
    writes: Ghost<nat>,
}

impl MemoryCategoryRepository {
    /// Whether the repository answers. While it does not, every operation
    /// fails and changes nothing.
    pub closed spec fn is_available(&self) -> bool {
        self.available
    }

    /// An empty repository that answers.
    pub fn new() -> (repository: Self)
        ensures
            repository.rows() == Seq::<CategoryView>::empty(),
            repository.writes() == 0,
            repository.is_available(),
    {
        let repository = Self { rows: Vec::new(), clock: 1, available: true, writes: Ghost(0) };
        assert(repository.rows() =~= Seq::<CategoryView>::empty());
        repository
    }

    /// Switches the repository on or off.
    pub fn set_available(&mut self, available: bool)
        ensures
            final(self).rows() == old(self).rows(),
            final(self).writes() == old(self).writes(),
            final(self).is_available() == available,
    {
        self.available = available;
    }

    /// Number of categories stored.
    pub fn len(&self) -> (count: usize)
        ensures
            count == self.rows().len(),
    {
        self.rows.len()
    }

    /// The error of every operation while the repository is switched off,
    /// see [`storage_unavailable`].
    fn unavailable() -> (error: DomainError)
        ensures
            error@ == storage_unavailable(),
    {
        DomainError::InternalServerError("category storage is unavailable".to_owned())
    }

    /// The first position that holds `id`.
    fn position(&self, id: u128) -> (found: Option<usize>)
        ensures
            match found {
                Some(at) => is_first_index(self.rows(), id, at as int),
                None => forall|k: int|
                    0 <= k < self.rows().len() ==> (#[trigger] self.rows()[k]).id != id,
            },
    {
        let mut at: usize = 0;
        while at < self.rows.len()
            invariant
                at <= self.rows.len(),
                forall|k: int| 0 <= k < at ==> (#[trigger] self.rows()[k]).id != id,
            decreases self.rows.len() - at,
        {
            if self.rows[at].id == id {
                return Some(at);
            }
            at += 1;
        }
        None
    }

    /// Hands out the next timestamp and winds the clock on by one
    /// microsecond. The timestamp is what the clock shows, or 1 where the
    /// clock shows no time after the epoch: never the default timestamp. A
    /// clock at its last value stays there.
    fn tick(&mut self) -> (now: i64)
        ensures
            now == timestamp_at(old(self).clock),
            final(self).clock == clock_after(old(self).clock),
            now > 0,
            final(self).rows() == old(self).rows(),
            final(self).writes() == old(self).writes(),
            final(self).available == old(self).available,
    {
        let now: i64 = if self.clock <= 0 {
            1
        } else {
            self.clock
        };
        self.clock = if now < i64::MAX {
            now + 1
        } else {
            now
        };
        now
    }
}

impl CategoryRepository for MemoryCategoryRepository {
    closed spec fn rows(&self) -> Seq<CategoryView> {
        self.rows.deep_view()
    }

    closed spec fn writes(&self) -> nat {
        self.writes@
    }

    fn find(&self, name: &Option<String>, page: u32, page_size: u32) -> (result: Result<
        Option<CategoryPage>,
        DomainError,
    >)
        ensures
            result is Ok <==> self.is_available() && matching_rows(
                self.rows(),
                text_view(*name),
            ).len() <= u32::MAX,
    {
        if !self.available {
            return Err(Self::unavailable());
        }
        proof {
            lemma_page_offset_bounds(page as int, page_size as int);
            assert((page_size as int) * (page as int - 1) <= 0xffff_ffff * 0xffff_ffff)
                by (nonlinear_arith)
                requires
                    0 <= page_size <= 0xffff_ffff,
                    1 <= page <= 0xffff_ffff,
            ;
        }
        let offset: u64 = (page_size as u64) * ((page - 1) as u64);
        let limit: u64 = offset + page_size as u64;
        let ghost filter = text_view(*name);
        let mut records: Vec<CategoryModel> = Vec::new();
        let mut matched: usize = 0;
        let mut at: usize = 0;
        assert(self.rows().take(0) =~= Seq::<CategoryView>::empty());
        assert(matching_rows(Seq::<CategoryView>::empty(), filter).len() == 0) by {
            reveal(Seq::filter);
        }
        while at < self.rows.len()
            invariant
                at <= self.rows.len(),
                self.rows.len() == self.rows().len(),
                page >= 1,
                filter == text_view(*name),
                offset == page_offset(page as int, page_size as int),
                limit == offset + page_size,
                matched <= at,
                matched == matching_rows(self.rows().take(at as int), filter).len(),
                records.deep_view() == page_of(
                    matching_rows(self.rows().take(at as int), filter),
                    page as int,
                    page_size as int,
                ),
            decreases self.rows.len() - at,
        {
            let ghost seen = self.rows().take(at as int);
            let ghost before = matching_rows(seen, filter);
            proof {
                assert(self.rows().take(at + 1) =~= seen.push(self.rows()[at as int]));
                lemma_matching_rows_push(seen, self.rows()[at as int], filter);
                lemma_page_of_push(before, self.rows()[at as int], page as int, page_size as int);
            }
            let row = &self.rows[at];
            if name_passes(name, row.name.as_str()) {
                if offset <= matched as u64 && (matched as u64) < limit {
                    let ghost kept = records.deep_view();
                    let copy = row.clone();
                    records.push(copy);
                    assert(records.deep_view() =~= kept.push(row@));
                }
                matched += 1;
            }
            at += 1;
        }
        assert(self.rows().take(at as int) =~= self.rows());
        if matched > u32::MAX as usize {
            return Err(
                DomainError::InternalServerError("too many categories to count".to_owned()),
            );
        }
        if records.len() == 0 {
            Ok(None)
        } else {
            Ok(Some((records, matched as u32)))
        }
    }

    fn find_by_id(&self, id: u128) -> (result: Result<Option<CategoryModel>, DomainError>)
        ensures
            result is Ok <==> self.is_available(),
    {
        if !self.available {
            return Err(Self::unavailable());
        }
        match self.position(id) {
            Some(at) => {
                proof {
                    lemma_first_index(self.rows(), id, at as int);
                }
                Ok(Some(self.rows[at].clone()))
            },
            None => {
                proof {
                    lemma_absent(self.rows(), id);
                }
                Ok(None)
            },
        }
    }

    fn insert(&mut self, category_create_model: &CategoryCreateModel) -> (result: Result<
        CategoryModel,
        DomainError,
    >)
        ensures
            final(self).is_available() == old(self).is_available(),
            result is Ok <==> old(self).is_available() && row_by_id(
                old(self).rows(),
                category_create_model.id,
            ) is None,
    {
        self.writes = Ghost(self.writes@ + 1);
        if !self.available {
            return Err(Self::unavailable());
        }
        match self.position(category_create_model.id) {
            Some(at) => {
                proof {
                    lemma_first_index(self.rows(), category_create_model.id, at as int);
                }
                return Err(
                    DomainError::InternalServerError(
                        "a category with this id is already stored".to_owned(),
                    ),
                );
            },
            None => {
                proof {
                    lemma_absent(self.rows(), category_create_model.id);
                }
            },
        }
        let now: i64 = self.tick();
        let category = CategoryModel {
            id: category_create_model.id,
            name: category_create_model.name.clone(),
            description: clone_text(&category_create_model.description),
            is_active: true,
            created_at: now,
            updated_at: now,
        };
        let stored = category.clone();
        self.rows.push(stored);
        assert(self.rows() =~= rows_after_insert(old(self).rows(), category@));
        Ok(category)
    }

    fn update_by_id(&mut self, id: u128, category_update_model: &CategoryUpdateModel) -> (result:
        Result<CategoryModel, DomainError>)
        ensures
            final(self).is_available() == old(self).is_available(),
            result is Ok <==> old(self).is_available() && row_by_id(old(self).rows(), id) is Some,
            old(self).is_available() && row_by_id(old(self).rows(), id) is None ==> (
            result matches Err(error) && error@ == category_not_found()),
    {
        self.writes = Ghost(self.writes@ + 1);
        if !self.available {
            return Err(Self::unavailable());
        }
        let at: usize = match self.position(id) {
            Some(at) => at,
            None => {
                proof {
                    lemma_absent(self.rows(), id);
                }
                return Err(DomainError::NotFound("Category id not found".to_owned()));
            },
        };
        proof {
            lemma_first_index(self.rows(), id, at as int);
        }
        let now: i64 = self.tick();
        let before = &self.rows[at];
        let updated_at: i64 = if now > before.updated_at {
            now
        } else {
            before.updated_at
        };
        let category = CategoryModel {
            id: before.id,
            name: category_update_model.name.clone(),
            description: clone_text(&category_update_model.description),
            is_active: before.is_active,
            created_at: before.created_at,
            updated_at,
        };
        let stored = category.clone();
        self.rows.set(at, stored);
        assert(self.rows() =~= old(self).rows().update(at as int, category@));
        Ok(category)
    }

    fn delete_by_id(&mut self, id: u128) -> (result: Result<(), DomainError>)
        ensures
            final(self).is_available() == old(self).is_available(),
            result is Ok <==> old(self).is_available(),
    {
        self.writes = Ghost(self.writes@ + 1);
        if !self.available {
            return Err(Self::unavailable());
        }
        let mut kept: Vec<CategoryModel> = Vec::new();
        let mut at: usize = 0;
        assert(self.rows().take(0) =~= Seq::<CategoryView>::empty());
        assert(rows_after_delete(Seq::<CategoryView>::empty(), id).len() == 0) by {
            reveal(Seq::filter);
        }
        assert(kept.deep_view() =~= rows_after_delete(self.rows().take(0), id));
        while at < self.rows.len()
            invariant
                at <= self.rows.len(),
                self.rows.len() == self.rows().len(),
                kept.deep_view() == rows_after_delete(self.rows().take(at as int), id),
            decreases self.rows.len() - at,
        {
            proof {
                let seen = self.rows().take(at as int);
                assert(self.rows().take(at + 1) =~= seen.push(self.rows()[at as int]));
                lemma_rows_after_delete_push(seen, self.rows()[at as int], id);
            }
            if self.rows[at].id != id {
                let ghost before = kept.deep_view();
                let copy = self.rows[at].clone();
                kept.push(copy);
                assert(kept.deep_view() =~= before.push(self.rows()[at as int]));
            }
            at += 1;
        }
        assert(self.rows().take(at as int) =~= self.rows());
        self.rows = kept;
        Ok(())
    }
}

} // verus!
