//! What the SQL adapter of the category repository computes: the text of
//! the search statement, and the results that rows stand for.

use crate::domain::categories::model::{CategoryModel, CategoryView};
use crate::domain::categories::repository::{found_view, page_view, CategoryPage};
use crate::domain::categories::resources::category_not_found;
use crate::domain::categories::table::{lemma_page_offset_bounds, page_offset};
use crate::domain::error::{DomainError, DomainErrorView};
use vstd::prelude::*;

verus! {

/// The character of a decimal digit.
pub open spec fn digit(value: nat) -> char {
    if value == 0 {
        '0'
    } else if value == 1 {
        '1'
    } else if value == 2 {
        '2'
    } else if value == 3 {
        '3'
    } else if value == 4 {
        '4'
    } else if value == 5 {
        '5'
    } else if value == 6 {
        '6'
    } else if value == 7 {
        '7'
    } else if value == 8 {
        '8'
    } else {
        '9'
    }
}

/// The decimal numeral of `value`, without leading zeros.
pub open spec fn decimal(value: nat) -> Seq<char>
    decreases value,
{
    if value < 10 {
        seq![digit(value)]
    } else {
        decimal(value / 10).push(digit(value % 10))
    }
}

/// The number that a digit character stands for.
pub open spec fn digit_value(character: char) -> nat {
    if character == '1' {
        1
    } else if character == '2' {
        2
    } else if character == '3' {
        3
    } else if character == '4' {
        4
    } else if character == '5' {
        5
    } else if character == '6' {
        6
    } else if character == '7' {
        7
    } else if character == '8' {
        8
    } else if character == '9' {
        9
    } else {
        0
    }
}

/// The number that a sequence of digit characters stands for.
pub open spec fn numeral_value(numeral: Seq<char>) -> nat
    decreases numeral.len(),
{
    if numeral.len() == 0 {
        0
    } else {
        numeral_value(numeral.drop_last()) * 10 + digit_value(numeral.last())
    }
}

/// A decimal numeral stands for the number it was written for, and only
/// the numeral of 0 starts with a zero.
pub proof fn lemma_decimal_is_faithful(value: nat)
    ensures
        numeral_value(decimal(value)) == value,
        decimal(value).len() >= 1,
        value > 0 ==> decimal(value)[0] != '0',
    decreases value,
{
    reveal_with_fuel(numeral_value, 2);
    if value < 10 {
        assert(decimal(value).drop_last() =~= Seq::<char>::empty());
    } else {
        lemma_decimal_is_faithful(value / 10);
        assert(decimal(value).drop_last() =~= decimal(value / 10));
    }
}

/// The text of one decimal digit.
fn digit_text(value: u64) -> (text: &'static str)
    requires
        value < 10,
    ensures
        text@ == seq![digit(value as nat)],
{
    proof {
        reveal_strlit("0");
        reveal_strlit("1");
        reveal_strlit("2");
        reveal_strlit("3");
        reveal_strlit("4");
        reveal_strlit("5");
        reveal_strlit("6");
        reveal_strlit("7");
        reveal_strlit("8");
        reveal_strlit("9");
    }
    let text: &'static str = if value == 0 {
        "0"
    } else if value == 1 {
        "1"
    } else if value == 2 {
        "2"
    } else if value == 3 {
        "3"
    } else if value == 4 {
        "4"
    } else if value == 5 {
        "5"
    } else if value == 6 {
        "6"
    } else if value == 7 {
        "7"
    } else if value == 8 {
        "8"
    } else {
        "9"
    };
    assert(text@ =~= seq![digit(value as nat)]);
    text
}

/// Writes `value` as a decimal numeral.
pub fn decimal_text(value: u64) -> (text: String)
    ensures
        text@ == decimal(value as nat),
    decreases value,
{
    if value < 10 {
        digit_text(value).to_owned()
    } else {
        let mut text = decimal_text(value / 10);
        text.append(digit_text(value % 10));
        assert(text@ =~= decimal(value as nat));
        text
    }
}

/// Number of rows that the search statement skips before page `page`.
pub fn find_offset(page: u32, page_size: u32) -> (offset: u64)
    requires
        page >= 1,
    ensures
        offset == page_offset(page as int, page_size as int),
{
    proof {
        lemma_page_offset_bounds(page as int, page_size as int);
        assert((page_size as int) * (page as int - 1) <= 0xffff_ffff * 0xffff_ffff)
            by (nonlinear_arith)
            requires
                0 <= page_size <= 0xffff_ffff,
                1 <= page <= 0xffff_ffff,
        ;
    }
    (page_size as u64) * ((page - 1) as u64)
}

/// Start of the search statement: every column of a category, with the
/// number of all rows that the statement matches beside each.
pub open spec fn find_columns() -> Seq<char> {
    "select id as category_id, name as category_name, description as category_description, is_active as category_is_active, created_at as category_created_at, updated_at as category_updated_at, count(*) over ()::OID as count from category"@
}

/// The condition of the search statement: the name holds its first
/// parameter as a substring, case and all.
pub open spec fn find_condition() -> Seq<char> {
    " where strpos(category.name, $1) > 0"@
}

/// The text of the search statement for page `page` of pages of
/// `page_size` rows; `filtered` says whether a name is searched for.
pub open spec fn find_statement_text(filtered: bool, page: int, page_size: int) -> Seq<char> {
    find_columns() + (if filtered {
        find_condition()
    } else {
        Seq::<char>::empty()
    }) + " limit "@ + decimal(page_size as nat) + " offset "@ + decimal(
        page_offset(page, page_size) as nat,
    )
}

/// Writes the search statement, see [`find_statement_text`]. The name that
/// is searched for is no part of the text: it is the first parameter.
pub fn find_statement(filtered: bool, page: u32, page_size: u32) -> (statement: String)
    requires
        page >= 1,
    ensures
        statement@ == find_statement_text(filtered, page as int, page_size as int),
{
    let mut statement =
        "select id as category_id, name as category_name, description as category_description, is_active as category_is_active, created_at as category_created_at, updated_at as category_updated_at, count(*) over ()::OID as count from category".to_owned();
    if filtered {
        statement.append(" where strpos(category.name, $1) > 0");
    } else {
        assert(statement@ + Seq::<char>::empty() =~= statement@);
    }
    statement.append(" limit ");
    let limit = decimal_text(page_size as u64);
    statement.append(limit.as_str());
    statement.append(" offset ");
    let offset = decimal_text(find_offset(page, page_size));
    statement.append(offset.as_str());
    statement
}

/// Mathematical value of the rows that the search statement returned.
pub open spec fn counted_rows_view(rows: Seq<(CategoryModel, u32)>) -> Seq<(CategoryView, u32)> {
    rows.map_values(|row: (CategoryModel, u32)| (row.0@, row.1))
}

/// What the rows of the search statement stand for: nothing where there
/// is no row, else the categories in the order of the rows, with the
/// count that the first row carries.
pub open spec fn page_of_rows(rows: Seq<(CategoryView, u32)>) -> Option<(Seq<CategoryView>, nat)> {
    if rows.len() == 0 {
        None
    } else {
        Some((rows.map_values(|row: (CategoryView, u32)| row.0), rows[0].1 as nat))
    }
}

/// Turns the rows that the search statement returned into the result of
/// the search, see [`page_of_rows`].
pub fn page_from_rows(rows: Vec<(CategoryModel, u32)>) -> (found: Option<CategoryPage>)
    ensures
        page_view(found) == page_of_rows(counted_rows_view(rows@)),
{
    if rows.len() == 0 {
        return None;
    }
    let count: u32 = rows[0].1;
    let mut categories: Vec<CategoryModel> = Vec::new();
    let mut at: usize = 0;
    while at < rows.len()
        invariant
            at <= rows.len(),
            categories.len() == at,
            forall|k: int| 0 <= k < at ==> (#[trigger] categories[k])@ == rows[k].0@,
        decreases rows.len() - at,
    {
        categories.push(rows[at].0.clone());
        at += 1;
    }
    assert(categories.deep_view() =~= counted_rows_view(rows@).map_values(
        |row: (CategoryView, u32)| row.0,
    ));
    Some((categories, count))
}

/// Mathematical value of the outcome of an update statement.
pub open spec fn update_view(result: Result<CategoryModel, DomainError>) -> Result<
    CategoryView,
    DomainErrorView,
> {
    match result {
        Ok(category) => Ok(category@),
        Err(error) => Err(error@),
    }
}

/// Turns the row that the update statement returned, if any, into the
/// result of the update. No row means that nothing is stored under the
/// identifier any more: that is told as `NotFound`.
pub fn updated_from_row(row: Option<CategoryModel>) -> (result: Result<CategoryModel, DomainError>)
    ensures
        update_view(result) == match found_view(row) {
            Some(category) => Ok::<CategoryView, DomainErrorView>(category),
            None => Err::<CategoryView, DomainErrorView>(category_not_found()),
        },
{
    match row {
        Some(category) => Ok(category),
        None => Err(DomainError::NotFound("Category id not found".to_owned())),
    }
}

} // verus!
