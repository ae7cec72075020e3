use category_service::domain::categories::model::{
    CategoryCreateModel, CategoryModel, CategoryUpdateModel,
};
use category_service::domain::categories::repository::CategoryRepository;
use category_service::domain::error::DomainError;
use category_service::repository::categories::{
    decimal_text, find_offset, find_statement, page_from_rows, updated_from_row,
};
use category_service::repository::memory::{contains, name_passes, MemoryCategoryRepository};

fn named(repository: &mut MemoryCategoryRepository, name: &str) -> CategoryModel {
    repository.insert(&CategoryCreateModel::new(name.to_string(), None)).unwrap()
}

fn names(found: Option<(Vec<CategoryModel>, u32)>) -> (Vec<String>, u32) {
    match found {
        Some((categories, count)) => (categories.into_iter().map(|c| c.name).collect(), count),
        None => (Vec::new(), 0),
    }
}

#[test]
fn decimal_text_writes_numbers_without_leading_zeros() {
    assert_eq!(decimal_text(0), "0");
    assert_eq!(decimal_text(7), "7");
    assert_eq!(decimal_text(10), "10");
    assert_eq!(decimal_text(12), "12");
    assert_eq!(decimal_text(1234567890), "1234567890");
    assert_eq!(decimal_text(u64::MAX), "18446744073709551615");
    for value in [0u64, 9, 99, 100, 101, 4294967295, 18446744073709551614] {
        assert_eq!(decimal_text(value), value.to_string());
    }
}

#[test]
fn find_offset_skips_the_pages_before() {
    assert_eq!(find_offset(1, 12), 0);
    assert_eq!(find_offset(2, 12), 12);
    assert_eq!(find_offset(3, 1), 2);
    assert_eq!(find_offset(5, 0), 0);
    assert_eq!(find_offset(u32::MAX, u32::MAX), 18446744060824649730);
}

#[test]
fn find_statement_is_written_out() {
    let columns = "select id as category_id, name as category_name, description as category_description, is_active as category_is_active, created_at as category_created_at, updated_at as category_updated_at, count(*) over ()::OID as count from category";

    assert_eq!(find_statement(false, 1, 12), format!("{} limit 12 offset 0", columns));
    assert_eq!(
        find_statement(true, 3, 24),
        format!("{} where strpos(category.name, $1) > 0 limit 24 offset 48", columns)
    );
    assert_eq!(
        find_statement(false, u32::MAX, u32::MAX),
        format!("{} limit 4294967295 offset 18446744060824649730", columns)
    );
    assert_eq!(find_statement(true, 2, 0), format!("{} where strpos(category.name, $1) > 0 limit 0 offset 0", columns));
}

#[test]
fn page_from_rows_takes_the_count_of_the_first_row() {
    assert!(page_from_rows(Vec::new()).is_none());

    let first = CategoryModel::mock_default();
    let second = CategoryModel::mock_default();
    let (categories, count) =
        page_from_rows(vec![(first.clone(), 5), (second.clone(), 9)]).unwrap();

    assert_eq!(count, 5);
    assert_eq!(categories.len(), 2);
    assert_eq!(categories[0].id, first.id);
    assert_eq!(categories[1].id, second.id);
}

#[test]
fn updated_from_row_tells_a_missing_row_as_not_found() {
    let category = CategoryModel::mock_default();
    assert_eq!(updated_from_row(Some(category.clone())).unwrap().id, category.id);
    match updated_from_row(None) {
        Err(DomainError::NotFound(message)) => assert_eq!(message, "Category id not found"),
        _ => unreachable!(),
    }
}

#[test]
fn contains_finds_substrings_case_and_all() {
    assert!(contains("Burgers", "Burgers"));
    assert!(contains("Burgers", "urge"));
    assert!(contains("Burgers", "B"));
    assert!(contains("Burgers", "s"));
    assert!(contains("Burgers", ""));
    assert!(contains("", ""));
    assert!(!contains("", "a"));
    assert!(!contains("Burgers", "burgers"));
    assert!(!contains("Burgers", "Burgerss"));
    assert!(!contains("Burgers", "ug"));
    assert!(!contains("Burgers", "%"));
    assert!(!contains("Burgers", "B_r"));
    assert!(contains("50% off", "%"));
    assert!(contains("crème brûlée", "brû"));
    assert!(contains("aab", "ab"));
    assert!(contains("abcabd", "abd"));
    assert!(name_passes(&None, "anything"));
    assert!(name_passes(&Some("thing".to_string()), "anything"));
    assert!(!name_passes(&Some("Thing".to_string()), "anything"));
}

#[test]
fn memory_find_filters_by_substring_and_counts_all_matches() {
    let mut repository = MemoryCategoryRepository::new();
    for name in ["Burgers", "Cheeseburgers", "Veggie Burgers", "Salads", "burgers"] {
        named(&mut repository, name);
    }

    let all = names(repository.find(&None, 1, 10).unwrap());
    let upper = names(repository.find(&Some("Burgers".to_string()), 1, 10).unwrap());
    let lower = names(repository.find(&Some("burgers".to_string()), 1, 10).unwrap());
    let paged = names(repository.find(&Some("urger".to_string()), 2, 3).unwrap());

    assert_eq!(all.0, ["Burgers", "Cheeseburgers", "Veggie Burgers", "Salads", "burgers"]);
    assert_eq!(all.1, 5);
    assert_eq!(upper.0, ["Burgers", "Veggie Burgers"]);
    assert_eq!(upper.1, 2);
    assert_eq!(lower.0, ["Cheeseburgers", "burgers"]);
    assert_eq!(lower.1, 2);
    assert_eq!(paged.0, ["burgers"]);
    assert_eq!(paged.1, 4);
    assert!(repository.find(&Some("Pizza".to_string()), 1, 10).unwrap().is_none());
    assert!(repository.find(&None, 2, 5).unwrap().is_none());
    assert!(repository.find(&None, 1, 0).unwrap().is_none());
    assert!(repository.find(&None, u32::MAX, u32::MAX).unwrap().is_none());
}

#[test]
fn memory_find_on_an_empty_table_is_absent() {
    let repository = MemoryCategoryRepository::new();

    assert!(repository.find(&None, 1, 12).unwrap().is_none());
    assert!(repository.find(&Some(String::new()), 1, 12).unwrap().is_none());
}

#[test]
fn memory_repository_keeps_the_repository_contract() {
    let mut repository = MemoryCategoryRepository::new();
    let command = CategoryCreateModel::mock_default();

    let stored = repository.insert(&command).unwrap();
    assert_eq!(stored.id, command.id);
    assert!(stored.is_active);
    assert!(stored.created_at != 0 && stored.updated_at != 0);
    assert!(matches!(repository.insert(&command), Err(DomainError::InternalServerError(_))));

    let updated = repository
        .update_by_id(command.id, &CategoryUpdateModel::new("New".to_string(), None))
        .unwrap();
    assert_eq!(updated.name, "New");
    assert_eq!(updated.created_at, stored.created_at);
    assert!(updated.updated_at >= stored.updated_at);
    assert!(matches!(
        repository.update_by_id(command.id ^ 1, &CategoryUpdateModel::mock_default()),
        Err(DomainError::NotFound(_))
    ));

    assert!(repository.delete_by_id(command.id ^ 1).is_ok());
    assert_eq!(repository.len(), 1);
    assert!(repository.delete_by_id(command.id).is_ok());
    assert_eq!(repository.len(), 0);
    assert!(repository.delete_by_id(command.id).is_ok());
    assert!(repository.find_by_id(command.id).unwrap().is_none());
}
