use category_service::api::config::{get_config, Config};
use category_service::api::error::{into_reply, ErrorResponse};
use category_service::api::lib::AppState;
use category_service::api::resources::categories::dto::{
    validate_body, RequestCreateCategory, RequestFindCategories, RequestUpdateCategory,
    ResponseCategory,
};
use category_service::api::resources::categories::routes::{
    create, delete_by_id, find, find_by_id, update_by_id,
};
use category_service::api::resources::health::routes::check;
use category_service::api::utils::response::{
    ApiResponse, Meta, Reply, ReplyBody, STATUS_BAD_REQUEST, STATUS_CREATED,
    STATUS_INTERNAL_SERVER_ERROR, STATUS_NOT_FOUND, STATUS_NO_CONTENT, STATUS_OK,
};
use category_service::api::utils::validator::{
    get_user_id_by_headers, user_id_from_parsed, validate_length, validate_page_size_max,
    UserIdHeader,
};
use category_service::domain::categories::model::{CategoryCreateModel, CategoryModel};
use category_service::domain::categories::repository::CategoryRepository;
use category_service::domain::error::DomainError;
use category_service::domain::health::repository::HealthRepository;
use category_service::repository::memory::MemoryCategoryRepository;
use uuid::Uuid;

struct FakeHealthRepository {
    now: Result<String, DomainError>,
    pong: Result<String, DomainError>,
}

impl HealthRepository for FakeHealthRepository {
    fn get_now(&self) -> Result<String, DomainError> {
        self.now.clone()
    }

    fn ping(&self) -> Result<String, DomainError> {
        self.pong.clone()
    }
}

type State = AppState<MemoryCategoryRepository, FakeHealthRepository>;

fn config() -> Config {
    get_config("127.0.0.1:8080".to_string(), 12, 24)
}

fn get_app() -> State {
    AppState {
        category_repository: MemoryCategoryRepository::new(),
        health_repository: FakeHealthRepository {
            now: Ok("2023-01-15 13:05:27.205253+00".to_string()),
            pong: Ok("PONG".to_string()),
        },
        config: config(),
    }
}

fn records(reply: &Reply) -> &ApiResponse<ResponseCategory> {
    match &reply.body {
        ReplyBody::Categories(response) => response,
        _ => unreachable!(),
    }
}

fn error_message(reply: &Reply) -> &str {
    match &reply.body {
        ReplyBody::Error(error) => error.message.as_str(),
        _ => unreachable!(),
    }
}

fn is_success(status: u16) -> bool {
    (200..300).contains(&status)
}

fn query(name: Option<&str>, page: Option<u32>, page_size: Option<u32>) -> RequestFindCategories {
    RequestFindCategories { name: name.map(|n| n.to_string()), page, page_size }
}

#[test]
fn create_it_should_return_category_created() {
    let mut app = get_app();

    let res = into_reply(create::handler(&mut app, RequestCreateCategory::mock_default()));

    assert_eq!(res.status, STATUS_CREATED);
    assert_eq!(res.status, 201);
}

#[test]
fn delete_by_id_it_should_return_void_category_deleted() {
    let mut app = get_app();
    let category_model = CategoryCreateModel::mock_default();
    app.category_repository.insert(&category_model.clone()).unwrap();

    let res = into_reply(delete_by_id::handler(&mut app, category_model.id));

    assert!(is_success(res.status));
    assert_eq!(res.status, 204);
    assert!(matches!(res.body, ReplyBody::Empty));
}

#[test]
fn it_should_return_not_found_error_when_deleting() {
    let mut app = get_app();

    let res = into_reply(delete_by_id::handler(&mut app, Uuid::new_v4().as_u128()));

    assert_eq!(res.status, STATUS_NOT_FOUND);
    assert_eq!(res.status, 404);
    assert_eq!(error_message(&res), "Category id not found");
}

#[test]
fn find_it_should_return_categories_finded() {
    let mut app = get_app();
    let category_model = CategoryCreateModel::mock_default();
    app.category_repository.insert(&category_model.clone()).unwrap();

    let res = into_reply(find::handler(&app, query(None, None, None)));

    assert!(is_success(res.status));
    assert!(!records(&res).records.is_empty());
}

#[test]
fn it_should_return_categories_finded_by_query() {
    let mut app = get_app();
    let category_model = CategoryCreateModel::mock_default();
    app.category_repository.insert(&category_model.clone()).unwrap();

    let res = into_reply(find::handler(&app, query(Some("Burgers"), Some(1), Some(24))));

    assert!(is_success(res.status));
    assert!(!records(&res).records.is_empty());
}

#[test]
fn it_should_return_categories_no_content() {
    let app = get_app();

    let res = into_reply(find::handler(&app, query(Some("no-content"), None, None)));

    assert_eq!(res.status, STATUS_NO_CONTENT);
    assert_eq!(res.status, 204);
    assert!(matches!(res.body, ReplyBody::Empty));
}

#[test]
fn find_by_id_it_should_return_category_finded() {
    let mut app = get_app();
    let category_model = CategoryCreateModel::mock_default();
    app.category_repository.insert(&category_model.clone()).unwrap();

    let res = into_reply(find_by_id::handler(&app, category_model.id));

    assert!(is_success(res.status));
    assert_eq!(res.status, 200);
    assert_eq!(records(&res).records[0].id, category_model.id);
}

#[test]
fn it_should_return_no_content() {
    let app = get_app();

    let res = into_reply(find_by_id::handler(&app, Uuid::new_v4().as_u128()));

    assert_eq!(res.status, STATUS_NO_CONTENT);
}

#[test]
fn update_by_id_it_should_return_category_updated() {
    let mut app = get_app();
    let category_model = CategoryCreateModel::mock_default();
    app.category_repository.insert(&category_model.clone()).unwrap();

    let mock_request_update_category =
        RequestUpdateCategory::mock_default().with_name("Burgers Supreme");
    let res = into_reply(update_by_id::handler(
        &mut app,
        category_model.id,
        mock_request_update_category.clone(),
    ));

    assert!(is_success(res.status));
    assert_eq!(records(&res).records.first().unwrap().name, mock_request_update_category.name);
    assert_eq!(records(&res).records.first().unwrap().name, "Burgers Supreme");
}

#[test]
fn it_should_return_not_found_error_when_updated_because_invalid_id() {
    let mut app = get_app();

    let res = into_reply(update_by_id::handler(
        &mut app,
        Uuid::new_v4().as_u128(),
        RequestUpdateCategory::mock_default().with_name("weapons update 3"),
    ));

    assert_eq!(res.status, STATUS_NOT_FOUND);
}

#[test]
fn it_should_return_health_check() {
    let app = get_app();

    let res = into_reply(check::handler(&app));

    assert!(is_success(res.status));
    match res.body {
        ReplyBody::Text(text) => {
            assert_eq!(text, "POSTGRES: 2023-01-15 13:05:27.205253+00 REDIS: PONG")
        }
        _ => unreachable!(),
    }
}

#[test]
fn health_check_fails_with_500_and_hides_the_cause() {
    let mut app = get_app();
    app.health_repository.pong = Err(DomainError::InternalServerError("redis is down".to_string()));

    let res = into_reply(check::handler(&app));

    assert_eq!(res.status, 500);
    assert_eq!(error_message(&res), "Internal Server Error");
}

#[test]
fn category_lifecycle_over_the_routes() {
    let mut app = get_app();

    let created = into_reply(create::handler(
        &mut app,
        RequestCreateCategory {
            name: "Burgers".to_string(),
            description: Some("The Big Burgers".to_string()),
        },
    ));
    assert_eq!(created.status, 201);
    assert_eq!(records(&created).records.len(), 1);
    assert_eq!(records(&created).records[0].name, "Burgers");
    assert_eq!(records(&created).records[0].description, Some("The Big Burgers".to_string()));
    assert!(records(&created).records[0].is_active);
    assert_eq!(records(&created).meta, Meta { count: 1, page: 1, pages: 1 });
    let id = records(&created).records[0].id;
    assert_eq!(Uuid::from_u128(id).get_version_num(), 4);

    let found = into_reply(find_by_id::handler(&app, id));
    assert_eq!(found.status, 200);
    assert_eq!(records(&found).records[0].name, "Burgers");
    assert_eq!(records(&found).records[0].id, id);
    assert_eq!(records(&found).records[0].created_at, records(&created).records[0].created_at);

    let updated = into_reply(update_by_id::handler(
        &mut app,
        id,
        RequestUpdateCategory { name: "Burgers Supreme".to_string(), description: None },
    ));
    assert_eq!(updated.status, 200);
    assert_eq!(records(&updated).records[0].name, "Burgers Supreme");
    assert_eq!(records(&updated).records[0].description, None);
    assert_eq!(records(&updated).records[0].id, id);

    let deleted = into_reply(delete_by_id::handler(&mut app, id));
    assert_eq!(deleted.status, 204);
    assert!(matches!(deleted.body, ReplyBody::Empty));

    let gone = into_reply(find_by_id::handler(&app, id));
    assert_eq!(gone.status, 204);
    assert!(matches!(gone.body, ReplyBody::Empty));
}

#[test]
fn page_size_above_the_maximum_is_refused_whatever_else_is_asked() {
    let mut app = get_app();
    app.category_repository.insert(&CategoryCreateModel::mock_default()).unwrap();

    for request in [
        query(None, None, Some(25)),
        query(Some("Burgers"), Some(1), Some(25)),
        query(Some("no-content"), Some(7), Some(u32::MAX)),
        query(None, Some(0), Some(25)),
    ] {
        let res = into_reply(find::handler(&app, request));
        assert_eq!(res.status, STATUS_BAD_REQUEST);
        assert_eq!(res.status, 400);
    }
    let res = into_reply(find::handler(&app, query(None, None, Some(25))));
    assert_eq!(error_message(&res), "page_size greater than the max");
    let res = into_reply(find::handler(&app, query(None, None, Some(24))));
    assert_eq!(res.status, 200);
}

#[test]
fn page_size_is_refused_even_while_storage_is_down() {
    let mut app = get_app();
    app.category_repository.set_available(false);

    let refused = into_reply(find::handler(&app, query(None, None, Some(25))));
    let failed = into_reply(find::handler(&app, query(None, None, Some(24))));

    assert_eq!(refused.status, 400);
    assert_eq!(failed.status, 500);
    assert_eq!(error_message(&failed), "Internal Server Error");
}

#[test]
fn page_zero_is_refused() {
    let mut app = get_app();
    app.category_repository.insert(&CategoryCreateModel::mock_default()).unwrap();

    let res = into_reply(find::handler(&app, query(None, Some(0), None)));

    assert_eq!(res.status, 400);
    assert_eq!(error_message(&res), "page must be at least 1");
}

#[test]
fn a_search_name_of_more_than_64_characters_is_refused() {
    let app = get_app();
    let long = "x".repeat(65);
    let longest = "x".repeat(64);

    let refused = into_reply(find::handler(&app, query(Some(&long), None, None)));
    let accepted = into_reply(find::handler(&app, query(Some(&longest), None, None)));

    assert_eq!(refused.status, 400);
    assert_eq!(error_message(&refused), "name must have at most 64 characters");
    assert_eq!(accepted.status, 204);
}

#[test]
fn find_defaults_to_page_one_and_the_default_page_size() {
    let mut app = get_app();
    for _ in 0..13 {
        app.category_repository.insert(&CategoryCreateModel::mock_default()).unwrap();
    }

    let first = into_reply(find::handler(&app, query(None, None, None)));
    let second = into_reply(find::handler(&app, query(None, Some(2), None)));
    let third = into_reply(find::handler(&app, query(None, Some(3), None)));

    assert_eq!(first.status, 200);
    assert_eq!(records(&first).records.len(), 12);
    assert_eq!(records(&first).meta, Meta { count: 13, page: 1, pages: 2 });
    assert_eq!(records(&second).records.len(), 1);
    assert_eq!(records(&second).meta, Meta { count: 13, page: 2, pages: 2 });
    assert_eq!(third.status, 204);
}

#[test]
fn find_page_two_of_two_rows_holds_the_other_row() {
    let mut app = get_app();
    app.category_repository.insert(&CategoryCreateModel::mock_default()).unwrap();
    app.category_repository.insert(&CategoryCreateModel::mock_default()).unwrap();

    let first = into_reply(find::handler(&app, query(None, Some(1), Some(1))));
    let second = into_reply(find::handler(&app, query(None, Some(2), Some(1))));

    assert_eq!(records(&first).records.len(), 1);
    assert_eq!(records(&second).records.len(), 1);
    assert_ne!(records(&first).records[0].id, records(&second).records[0].id);
    assert_eq!(records(&second).meta, Meta { count: 2, page: 2, pages: 2 });
}

#[test]
fn a_page_size_of_zero_finds_nothing() {
    let mut app = get_app();
    app.category_repository.insert(&CategoryCreateModel::mock_default()).unwrap();

    let res = into_reply(find::handler(&app, query(None, None, Some(0))));

    assert_eq!(res.status, 204);
}

#[test]
fn create_refuses_bodies_that_break_the_length_rules() {
    let mut app = get_app();

    let empty = into_reply(create::handler(
        &mut app,
        RequestCreateCategory { name: String::new(), description: None },
    ));
    let long_name = into_reply(create::handler(
        &mut app,
        RequestCreateCategory { name: "n".repeat(65), description: None },
    ));
    let long_description = into_reply(create::handler(
        &mut app,
        RequestCreateCategory { name: "n".repeat(64), description: Some("d".repeat(513)) },
    ));
    let both = into_reply(create::handler(
        &mut app,
        RequestCreateCategory { name: "n".repeat(65), description: Some("d".repeat(513)) },
    ));

    assert_eq!(empty.status, 400);
    assert_eq!(error_message(&empty), "name must have between 1 and 64 characters");
    assert_eq!(long_name.status, 400);
    assert_eq!(error_message(&long_name), "name must have between 1 and 64 characters");
    assert_eq!(long_description.status, 400);
    assert_eq!(error_message(&long_description), "description must have at most 512 characters");
    assert_eq!(error_message(&both), "name must have between 1 and 64 characters");
    assert_eq!(app.category_repository.len(), 0);

    let longest = into_reply(create::handler(
        &mut app,
        RequestCreateCategory { name: "n".repeat(64), description: Some("d".repeat(512)) },
    ));
    assert_eq!(longest.status, 201);
    assert_eq!(app.category_repository.len(), 1);
}

#[test]
fn lengths_count_characters_not_bytes() {
    let name = "é".repeat(64);
    assert_eq!(name.len(), 128);
    assert!(validate_body(&name, &None).is_ok());
    assert!(validate_body(&"é".repeat(65), &None).is_err());
    assert!(validate_length("ééé", 3));
    assert!(!validate_length("ééé", 2));
    assert!(validate_length("", 0));
}

#[test]
fn update_refuses_an_invalid_body_before_it_looks_the_category_up() {
    let mut app = get_app();

    let res = into_reply(update_by_id::handler(
        &mut app,
        Uuid::new_v4().as_u128(),
        RequestUpdateCategory { name: String::new(), description: None },
    ));

    assert_eq!(res.status, 400);
}

#[test]
fn storage_failure_is_a_500_with_a_generic_message() {
    let mut app = get_app();
    let stored = app.category_repository.insert(&CategoryCreateModel::mock_default()).unwrap();
    app.category_repository.set_available(false);

    let replies = [
        into_reply(create::handler(&mut app, RequestCreateCategory::mock_default())),
        into_reply(find::handler(&app, query(None, None, None))),
        into_reply(find_by_id::handler(&app, stored.id)),
        into_reply(update_by_id::handler(&mut app, stored.id, RequestUpdateCategory::mock_default())),
        into_reply(delete_by_id::handler(&mut app, stored.id)),
    ];

    for reply in replies.iter() {
        assert_eq!(reply.status, STATUS_INTERNAL_SERVER_ERROR);
        assert_eq!(reply.status, 500);
        assert_eq!(error_message(reply), "Internal Server Error");
    }
}

#[test]
fn errors_map_to_their_status_codes() {
    let not_found = DomainError::NotFound("missing".to_string());
    let bad_request = DomainError::BadRequest("wrong".to_string());
    let internal = DomainError::InternalServerError("secret detail".to_string());

    assert_eq!(not_found.status_code(), 404);
    assert_eq!(bad_request.status_code(), 400);
    assert_eq!(internal.status_code(), 500);
    assert_eq!(not_found.error_response().status, 404);
    assert_eq!(error_message(&not_found.error_response()), "missing");
    assert_eq!(bad_request.error_response().status, 400);
    assert_eq!(error_message(&bad_request.error_response()), "wrong");
    assert_eq!(internal.error_response().status, 500);
    assert_eq!(error_message(&internal.error_response()), "Internal Server Error");
    assert_eq!(ErrorResponse::new("text").message, "text");
}

#[test]
fn into_reply_keeps_a_reply_and_tells_of_an_error() {
    let kept = into_reply(Ok(Reply { status: STATUS_OK, body: ReplyBody::Text("t".to_string()) }));
    let told = into_reply(Err(DomainError::NotFound("gone".to_string())));

    assert_eq!(kept.status, 200);
    assert!(matches!(kept.body, ReplyBody::Text(ref text) if text == "t"));
    assert_eq!(told.status, 404);
    assert_eq!(error_message(&told), "gone");
}

#[test]
fn meta_counts_pages_by_rounding_up() {
    let config = config();
    assert_eq!(Meta::new(None, None, None, &config), Meta { count: 1, page: 1, pages: 1 });
    assert_eq!(Meta::new(Some(2), Some(25), Some(12), &config), Meta { count: 25, page: 2, pages: 3 });
    assert_eq!(Meta::new(Some(1), Some(24), Some(12), &config), Meta { count: 24, page: 1, pages: 2 });
    assert_eq!(Meta::new(Some(1), Some(0), Some(12), &config), Meta { count: 0, page: 1, pages: 0 });
    assert_eq!(Meta::new(Some(1), Some(13), None, &config), Meta { count: 13, page: 1, pages: 2 });
    assert_eq!(Meta::new(Some(9), Some(1), Some(1), &config), Meta { count: 1, page: 9, pages: 1 });
    assert_eq!(
        Meta::new(None, Some(u32::MAX), Some(1), &config),
        Meta { count: u32::MAX, page: 1, pages: u32::MAX }
    );
    assert_eq!(
        Meta::new(None, Some(u32::MAX), Some(u32::MAX), &config),
        Meta { count: u32::MAX, page: 1, pages: 1 }
    );
    assert_eq!(
        Meta::new(None, Some(u32::MAX), Some(2), &config),
        Meta { count: u32::MAX, page: 1, pages: 2147483648 }
    );
    assert_eq!(Meta::new(None, Some(5), Some(0), &config), Meta { count: 5, page: 1, pages: u32::MAX });
    assert_eq!(Meta::new(None, Some(0), Some(0), &config), Meta { count: 0, page: 1, pages: 0 });
}

#[test]
fn api_response_wraps_its_records() {
    let response = ApiResponse::new(vec![1u8, 2, 3], Some(2), Some(7), Some(3), &config());

    assert_eq!(response.records, vec![1u8, 2, 3]);
    assert_eq!(response.meta, Meta { count: 7, page: 2, pages: 3 });
}

#[test]
fn response_category_shows_every_field() {
    let category = CategoryModel {
        id: 7,
        name: "n".to_string(),
        description: Some("d".to_string()),
        is_active: false,
        created_at: 11,
        updated_at: 13,
    };

    let response = ResponseCategory::from(category);

    assert_eq!(response.id, 7);
    assert_eq!(response.name, "n");
    assert_eq!(response.description, Some("d".to_string()));
    assert!(!response.is_active);
    assert_eq!(response.created_at, 11);
    assert_eq!(response.updated_at, 13);
}

#[test]
fn sample_requests_are_what_they_say() {
    let create = RequestCreateCategory::mock_default();
    assert_eq!(create.name, "Burgers");
    assert_eq!(create.description, Some("The Big Burgers".to_string()));
    assert!(create.validate().is_ok());

    let update = RequestUpdateCategory::mock_default();
    assert_eq!(update.name, "French fries");
    assert_eq!(update.description, Some("The French fries".to_string()));
    assert!(update.validate().is_ok());

    let renamed = update.with_name("Chips");
    assert_eq!(renamed.name, "Chips");
    assert_eq!(renamed.description, Some("The French fries".to_string()));

    let command = CategoryCreateModel::from(create);
    assert_eq!(command.name, "Burgers");
    assert_eq!(command.description, Some("The Big Burgers".to_string()));
    assert_eq!(Uuid::from_u128(command.id).get_version_num(), 4);
}

#[test]
fn config_keeps_its_values() {
    let config = config();
    assert_eq!(config.web_addr, "127.0.0.1:8080");
    assert_eq!(config.page_size_default, 12);
    assert_eq!(config.page_size_max, 24);
    let copy = config.clone();
    assert_eq!(copy.web_addr, "127.0.0.1:8080");
    assert_eq!(copy.page_size_default, 12);
    assert_eq!(copy.page_size_max, 24);
}

#[test]
fn page_size_rule_allows_up_to_the_maximum() {
    let config = config();
    assert!(validate_page_size_max(0, &config).is_ok());
    assert!(validate_page_size_max(24, &config).is_ok());
    match validate_page_size_max(25, &config) {
        Err(DomainError::BadRequest(message)) => {
            assert_eq!(message, "page_size greater than the max")
        }
        _ => unreachable!(),
    }
}

#[test]
fn user_id_is_read_from_the_header() {
    let text = "67e55044-10b1-426f-9247-bb680e5fe0c8";
    let value: u128 = 0x67e5504410b1426f9247bb680e5fe0c8;

    let read = get_user_id_by_headers(&UserIdHeader::Text(text.to_string()), true);
    let simple = get_user_id_by_headers(
        &UserIdHeader::Text("67e5504410b1426f9247bb680e5fe0c8".to_string()),
        false,
    );

    assert_eq!(read.unwrap(), Some(value));
    assert_eq!(simple.unwrap(), Some(value));
    assert_eq!(Uuid::parse_str(text).unwrap().as_u128(), value);
}

#[test]
fn user_id_header_errors() {
    match get_user_id_by_headers(&UserIdHeader::Missing, true) {
        Err(DomainError::BadRequest(message)) => assert_eq!(message, "Uuid is required in header"),
        _ => unreachable!(),
    }
    assert_eq!(get_user_id_by_headers(&UserIdHeader::Missing, false).unwrap(), None);
    for required in [true, false] {
        match get_user_id_by_headers(&UserIdHeader::Opaque, required) {
            Err(DomainError::BadRequest(message)) => assert_eq!(message, "Invalid value in header"),
            _ => unreachable!(),
        }
        match get_user_id_by_headers(&UserIdHeader::Text("not-a-uuid".to_string()), required) {
            Err(DomainError::BadRequest(message)) => assert_eq!(message, "Invalid uuid in header"),
            _ => unreachable!(),
        }
        match get_user_id_by_headers(&UserIdHeader::Text(String::new()), required) {
            Err(DomainError::BadRequest(message)) => assert_eq!(message, "Invalid uuid in header"),
            _ => unreachable!(),
        }
    }
    assert_eq!(user_id_from_parsed(Some(5)).unwrap(), Some(5));
    match user_id_from_parsed(None) {
        Err(DomainError::BadRequest(message)) => assert_eq!(message, "Invalid uuid in header"),
        _ => unreachable!(),
    }
}
