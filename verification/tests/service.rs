use bookshelf::env::{log_level, Environment};
use bookshelf::error::AppError;
use bookshelf::extractor::{
    access_token_from_bearer, authorized_user_from_lookup, stored_user_id, user_id_from_lookup, AuthorizedUser,
};
use bookshelf::handler::book::{
    book_or_not_found, delete_book_event, delete_book_response, register_book_event,
    register_book_response, update_book_event, update_book_response,
};
use bookshelf::model::book::{CreateBookRequest, UpdateBookRequest};
use bookshelf::handler::health::{health_check, health_check_db};
use bookshelf::handler::status::{CREATED, INTERNAL_SERVER_ERROR, NO_CONTENT, OK};
use bookshelf::handler::user::require_admin;
use bookshelf::id::{BookId, UserId};
use bookshelf::kv_store::{decimal_string, redis_url, RedisClient, RedisConfig};
use bookshelf::model::auth::AccessToken;
use bookshelf::model::book::Book;
use bookshelf::model::role::Role;
use bookshelf::model::user::User;
use bookshelf::registry::AppRegistry;
use std::sync::Arc;
use uuid::Uuid;

fn user(role: Role) -> User {
    User { id: UserId(Uuid::from_u128(11)), name: "n".into(), email: "e".into(), role }
}

fn authorized(role: Role) -> AuthorizedUser {
    AuthorizedUser { access_token: AccessToken("token".into()), user: user(role) }
}

#[test]
fn health_check_works() {
    let status_code = health_check();
    assert_eq!(status_code, 200);
}

#[test]
fn health_check_db_reports_database_state() {
    assert_eq!(health_check_db(true), OK);
    assert_eq!(health_check_db(false), INTERNAL_SERVER_ERROR);
    assert_eq!(INTERNAL_SERVER_ERROR, 500);
}

#[test]
fn successful_book_changes_answer_with_their_status() {
    assert_eq!(register_book_response(Ok(())).unwrap(), 201);
    assert_eq!(update_book_response(Ok(())).unwrap(), 200);
    assert_eq!(delete_book_response(Ok(())).unwrap(), 204);
    assert_eq!(CREATED, 201);
    assert_eq!(NO_CONTENT, 204);
    assert!(matches!(
        register_book_response(Err(AppError::EntityNotFound("x".into()))),
        Err(AppError::EntityNotFound(m)) if m == "x"
    ));
    assert!(matches!(
        update_book_response(Err(AppError::EntityNotFound("y".into()))),
        Err(AppError::EntityNotFound(m)) if m == "y"
    ));
    assert!(matches!(
        delete_book_response(Err(AppError::ForbiddenOperation)),
        Err(AppError::ForbiddenOperation)
    ));
}

#[test]
fn show_book_of_unknown_book_is_not_found() {
    match book_or_not_found(Ok(None)) {
        Err(AppError::EntityNotFound(m)) => assert_eq!(m, "The specific book was not found"),
        other => panic!("unexpected {:?}", other),
    }
    let b = Book {
        id: BookId(Uuid::from_u128(1)),
        title: "t".into(),
        author: "a".into(),
        isbn: "i".into(),
        description: "d".into(),
    };
    assert_eq!(book_or_not_found(Ok(Some(b))).unwrap().title, "t");
    assert!(matches!(
        book_or_not_found(Err(AppError::SpecificOperationError("db".into()))),
        Err(AppError::SpecificOperationError(_))
    ));
}

#[test]
fn only_admins_pass_the_admin_check() {
    assert!(require_admin(&authorized(Role::ADMIN)).is_ok());
    assert!(matches!(require_admin(&authorized(Role::USER)), Err(AppError::ForbiddenOperation)));
    assert!(authorized(Role::ADMIN).id_admin());
    assert!(!authorized(Role::USER).id_admin());
    assert_eq!(authorized(Role::USER).id().0, Uuid::from_u128(11));
}

#[test]
fn authorization_steps() {
    assert!(matches!(access_token_from_bearer(None), Err(AppError::UnauthorizedError)));
    let token = access_token_from_bearer(Some("abc".into())).unwrap();
    assert_eq!(token.0, "abc");

    let id = UserId(Uuid::from_u128(4));
    assert_eq!(user_id_from_lookup(Ok(Some(id))).unwrap().0, id.0);
    assert!(matches!(user_id_from_lookup(Ok(None)), Err(AppError::UnauthenticatedError)));
    assert!(matches!(
        user_id_from_lookup(Err(AppError::KeyValueStoreError("down".into()))),
        Err(AppError::KeyValueStoreError(_))
    ));

    let au = authorized_user_from_lookup(token, Ok(Some(user(Role::USER)))).unwrap();
    assert_eq!(au.access_token.0, "abc");
    assert_eq!(au.user.role, Role::USER);
    assert!(matches!(
        authorized_user_from_lookup(AccessToken("t".into()), Ok(None)),
        Err(AppError::UnauthorizedError)
    ));
    assert!(matches!(
        authorized_user_from_lookup(AccessToken("t".into()), Err(AppError::SpecificOperationError("q".into()))),
        Err(AppError::SpecificOperationError(_))
    ));
}

#[test]
fn log_levels() {
    assert_eq!(log_level(Environment::Development), "debug");
    assert_eq!(log_level(Environment::Production), "info");
}

#[test]
fn decimal_notation() {
    assert_eq!(decimal_string(0), "0");
    assert_eq!(decimal_string(7), "7");
    assert_eq!(decimal_string(10), "10");
    assert_eq!(decimal_string(6379), "6379");
    assert_eq!(decimal_string(65535), "65535");
    for n in [0u16, 1, 9, 10, 99, 100, 1234, 8080, 65535] {
        assert_eq!(decimal_string(n), n.to_string());
    }
}

#[test]
fn redis_url_format() {
    assert_eq!(redis_url("localhost", 6379), "redis://localhost:6379");
    assert_eq!(redis_url("10.0.0.1", 0), "redis://10.0.0.1:0");
}

#[test]
fn redis_client_opens_for_a_host_and_port() {
    let config = RedisConfig { host: "localhost".into(), port: 6379 };
    let client = RedisClient::new(&config).unwrap();
    match &client.inner_ref().get_connection_info().addr {
        redis::ConnectionAddr::Tcp(host, port) => {
            assert_eq!(host, "localhost");
            assert_eq!(*port, 6379);
        }
        other => panic!("unexpected {:?}", other),
    }
    let other = RedisClient::new(&RedisConfig { host: "10.1.2.3".into(), port: 7000 }).unwrap();
    match &other.inner_ref().get_connection_info().addr {
        redis::ConnectionAddr::Tcp(host, port) => {
            assert_eq!(host, "10.1.2.3");
            assert_eq!(*port, 7000);
        }
        o => panic!("unexpected {:?}", o),
    }
}

#[test]
fn stored_user_ids_are_read_from_their_text() {
    let id = Uuid::from_u128(0x1234_5678_9abc_def0_1234_5678_9abc_def0);
    let read = stored_user_id(Some(id.to_string())).unwrap().unwrap();
    assert_eq!(read.0, id);
    assert!(matches!(stored_user_id(None), Ok(None)));
    assert!(matches!(
        stored_user_id(Some("not-a-uuid".into())),
        Err(AppError::ConversionEntityError(_))
    ));
    assert_eq!(UserId::parse(&id.to_string()).unwrap().0, id);
    match UserId::parse("xyz") {
        Err(AppError::ConversionEntityError(m)) => {
            assert_eq!(m, Uuid::parse_str("xyz").unwrap_err().to_string())
        }
        other => panic!("unexpected {:?}", other),
    }
}

#[test]
fn redis_client_refuses_a_host_that_breaks_the_url() {
    let config = RedisConfig { host: "local host/%%".into(), port: 6379 };
    assert!(matches!(RedisClient::new(&config), Err(AppError::KeyValueStoreError(_))));
}

#[test]
fn registry_shares_its_repositories() {
    let registry = AppRegistry::new(String::from("health"), vec![1, 2, 3]);
    let h1 = registry.health_check_repository();
    let h2 = registry.clone().health_check_repository();
    assert!(Arc::ptr_eq(&h1, &h2));
    assert_eq!(*h1, "health");
    assert_eq!(*registry.book_repository(), vec![1, 2, 3]);
}

#[test]
fn book_events_carry_the_requesting_user() {
    let user = authorized(Role::USER);
    let book_id = BookId(Uuid::from_u128(77));

    let (event, owner) = register_book_event(
        &user,
        CreateBookRequest { title: "T".into(), author: "A".into(), isbn: "I".into(), description: "D".into() },
    );
    assert_eq!(owner.0, Uuid::from_u128(11));
    assert_eq!((event.title.as_str(), event.author.as_str()), ("T", "A"));
    assert_eq!((event.isbn.as_str(), event.description.as_str()), ("I", "D"));

    let update = update_book_event(
        book_id,
        &user,
        UpdateBookRequest { title: "T2".into(), author: "A2".into(), isbn: "I2".into(), description: "D2".into() },
    );
    assert_eq!(update.book_id.0, Uuid::from_u128(77));
    assert_eq!(update.requested_user.0, Uuid::from_u128(11));
    assert_eq!((update.title.as_str(), update.author.as_str()), ("T2", "A2"));
    assert_eq!((update.isbn.as_str(), update.description.as_str()), ("I2", "D2"));

    let delete = delete_book_event(book_id, &user);
    assert_eq!(delete.book_id.0, Uuid::from_u128(77));
    assert_eq!(delete.requested_user.0, Uuid::from_u128(11));
}
