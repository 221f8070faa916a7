use bookshelf::id::{BookId, UserId};
use bookshelf::model::book::{Book, CreateBook, CreateBookRequest};
use bookshelf::model::list::PaginatedList;
use bookshelf::model::role::{Role, RoleParseError};
use bookshelf::model::user::{User, UserRow};
use bookshelf::error::AppError;
use bookshelf::time::Timestamp;
use uuid::Uuid;

#[test]
fn role_names_are_the_variant_names() {
    assert_eq!(Role::ADMIN.as_str(), "ADMIN");
    assert_eq!(Role::USER.as_str(), "USER");
}

#[test]
fn role_parses_its_own_name() {
    for role in Role::all() {
        assert_eq!(Role::parse(role.as_str()), Ok(role));
    }
}

#[test]
fn role_parse_is_exact() {
    assert_eq!(Role::parse("ADMIN"), Ok(Role::ADMIN));
    assert_eq!(Role::parse("USER"), Ok(Role::USER));
    assert_eq!(Role::parse("admin"), Err(RoleParseError::VariantNotFound));
    assert_eq!(Role::parse("ADMIN "), Err(RoleParseError::VariantNotFound));
    assert_eq!(Role::parse(""), Err(RoleParseError::VariantNotFound));
}

#[test]
fn default_role_is_user() {
    assert_eq!(Role::default(), Role::USER);
}

#[test]
fn all_roles_in_declaration_order() {
    assert_eq!(Role::all(), vec![Role::ADMIN, Role::USER]);
}

#[test]
fn into_inner_returns_the_items() {
    let list = PaginatedList { total: 10, limit: 2, offset: 4, item: vec![5, 6] };
    assert_eq!(list.into_inner(), vec![5, 6]);
}

#[test]
fn create_book_keeps_the_request_fields() {
    let req = CreateBookRequest {
        title: "Test Title".into(),
        author: "Test Author".into(),
        isbn: "Test ISBN".into(),
        description: "Test Description".into(),
    };
    let event: CreateBook = req.into();
    assert_eq!(event.title, "Test Title");
    assert_eq!(event.author, "Test Author");
    assert_eq!(event.isbn, "Test ISBN");
    assert_eq!(event.description, "Test Description");
}

fn row(role_name: &str, n: u128) -> UserRow {
    UserRow {
        user_id: UserId(Uuid::from_u128(n)),
        name: format!("user{}", n),
        email: format!("user{}@example.com", n),
        role_name: role_name.to_string(),
        created_at: Timestamp(0),
        updated_at: Timestamp(1),
    }
}

#[test]
fn user_row_with_known_role_reads_as_user() {
    let user: User = User::try_from_row(row("ADMIN", 7)).unwrap();
    assert_eq!(user.id.0, Uuid::from_u128(7));
    assert_eq!(user.name, "user7");
    assert_eq!(user.email, "user7@example.com");
    assert_eq!(user.role, Role::ADMIN);
}

#[test]
fn user_row_with_unknown_role_is_a_conversion_error() {
    match User::try_from_row(row("Admin", 7)) {
        Err(AppError::ConversionEntityError(m)) => assert_eq!(m, "Matching variant not found"),
        other => panic!("unexpected {:?}", other),
    }
}

#[test]
fn book_ids_are_copies() {
    let id = BookId(Uuid::from_u128(3));
    let book = Book {
        id,
        title: "t".into(),
        author: "a".into(),
        isbn: "i".into(),
        description: "d".into(),
    };
    assert_eq!(book.id.0, id.0);
}
