use library_api::books::books_application::create_book_use_case::{self, CreateBookDto};
use library_api::books::books_application::delete_book_use_case::check_exists;
use library_api::books::books_application::update_book_use_case;
use library_api::books::books_infrastructure::controllers::book_id;
use library_api::AppError;
use library_api::books::books_application::get_books_use_case::{
    default_page, default_page_size, GetBooksDto,
};
use library_api::books::books_application::search_books_use_case::SearchBooksDto;
use library_api::books::books_domain::{
    Book, BookAuthor, BookPublisher, BookTitle, Isbn, PageWindow, ReadMultipleBooksCriteria,
};
use library_api::books::books_infrastructure::db_dtos::{DbAuthorName, DbBook};
use library_api::books::{BookError, BookRule};
use library_api::AppErrorKind;
use uuid::Uuid;

#[test]
fn book_validation_works() {
    let book = Book {
        id: Uuid::new_v4().as_u128(),
        title: BookTitle::from_str("Title").expect("Failed to create BookTitle"),
        authors: vec![BookAuthor::from_str("Author").expect("Failed to create BookAuthor")],
        publisher: BookPublisher::from_str("Publisher").expect("Failed to create BookPublisher"),
        year: 2022,
        isbn: Isbn::from_str("ISBN-10 0-596-52068-9").expect("Failed to create Isbn"),
        stored_quantity: 10,
    };
    assert!(book.validate().is_ok());
}

#[test]
fn test_book_title_validation_works() {
    let valid_title = BookTitle::from_str("El Quijote");
    assert!(valid_title.is_ok());

    let valid_special_chars = BookTitle::from_str("Historia del Arte: Renacimiento & Barroco");
    assert!(valid_special_chars.is_ok());

    let valid_accents = BookTitle::from_str("Crónica de una muerte anunciada");
    assert!(valid_accents.is_ok());

    let empty_title = BookTitle::from_str("");
    assert!(matches!(empty_title, Err(BookError::EmptyString)));

    let emoji_title = BookTitle::from_str("El libro 📚 de aventuras");
    assert!(matches!(emoji_title, Err(BookError::InvalidCharacters)));
}

#[test]
fn test_book_author_validation() {
    let valid_author = BookAuthor::from_str("Gabriel García Márquez");
    assert!(valid_author.is_ok());

    let valid_special_chars = BookAuthor::from_str("J.R.R. Tolkien");
    assert!(valid_special_chars.is_ok());

    let empty_author = BookAuthor::from_str("");
    assert!(matches!(empty_author, Err(BookError::EmptyString)));

    let emoji_author = BookAuthor::from_str("Miguel de Cervantes 🖋️");
    assert!(matches!(emoji_author, Err(BookError::InvalidCharacters)));
}

#[test]
fn test_book_publisher_validation() {
    let valid_publisher = BookPublisher::from_str("Editorial Planeta");
    assert!(valid_publisher.is_ok());

    let valid_special_chars = BookPublisher::from_str("Ediciones B & Co.");
    assert!(valid_special_chars.is_ok());

    let empty_publisher = BookPublisher::from_str("");
    assert!(matches!(empty_publisher, Err(BookError::EmptyString)));

    let emoji_publisher = BookPublisher::from_str("Penguin Random House 🏢");
    assert!(matches!(emoji_publisher, Err(BookError::InvalidCharacters)));
}

#[test]
fn test_book_isbn_validation() {
    let valid_isbn = Isbn::from_str("9783161484100");
    assert!(valid_isbn.is_ok());

    let valid_spaces = Isbn::from_str("978 3 16 148410 0");
    assert!(valid_spaces.is_ok());

    let valid_dashes = Isbn::from_str("978-3-16-148410-0");
    assert!(valid_dashes.is_ok());

    let valid_extra_spaces = Isbn::from_str("978-3-16-148410-0 ");
    assert!(valid_extra_spaces.is_ok());

    let valid_spaces_and_dashes_extra = Isbn::from_str("978-3 16-148410-0 ");
    assert!(valid_spaces_and_dashes_extra.is_ok());

    let valid_prefix = Isbn::from_str("ISBN 978-3-16-148410-0");
    assert!(valid_prefix.is_ok());

    let mixed_separators_and_spaces = Isbn::from_str(" 978-3 16-148410 0");
    assert!(mixed_separators_and_spaces.is_ok());

    let prefixed_isbn = Isbn::from_str("ISBN 978-3-16-148410-0").unwrap();
    let numbered_isbn = Isbn::from_str("9783161484100").unwrap();
    assert!(prefixed_isbn.canonical() == numbered_isbn.canonical());

    let empty_isbn = Isbn::from_str("");
    assert!(matches!(empty_isbn, Err(BookError::InvalidIsbn)));

    let emoji_isbn = Isbn::from_str("978-3-16-148410-0 📚");
    assert!(matches!(emoji_isbn, Err(BookError::InvalidIsbn)));

    let isbn_with_letters = Isbn::from_str("978-3-16-148410-A");
    assert!(matches!(isbn_with_letters, Err(BookError::InvalidIsbn)));
}

#[test]
fn validated_text_is_trimmed() {
    let title = BookTitle::from_str("  El Quijote \n").expect("title");
    assert_eq!(title.as_str(), "El Quijote");
    assert_eq!(title.to_string(), "El Quijote");
    assert_eq!(title.clone().into_string(), "El Quijote");
    assert_eq!(title, BookTitle::try_from("El Quijote".to_string()).expect("title"));
    assert!(matches!(
        BookTitle::from_str(" \t "),
        Err(BookError::EmptyString)
    ));
    assert!(matches!(
        BookTitle::from_str("a + b"),
        Err(BookError::InvalidCharacters)
    ));
}

#[test]
fn canonical_isbn_is_the_number_alone() {
    let cases = [
        ("ISBN-13 978-0-306-40615-7", "9780306406157"),
        ("ISBN-10 0-596-52068-9", "0596520689"),
        ("ISBN 978-3-16-148410-0", "9783161484100"),
        ("978 3 16 148410 0", "9783161484100"),
        ("0-8044-2957-X", "080442957X"),
        ("ISBN10: 0-596-52068-9", "100596520689"),
        ("ISBN-13: 978-0-306-40615-7", "9780306406157"),
    ];
    for (text, canonical) in cases {
        let isbn = Isbn::from_str(text).expect(text);
        assert_eq!(isbn.canonical(), canonical, "{text}");
    }
    let isbn = Isbn::from_str("  978-3-16-148410-0 ").expect("isbn");
    assert_eq!(isbn.as_str(), "978-3-16-148410-0");
    assert_eq!(isbn.to_string(), "978-3-16-148410-0");
    assert_eq!(isbn.clone().into_string(), "978-3-16-148410-0");
    assert_eq!(isbn, Isbn::try_from("978-3-16-148410-0".to_string()).expect("isbn"));
}

fn dto() -> CreateBookDto {
    CreateBookDto {
        title: " El Quijote ".to_string(),
        authors: vec!["Miguel de Cervantes".to_string(), " Otro Autor".to_string()],
        publisher: "Fondo de Cultura Económica".to_string(),
        year: 2000,
        isbn: "978-84-376-0000-0".to_string(),
        stored_quantity: 2,
    }
}

#[test]
fn a_book_is_made_of_a_request() {
    let book = Book::try_from((7, dto())).expect("book");
    assert_eq!(book.id, 7);
    assert_eq!(book.title.as_str(), "El Quijote");
    assert_eq!(book.authors.len(), 2);
    assert_eq!(book.authors[0].as_str(), "Miguel de Cervantes");
    assert_eq!(book.authors[1].as_str(), "Otro Autor");
    assert_eq!(book.publisher.as_str(), "Fondo de Cultura Económica");
    assert_eq!(book.year, 2000);
    assert_eq!(book.isbn.as_str(), "978-84-376-0000-0");
    assert_eq!(book.stored_quantity, 2);
}

#[test]
fn the_first_failure_of_a_request_is_reported() {
    let mut bad = dto();
    bad.authors = vec!["ok".to_string(), "".to_string(), "📚".to_string()];
    bad.title = "📚".to_string();
    assert!(matches!(
        Book::try_from((1, bad)),
        Err(BookError::EmptyString)
    ));

    let mut bad = dto();
    bad.title = "📚".to_string();
    bad.publisher = "".to_string();
    assert!(matches!(
        Book::try_from((1, bad)),
        Err(BookError::InvalidCharacters)
    ));

    let mut bad = dto();
    bad.publisher = "".to_string();
    bad.isbn = "x".to_string();
    assert!(matches!(
        Book::try_from((1, bad)),
        Err(BookError::EmptyString)
    ));

    let mut bad = dto();
    bad.isbn = "x".to_string();
    bad.year = 1;
    assert!(matches!(
        Book::try_from((1, bad)),
        Err(BookError::InvalidIsbn)
    ));
}

#[test]
fn the_rules_on_a_book() {
    let rule_of = |change: fn(&mut CreateBookDto)| {
        let mut changed = dto();
        change(&mut changed);
        match Book::try_from((1, changed)) {
            Ok(_) => None,
            Err(BookError::Validation(rule)) => Some(rule),
            Err(other) => panic!("{other:?}"),
        }
    };
    assert_eq!(rule_of(|_| ()), None);
    assert_eq!(rule_of(|d| d.authors.clear()), Some(BookRule::Authors));
    assert_eq!(rule_of(|d| d.year = 1899), Some(BookRule::Year));
    assert_eq!(rule_of(|d| d.year = 1900), None);
    assert_eq!(rule_of(|d| d.year = 2100), None);
    assert_eq!(rule_of(|d| d.year = 2101), Some(BookRule::Year));
    assert_eq!(
        rule_of(|d| d.stored_quantity = 0),
        Some(BookRule::StoredQuantity)
    );
    assert_eq!(rule_of(|d| d.stored_quantity = 1), None);
    assert_eq!(rule_of(|d| d.stored_quantity = 1000), None);
    assert_eq!(
        rule_of(|d| d.stored_quantity = 1001),
        Some(BookRule::StoredQuantity)
    );
    assert_eq!(
        rule_of(|d| {
            d.authors.clear();
            d.year = 0;
            d.stored_quantity = 0
        }),
        Some(BookRule::Authors)
    );
    assert_eq!(
        rule_of(|d| {
            d.year = 0;
            d.stored_quantity = 0
        }),
        Some(BookRule::Year)
    );
}

#[test]
fn page_windows() {
    assert_eq!(
        PageWindow::of(1, 10),
        PageWindow {
            page: 1,
            limit: 10,
            offset: 0
        }
    );
    assert_eq!(
        PageWindow::of(0, 10),
        PageWindow {
            page: 1,
            limit: 10,
            offset: 0
        }
    );
    assert_eq!(
        PageWindow::of(3, 7),
        PageWindow {
            page: 3,
            limit: 7,
            offset: 14
        }
    );
    assert_eq!(
        PageWindow::of(u32::MAX, u8::MAX),
        PageWindow {
            page: u32::MAX,
            limit: 255,
            offset: 4_294_967_294 * 255
        }
    );
    assert_eq!(PageWindow::of(5, 0).offset, 0);
}

#[test]
fn defaults_of_a_listing() {
    assert_eq!(default_page(), 1);
    assert_eq!(default_page_size(), 10);
    let dto = GetBooksDto {
        page: default_page(),
        page_size: default_page_size(),
    };
    assert_eq!((dto.page, dto.page_size), (1, 10));
}

fn search(title: Option<&str>, author: Option<&str>) -> ReadMultipleBooksCriteria {
    SearchBooksDto {
        title: title.map(str::to_string),
        author: author.map(str::to_string),
        page: 1,
        page_size: 10,
    }
    .criteria()
}

#[test]
fn what_a_search_asks_for() {
    assert_eq!(search(None, None), ReadMultipleBooksCriteria::All);
    assert_eq!(
        search(Some("Apple"), None),
        ReadMultipleBooksCriteria::ByTitle("Apple".to_string())
    );
    assert_eq!(
        search(Some(" Apple "), Some("John")),
        ReadMultipleBooksCriteria::ByTitle(" Apple ".to_string())
    );
    assert_eq!(
        search(None, Some("John")),
        ReadMultipleBooksCriteria::ByAuthor("John".to_string())
    );
    assert_eq!(search(Some("  "), None), ReadMultipleBooksCriteria::All);
    assert_eq!(search(None, Some("")), ReadMultipleBooksCriteria::All);
    assert_eq!(
        search(Some(" "), Some("John")),
        ReadMultipleBooksCriteria::All
    );
}

fn row() -> DbBook {
    DbBook {
        id: "550e8400-e29b-41d4-a716-446655440000".to_string(),
        title: "Test Book".to_string(),
        publisher: "Test Publisher".to_string(),
        year: 2023,
        isbn: "9783161484100".to_string(),
        stored: 5,
    }
}

#[test]
fn a_row_becomes_a_book() {
    let authors = vec![BookAuthor::from_str("Author One").expect("author")];
    let book = row().to_domain_with_authors(authors).expect("book");
    assert_eq!(book.id, 0x550e8400_e29b_41d4_a716_446655440000);
    assert_eq!(
        book.id,
        Uuid::parse_str("550e8400-e29b-41d4-a716-446655440000")
            .expect("uuid")
            .as_u128()
    );
    assert_eq!(book.title.as_str(), "Test Book");
    assert_eq!(book.authors.len(), 1);
    assert_eq!(book.year, 2023);
    assert_eq!(book.stored_quantity, 5);
    assert_eq!(book.isbn.canonical(), "9783161484100");
}

#[test]
fn a_row_keeps_the_low_bits_of_its_numbers() {
    let mut wide = row();
    wide.year = 65536 + 1999;
    wide.stored = -1;
    let book = wide.to_domain_with_authors(vec![]).expect("book");
    assert_eq!(book.year, 1999);
    assert_eq!(book.stored_quantity, 65535);
}

#[test]
fn a_row_that_holds_no_book_is_a_defect_of_the_store() {
    let changes: [fn(&mut DbBook); 4] = [
        |r| r.id = "not-a-uuid".to_string(),
        |r| r.title = "".to_string(),
        |r| r.publisher = "📚".to_string(),
        |r| r.isbn = "abc".to_string(),
    ];
    for change in changes {
        let mut bad = row();
        change(&mut bad);
        assert!(matches!(
            bad.to_domain_with_authors(vec![]),
            Err(BookError::DatabaseError(_))
        ));
    }
    let mut bad = row();
    bad.title = " ".to_string();
    match bad.to_domain_with_authors(vec![]) {
        Err(BookError::DatabaseError(text)) => {
            assert_eq!(text, "Error al crear BookTitle: EmptyString")
        }
        other => panic!("{other:?}"),
    }
}

#[test]
fn the_name_of_an_author_row() {
    let author = DbAuthorName {
        name: " Jane Doe ".to_string(),
    }
    .to_domain()
    .expect("author");
    assert_eq!(author.as_str(), "Jane Doe");
    match (DbAuthorName {
        name: "🖋️".to_string(),
    })
    .to_domain()
    {
        Err(BookError::DatabaseError(text)) => {
            assert_eq!(text, "Error al crear BookAuthor: InvalidCharacters")
        }
        other => panic!("{other:?}"),
    }
}

#[test]
fn book_error_kinds_and_messages() {
    let cases = [
        (BookError::NotFound, AppErrorKind::NotFound, "Libro no encontrado"),
        (
            BookError::EmptyString,
            AppErrorKind::InvalidData,
            "Cadena de texto vacía",
        ),
        (
            BookError::InvalidCharacters,
            AppErrorKind::InvalidData,
            "Caracteres inválidos",
        ),
        (BookError::InvalidIsbn, AppErrorKind::InvalidData, "ISBN inválido"),
        (
            BookError::Validation(BookRule::Year),
            AppErrorKind::InvalidData,
            "Validación fallida",
        ),
        (
            BookError::AlreadyExists("978-3".to_string()),
            AppErrorKind::InvalidData,
            "Libro con el ISBN: 978-3 ya existe",
        ),
        (
            BookError::DatabaseError("x".to_string()),
            AppErrorKind::Infrastructure,
            "Error de base de datos",
        ),
    ];
    for (error, kind, message) in cases {
        assert_eq!(error.kind(), kind);
        assert_eq!(error.to_string(), message);
    }
}

fn book(id: u128) -> Book {
    Book::try_from((id, dto())).expect("book")
}

#[test]
fn a_new_book_gets_a_random_identifier() {
    let first = Book::new(dto()).expect("book");
    let second = Book::new(dto()).expect("book");
    assert_ne!(first.id, second.id);
    for made in [&first, &second] {
        let uuid = Uuid::from_u128(made.id);
        assert_eq!(uuid.get_version_num(), 4);
        assert_eq!(made.title.as_str(), "El Quijote");
    }
    let mut bad = dto();
    bad.year = 1500;
    assert!(matches!(
        Book::new(bad),
        Err(BookError::Validation(BookRule::Year))
    ));
}

#[test]
fn a_new_book_may_not_take_an_isbn_that_is_taken() {
    let isbn = Isbn::from_str("ISBN 978-84-376-0000-0").expect("isbn");
    assert!(create_book_use_case::check_collision(&None, &isbn).is_ok());
    match create_book_use_case::check_collision(&Some(book(1)), &isbn) {
        Err(BookError::AlreadyExists(text)) => assert_eq!(text, "ISBN 978-84-376-0000-0"),
        other => panic!("{other:?}"),
    }
}

#[test]
fn a_changed_book_may_keep_its_own_isbn() {
    let isbn = Isbn::from_str("978-84-376-0000-0").expect("isbn");
    assert!(update_book_use_case::check_collision(1, &None, &isbn).is_ok());
    assert!(update_book_use_case::check_collision(1, &Some(book(1)), &isbn).is_ok());
    match update_book_use_case::check_collision(1, &Some(book(2)), &isbn) {
        Err(BookError::AlreadyExists(text)) => assert_eq!(text, "978-84-376-0000-0"),
        other => panic!("{other:?}"),
    }
}

#[test]
fn what_is_not_there_is_not_found() {
    assert!(matches!(check_exists(None), Err(BookError::NotFound)));
    assert_eq!(check_exists(Some(book(9))).expect("book"), book(9));
}

#[test]
fn the_identifier_in_a_path() {
    assert_eq!(
        book_id("550e8400-e29b-41d4-a716-446655440000").expect("id"),
        0x550e8400_e29b_41d4_a716_446655440000
    );
    assert_eq!(
        book_id("550E8400E29B41D4A716446655440000").expect("id"),
        0x550e8400_e29b_41d4_a716_446655440000
    );
    match book_id("42") {
        Err(AppError::Custom(text)) => assert_eq!(text, "id inválido"),
        other => panic!("{other:?}"),
    }
}
