use biblioteca::client::book_details::{
    concat_strs, format_date_of_birth, format_date_of_death, is_author_dead,
};
use biblioteca::client::confirmation_dialog::{is_confirmation, ConfirmationDialogBuilder};
use biblioteca::client::edit_author_details::{
    author_request, birth_date, death_date, BIRTH_CONTEXT, CHANGE_AUTHOR_DETAILS, DEATH_CONTEXT,
};
use biblioteca::client::edit_book_details::{
    book_request, initial_form, our_author_index, publish_date_fields, BookFormError,
    CHANGE_BOOK_DETAILS, DEFAULT_TITLE,
};
use biblioteca::client::http::{
    api_error, api_error_message, check_reply, endpoint_to_uri, is_error_status, Error,
    ErrorBody, SessionCookie,
};
use biblioteca::client::librarian_view::{
    book_with, delete_book_endpoint, delete_book_failure, end_borrow_endpoint,
    lengthen_endpoint, lengthen_notice, on_refresh_clicked, show_new_book_button,
    show_promote_button, user_name_label, user_type_label, user_with, Refresh,
};
use biblioteca::client::text::{parse_i32, parse_i64, to_decimal};
use biblioteca::client::time::{
    age_in_years, date_from_entries, deadline_label, deadline_status, invalid_date_message,
    is_pressing, remaining_days, DateEntryError, DateFields, DeadlineStatus,
};
use biblioteca::client::user_view::{
    book_for_id, borrow_button_is_sensitive, borrow_notice, borrow_request,
    borrowed_by_endpoint, BORROW,
};
use biblioteca::client::window::{page_after_logout, page_after_session_change, same_text, Page};
use biblioteca::schema::auth::User;
use biblioteca::schema::books::{Author, Book, BorrowReply, ChangeBookDetailsRequest};
use biblioteca::schema::session::Cookie;

fn author(id: i64, name: &str) -> Author {
    Author {
        author_id: id,
        name: String::from(name),
        date_of_birth: 0,
        date_of_death: None,
        description: String::new(),
    }
}

fn book(id: i64, title: &str) -> Book {
    Book {
        book_id: id,
        title: String::from(title),
        author: author(3, "Ion Creanga"),
        publish_date: 500,
        publisher: String::from("Minerva"),
        count: 2,
        synopsis: String::from("basme"),
        can_be_borrowed: true,
    }
}

fn reader(id: i64, name: &str, kind: i64) -> User {
    User {
        id,
        name: String::from(name),
        email: format!("{}@example.org", name),
        kind,
        borrowed_book_count: 0,
    }
}

#[test]
fn endpoint_to_uri_adds_a_slash_where_one_is_missing() {
    assert_eq!(endpoint_to_uri("/books"), "http://localhost:3000/books");
    assert_eq!(endpoint_to_uri("books"), "http://localhost:3000/books");
    assert_eq!(endpoint_to_uri(""), "http://localhost:3000/");
    assert_eq!(endpoint_to_uri("/"), "http://localhost:3000/");
    assert_eq!(endpoint_to_uri("//x"), "http://localhost:3000//x");
    assert_eq!(endpoint_to_uri("/auth/login"), "http://localhost:3000/auth/login");
    assert_eq!(endpoint_to_uri("împrumut"), "http://localhost:3000/împrumut");
}

#[test]
fn session_cookie_keeps_what_it_was_made_with() {
    let session = SessionCookie::new(7, String::from("parola"), 2);
    assert_eq!(session.cookie(), &Cookie { id: 7, password: String::from("parola") });
    assert_eq!(session.user_type(), 2);
}

#[test]
fn statuses_from_400_on_are_errors() {
    assert!(!is_error_status(200));
    assert!(!is_error_status(399));
    assert!(is_error_status(400));
    assert!(is_error_status(403));
    assert!(is_error_status(500));
}

#[test]
fn check_reply_lets_a_good_reply_through() {
    assert_eq!(check_reply(200, b"[]"), Ok(()));
    assert_eq!(check_reply(200, b"this is no json"), Ok(()));
    assert_eq!(check_reply(399, b""), Ok(()));
}

#[test]
fn check_reply_reads_the_servers_message() {
    assert_eq!(
        check_reply(403, b"{\"error\": \"Forbidden\"}"),
        Err(Error::Api { status_code: 403, msg: String::from("\"Forbidden\"") })
    );
    assert_eq!(
        check_reply(400, b"{\"error\": {\"code\": 3}, \"other\": 1}"),
        Err(Error::Api { status_code: 400, msg: String::from("{\"code\":3}") })
    );
}

#[test]
fn check_reply_stands_in_for_a_missing_message() {
    assert_eq!(
        check_reply(500, b"{\"message\": \"oops\"}"),
        Err(Error::Api { status_code: 500, msg: String::from("Unknown error") })
    );
    assert_eq!(
        check_reply(500, b"{}"),
        Err(Error::Api { status_code: 500, msg: String::from("Unknown error") })
    );
}

#[test]
fn check_reply_shows_a_body_that_is_no_object() {
    assert_eq!(
        check_reply(404, b"[1, 2,  3]"),
        Err(Error::Api { status_code: 404, msg: String::from("[1,2,3]") })
    );
    assert_eq!(
        check_reply(404, b"\"gone\""),
        Err(Error::Api { status_code: 404, msg: String::from("\"gone\"") })
    );
    assert_eq!(
        check_reply(404, b"null"),
        Err(Error::Api { status_code: 404, msg: String::from("null") })
    );
}

#[test]
fn check_reply_tells_a_body_that_is_no_json() {
    assert!(matches!(check_reply(500, b"<html>"), Err(Error::Deserialization(_))));
    assert!(matches!(check_reply(400, b""), Err(Error::Deserialization(_))));
    assert!(matches!(check_reply(400, b"{\"error\": "), Err(Error::Deserialization(_))));
}

#[test]
fn api_error_follows_the_body() {
    assert_eq!(
        api_error(401, Ok(ErrorBody::Object { member: Some(String::from("no")) })),
        Error::Api { status_code: 401, msg: String::from("no") }
    );
    assert_eq!(
        api_error(401, Err(String::from("line 1"))),
        Error::Deserialization(String::from("line 1"))
    );
    assert_eq!(api_error_message(ErrorBody::Object { member: None }), "Unknown error");
    assert_eq!(api_error_message(ErrorBody::Other { text: String::from("7") }), "7");
}

#[test]
fn remaining_days_cuts_off_towards_zero() {
    assert_eq!(remaining_days(86400, 0), 1);
    assert_eq!(remaining_days(86399, 0), 0);
    assert_eq!(remaining_days(0, 0), 0);
    assert_eq!(remaining_days(0, 86399), 0);
    assert_eq!(remaining_days(0, 86400), -1);
    assert_eq!(remaining_days(0, 3 * 86400 + 5), -3);
    assert_eq!(remaining_days(30 * 86400 + 1000, 1000), 30);
    assert_eq!(remaining_days(i64::MAX, i64::MIN), 213503982334601);
    assert_eq!(remaining_days(i64::MIN, i64::MAX), -213503982334601);
}

#[test]
fn deadline_status_tells_the_three_cases() {
    assert_eq!(deadline_status(5 * 86400, 0), DeadlineStatus::Remaining(5));
    assert_eq!(deadline_status(100, 50), DeadlineStatus::DueToday);
    assert_eq!(deadline_status(50, 100), DeadlineStatus::DueToday);
    assert_eq!(deadline_status(0, 2 * 86400), DeadlineStatus::Overdue(2));
}

#[test]
fn deadlines_press_from_three_days_down() {
    assert!(!is_pressing(4));
    assert!(is_pressing(3));
    assert!(is_pressing(0));
    assert!(is_pressing(-2));
}

#[test]
fn deadline_label_shows_the_days() {
    assert_eq!(
        deadline_label("12 mai 2024", 12),
        "12 mai 2024 (<span >12 zile rămase</span>)"
    );
    assert_eq!(
        deadline_label("12 mai 2024", 3),
        "12 mai 2024 (<span color=\"red\">3 zile rămase</span>)"
    );
    assert_eq!(
        deadline_label("12 mai 2024", 0),
        "12 mai 2024 (<span color=\"red\" weight=\"bold\">astăzi</span>)"
    );
    assert_eq!(
        deadline_label("12 mai 2024", -4),
        "12 mai 2024 (<span weight=\"bold\">întarziere de 4 zile</span>)"
    );
    assert_eq!(
        deadline_label("", i64::MIN),
        " (<span weight=\"bold\">întarziere de 9223372036854775808 zile</span>)"
    );
}

#[test]
fn age_counts_years_of_365_days() {
    assert_eq!(age_in_years(0, 365 * 86400), 1);
    assert_eq!(age_in_years(0, 365 * 86400 - 1), 0);
    assert_eq!(age_in_years(-3786825600, -2540246400), 39);
    assert_eq!(age_in_years(365 * 86400 * 2, 0), -2);
}

#[test]
fn to_decimal_writes_numbers_out() {
    assert_eq!(to_decimal(0), "0");
    assert_eq!(to_decimal(7), "7");
    assert_eq!(to_decimal(10), "10");
    assert_eq!(to_decimal(-1), "-1");
    assert_eq!(to_decimal(1234567890), "1234567890");
    assert_eq!(to_decimal(i64::MAX), "9223372036854775807");
    assert_eq!(to_decimal(i64::MIN), "-9223372036854775808");
    for n in [-1000i64, -99, -10, 5, 42, 100, 101, 99999] {
        assert_eq!(to_decimal(n), n.to_string());
    }
}

#[test]
fn parse_reads_what_std_reads() {
    let texts = [
        "0", "7", "-7", "+7", "007", "-0", "+0", "2024", "", "-", "+", " 7", "7 ", "7a", "a",
        "1_000", "--1", "+-1", "1.5", "٣", "9223372036854775807", "9223372036854775808",
        "-9223372036854775808", "-9223372036854775809", "2147483647", "2147483648",
        "-2147483648", "-2147483649", "99999999999999999999999999",
    ];
    for text in texts {
        assert_eq!(parse_i64(text), text.parse::<i64>().ok(), "{:?}", text);
        assert_eq!(parse_i32(text), text.parse::<i32>().ok(), "{:?}", text);
    }
    assert_eq!(parse_i64("-42"), Some(-42));
    assert_eq!(parse_i32("+31"), Some(31));
    assert_eq!(parse_i32("x"), None);
}

#[test]
fn date_from_entries_reads_year_month_day() {
    assert_eq!(
        date_from_entries("1889", 5, "15", false),
        Ok(Some(DateFields { year: 1889, month: 6, day: 15 }))
    );
    assert_eq!(
        date_from_entries("2024", 0, "31", true),
        Ok(Some(DateFields { year: 2024, month: 1, day: 31 }))
    );
    assert_eq!(
        date_from_entries("1", u32::MAX, "2", false),
        Ok(Some(DateFields { year: 1, month: 4294967296, day: 2 }))
    );
}

#[test]
fn date_from_entries_allows_blanks_only_on_request() {
    assert_eq!(date_from_entries("", 3, "", true), Ok(None));
    assert_eq!(date_from_entries("", 3, "", false), Err(DateEntryError::Year));
    assert_eq!(date_from_entries("", 3, "4", true), Err(DateEntryError::Year));
    assert_eq!(date_from_entries("1999", 3, "", true), Err(DateEntryError::Day));
}

#[test]
fn date_from_entries_reads_the_year_first() {
    assert_eq!(date_from_entries("an", 3, "zi", false), Err(DateEntryError::Year));
    assert_eq!(date_from_entries("1999", 3, "zi", false), Err(DateEntryError::Day));
    assert_eq!(
        DateEntryError::Year.message(BIRTH_CONTEXT),
        "Anul nașterii trebuie să fie un număr"
    );
    assert_eq!(
        DateEntryError::Day.message(DEATH_CONTEXT),
        "Ziua decesului trebuie să fie un număr"
    );
    assert_eq!(
        invalid_date_message("ziua 31"),
        "Detaliile introduse nu au format o dată validă: ziua 31"
    );
}

#[test]
fn pages_follow_the_kind_of_account() {
    let normal = SessionCookie::new(1, String::new(), 1);
    let librarian = SessionCookie::new(1, String::new(), 2);
    let odd = SessionCookie::new(1, String::new(), 3);
    assert_eq!(page_after_session_change(Page::Login, Some(&normal)), Page::UserView);
    assert_eq!(page_after_session_change(Page::Login, Some(&librarian)), Page::LibrarianView);
    assert_eq!(page_after_session_change(Page::Login, Some(&odd)), Page::Login);
    assert_eq!(page_after_session_change(Page::UserView, None), Page::UserView);
    assert_eq!(page_after_logout(), Page::Login);
    assert_eq!(Page::Login.name(), "login");
    assert_eq!(Page::UserView.name(), "user-view");
    assert_eq!(Page::LibrarianView.name(), "librarian-view");
    assert!(same_text("a", "a") && !same_text("a", "b") && !same_text("a", "ab"));
}

#[test]
fn refresh_fetches_what_the_tab_shows() {
    assert_eq!(
        on_refresh_clicked("all-books"),
        Refresh { books: true, users: false, borrows: false }
    );
    assert_eq!(on_refresh_clicked("borrows"), Refresh { books: true, users: true, borrows: true });
    assert_eq!(on_refresh_clicked("users"), Refresh { books: false, users: true, borrows: false });
    assert_eq!(on_refresh_clicked("x"), Refresh { books: false, users: false, borrows: false });
    assert!(show_new_book_button("all-books"));
    assert!(!show_new_book_button("users"));
}

#[test]
fn lists_are_searched_by_id() {
    let books = vec![book(4, "a"), book(9, "b"), book(4, "c")];
    assert_eq!(book_with(&books, 4).unwrap().title, "a");
    assert_eq!(book_with(&books, 9).unwrap().title, "b");
    assert!(book_with(&books, 5).is_none());
    assert_eq!(book_for_id(&books, 9).unwrap().title, "b");
    assert!(book_for_id(&Vec::new(), 9).is_none());
    let users = vec![reader(1, "ana", 2), reader(2, "bogdan", 1)];
    assert_eq!(user_with(&users, 2).unwrap().name, "bogdan");
    assert!(user_with(&users, 3).is_none());
}

#[test]
fn users_are_labelled() {
    assert_eq!(user_name_label(&reader(1, "ana", 2), 1), "ana (eu)");
    assert_eq!(user_name_label(&reader(1, "ana", 2), 2), "ana");
    assert_eq!(user_type_label(1), "Utilizator normal");
    assert_eq!(user_type_label(2), "Bibliotecar");
    assert_eq!(user_type_label(3), "Invalid (3)");
    assert_eq!(user_type_label(-12), "Invalid (-12)");
    assert!(show_promote_button(Some(1)));
    assert!(!show_promote_button(Some(2)));
    assert!(!show_promote_button(None));
}

#[test]
fn librarian_endpoints_name_the_row() {
    assert_eq!(lengthen_endpoint(12), "/lengthen-borrow/12?days=30");
    assert_eq!(end_borrow_endpoint(3), "/end-borrow/3");
    assert_eq!(delete_book_endpoint(40), "/delete-book/40");
    assert_eq!(borrowed_by_endpoint(5), "/borrowed-by/5");
    assert_eq!(endpoint_to_uri(BORROW), "http://localhost:3000/borrow");
    assert_eq!(
        endpoint_to_uri(CHANGE_BOOK_DETAILS),
        "http://localhost:3000/change-book-details"
    );
    assert_eq!(
        endpoint_to_uri(CHANGE_AUTHOR_DETAILS),
        "http://localhost:3000/change-author-details"
    );
    assert_eq!(
        lengthen_notice("1 iunie 2024", 31),
        "Noua data la care va trebui înapoiată cartea este 1 iunie 2024 (în 31 de zile)"
    );
}

#[test]
fn delete_book_failure_explains_a_bad_request() {
    let bad = Error::Api { status_code: 400, msg: String::new() };
    let forbidden = Error::Api { status_code: 403, msg: String::new() };
    assert_eq!(
        delete_book_failure(&bad),
        "Ștergerea cărții a eșuat (cartea este în împrumut)"
    );
    assert_eq!(delete_book_failure(&forbidden), "Ștergerea cărții a eșuat ");
    assert_eq!(
        delete_book_failure(&Error::Network(String::from("down"))),
        "Ștergerea cărții a eșuat "
    );
}

#[test]
fn borrowing_is_asked_and_answered() {
    let cookie = Cookie { id: 2, password: String::from("p") };
    let request = borrow_request(cookie.clone(), 8);
    assert_eq!((request.cookie, request.book_id), (cookie, 8));
    assert_eq!(
        borrow_notice(&BorrowReply { already_borrowed: true }),
        Some("Nu poți împrumuta aceeași carte de mai multe ori")
    );
    assert_eq!(borrow_notice(&BorrowReply { already_borrowed: false }), None);
    let mut shown = book(1, "a");
    assert!(borrow_button_is_sensitive(&shown));
    shown.can_be_borrowed = false;
    assert!(!borrow_button_is_sensitive(&shown));
}

#[test]
fn book_details_are_spelled_out() {
    let parts = vec![String::from("Poesii"), String::new(), String::from(" - "), String::from("x")];
    assert_eq!(concat_strs(&parts), "Poesii - x");
    assert_eq!(concat_strs(&Vec::new()), "");
    assert_eq!(format_date_of_birth("15 ianuarie 1850"), "Data nașterii: 15 ianuarie 1850");
    assert_eq!(
        format_date_of_death(Some(("15 iunie 1889", 39))),
        "Data morții: 15 iunie 1889 (39 ani)"
    );
    assert_eq!(format_date_of_death(None), "");
    assert!(is_author_dead(Some(0)));
    assert!(!is_author_dead(None));
}

#[test]
fn confirmation_dialog_collects_its_texts() {
    let dialog = ConfirmationDialogBuilder::new()
        .title(String::from("Ești sigur?"))
        .heading(String::from("Ștergi cartea?"))
        .body(String::from("Ireversibil"))
        .confirm_text(String::from("Șterge"))
        .action_is_destructive(true)
        .build();
    assert_eq!(dialog.title, "Ești sigur?");
    assert_eq!(dialog.heading, "Ștergi cartea?");
    assert_eq!(dialog.body, "Ireversibil");
    assert_eq!(dialog.cancel.id, "cancel");
    assert_eq!(dialog.cancel.label, "Anulează");
    assert_eq!(dialog.confirm.id, "confirm");
    assert_eq!(dialog.confirm.label, "Șterge");
    assert_eq!(dialog.default_response, "cancel");
    assert_eq!(dialog.close_response, "cancel");
    assert!(dialog.confirm_is_destructive);
    let plain = ConfirmationDialogBuilder::new().build();
    assert_eq!(plain.title, "");
    assert!(!plain.confirm_is_destructive);
    assert_eq!(plain, ConfirmationDialogBuilder::default().build());
    assert!(is_confirmation("confirm"));
    assert!(!is_confirmation("cancel"));
}

#[test]
fn later_texts_replace_earlier_ones() {
    let dialog = ConfirmationDialogBuilder::new()
        .title(String::from("a"))
        .action_is_destructive(true)
        .title(String::from("b"))
        .action_is_destructive(false)
        .build();
    assert_eq!(dialog.title, "b");
    assert!(!dialog.confirm_is_destructive);
}

#[test]
fn book_form_starts_blank_or_with_the_book() {
    let blank = initial_form(None);
    assert_eq!(blank.book_id, None);
    assert_eq!(blank.author_id, None);
    assert_eq!(blank.title, DEFAULT_TITLE);
    assert_eq!(blank.title, "Carte nouă");
    assert_eq!(blank.author_name, None);
    assert_eq!(blank.count, 0);
    assert_eq!(blank.synopsis, "");
    assert_eq!(blank.publisher, "");
    assert_eq!(blank.publish_date, i64::MAX);
    let shown = book(6, "Povesti");
    let form = initial_form(Some(&shown));
    assert_eq!(form.book_id, Some(6));
    assert_eq!(form.author_id, Some(3));
    assert_eq!(form.title, "Povesti");
    assert_eq!(form.author_name, Some(String::from("Ion Creanga")));
    assert_eq!(form.count, 2);
    assert_eq!(form.synopsis, "basme");
    assert_eq!(form.publisher, "Minerva");
    assert_eq!(form.publish_date, 500);
}

#[test]
fn our_author_is_found_in_the_list() {
    let authors = vec![author(5, "a"), author(3, "b"), author(8, "c"), author(3, "d")];
    assert_eq!(our_author_index(&authors, Some(3)), Some(1));
    assert_eq!(our_author_index(&authors, Some(8)), Some(2));
    assert_eq!(our_author_index(&authors, Some(1)), None);
    assert_eq!(our_author_index(&authors, None), None);
    assert_eq!(our_author_index(&Vec::new(), Some(3)), None);
}

#[test]
fn book_form_is_read_in_order() {
    assert_eq!(publish_date_fields(None, "x", 0, "y"), Err(BookFormError::NoAuthor));
    assert_eq!(publish_date_fields(Some(1), "x", 0, "y"), Err(BookFormError::Year));
    assert_eq!(publish_date_fields(Some(1), "", 0, ""), Err(BookFormError::Year));
    assert_eq!(publish_date_fields(Some(1), "1883", 0, "y"), Err(BookFormError::Day));
    assert_eq!(
        publish_date_fields(Some(1), "1883", 11, "25"),
        Ok(DateFields { year: 1883, month: 12, day: 25 })
    );
    let cookie = Cookie { id: 1, password: String::from("p") };
    let request = |date: Option<i64>, count: &str| {
        book_request(
            Some(4),
            String::from("Poesii"),
            2,
            date,
            String::from("Socec"),
            count,
            String::from("versuri"),
            cookie.clone(),
        )
    };
    assert_eq!(request(None, "x"), Err(BookFormError::InvalidDate));
    assert_eq!(request(Some(10), "x"), Err(BookFormError::Count));
    assert_eq!(request(Some(10), "1.5"), Err(BookFormError::Count));
    assert_eq!(
        request(Some(10), "12"),
        Ok(ChangeBookDetailsRequest {
            book_id: Some(4),
            title: String::from("Poesii"),
            author_id: 2,
            publish_date: 10,
            publisher: String::from("Socec"),
            count: 12,
            synopsis: String::from("versuri"),
            cookie: cookie.clone(),
        })
    );
}

#[test]
fn book_form_errors_have_their_messages() {
    assert_eq!(BookFormError::NoAuthor.message(), "Trebuie să alegi un autor");
    assert_eq!(BookFormError::Year.message(), "Anul trebuie să fie un număr");
    assert_eq!(BookFormError::Day.message(), "Ziua trebuie să fie un număr");
    assert_eq!(
        BookFormError::InvalidDate.message(),
        "Detaliile introduse nu au format o dată validă: "
    );
    assert_eq!(
        BookFormError::Count.message(),
        "Numărul de cărți trebuie să fie un număr întreg"
    );
}

#[test]
fn author_form_asks_for_both_dates() {
    assert_eq!(birth_date("1850", 0, "15"), Ok(DateFields { year: 1850, month: 1, day: 15 }));
    assert_eq!(birth_date("", 0, ""), Err(DateEntryError::Year));
    assert_eq!(
        death_date("1889", 5, "15"),
        Ok(Some(DateFields { year: 1889, month: 6, day: 15 }))
    );
    assert_eq!(death_date("", 5, ""), Err(DateEntryError::Year));
    assert_eq!(death_date("1889", 5, ""), Err(DateEntryError::Day));
    let cookie = Cookie { id: 1, password: String::from("p") };
    let request =
        author_request(String::from("Mihai"), -5, Some(9), String::from("poet"), cookie.clone());
    assert_eq!(request.author_id, None);
    assert_eq!(request.name, "Mihai");
    assert_eq!((request.date_of_birth, request.date_of_death), (-5, Some(9)));
    assert_eq!(request.description, "poet");
    assert_eq!(request.cookie, cookie);
}
