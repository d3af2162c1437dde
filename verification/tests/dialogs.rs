use biblioteca::client::http::endpoint_to_uri;
use biblioteca::client::librarian_view::{
    delete_book_dialog, delete_user_dialog, delete_user_notice, finish_borrow_dialog,
    lengthen_borrow_dialog, lengthen_notice, promote_user_dialog,
};
use biblioteca::client::login_page::{
    login_request, session_after_login, signup_request, CREATE_ACCOUNT, LOGIN, LOGIN_FAILED,
    SIGNUP_FAILED,
};
use biblioteca::schema::auth::{CreateAccount, DeleteUserReply, Login, LoginReply};
use biblioteca::schema::session::Cookie;

#[test]
fn delete_book_dialog_warns() {
    let dialog = delete_book_dialog().build();
    assert_eq!(dialog.title, "Ești sigur?");
    assert_eq!(dialog.heading, "Ești sigur că vrei să ștergi această carte?");
    assert_eq!(dialog.body, "Această acțiune este ireversibilă");
    assert_eq!(dialog.confirm.label, "Șterge cartea");
    assert!(dialog.confirm_is_destructive);
}

#[test]
fn lengthen_borrow_dialog_tells_the_new_deadline() {
    let dialog = lengthen_borrow_dialog(lengthen_notice("1 iunie 2024", 31)).build();
    assert_eq!(dialog.title, "Ești sigur?");
    assert_eq!(dialog.heading, "Ești sigur că vrei să lungești durata acestui împrumut?");
    assert_eq!(
        dialog.body,
        "Noua data la care va trebui înapoiată cartea este 1 iunie 2024 (în 31 de zile)"
    );
    assert_eq!(dialog.confirm.label, "Da");
    assert!(!dialog.confirm_is_destructive);
}

#[test]
fn finish_borrow_dialog_warns() {
    let dialog = finish_borrow_dialog().build();
    assert_eq!(dialog.heading, "Ești sigur că vrei să închei împrumutul utilizatorului acum?");
    assert_eq!(dialog.body, "Acest lucru îl va forța să înapoieze cartea astăzi");
    assert_eq!(dialog.confirm.label, "Încheie împrumut");
    assert!(dialog.confirm_is_destructive);
}

#[test]
fn promote_user_dialog_warns() {
    let dialog = promote_user_dialog().build();
    assert_eq!(dialog.title, "Confirmare promovare utilizator");
    assert_eq!(
        dialog.heading,
        "Ești sigur că vrei să promovezi acest utilizator la bibliotecar?"
    );
    assert_eq!(dialog.body, "Acest utilizator va avea aceleași drepturi ca dvs.");
    assert_eq!(dialog.confirm.label, "Promovează");
    assert!(dialog.confirm_is_destructive);
}

#[test]
fn delete_user_dialog_asks_plainly() {
    let dialog = delete_user_dialog().build();
    assert_eq!(dialog.title, "Confirmare ștergere cont");
    assert_eq!(dialog.heading, "Ești sigur că vrei să ștergi utilizatorul?");
    assert!(dialog.body.starts_with("Această acțiune este ireversibilă și"));
    assert!(dialog.body.ends_with("toate datele utilizatorului vor fi șterse."));
    assert_eq!(dialog.confirm.label, "Șterge contul");
    assert!(!dialog.confirm_is_destructive);
    assert_eq!(dialog.close_response, "cancel");
}

#[test]
fn delete_user_notice_follows_the_reply() {
    assert_eq!(delete_user_notice(DeleteUserReply::Deleted), None);
    assert_eq!(
        delete_user_notice(DeleteUserReply::UsersStillHadBooks),
        Some(
            "Nu s-a putut realiza ștergerea contului deoarece utilizatorul încă are cărți împrumutate"
        )
    );
    assert_eq!(
        delete_user_notice(DeleteUserReply::CannotDeleteSelf),
        Some("Contul propriu nu poate fi șters în acest fel")
    );
}

#[test]
fn login_page_asks_with_what_was_entered() {
    assert_eq!(
        login_request(String::from("ana@example.org"), String::from("parola")),
        Login { email: String::from("ana@example.org"), password: String::from("parola") }
    );
    assert_eq!(
        signup_request(String::from("ana"), String::from("a@x"), String::from("p")),
        CreateAccount {
            name: String::from("ana"),
            email: String::from("a@x"),
            password: String::from("p"),
        }
    );
    assert_eq!(endpoint_to_uri(LOGIN), "http://localhost:3000/auth/login");
    assert_eq!(endpoint_to_uri(CREATE_ACCOUNT), "http://localhost:3000/auth/create-account");
    assert_eq!(LOGIN_FAILED, "Autentificare eșuată");
    assert_eq!(SIGNUP_FAILED, "Nu s-a putut creea contul");
}

#[test]
fn session_starts_with_the_servers_answer() {
    let session = session_after_login(&LoginReply { id: 9, kind: 2 }, String::from("parola"));
    assert_eq!(session.cookie(), &Cookie { id: 9, password: String::from("parola") });
    assert_eq!(session.user_type(), 2);
}
