use consecrates::api::{Authors, AuthorsMeta, AuthorsResponse, Date, Timestamp, User};

fn user(id: u64, login: &str) -> User {
    User {
        avatar: None,
        email: None,
        id,
        kind: Some(String::from("user")),
        login: String::from(login),
        name: None,
        url: format!("https://github.com/{}", login),
    }
}

#[test]
fn authors_out_of_a_response() {
    let response = AuthorsResponse {
        meta: AuthorsMeta { names: vec![String::from("Ada"), String::from("Grace")] },
        users: vec![user(1, "ada"), user(2, "grace")],
    };
    let authors = Authors::from_response(response);
    assert_eq!(authors.names, vec![String::from("Ada"), String::from("Grace")]);
    assert_eq!(authors.users.len(), 2);
    assert_eq!(authors.users[0].id, 1);
    assert_eq!(authors.users[0].login, "ada");
    assert_eq!(authors.users[1].id, 2);
    assert_eq!(authors.users[1].url, "https://github.com/grace");
}

#[test]
fn authors_out_of_an_empty_response() {
    let response = AuthorsResponse { meta: AuthorsMeta { names: Vec::new() }, users: Vec::new() };
    let authors = Authors::from_response(response);
    assert!(authors.names.is_empty());
    assert!(authors.users.is_empty());
}

#[test]
fn instants_and_dates_are_plain_values() {
    let instant = Timestamp { seconds: 1_577_836_800, nanoseconds: 500 };
    assert_eq!(instant, Timestamp { seconds: 1_577_836_800, nanoseconds: 500 });
    assert_ne!(instant, Timestamp { seconds: 1_577_836_800, nanoseconds: 501 });
    let date = Date { year: 2020, month: 1, day: 1 };
    assert_eq!(date, Date { year: 2020, month: 1, day: 1 });
    assert_ne!(date, Date { year: 2020, month: 1, day: 2 });
}
