use unvoid::author::Author;

#[test]
fn test_author_only_name() {
    let author = Author::from_name("John Doe".to_string());

    assert_eq!(
        author,
        Author::Record {
            name: "John Doe".into(),
            email: None,
            homepage: None,
            github: None,
        }
    );
}

#[test]
fn test_author_with_email() {
    let author = Author::from_name("John Doe".to_string()).with_email("jon.doe@example.com".into());

    assert_eq!(
        author,
        Author::Record {
            name: "John Doe".into(),
            email: Some("jon.doe@example.com".into()),
            homepage: None,
            github: None,
        }
    );
}

#[test]
fn test_author_with_homepage() {
    let author =
        Author::from_name("John Doe".to_string()).with_homepage("https://example.com".into());

    assert_eq!(
        author,
        Author::Record {
            name: "John Doe".into(),
            email: None,
            homepage: Some("https://example.com".into()),
            github: None,
        }
    );
}

#[test]
fn test_author_with_github() {
    let author = Author::from_name("John Doe".to_string()).with_github("example".into());

    assert_eq!(
        author,
        Author::Record {
            name: "John Doe".into(),
            email: None,
            homepage: None,
            github: Some("example".into()),
        }
    );
}

#[test]
fn test_author_with_everything() {
    let author = Author::from_name("John Doe".to_string())
        .with_email("jon.doe@example.com".into())
        .with_homepage("https://example.com".into())
        .with_github("example".into());

    assert_eq!(
        author,
        Author::Record {
            name: "John Doe".into(),
            email: Some("jon.doe@example.com".into()),
            homepage: Some("https://example.com".into()),
            github: Some("example".into()),
        }
    );
}

#[test]
fn bare_name_equals_record_with_no_contact_fields() {
    let bare = Author::Name("Alice".to_string());
    let record = Author::Record {
        name: "Alice".to_string(),
        email: None,
        homepage: None,
        github: None,
    };

    assert_eq!(bare, record);
    assert_eq!(record, bare);
}

#[test]
fn bare_name_differs_from_record_with_a_contact_field() {
    let bare = Author::Name("Alice".to_string());
    let record = Author::Record {
        name: "Alice".to_string(),
        email: Some("example@example.com".to_string()),
        homepage: None,
        github: None,
    };

    assert_ne!(bare, record);
    assert_ne!(record, bare);
}

#[test]
fn authors_with_different_names_differ() {
    let alice = Author::from_name("Alice".to_string());
    let bob = Author::from_name("Bob".to_string());

    assert_ne!(alice, bob);
}

#[test]
fn accessors_are_uniform_over_both_shapes() {
    let bare = Author::Name("Alice".to_string());
    assert_eq!(bare.get_name(), "Alice");
    assert_eq!(bare.get_email(), None);
    assert_eq!(bare.get_homepage(), None);
    assert_eq!(bare.get_github(), None);

    let full = Author::from_name("Alice".to_string())
        .with_email("example@example.com".into())
        .with_homepage("https://example.com".into())
        .with_github("example".into());
    assert_eq!(full.get_name(), "Alice");
    assert_eq!(full.get_email(), Some(&"example@example.com".to_string()));
    assert_eq!(full.get_homepage(), Some(&"https://example.com".to_string()));
    assert_eq!(full.get_github(), Some(&"example".to_string()));
}

#[test]
fn builders_leave_earlier_fields_in_place() {
    let author = Author::from_name("Alice".to_string()).with_email("example@example.com".into());
    let extended = author.clone().with_github("example".into());

    assert_eq!(extended.get_name(), "Alice");
    assert_eq!(extended.get_email(), Some(&"example@example.com".to_string()));
    assert_eq!(extended.get_github(), Some(&"example".to_string()));
    // The receiver of the builder call was not observably changed.
    assert_eq!(author.get_github(), None);
}
