use termnote::store::{config_dir, document_path};
use termnote::{Bootstrap, FatalConfig, Library, Link, LoadAttempt, ObjectDB, Topic};

fn sample() -> Library {
    Library {
        topics: vec![Topic {
            title: "Build".to_string(),
            description: "".to_string(),
            command: "cargo build".to_string(),
            category: "dev".to_string(),
        }],
        links: vec![Link { title: "docs".to_string(), url: "https://example.org".to_string() }],
    }
}

#[test]
fn a_parsed_document_becomes_the_notebook() {
    let db = ObjectDB::init(LoadAttempt::Parsed(sample())).unwrap();
    assert_eq!(db.library, sample());
}

#[test]
fn an_unopenable_document_gives_an_empty_notebook() {
    let db = ObjectDB::init(LoadAttempt::Unopenable).unwrap();
    assert!(db.library.topics.is_empty());
    assert!(db.library.links.is_empty());
}

#[test]
fn a_corrupt_document_is_fatal() {
    match ObjectDB::init(LoadAttempt::Corrupt) {
        Err(e) => assert_eq!(e, FatalConfig::CorruptDocument),
        Ok(_) => panic!("a corrupt document must not be replaced"),
    }
}

#[test]
fn bootstrap_creates_only_what_is_absent() {
    assert_eq!(ObjectDB::bootstrap(false, false), Bootstrap { create_dir: true, write_empty: true });
    assert_eq!(ObjectDB::bootstrap(true, false), Bootstrap { create_dir: false, write_empty: true });
    assert_eq!(ObjectDB::bootstrap(true, true), Bootstrap { create_dir: false, write_empty: false });
    assert_eq!(ObjectDB::bootstrap(false, true), Bootstrap { create_dir: true, write_empty: false });
}

#[test]
fn the_document_lives_below_the_home_directory() {
    assert_eq!(config_dir("/home/ada"), "/home/ada/.termnote");
    assert_eq!(document_path("/home/ada"), "/home/ada/.termnote/db.json");
    assert_eq!(document_path(""), "/.termnote/db.json");
}

#[test]
fn a_new_library_is_empty() {
    let library = Library::new();
    assert!(library.topics.is_empty());
    assert!(library.links.is_empty());
}
