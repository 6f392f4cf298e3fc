use novasql::backing::IoError;
use novasql::config::Config;
use novasql::config::ServerConfig;
use novasql::config::StorageConfig;
use novasql::database::effective_page_size;
use novasql::database::Database;
use novasql::database::DatabaseError;

fn config_with_page_size(page_size: Option<usize>) -> Config {
    Config {
        app_name: Some(String::from("app")),
        storage: Some(StorageConfig {
            mode: Some(String::from("file")),
            workdir: Some(String::from("/tmp")),
            page_size,
        }),
        server: Some(ServerConfig { port: Some(8080), debug: Some(true) }),
    }
}

#[test]
fn new_store_write_and_read_page_zero() {
    let mut db = Database::new_with_config(Vec::new(), None);
    assert_eq!(db.page_size(), 8192);
    assert_eq!(db.page_count(), 0);
    let data = vec![42u8; 8192];
    assert_eq!(db.write_page(0, &data), Ok(()));
    assert_eq!(db.page_count(), 1);
    let page = db.get_page(0).unwrap();
    assert_eq!(page.data.len(), 8192);
    assert_eq!(page.data, data);
    assert_eq!(&page.data[..8], &[42, 42, 42, 42, 42, 42, 42, 42]);
    assert_eq!(db.close(), Ok(()));
}

#[test]
fn page_size_comes_from_the_options_or_is_the_default() {
    assert_eq!(effective_page_size(None), 8192);
    let with = config_with_page_size(Some(512));
    assert_eq!(effective_page_size(Some(&with)), 512);
    let without = config_with_page_size(None);
    assert_eq!(effective_page_size(Some(&without)), 8192);
    let bare = Config { app_name: None, storage: None, server: None };
    assert_eq!(effective_page_size(Some(&bare)), 8192);
}

#[test]
fn handle_opens_with_the_page_size_of_the_options() {
    let config = config_with_page_size(Some(4));
    let mut db = Database::new_with_config(vec![1, 2, 3, 4, 5, 6, 7, 8, 9], Some(&config));
    assert_eq!(db.page_size(), 4);
    assert_eq!(db.page_count(), 2);
    assert!(!db.is_closed());
    assert_eq!(db.get_page(1).unwrap().data, vec![5, 6, 7, 8]);
    assert_eq!(db.write_page(2, &[1, 1, 1, 1]), Ok(()));
    assert_eq!(db.page_count(), 3);
    assert_eq!(db.file_bytes(), &vec![1, 2, 3, 4, 5, 6, 7, 8, 1, 1, 1, 1]);
}

#[test]
fn written_page_reads_back_through_the_handle() {
    let config = config_with_page_size(Some(32));
    let mut db = Database::new_with_config(Vec::new(), Some(&config));
    for n in [3usize, 0, 9] {
        let data: Vec<u8> = (0..32u8).map(|i| i.wrapping_mul(n as u8 + 3)).collect();
        assert_eq!(db.write_page(n, &data), Ok(()));
        assert_eq!(db.get_page(n).unwrap().data, data);
    }
    assert_eq!(db.page_count(), 10);
}

#[test]
fn closed_handle_refuses_reads_writes_and_a_second_close() {
    let mut db = Database::new_with_config(Vec::new(), None);
    assert_eq!(db.write_page(0, &vec![1u8; 8192]), Ok(()));
    assert_eq!(db.close(), Ok(()));
    assert!(db.is_closed());
    assert_eq!(db.get_page(0).unwrap_err(), DatabaseError::Closed);
    assert_eq!(db.write_page(0, &vec![2u8; 8192]), Err(DatabaseError::Closed));
    assert_eq!(db.write_page(1, &[1, 2, 3]), Err(DatabaseError::Closed));
    assert_eq!(db.close(), Err(DatabaseError::Closed));
    assert_eq!(db.close(), Err(DatabaseError::Closed));
    assert!(db.is_closed());
}

#[test]
fn closed_handle_keeps_its_store_and_answers_for_its_size() {
    let config = config_with_page_size(Some(8));
    let mut db = Database::new_with_config(Vec::new(), Some(&config));
    assert_eq!(db.write_page(1, &[7; 8]), Ok(()));
    let before = db.file_bytes().clone();
    assert_eq!(db.close(), Ok(()));
    assert_eq!(db.write_page(4, &[9; 8]), Err(DatabaseError::Closed));
    assert_eq!(db.page_count(), 2);
    assert_eq!(db.page_size(), 8);
    assert_eq!(db.file_bytes(), &before);
}

#[test]
fn store_failures_are_wrapped() {
    let config = config_with_page_size(Some(8));
    let mut db = Database::new_with_config(Vec::new(), Some(&config));
    assert_eq!(
        db.get_page(0).unwrap_err(),
        DatabaseError::Io(IoError::UnexpectedEof)
    );
    assert_eq!(
        db.write_page(0, &[1; 7]),
        Err(DatabaseError::Io(IoError::InvalidInput))
    );
    assert_eq!(
        db.write_page(0, &[1; 9]),
        Err(DatabaseError::Io(IoError::InvalidInput))
    );
    assert_eq!(
        db.write_page(usize::MAX, &[1; 8]),
        Err(DatabaseError::Io(IoError::FileTooLarge))
    );
    assert_eq!(db.page_count(), 0);
    assert!(db.file_bytes().is_empty());
}

#[test]
fn read_beyond_the_count_of_a_fresh_store_is_a_short_read() {
    let db = Database::new_with_config(Vec::new(), None);
    for n in [0usize, 1, 5, 1 << 40] {
        assert_eq!(
            db.get_page(n).unwrap_err(),
            DatabaseError::Io(IoError::UnexpectedEof)
        );
    }
}

#[test]
fn database_error_messages_are_exact() {
    assert_eq!(DatabaseError::Closed.message(), "database is closed");
    assert_eq!(DatabaseError::InvalidPageId.message(), "invalid page ID");
    assert_eq!(DatabaseError::InvalidPageSize.message(), "invalid page size");
    assert_eq!(
        DatabaseError::Io(IoError::InvalidInput).message(),
        "io error: invalid page size"
    );
    assert_eq!(
        DatabaseError::Io(IoError::UnexpectedEof).message(),
        "io error: failed to fill whole buffer"
    );
    assert_eq!(
        DatabaseError::Io(IoError::FileTooLarge).message(),
        "io error: file too large"
    );
}

#[test]
fn store_failure_converts_into_a_handle_failure() {
    assert_eq!(
        DatabaseError::from(IoError::UnexpectedEof),
        DatabaseError::Io(IoError::UnexpectedEof)
    );
    let wrapped: DatabaseError = IoError::InvalidInput.into();
    assert_eq!(wrapped, DatabaseError::Io(IoError::InvalidInput));
}

#[test]
fn distinct_pages_hold_what_their_writers_wrote() {
    let config = config_with_page_size(Some(64));
    let mut db = Database::new_with_config(Vec::new(), Some(&config));
    let pages: usize = 16;
    for n in (0..pages).rev() {
        assert_eq!(db.write_page(n, &vec![n as u8 + 1; 64]), Ok(()));
    }
    for n in 0..pages {
        assert_eq!(db.get_page(n).unwrap().data, vec![n as u8 + 1; 64]);
    }
    assert_eq!(db.page_count(), pages);
}
