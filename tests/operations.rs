use dashmap::DashMap;
use url_shortener::command::CreateShortUrlCommand;
use url_shortener::container::{Container, DC};
use url_shortener::error::RepoError;
use url_shortener::id_provider::{FakeIDProvide, NanoIDProvider};
use url_shortener::query::{GetFullUrlQuery, GetFullUrlRepository};
use url_shortener::server::Server;
use url_shortener::storage::{CreateShortUrlRepository, StorageRepository};

#[test]
fn get_short_url() {
    let id_provider = FakeIDProvide::new("123".to_owned());
    let repo = StorageRepository::new(DashMap::new());
    let mut command = CreateShortUrlCommand::new(id_provider, repo);

    let result = command.execute("https://www.yandex.com".to_owned());

    assert_ne!(result, Ok("".to_owned()));
}

#[test]
fn get_two_different_url() {
    let repo = StorageRepository::new(DashMap::new());
    let mut command = CreateShortUrlCommand::new(NanoIDProvider, repo);

    let result_1 = command.execute("https://www.yandex.com".to_owned());
    let result_2 = command.execute("https://www.yandex.com".to_owned());

    assert_ne!(result_1, result_2);
}

#[test]
fn save_one_item() {
    let repo = StorageRepository::new(DashMap::new());
    let mut command = CreateShortUrlCommand::new(NanoIDProvider, repo);

    let id = command.execute("https://www.yandex.com".to_owned()).unwrap();

    assert_eq!(command.repo().len(), 1);
    let full_url = command.repo().lookup(&id).unwrap();
    assert_eq!(full_url, "https://www.yandex.com");
}

#[test]
fn create_and_get_short_url() {
    let repo = StorageRepository::new(DashMap::new());
    let mut command = CreateShortUrlCommand::new(NanoIDProvider, repo);

    let result = command.execute("https://www.google.com".to_owned());

    let get_query = GetFullUrlQuery::new(command.into_repo());
    let result_1 = get_query.execute(&result.unwrap()).unwrap();

    assert_eq!(result_1, "https://www.google.com".to_owned());
}

#[test]
fn get_full_url() {
    let store = DashMap::new();
    store.insert("123".to_owned(), "https://www.yandex.ru".to_owned());
    let query = GetFullUrlQuery::new(StorageRepository::new(store));

    let result = query.execute("123");

    assert_eq!(result, Ok("https://www.yandex.ru".to_owned()));
}

#[test]
fn get_from_storage() {
    let store = DashMap::new();
    store.insert("123".to_owned(), "https://www.google.com".to_owned());
    let repo = StorageRepository::new(store);
    let query = GetFullUrlQuery::new(repo);

    let result = query.execute("123");

    assert_eq!(result, Ok("https://www.google.com".to_owned()));
}

#[test]
fn get_two_different_full_url() {
    let store = DashMap::new();
    store.insert("123".to_owned(), "https://www.google.com".to_owned());
    store.insert("456".to_owned(), "https://www.github.com".to_owned());
    let repo = StorageRepository::new(store);
    let query = GetFullUrlQuery::new(repo);

    let result_1 = query.execute("123");
    let result_2 = query.execute("456");

    assert_eq!(result_1, Ok("https://www.google.com".to_owned()));
    assert_eq!(result_2, Ok("https://www.github.com".to_owned()));
}

#[test]
fn fixed_provider_id_is_returned_and_stored() {
    let repo = StorageRepository::empty();
    let mut command = CreateShortUrlCommand::new(FakeIDProvide::new("test-id_1".to_owned()), repo);

    let id = command.execute("https://yandex.ru".to_owned());

    assert_eq!(id, Ok("test-id_1".to_owned()));
    assert_eq!(command.repo().get("test-id_1"), Ok("https://yandex.ru".to_owned()));
}

#[test]
fn example_scenario_two_creates_differ() {
    let mut command = CreateShortUrlCommand::new(NanoIDProvider, StorageRepository::empty());

    let x = command.execute("https://example.com/a".to_owned()).unwrap();
    assert_eq!(command.repo().get(&x), Ok("https://example.com/a".to_owned()));
    let y = command.execute("https://example.com/a".to_owned()).unwrap();

    assert_ne!(x, y);
    assert_eq!(command.repo().get(&y), Ok("https://example.com/a".to_owned()));
    assert_eq!(command.repo().len(), 2);
}

#[test]
fn unknown_id_is_not_found() {
    let mut repo = StorageRepository::empty();
    assert_eq!(repo.get("abc"), Err(RepoError::NotFound));
    repo.save("https://www.google.com".to_owned(), "123".to_owned()).unwrap();

    assert_eq!(repo.get("abc"), Err(RepoError::NotFound));
    assert_eq!(repo.get(""), Err(RepoError::NotFound));
    assert_eq!(repo.get("1234"), Err(RepoError::NotFound));
    let query = GetFullUrlQuery::new(repo);
    assert_eq!(query.execute("12"), Err(RepoError::NotFound));
}

#[test]
fn two_pairs_stay_isolated() {
    let mut repo = StorageRepository::empty();
    repo.save("https://a.example".to_owned(), "a".to_owned()).unwrap();
    repo.save("https://b.example".to_owned(), "b".to_owned()).unwrap();

    assert_eq!(repo.get("a"), Ok("https://a.example".to_owned()));
    assert_eq!(repo.get("b"), Ok("https://b.example".to_owned()));
}

#[test]
fn repeated_reads_agree() {
    let mut repo = StorageRepository::empty();
    repo.save("https://www.github.com".to_owned(), "456".to_owned()).unwrap();
    let query = GetFullUrlQuery::new(repo);

    let first = query.execute("456");
    let second = query.execute("456");
    let third = query.execute("456");

    assert_eq!(first, Ok("https://www.github.com".to_owned()));
    assert_eq!(first, second);
    assert_eq!(second, third);
}

#[test]
fn many_saves_all_visible() {
    let mut repo = StorageRepository::empty();
    for i in 0..200u32 {
        repo.save(format!("https://example.com/{}", i), format!("id{}", i)).unwrap();
    }

    assert_eq!(repo.len(), 200);
    for i in 0..200u32 {
        assert_eq!(repo.get(&format!("id{}", i)), Ok(format!("https://example.com/{}", i)));
    }
}

#[test]
fn save_overwrites_same_id() {
    let mut repo = StorageRepository::empty();
    repo.save("https://old.example".to_owned(), "k".to_owned()).unwrap();
    repo.save("https://new.example".to_owned(), "k".to_owned()).unwrap();

    assert_eq!(repo.len(), 1);
    assert_eq!(repo.lookup("k"), Some("https://new.example".to_owned()));
}

#[test]
fn prefilled_store_is_kept() {
    let store = DashMap::new();
    store.insert("test-id_1".to_owned(), "test_url_1".to_owned());
    store.insert("test-id_2".to_owned(), "test_url_2".to_owned());
    let repo = StorageRepository::new(store);

    assert_eq!(repo.len(), 2);
    assert_eq!(repo.lookup("test-id_2"), Some("test_url_2".to_owned()));
    assert_eq!(repo.lookup("test-id_3"), None);
}

#[test]
fn container_wires_both_operations() {
    let mut container = <Container<FakeIDProvide, StorageRepository, StorageRepository>>::new(
        FakeIDProvide::new("test-id_1".to_owned()),
        StorageRepository::empty(),
        StorageRepository::empty(),
    );

    assert_eq!(container.command.execute("test_url_1".to_owned()), Ok("test-id_1".to_owned()));
    assert_eq!(container.command.repo().lookup("test-id_1"), Some("test_url_1".to_owned()));
    assert_eq!(container.query.execute("test-id_1"), Err(RepoError::NotFound));
}

#[test]
fn server_keeps_port_and_container() {
    let store = DashMap::new();
    store.insert("test-id_1".to_owned(), "test_url_1".to_owned());
    let container = <Container<FakeIDProvide, StorageRepository, StorageRepository>>::new(
        FakeIDProvide::new("test-id_1".to_owned()),
        StorageRepository::empty(),
        StorageRepository::new(store),
    );
    let server = Server::new(8585, container);

    assert_eq!(server.port(), 8585);
    let container = server.into_container();
    assert_eq!(container.query.execute("test-id_1"), Ok("test_url_1".to_owned()));
}

#[test]
fn query_reads_what_command_wrote() {
    let mut command = CreateShortUrlCommand::new(NanoIDProvider, StorageRepository::empty());
    let id = command.execute("https://www.rust-lang.org".to_owned()).unwrap();

    let query = GetFullUrlQuery::new(command.repo());

    assert_eq!(query.execute(&id), Ok("https://www.rust-lang.org".to_owned()));
    assert_eq!(query.execute("missing"), Err(RepoError::NotFound));
}
