use url_shortener::{
    create_url, find_request, get_url, insert_request, FindOne, InsertOne, InsertOutcome,
    LookupOutcome, RecordId, Url,
};

/// A store that keeps its records in memory, in the order in which they were
/// filed, names each by an identifier of its own, and answers a lookup with
/// the first that matches.
struct MemoryStore {
    records: Vec<Url>,
    reachable: bool,
}

impl MemoryStore {
    fn new() -> MemoryStore {
        MemoryStore { records: Vec::new(), reachable: true }
    }

    fn insert_one(&mut self, request: InsertOne) -> InsertOutcome {
        assert_eq!(request.database, "UrlsDB");
        assert_eq!(request.collection, "UrlsCollection");
        if !self.reachable {
            return InsertOutcome::Failed;
        }
        let mut record = request.document;
        assert_eq!(record.id, None);
        let id = RecordId { bytes: [self.records.len() as u8 + 1; 12] };
        record.id = Some(id);
        self.records.push(record);
        InsertOutcome::Stored(id)
    }

    fn find_one(&self, request: &FindOne) -> LookupOutcome {
        assert_eq!(request.database, "UrlsDB");
        assert_eq!(request.collection, "UrlsCollection");
        assert_eq!(request.field, "short_key");
        if !self.reachable {
            return LookupOutcome::Failed;
        }
        match self.records.iter().find(|record| record.short_key == request.value) {
            Some(record) => LookupOutcome::Found(record.clone()),
            None => LookupOutcome::Missing,
        }
    }
}

fn create(store: &mut MemoryStore, site: &str, short_key: &str) -> u16 {
    let record = Url::new(String::from(site), String::from(short_key));
    let outcome = store.insert_one(insert_request(record));
    create_url(outcome).code
}

fn resolve(store: &MemoryStore, short_key: &str) -> String {
    get_url(store.find_one(&find_request(short_key)))
}

#[test]
fn found_record_redirects_to_its_site() {
    let found = Url {
        id: Some(RecordId { bytes: [7; 12] }),
        site: String::from("https://example.com"),
        short_key: String::from("abc"),
    };
    assert_eq!(get_url(LookupOutcome::Found(found)), "https://example.com");
}

#[test]
fn missing_record_redirects_to_root() {
    assert_eq!(get_url(LookupOutcome::Missing), "/");
}

#[test]
fn failed_lookup_redirects_to_root() {
    assert_eq!(get_url(LookupOutcome::Failed), "/");
    assert_eq!(get_url(LookupOutcome::Failed), get_url(LookupOutcome::Missing));
}

#[test]
fn site_is_passed_on_as_it_is_written() {
    for site in ["", "/", "not a url", "https://example.com/a b?c=d#e", "h\u{e9}llo"] {
        let found = Url::new(String::from(site), String::from("k"));
        assert_eq!(get_url(LookupOutcome::Found(found)), site);
    }
}

#[test]
fn find_request_asks_for_the_exact_key() {
    let request = find_request("abc");
    assert_eq!(
        request,
        FindOne {
            database: String::from("UrlsDB"),
            collection: String::from("UrlsCollection"),
            field: String::from("short_key"),
            value: String::from("abc"),
        }
    );
    assert_eq!(find_request("").value, "");
    assert_eq!(find_request("a/b c").value, "a/b c");
}

#[test]
fn identifier_of_a_new_record_is_the_stores() {
    let mut store = MemoryStore::new();
    let sent = Url {
        id: Some(RecordId { bytes: [0xee; 12] }),
        site: String::from("https://example.com"),
        short_key: String::from("abc"),
    };
    let outcome = store.insert_one(insert_request(sent));
    assert_eq!(outcome, InsertOutcome::Stored(RecordId { bytes: [1; 12] }));
    assert_eq!(store.records.len(), 1);
    assert_eq!(store.records[0].id, Some(RecordId { bytes: [1; 12] }));
    assert_eq!(store.records[0].site, "https://example.com");
    assert_eq!(store.records[0].short_key, "abc");
    assert_eq!(create_url(outcome).message, "Url (010101010101010101010101) created successfully");
}

#[test]
fn created_record_is_resolved() {
    let mut store = MemoryStore::new();
    assert_eq!(create(&mut store, "https://example.com", "abc"), 201);
    assert_eq!(resolve(&store, "abc"), "https://example.com");
}

#[test]
fn key_never_created_resolves_to_root() {
    let mut store = MemoryStore::new();
    assert_eq!(resolve(&store, "does-not-exist"), "/");
    assert_eq!(create(&mut store, "https://example.com", "abc"), 201);
    assert_eq!(resolve(&store, "does-not-exist"), "/");
    assert_eq!(resolve(&store, "ab"), "/");
    assert_eq!(resolve(&store, "abcd"), "/");
    assert_eq!(resolve(&store, "ABC"), "/");
}

#[test]
fn shared_key_resolves_to_one_of_its_sites() {
    let mut store = MemoryStore::new();
    assert_eq!(create(&mut store, "https://one.example", "dup"), 201);
    assert_eq!(create(&mut store, "https://two.example", "dup"), 201);
    let target = resolve(&store, "dup");
    assert!(target == "https://one.example" || target == "https://two.example");
}

#[test]
fn whichever_record_is_found_decides_the_target() {
    let one = Url::new(String::from("https://one.example"), String::from("dup"));
    let two = Url::new(String::from("https://two.example"), String::from("dup"));
    assert_eq!(get_url(LookupOutcome::Found(one)), "https://one.example");
    assert_eq!(get_url(LookupOutcome::Found(two)), "https://two.example");
}

#[test]
fn unreachable_store_fails_creation_and_resolves_to_root() {
    let mut store = MemoryStore::new();
    assert_eq!(create(&mut store, "https://example.com", "abc"), 201);
    store.reachable = false;
    assert_eq!(create(&mut store, "https://other.example", "xyz"), 400);
    assert_eq!(resolve(&store, "abc"), "/");
    store.reachable = true;
    assert_eq!(resolve(&store, "abc"), "https://example.com");
    assert_eq!(resolve(&store, "xyz"), "/");
}

#[test]
fn resolving_again_gives_the_same_target() {
    let mut store = MemoryStore::new();
    assert_eq!(create(&mut store, "https://example.com", "abc"), 201);
    let first = resolve(&store, "abc");
    for _ in 0..5 {
        assert_eq!(resolve(&store, "abc"), first);
        assert_eq!(find_request("abc"), find_request("abc"));
    }
    assert_eq!(resolve(&store, "none"), resolve(&store, "none"));
}
