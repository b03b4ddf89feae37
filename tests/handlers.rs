use portfolio_api::crud::{self, Body, InsertedId, Response};
use portfolio_api::{Detail, DetailUpdate, MongoDB, RecordId, Schema, StoreFault};

/// A stand-in for the document store: records by identifier, in insertion order.
struct FakeStore {
    docs: Vec<(RecordId, Detail)>,
    next: u8,
}

impl FakeStore {
    fn new() -> FakeStore {
        FakeStore { docs: Vec::new(), next: 1 }
    }

    fn insert(&mut self, d: Detail) -> Result<InsertedId, StoreFault> {
        let id = RecordId { bytes: [self.next; 12] };
        self.next += 1;
        self.docs.push((id, Detail { id: Some(id), ..d }));
        Ok(InsertedId::Key(id))
    }

    fn find_all(&self) -> Result<Vec<Detail>, StoreFault> {
        Ok(self.docs.iter().map(|(_, d)| d.clone()).collect())
    }

    fn find_one(&self, id: RecordId) -> Result<Option<Detail>, StoreFault> {
        Ok(self.docs.iter().find(|(k, _)| *k == id).map(|(_, d)| d.clone()))
    }

    fn update_one(&mut self, id: RecordId, u: DetailUpdate) -> Result<u64, StoreFault> {
        match self.docs.iter_mut().find(|(k, _)| *k == id) {
            Some(entry) => {
                let d = &mut entry.1;
                if let Some(name) = u.name {
                    d.name = name;
                }
                if let Some(description) = u.description {
                    d.description = description;
                }
                if let Some(image) = u.image {
                    d.image = image;
                }
                Ok(1)
            }
            None => Ok(0),
        }
    }

    fn delete_one(&mut self, id: RecordId) -> Result<u64, StoreFault> {
        let before = self.docs.len();
        self.docs.retain(|(k, _)| *k != id);
        Ok((before - self.docs.len()) as u64)
    }
}

fn get_by_text(db: &MongoDB, store: &FakeStore, text: &str) -> Response<Detail> {
    match crud::path_id::<Detail>(db, text) {
        Ok(id) => crud::get(db, store.find_one(id)),
        Err(resp) => resp,
    }
}

fn update_by_text(db: &MongoDB, store: &mut FakeStore, text: &str, u: DetailUpdate) -> Response<Detail> {
    let id = match crud::update_target_of::<Detail, DetailUpdate>(db, text, &u) {
        Ok(id) => id,
        Err(resp) => return resp,
    };
    let reply = store.update_one(id, u);
    match crud::update::<Detail>(db, reply) {
        None => crud::get(db, store.find_one(id)),
        Some(resp) => resp,
    }
}

fn delete_by_text(db: &MongoDB, store: &mut FakeStore, text: &str) -> Response<Detail> {
    match crud::path_id::<Detail>(db, text) {
        Ok(id) => crud::delete(db, store.delete_one(id)),
        Err(resp) => resp,
    }
}

fn key_of(reply: Result<InsertedId, StoreFault>) -> RecordId {
    match reply {
        Ok(InsertedId::Key(id)) => id,
        other => panic!("unexpected reply {:?}", other),
    }
}

fn sample() -> Detail {
    Detail { id: None, name: "A".to_string(), description: "d".to_string(), image: "i".to_string() }
}

#[test]
fn detail_lifecycle_scenario() {
    let db = MongoDB::init("Detail");
    let mut store = FakeStore::new();
    let created = crud::create::<Detail>(&db, store.insert(sample().without_id()));
    assert_eq!(created.status, 200);
    let text = match created.body {
        Body::Id(t) => t,
        other => panic!("unexpected body {:?}", other),
    };
    assert_eq!(text.len(), 24);

    let all = crud::get_all(&db, store.find_all());
    assert_eq!(all.status, 200);
    let id = RecordId::parse(&text);
    assert_eq!(all.body, Body::Records(vec![Detail { id, ..sample() }]));

    let upd = DetailUpdate { name: Some("B".to_string()), description: None, image: None };
    let updated = update_by_text(&db, &mut store, &text, upd);
    assert_eq!(updated.status, 200);
    let fetched = get_by_text(&db, &store, &text);
    assert_eq!(fetched.status, 200);
    match fetched.body {
        Body::Record(d) => {
            assert_eq!(d.name, "B");
            assert_eq!(d.description, "d");
            assert_eq!(d.image, "i");
        }
        other => panic!("unexpected body {:?}", other),
    }

    let deleted = delete_by_text(&db, &mut store, &text);
    assert_eq!(deleted.status, 200);
    assert_eq!(deleted.body, Body::Text("Successfully deleted!".to_string()));
    assert_eq!(get_by_text(&db, &store, &text).status, 404);
}

#[test]
fn create_then_get_round_trips() {
    let db = MongoDB::init("Detail");
    let mut store = FakeStore::new();
    let id = match db.create_record(store.insert(sample().without_id())).unwrap() {
        InsertedId::Key(id) => id,
        other => panic!("unexpected id {:?}", other),
    };
    let got = get_by_text(&db, &store, &id.to_text());
    assert_eq!(got, Response { status: 200, body: Body::Record(Detail { id: Some(id), ..sample() }) });
}

#[test]
fn absent_identifier_is_not_found_everywhere() {
    let db = MongoDB::init("Detail");
    let mut store = FakeStore::new();
    store.insert(sample()).unwrap();
    let text = "0000000000000000000000aa";
    assert_eq!(get_by_text(&db, &store, text).status, 404);
    let upd = DetailUpdate { name: Some("B".to_string()), description: None, image: None };
    assert_eq!(update_by_text(&db, &mut store, text, upd).status, 404);
    assert_eq!(delete_by_text(&db, &mut store, text).status, 404);
}

#[test]
fn malformed_identifier_is_client_error_everywhere() {
    let db = MongoDB::init("Detail");
    let mut store = FakeStore::new();
    for text in ["", "abc", "zzzzzzzzzzzzzzzzzzzzzzzz", "0101010101010101010101010"] {
        let got = get_by_text(&db, &store, text);
        assert_eq!(got.status, 400);
        let upd = DetailUpdate { name: Some("B".to_string()), description: None, image: None };
        assert_eq!(update_by_text(&db, &mut store, text, upd).status, 400);
        assert_eq!(delete_by_text(&db, &mut store, text).status, 400);
    }
    let got = get_by_text(&db, &store, "");
    assert_eq!(got.body, Body::Text("Detail MongoDB Repo Error: Invalid ID".to_string()));
    let got = get_by_text(&db, &store, "abc");
    assert_eq!(got.body, Body::Text("Detail MongoDB Repo Error: Invalid ID".to_string()));
}

#[test]
fn empty_update_is_client_error() {
    let db = MongoDB::init("Detail");
    let mut store = FakeStore::new();
    let id = key_of(store.insert(sample()));
    let none = DetailUpdate { name: None, description: None, image: None };
    let got = update_by_text(&db, &mut store, &id.to_text(), none);
    assert_eq!(got.status, 400);
    assert_eq!(
        got.body,
        Body::Text("Detail MongoDB Repo Error: No schema data fields to update".to_string())
    );
}

#[test]
fn second_delete_is_not_found() {
    let db = MongoDB::init("Detail");
    let mut store = FakeStore::new();
    let text = key_of(store.insert(sample())).to_text();
    assert_eq!(delete_by_text(&db, &mut store, &text).status, 200);
    assert_eq!(get_by_text(&db, &store, &text).status, 404);
    let again = delete_by_text(&db, &mut store, &text);
    assert_eq!(again.status, 404);
    assert_eq!(again.body, Body::Text("Detail MongoDB Repo Error: ID not found".to_string()));
}

#[test]
fn store_faults_become_responses() {
    let db = MongoDB::init("Project");
    let f = StoreFault { invalid_argument: false, text: "connection reset".to_string() };
    let got = crud::get_all::<Detail>(&db, Err(f.clone()));
    assert_eq!(got.status, 500);
    assert_eq!(got.body, Body::Text("Project MongoDB Repo Error: connection reset".to_string()));
    let bad = StoreFault { invalid_argument: true, text: "bad doc".to_string() };
    assert_eq!(crud::create::<Detail>(&db, Err(bad)).status, 400);
    assert_eq!(crud::create::<Detail>(&db, Err(f)).status, 500);
}

#[test]
fn get_all_of_empty_collection_is_ok() {
    let db = MongoDB::init("Detail");
    let store = FakeStore::new();
    assert_eq!(crud::get_all(&db, store.find_all()), Response { status: 200, body: Body::Records(Vec::new()) });
}

#[test]
fn non_key_inserted_id_is_passed_through() {
    let db = MongoDB::init("Detail");
    let got = crud::create::<Detail>(&db, Ok(InsertedId::Other("42".to_string())));
    assert_eq!(got, Response { status: 200, body: Body::Inserted("42".to_string()) });
}
