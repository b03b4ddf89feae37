use portfolio_api::{
    qualified_message, Detail, DetailUpdate, ErrorKind, Experience, ExperienceUpdate, MongoDB,
    Patch, Project, ProjectUpdate, RecordId, Schema, StoreFault, TechStack, TechStackUpdate, User,
    UserUpdate,
};

fn detail_db() -> MongoDB {
    MongoDB::init("Detail")
}

fn fault(invalid_argument: bool) -> StoreFault {
    StoreFault { invalid_argument, text: "boom".to_string() }
}

fn sample_id() -> RecordId {
    RecordId { bytes: [0x65, 0x1f, 0x2a, 0x00, 0xff, 0x10, 0x01, 0xab, 0xcd, 0xef, 0x12, 0x34] }
}

#[test]
fn init_binds_collection_name() {
    assert_eq!(detail_db().name, "Detail");
}

#[test]
fn record_id_text_is_lowercase_hex() {
    assert_eq!(sample_id().to_text(), "651f2a00ff1001abcdef1234");
}

#[test]
fn record_id_parses_either_case() {
    let lower = RecordId::parse("651f2a00ff1001abcdef1234");
    let upper = RecordId::parse("651F2A00FF1001ABCDEF1234");
    assert_eq!(lower, Some(sample_id()));
    assert_eq!(upper, Some(sample_id()));
}

#[test]
fn record_id_text_parses_back() {
    let id = sample_id();
    assert_eq!(RecordId::parse(&id.to_text()), Some(id));
}

#[test]
fn record_id_rejects_malformed_text() {
    assert_eq!(RecordId::parse(""), None);
    assert_eq!(RecordId::parse("651f2a00ff1001abcdef123"), None);
    assert_eq!(RecordId::parse("651f2a00ff1001abcdef12345"), None);
    assert_eq!(RecordId::parse("651f2a00ff1001abcdef123g"), None);
    assert_eq!(RecordId::parse("651f2a00ff1001abcdef12\u{e9}"), None);
}

#[test]
fn status_codes_of_error_kinds() {
    assert_eq!(ErrorKind::ClientError.status_code(), 400);
    assert_eq!(ErrorKind::Unauthorized.status_code(), 401);
    assert_eq!(ErrorKind::NotFound.status_code(), 404);
    assert_eq!(ErrorKind::ServerError.status_code(), 500);
}

#[test]
fn messages_are_prefixed_with_collection() {
    assert_eq!(qualified_message("User", "ID not found"), "User MongoDB Repo Error: ID not found");
}

#[test]
fn parse_id_rejects_bad_identifier() {
    let e = detail_db().parse_id("not-an-id").unwrap_err();
    assert_eq!(e.kind, ErrorKind::ClientError);
    assert_eq!(e.message, "Detail MongoDB Repo Error: Invalid ID");
    let e = detail_db().parse_id("").unwrap_err();
    assert_eq!(e.kind, ErrorKind::ClientError);
}

#[test]
fn parse_id_accepts_good_identifier() {
    assert_eq!(detail_db().parse_id("651f2a00ff1001abcdef1234"), Ok(sample_id()));
}

#[test]
fn create_record_passes_assigned_id() {
    assert_eq!(detail_db().create_record(Ok(sample_id())), Ok(sample_id()));
}

#[test]
fn create_record_maps_store_faults() {
    let e = detail_db().create_record::<RecordId>(Err(fault(true))).unwrap_err();
    assert_eq!(e.kind, ErrorKind::ClientError);
    assert_eq!(e.message, "Detail MongoDB Repo Error: boom");
    let e = detail_db().create_record::<RecordId>(Err(fault(false))).unwrap_err();
    assert_eq!(e.kind, ErrorKind::ServerError);
}

#[test]
fn get_all_record_passes_records_and_empty() {
    let empty: Vec<Detail> = Vec::new();
    assert_eq!(detail_db().get_all_record(Ok(empty)), Ok(Vec::new()));
    let e = detail_db().get_all_record::<Detail>(Err(fault(true))).unwrap_err();
    assert_eq!(e.kind, ErrorKind::ServerError);
}

#[test]
fn get_record_maps_absent_to_not_found() {
    let e = detail_db().get_record::<Detail>(Ok(None)).unwrap_err();
    assert_eq!(e.kind, ErrorKind::NotFound);
    assert_eq!(e.message, "Detail MongoDB Repo Error: ID not found");
    let e = detail_db().get_record::<Detail>(Err(fault(true))).unwrap_err();
    assert_eq!(e.kind, ErrorKind::ClientError);
    let e = detail_db().get_record::<Detail>(Err(fault(false))).unwrap_err();
    assert_eq!(e.kind, ErrorKind::ServerError);
}

#[test]
fn update_request_rejects_empty_field_set() {
    let none = DetailUpdate { name: None, description: None, image: None };
    let e = detail_db().update_request::<Detail, _>("651f2a00ff1001abcdef1234", &none).unwrap_err();
    assert_eq!(e.kind, ErrorKind::ClientError);
    assert_eq!(e.message, "Detail MongoDB Repo Error: No schema data fields to update");
}

#[test]
fn update_request_checks_identifier_first() {
    let none = DetailUpdate { name: None, description: None, image: None };
    let e = detail_db().update_request::<Detail, _>("xyz", &none).unwrap_err();
    assert_eq!(e.message, "Detail MongoDB Repo Error: Invalid ID");
    let some = DetailUpdate { name: Some("B".to_string()), description: None, image: None };
    let r = detail_db().update_request::<Detail, _>("651f2a00ff1001abcdef1234", &some);
    assert_eq!(r, Ok(sample_id()));
}

#[test]
fn update_record_maps_counts_and_faults() {
    assert_eq!(detail_db().update_record(Ok(1)), Ok(1));
    let e = detail_db().update_record(Ok(0)).unwrap_err();
    assert_eq!(e.kind, ErrorKind::NotFound);
    let e = detail_db().update_record(Err(fault(true))).unwrap_err();
    assert_eq!(e.kind, ErrorKind::ClientError);
}

#[test]
fn delete_record_maps_counts_and_faults() {
    assert_eq!(detail_db().delete_record(Ok(1)), Ok(1));
    let e = detail_db().delete_record(Ok(0)).unwrap_err();
    assert_eq!(e.kind, ErrorKind::NotFound);
    let e = detail_db().delete_record(Err(fault(true))).unwrap_err();
    assert_eq!(e.kind, ErrorKind::ServerError);
}

#[test]
fn without_id_drops_client_identifier() {
    let d = Detail {
        id: Some(sample_id()),
        name: "A".to_string(),
        description: "d".to_string(),
        image: "i".to_string(),
    };
    let stored = d.clone().without_id();
    assert_eq!(stored.id, None);
    assert_eq!(stored.name, "A");
    assert_eq!(stored.image, "i");
}

#[test]
fn update_emptiness_counts_present_fields() {
    assert!(DetailUpdate { name: None, description: None, image: None }.is_empty());
    assert!(!DetailUpdate { name: None, description: None, image: Some("i".to_string()) }.is_empty());
    assert!(TechStackUpdate { name: None, category: None }.is_empty());
    assert!(!TechStackUpdate { name: None, category: Some("lang".to_string()) }.is_empty());
    let empty_project =
        ProjectUpdate { name: None, company: None, repo: None, url: None, tech_stack: None };
    assert!(empty_project.is_empty());
    let project = ProjectUpdate { tech_stack: Some(Vec::new()), ..empty_project };
    assert!(!project.is_empty());
    let empty_experience = ExperienceUpdate {
        role: None,
        company: None,
        description: None,
        start: None,
        end: None,
        tech_stacks: None,
    };
    assert!(empty_experience.is_empty());
    let experience = ExperienceUpdate { end: Some("2022".to_string()), ..empty_experience };
    assert!(!experience.is_empty());
    assert!(UserUpdate { email: None }.is_empty());
    assert!(!UserUpdate { email: Some("c@d".to_string()) }.is_empty());
}

#[test]
fn without_id_keeps_every_other_field() {
    let p = Project {
        id: Some(sample_id()),
        name: "p".to_string(),
        company: "c".to_string(),
        repo: "r".to_string(),
        url: "u".to_string(),
        tech_stack: vec!["rust".to_string()],
    };
    assert_eq!(p.clone().without_id(), Project { id: None, ..p });
    let x = Experience {
        id: Some(sample_id()),
        role: "dev".to_string(),
        company: "acme".to_string(),
        description: "d".to_string(),
        start: "2020".to_string(),
        end: "2021".to_string(),
        tech_stacks: Vec::new(),
    };
    assert_eq!(x.clone().without_id(), Experience { id: None, ..x });
    let t = TechStack { id: Some(sample_id()), name: "Rust".to_string(), category: "lang".to_string() };
    assert_eq!(t.clone().without_id(), TechStack { id: None, ..t });
    let u = User { id: Some(sample_id()), email: "a@b".to_string(), password: "x".to_string() };
    assert_eq!(u.clone().without_id(), User { id: None, ..u });
}
