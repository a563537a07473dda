use printer_supplies::stock::{
    CreateTonerError, CreateTonerHttpRequestBody, CreateTonerRequest, CreateTonerResponseData,
    DeleteTonerError, DeleteTonerHttpRequestBody, DeleteTonerRequest, DeleteTonerResponseData,
    Toner, TonerIdEmptyError, TonerName, TonerNameEmptyError, TonerRepository,
};
use printer_supplies::ids::is_uuid;

const GOOD: &str = "4340c4a2-eac5-4b51-9baa-40b498605a8c";

#[test]
fn toner_name_trims_surrounding_whitespace() {
    let name = TonerName::new("  Black XL  ").unwrap();
    assert_eq!(name.as_str(), "Black XL");
}

#[test]
fn toner_name_rejects_empty_and_blank_input() {
    assert!(matches!(TonerName::new(""), Err(TonerNameEmptyError)));
    assert!(matches!(TonerName::new("   \t "), Err(TonerNameEmptyError)));
}

#[test]
fn toner_carries_id_and_name() {
    let name = TonerName::new("Black").unwrap();
    let toner = Toner::new(GOOD.to_string(), name);
    assert_eq!(toner.id().as_str(), GOOD);
    assert_eq!(toner.name().as_str(), "Black");
}

#[test]
fn create_toner_body_parses_into_domain() {
    let body = CreateTonerHttpRequestBody { name: " Cyan ".to_string() };
    let req = body.try_into_domain().unwrap();
    assert_eq!(req.name().as_str(), "Cyan");
}

#[test]
fn create_toner_body_rejects_blank_name() {
    let r = CreateTonerHttpRequestBody { name: " ".to_string() }.try_into_domain();
    assert!(matches!(r, Err(TonerNameEmptyError)));
}

#[test]
fn delete_toner_body_parses_into_domain() {
    let req = DeleteTonerHttpRequestBody { id: GOOD.to_string() }.try_into_domain().unwrap();
    assert_eq!(req.id().as_str(), GOOD);
}

#[test]
fn delete_toner_body_canonicalizes_every_accepted_shape() {
    let simple = DeleteTonerHttpRequestBody { id: "4340C4A2EAC54B519BAA40B498605A8C".to_string() }
        .try_into_domain()
        .unwrap();
    assert_eq!(simple.id().as_str(), GOOD);
    let braced = DeleteTonerHttpRequestBody {
        id: "{4340c4a2-eac5-4b51-9baa-40b498605a8c}".to_string(),
    }
    .try_into_domain()
    .unwrap();
    assert_eq!(braced.id().as_str(), GOOD);
    let urn = DeleteTonerHttpRequestBody {
        id: "urn:uuid:4340c4a2-eac5-4b51-9baa-40b498605a8c".to_string(),
    }
    .try_into_domain()
    .unwrap();
    assert_eq!(urn.id().as_str(), GOOD);
}

#[test]
fn delete_toner_body_rejects_malformed_id() {
    let r = DeleteTonerHttpRequestBody { id: "nope".to_string() }.try_into_domain();
    assert!(matches!(r, Err(TonerIdEmptyError)));
}

#[test]
fn delete_toner_request_round_trip() {
    let req = DeleteTonerRequest::new(GOOD.to_string());
    assert_eq!(req.id().as_str(), GOOD);
}

#[test]
fn repository_creates_toner_under_fresh_id() {
    let mut repo = TonerRepository::new();
    let req = CreateTonerRequest::new(TonerName::new("Black").unwrap());
    let toner = repo.create_toner(&req).unwrap();
    assert!(is_uuid(toner.id()));
    assert_eq!(toner.name().as_str(), "Black");
}

#[test]
fn repository_refuses_duplicate_names() {
    let mut repo = TonerRepository::new();
    let req = CreateTonerRequest::new(TonerName::new("Black").unwrap());
    repo.create_toner(&req).unwrap();
    match repo.create_toner(&req) {
        Err(CreateTonerError::Duplicate { name }) => assert_eq!(name.as_str(), "Black"),
        other => panic!("expected a duplicate error, got {:?}", other),
    }
}

#[test]
fn repository_create_with_free_id_succeeds_and_keeps_it() {
    let mut repo = TonerRepository::new();
    let req = CreateTonerRequest::new(TonerName::new("Black").unwrap());
    let toner = repo.create_toner_with(&req, &GOOD.to_string()).unwrap();
    assert_eq!(toner.id().as_str(), GOOD);
    assert_eq!(toner.name().as_str(), "Black");
}

#[test]
fn repository_create_with_taken_id_is_a_key_violation() {
    let mut repo = TonerRepository::new();
    let first = CreateTonerRequest::new(TonerName::new("Black").unwrap());
    repo.create_toner_with(&first, &GOOD.to_string()).unwrap();
    let second = CreateTonerRequest::new(TonerName::new("Cyan").unwrap());
    let r = repo.create_toner_with(&second, &GOOD.to_string());
    assert!(matches!(r, Err(CreateTonerError::Unknown)));
}

#[test]
fn repository_deletes_by_id_and_reports_missing_ids() {
    let mut repo = TonerRepository::new();
    let req = CreateTonerRequest::new(TonerName::new("Black").unwrap());
    let toner = repo.create_toner(&req).unwrap();
    let deleted = repo.delete_toner(&DeleteTonerRequest::new(toner.id().clone())).unwrap();
    assert_eq!(&deleted, toner.id());
    match repo.delete_toner(&DeleteTonerRequest::new(GOOD.to_string())) {
        Err(DeleteTonerError::NotFound { id }) => assert_eq!(id, GOOD),
        other => panic!("expected a not-found error, got {:?}", other),
    }
}

#[test]
fn response_data_echo_the_toner_id() {
    let toner = Toner::new(GOOD.to_string(), TonerName::new("Black").unwrap());
    assert_eq!(CreateTonerResponseData::from_toner(&toner).id, GOOD);
    assert_eq!(DeleteTonerResponseData::from_toner(&toner).id, GOOD);
    assert_eq!(
        DeleteTonerResponseData::from_toner_id(&GOOD.to_string()).id,
        GOOD
    );
}
