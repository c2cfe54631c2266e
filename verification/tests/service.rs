use user_service::handlers::{add_user, get_all_user, get_user, remove_user, update_user};
use user_service::json::{user_to_json, users_to_json};
use user_service::oid::ObjectId;
use user_service::response::{collect_scan, respond_created, Body, Response};
use user_service::store::Store;
use user_service::user::User;

fn payload(name: &str) -> User {
    User { id: None, name: name.to_string() }
}

fn body_text(r: &Response) -> &str {
    match &r.body {
        Body::Text(t) => t.as_str(),
        _ => panic!("expected a text body"),
    }
}

fn body_user(r: &Response) -> &User {
    match &r.body {
        Body::Json(u) => u,
        _ => panic!("expected a single-record body"),
    }
}

fn body_list(r: &Response) -> &Vec<User> {
    match &r.body {
        Body::JsonList(us) => us,
        _ => panic!("expected an array body"),
    }
}

#[test]
fn hex_id_round_trips() {
    let id = ObjectId::parse_str("0123456789abcdef01234567").expect("well-formed id");
    assert_eq!(id.to_hex(), "0123456789abcdef01234567");
}

#[test]
fn hex_id_upper_case_is_accepted_and_canonicalized() {
    let id = ObjectId::parse_str("0123456789ABCDEF01234567").expect("well-formed id");
    assert_eq!(id.to_hex(), "0123456789abcdef01234567");
}

#[test]
fn malformed_ids_are_rejected() {
    assert!(ObjectId::parse_str("").is_none());
    assert!(ObjectId::parse_str("0123456789abcdef0123456").is_none());
    assert!(ObjectId::parse_str("0123456789abcdef012345678").is_none());
    assert!(ObjectId::parse_str("0123456789abcdef0123456g").is_none());
    assert!(ObjectId::parse_str("not-an-identifier-at-all").is_none());
}

#[test]
fn assigned_ids_round_trip_through_the_wire_form() {
    let mut store = Store::new();
    let r = add_user(&mut store, payload("Ana"));
    assert_eq!(r.status, 200);
    let listed = get_all_user(&store);
    let hex = body_list(&listed)[0].id.as_ref().expect("assigned id").to_hex();
    assert_eq!(hex.len(), 24);
    let got = get_user(&store, &hex);
    assert_eq!(got.status, 200);
    assert_eq!(body_user(&got).name, "Ana");
}

#[test]
fn create_then_get_yields_the_record() {
    let mut store = Store::new();
    let r = add_user(&mut store, payload("Ana"));
    assert_eq!(r.status, 200);
    assert_eq!(body_text(&r), "user added");
    let listed = get_all_user(&store);
    let users = body_list(&listed);
    assert_eq!(users.len(), 1);
    assert_eq!(users[0].name, "Ana");
    assert!(users[0].id.is_some());
}

#[test]
fn update_returns_the_pre_image_and_get_reflects_the_new_fields() {
    let mut store = Store::new();
    add_user(&mut store, payload("Ana"));
    let hex = body_list(&get_all_user(&store))[0].id.as_ref().unwrap().to_hex();
    let updated = update_user(&mut store, &hex, payload("Ana B"));
    assert_eq!(updated.status, 200);
    assert_eq!(body_user(&updated).name, "Ana");
    let got = get_user(&store, &hex);
    assert_eq!(got.status, 200);
    assert_eq!(body_user(&got).name, "Ana B");
}

#[test]
fn delete_returns_the_record_and_a_later_get_is_404() {
    let mut store = Store::new();
    add_user(&mut store, payload("Ana"));
    let hex = body_list(&get_all_user(&store))[0].id.as_ref().unwrap().to_hex();
    let removed = remove_user(&mut store, &hex);
    assert_eq!(removed.status, 200);
    assert_eq!(body_user(&removed).name, "Ana");
    let got = get_user(&store, &hex);
    assert_eq!(got.status, 404);
    assert_eq!(body_text(&got), format!("No user found with id {hex}"));
}

#[test]
fn absent_but_well_formed_id_is_404_never_500() {
    let mut store = Store::new();
    add_user(&mut store, payload("Ana"));
    let absent = "ffffffffffffffffffffffff";
    let got = get_user(&store, absent);
    assert_eq!(got.status, 404);
    let updated = update_user(&mut store, absent, payload("Bea"));
    assert_eq!(updated.status, 404);
    assert_eq!(body_text(&updated), "No user found");
    let removed = remove_user(&mut store, absent);
    assert_eq!(removed.status, 404);
    assert_eq!(body_text(&removed), "user not found");
    assert_eq!(body_list(&get_all_user(&store)).len(), 1);
}

#[test]
fn malformed_id_is_400_for_get_update_and_delete() {
    let mut store = Store::new();
    add_user(&mut store, payload("Ana"));
    for bad in ["zzz", "0123456789abcdef0123456!", "", "0123"] {
        assert_eq!(get_user(&store, bad).status, 400);
        assert_eq!(update_user(&mut store, bad, payload("Bea")).status, 400);
        assert_eq!(remove_user(&mut store, bad).status, 400);
    }
    assert_eq!(body_list(&get_all_user(&store)).len(), 1);
    assert_eq!(body_text(&get_user(&store, "zzz")), "invalid id zzz");
}

#[test]
fn list_length_matches_the_collection_and_empty_is_not_404() {
    let store = Store::new();
    let empty = get_all_user(&store);
    assert_eq!(empty.status, 200);
    assert_eq!(body_list(&empty).len(), 0);

    let mut store = Store::new();
    add_user(&mut store, payload("Ana"));
    add_user(&mut store, payload("Bea"));
    add_user(&mut store, payload("Cid"));
    let listed = get_all_user(&store);
    assert_eq!(listed.status, 200);
    assert_eq!(body_list(&listed).len(), 3);
    let names: Vec<&str> = body_list(&listed).iter().map(|u| u.name.as_str()).collect();
    assert_eq!(names, ["Ana", "Bea", "Cid"]);
}

#[test]
fn full_request_sequence() {
    let mut store = Store::new();
    assert_eq!(add_user(&mut store, payload("Ana")).status, 200);

    let listed = get_all_user(&store);
    assert_eq!(listed.status, 200);
    assert_eq!(body_list(&listed).len(), 1);
    let hex = body_list(&listed)[0].id.as_ref().unwrap().to_hex();
    assert_eq!(hex.len(), 24);
    assert!(hex.chars().all(|c| c.is_ascii_hexdigit()));

    let got = get_user(&store, &hex);
    assert_eq!(got.status, 200);
    assert_eq!(body_user(&got).name, "Ana");
    assert_eq!(body_user(&got).id.as_ref().unwrap().to_hex(), hex);

    let updated = update_user(&mut store, &hex, payload("Ana B"));
    assert_eq!(updated.status, 200);
    assert_eq!(body_user(&updated).name, "Ana");

    let got = get_user(&store, &hex);
    assert_eq!(got.status, 200);
    assert_eq!(body_user(&got).name, "Ana B");

    let removed = remove_user(&mut store, &hex);
    assert_eq!(removed.status, 200);
    assert_eq!(body_user(&removed).name, "Ana B");

    assert_eq!(get_user(&store, &hex).status, 404);
    assert_eq!(body_list(&get_all_user(&store)).len(), 0);
}

#[test]
fn identifiers_stay_distinct_across_deletes() {
    let mut store = Store::new();
    add_user(&mut store, payload("Ana"));
    add_user(&mut store, payload("Bea"));
    let first = body_list(&get_all_user(&store))[0].id.as_ref().unwrap().to_hex();
    remove_user(&mut store, &first);
    add_user(&mut store, payload("Cid"));
    let listed = get_all_user(&store);
    let mut ids: Vec<String> =
        body_list(&listed).iter().map(|u| u.id.as_ref().unwrap().to_hex()).collect();
    assert_eq!(ids.len(), 2);
    ids.sort();
    ids.dedup();
    assert_eq!(ids.len(), 2);
}

#[test]
fn record_renders_as_the_wire_json() {
    let mut store = Store::new();
    add_user(&mut store, payload("Ana"));
    let listed = get_all_user(&store);
    let users = body_list(&listed);
    let hex = users[0].id.as_ref().unwrap().to_hex();
    assert_eq!(user_to_json(&users[0]), format!("{{\"_id\":\"{hex}\",\"name\":\"Ana\"}}"));
    assert_eq!(users_to_json(users), format!("[{{\"_id\":\"{hex}\",\"name\":\"Ana\"}}]"));
}

#[test]
fn record_without_an_id_renders_without_the_id_field() {
    assert_eq!(user_to_json(&payload("Ana")), "{\"name\":\"Ana\"}");
}

#[test]
fn json_escapes_quotes_backslashes_and_controls() {
    let u = payload("a\"b\\c\nd\re\tf\u{1}g");
    assert_eq!(
        user_to_json(&u),
        "{\"name\":\"a\\\"b\\\\c\\nd\\re\\tf\\u0001g\"}"
    );
}

#[test]
fn record_arrays_render_with_commas_and_empty_as_empty() {
    let none: Vec<User> = Vec::new();
    assert_eq!(users_to_json(&none), "[]");
    let two = vec![payload("Ana"), payload("Bea")];
    assert_eq!(users_to_json(&two), "[{\"name\":\"Ana\"},{\"name\":\"Bea\"}]");
}

#[test]
fn create_failure_is_surfaced_as_500_text() {
    let r = respond_created(Err("connection refused".to_string()));
    assert_eq!(r.status, 500);
    assert_eq!(body_text(&r), "connection refused");
}

#[test]
fn list_scan_stops_at_the_first_bad_record() {
    let items = vec![
        Ok(payload("Ana")),
        Err("bad document".to_string()),
        Ok(payload("Bea")),
    ];
    match collect_scan(items) {
        Err(e) => assert_eq!(e, "bad document"),
        Ok(_) => panic!("expected the scan to stop at the bad record"),
    }

    let items = vec![Ok(payload("Ana")), Ok(payload("Bea"))];
    let collected = collect_scan(items).expect("no bad record");
    assert_eq!(collected.len(), 2);
    assert_eq!(collected[0].name, "Ana");
    assert_eq!(collected[1].name, "Bea");
}
