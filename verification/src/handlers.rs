//! The five request handlers, each one database operation and its
//! translation into a response.
//!
//! A handler takes the store and the request's plain values, performs
//! exactly one operation, and returns the response the service
//! answers with. An unparsable path identifier is answered 400 and an
//! identifier no record carries 404; neither ever aborts the service
//! or turns into a 500.

use vstd::prelude::*;

use crate::oid::{
    bytes_of_hex, counter_bytes, hex_of_bytes, is_hex24, lemma_bytes_to_hex_round, ObjectId,
};
use crate::response::{
    respond_bad_id, respond_created, respond_found, respond_listed, respond_removed,
    respond_replaced, Response, STATUS_BAD_REQUEST, STATUS_ERROR, STATUS_NOT_FOUND, STATUS_OK,
};
use crate::store::{find_user, lemma_create_then_get, Store};
use crate::user::{User, UserView};

verus! {

/// The status every by-identifier handler (get, update, delete)
/// answers: 400 for a malformed identifier, 404 when no record
/// carries it, 200 otherwise.
pub open spec fn lookup_status(s: Seq<UserView>, id: Seq<char>) -> u16 {
    if !is_hex24(id) {
        STATUS_BAD_REQUEST
    } else if find_user(s, bytes_of_hex(id)) is Some {
        STATUS_OK
    } else {
        STATUS_NOT_FOUND
    }
}

/// Law: a well-formed identifier that no record carries is answered
/// 404 by get, update and delete alike — never 500.
pub proof fn lemma_absent_is_not_found(s: Seq<UserView>, id: Seq<char>)
    requires
        is_hex24(id),
        find_user(s, bytes_of_hex(id)) is None,
    ensures
        lookup_status(s, id) == STATUS_NOT_FOUND,
        lookup_status(s, id) != STATUS_ERROR,
{
}

/// Law: a malformed identifier string is answered 400 by get, update
/// and delete alike, whatever the store holds — it never silently
/// succeeds and never crashes the service.
pub proof fn lemma_malformed_is_rejected(s: Seq<UserView>, id: Seq<char>)
    requires
        !is_hex24(id),
    ensures
        lookup_status(s, id) == STATUS_BAD_REQUEST,
        lookup_status(s, id) != STATUS_OK,
{
}

/// Law: a well-formed identifier some record carries is answered 200;
/// in particular a get after a successful update or create succeeds.
pub proof fn lemma_present_is_found(s: Seq<UserView>, id: Seq<char>)
    requires
        is_hex24(id),
        find_user(s, bytes_of_hex(id)) is Some,
    ensures
        lookup_status(s, id) == STATUS_OK,
{
}

/// Law: a stored identifier, rendered on the wire in its canonical
/// hex form and handed back as a path parameter, is well-formed and
/// gets the very record it was assigned to — a create followed by a
/// get of the returned identifier succeeds with status 200.
pub proof fn lemma_wire_id_round(s: Seq<UserView>, b: Seq<u8>)
    requires
        b.len() == 12,
        find_user(s, b) is Some,
    ensures
        is_hex24(hex_of_bytes(b)),
        lookup_status(s, hex_of_bytes(b)) == STATUS_OK,
        find_user(s, bytes_of_hex(hex_of_bytes(b))) == find_user(s, b),
{
    lemma_bytes_to_hex_round(b);
}

/// Create: inserts the payload as a new record; the store assigns the
/// identifier. Answers 200 with a confirmation text, or 500 with the
/// storage error's text when the store cannot assign an identifier.
/// A get of the assigned identifier afterwards yields the record,
/// with the identifier set and the payload's fields kept.
pub fn add_user(store: &mut Store, payload: User) -> (r: Response)
    requires
        old(store).wf(),
    ensures
        final(store).wf(),
        old(store).can_assign() ==> r.status == STATUS_OK && r.body is Text && r.body->Text_0@
            == "user added"@,
        old(store).can_assign() ==> final(store)@ == old(store)@.push(
            (UserView {
                id: Some(counter_bytes(old(store).assigned())),
                name: payload@.name,
            }),
        ),
        old(store).can_assign() ==> find_user(
            old(store)@,
            counter_bytes(old(store).assigned()),
        ) is None,
        old(store).can_assign() ==> find_user(
            final(store)@,
            counter_bytes(old(store).assigned()),
        ) == Some(
            (UserView {
                id: Some(counter_bytes(old(store).assigned())),
                name: payload@.name,
            }),
        ),
        !old(store).can_assign() ==> r.status == STATUS_ERROR && r.body is Text && final(store)@
            == old(store)@,
{
    let ghost prev = store@;
    let ghost cnt = store.assigned();
    let ghost p = payload@;
    match store.insert_user(payload) {
        Some(_) => {
            proof {
                lemma_create_then_get(prev, p, counter_bytes(cnt));
            }
            respond_created(Ok(()))
        },
        None => respond_created(Err(String::from_str("storage error: cannot assign an id"))),
    }
}

/// List: returns every record in the collection as a 200 array
/// response; an empty collection yields an empty array, not a 404.
pub fn get_all_user(store: &Store) -> (r: Response)
    requires
        store.wf(),
    ensures
        r.status == STATUS_OK,
        r.body is JsonList,
        r.body->JsonList_0@.len() == store@.len(),
        forall|i: int|
            0 <= i < store@.len() ==> (#[trigger] r.body->JsonList_0@[i])@ == store@[i],
{
    respond_listed(store.all_users())
}

/// Get-by-id: answers 400 on a malformed identifier, 200 with the
/// record when one carries it, and 404 otherwise. The store is never
/// changed.
pub fn get_user(store: &Store, id: &str) -> (r: Response)
    requires
        store.wf(),
    ensures
        r.status == lookup_status(store@, id@),
        !is_hex24(id@) ==> r.status == STATUS_BAD_REQUEST,
        is_hex24(id@) && find_user(store@, bytes_of_hex(id@)) is Some ==> r.status == STATUS_OK
            && r.body is Json && r.body->Json_0@ == find_user(store@, bytes_of_hex(id@))->0,
        is_hex24(id@) && find_user(store@, bytes_of_hex(id@)) is None ==> r.status
            == STATUS_NOT_FOUND,
{
    match ObjectId::parse_str(id) {
        None => respond_bad_id(id),
        Some(oid) => respond_found(Ok(store.find_by_id(&oid)), id),
    }
}

/// Update-by-id: atomically overwrites the record's fields with the
/// payload's and answers 200 with the record as it was *before* the
/// update; the identifier itself never changes. Answers 400 on a
/// malformed identifier and 404 when no record carries it, leaving
/// the store unchanged in either case.
pub fn update_user(store: &mut Store, id: &str, payload: User) -> (r: Response)
    requires
        old(store).wf(),
    ensures
        final(store).wf(),
        r.status == lookup_status(old(store)@, id@),
        final(store)@.len() == old(store)@.len(),
        r.status != STATUS_OK ==> final(store)@ == old(store)@,
        is_hex24(id@) && find_user(old(store)@, bytes_of_hex(id@)) is Some ==> {
            &&& r.status == STATUS_OK
            &&& r.body is Json
            &&& r.body->Json_0@ == find_user(old(store)@, bytes_of_hex(id@))->0
            &&& find_user(final(store)@, bytes_of_hex(id@)) == Some(
                (UserView { id: Some(bytes_of_hex(id@)), name: payload@.name }),
            )
        },
        forall|other: Seq<u8>|
            is_hex24(id@) && other != bytes_of_hex(id@) ==> find_user(final(store)@, other)
                == find_user(old(store)@, other),
{
    match ObjectId::parse_str(id) {
        None => respond_bad_id(id),
        Some(oid) => respond_replaced(Ok(store.replace_by_id(&oid, payload))),
    }
}

/// Delete-by-id: atomically removes the record and answers 200 with
/// the removed record; afterwards the identifier finds nothing.
/// Answers 400 on a malformed identifier and 404 when no record
/// carries it, leaving the store unchanged in either case.
pub fn remove_user(store: &mut Store, id: &str) -> (r: Response)
    requires
        old(store).wf(),
    ensures
        final(store).wf(),
        r.status == lookup_status(old(store)@, id@),
        r.status != STATUS_OK ==> final(store)@ == old(store)@,
        is_hex24(id@) && find_user(old(store)@, bytes_of_hex(id@)) is Some ==> {
            &&& r.status == STATUS_OK
            &&& r.body is Json
            &&& r.body->Json_0@ == find_user(old(store)@, bytes_of_hex(id@))->0
            &&& find_user(final(store)@, bytes_of_hex(id@)) is None
            &&& final(store)@.len() == old(store)@.len() - 1
        },
        forall|other: Seq<u8>|
            is_hex24(id@) && other != bytes_of_hex(id@) ==> find_user(final(store)@, other)
                == find_user(old(store)@, other),
{
    match ObjectId::parse_str(id) {
        None => respond_bad_id(id),
        Some(oid) => respond_removed(Ok(store.remove_by_id(&oid))),
    }
}

} // verus!
