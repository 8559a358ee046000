use ticket_store::data::{
    Status, TicketDescription, TicketDraft, TicketPatch, TicketTitle,
};
use ticket_store::handler::{admit_draft, admit_patch, resolve, Refusal};
use ticket_store::store::{apply_patch, TicketStore};

fn draft_of(title: &str, description: &str) -> TicketDraft {
    TicketDraft {
        title: TicketTitle::unchecked(title.to_string()),
        description: TicketDescription::unchecked(description.to_string()),
    }
}

#[test]
fn valid_draft_is_admitted() {
    assert_eq!(admit_draft(&draft_of("First", "Desc")), Ok(()));
}

#[test]
fn invalid_draft_is_a_bad_request() {
    assert_eq!(admit_draft(&draft_of("", "Desc")), Err(Refusal::BadRequest));
    assert_eq!(admit_draft(&draft_of("First", "")), Err(Refusal::BadRequest));
    assert_eq!(
        admit_draft(&draft_of(&"t".repeat(51), "Desc")),
        Err(Refusal::BadRequest)
    );
    assert_eq!(
        admit_draft(&draft_of("First", &"d".repeat(501))),
        Err(Refusal::BadRequest)
    );
}

#[test]
fn patch_without_fields_is_a_bad_request() {
    let empty = TicketPatch { title: None, description: None, status: None };
    assert_eq!(admit_patch(&empty), Err(Refusal::BadRequest));
}

#[test]
fn patch_with_a_bad_field_is_a_bad_request() {
    let patch = TicketPatch {
        title: Some(TicketTitle::unchecked(String::new())),
        description: None,
        status: Some(Status::Done),
    };
    assert_eq!(admit_patch(&patch), Err(Refusal::BadRequest));
}

#[test]
fn patch_with_one_good_field_is_admitted() {
    let patch = TicketPatch { title: None, description: None, status: Some(Status::Done) };
    assert_eq!(admit_patch(&patch), Ok(()));
}

#[test]
fn resolve_finds_what_was_added_and_nothing_else() {
    let mut store = TicketStore::new();
    assert_eq!(resolve(&store, 0).unwrap_err(), Refusal::NotFound);
    let id = store.add_ticket(draft_of("First", "Desc"));
    let found = resolve(&store, 0).unwrap();
    assert!(std::sync::Arc::ptr_eq(&found, &store.get(id).unwrap()));
    assert_eq!(resolve(&store, 99).unwrap_err(), Refusal::NotFound);
}

#[test]
fn requests_in_sequence() {
    let mut store = TicketStore::new();

    let first = draft_of("First", "Desc");
    assert_eq!(admit_draft(&first), Ok(()));
    let id = store.add_ticket(first);
    assert_eq!(u64::from(id), 0);

    let cell = resolve(&store, 0).unwrap();
    {
        let ticket = cell.try_read().unwrap().clone();
        assert_eq!(u64::from(ticket.id), 0);
        assert_eq!(ticket.title.as_str(), "First");
        assert_eq!(ticket.description.as_str(), "Desc");
        assert_eq!(ticket.status, Status::ToDo);
    }

    let done = TicketPatch { title: None, description: None, status: Some(Status::Done) };
    assert_eq!(admit_patch(&done), Ok(()));
    let cell = resolve(&store, 0).unwrap();
    apply_patch(&mut cell.try_write().unwrap(), done);
    {
        let ticket = resolve(&store, 0).unwrap().try_read().unwrap().clone();
        assert_eq!(ticket.status, Status::Done);
        assert_eq!(ticket.title.as_str(), "First");
        assert_eq!(ticket.description.as_str(), "Desc");
    }

    let empty = TicketPatch { title: None, description: None, status: None };
    assert_eq!(admit_patch(&empty), Err(Refusal::BadRequest));
    assert_eq!(
        resolve(&store, 0).unwrap().try_read().unwrap().status,
        Status::Done
    );

    assert_eq!(resolve(&store, 99).unwrap_err(), Refusal::NotFound);
}
