use ticket_store::data::{
    validate_desc, validate_title, Status, TicketDescription, TicketDescriptionError, TicketDraft,
    TicketPatch, TicketTitle, TicketTitleError, TicketValidationError,
};

fn title(text: &str) -> TicketTitle {
    TicketTitle::unchecked(text.to_string())
}

fn description(text: &str) -> TicketDescription {
    TicketDescription::unchecked(text.to_string())
}

#[test]
fn valid_title_keeps_its_text() {
    let made = TicketTitle::new("First".to_string()).unwrap();
    assert_eq!(made.as_str(), "First");
    assert_eq!(made, title("First"));
    assert_ne!(made, title("Second"));
}

#[test]
fn valid_description_keeps_its_text() {
    let made = TicketDescription::new("Desc".to_string()).unwrap();
    assert_eq!(made.as_str(), "Desc");
    assert_eq!(made, description("Desc"));
    assert_ne!(made, description("Other"));
}

#[test]
fn empty_title_is_refused_as_empty() {
    assert_eq!(TicketTitle::new(String::new()).unwrap_err(), TicketTitleError::Empty);
    assert_eq!(validate_title(""), Err(TicketTitleError::Empty));
}

#[test]
fn empty_description_is_refused_as_empty() {
    assert_eq!(
        TicketDescription::new(String::new()).unwrap_err(),
        TicketDescriptionError::Empty
    );
    assert_eq!(validate_desc(""), Err(TicketDescriptionError::Empty));
}

#[test]
fn title_bound_is_fifty_bytes() {
    let at_bound = "a".repeat(50);
    let over = "a".repeat(51);
    assert_eq!(TicketTitle::new(at_bound.clone()).unwrap().as_str(), at_bound);
    assert_eq!(TicketTitle::new(over).unwrap_err(), TicketTitleError::TooLong);
    assert_eq!(validate_title("a"), Ok(()));
}

#[test]
fn description_bound_is_five_hundred_bytes() {
    let at_bound = "d".repeat(500);
    let over = "d".repeat(501);
    assert_eq!(TicketDescription::new(at_bound.clone()).unwrap().as_str(), at_bound);
    assert_eq!(
        TicketDescription::new(over).unwrap_err(),
        TicketDescriptionError::TooLong
    );
    assert_eq!(validate_desc(&"d".repeat(51)), Ok(()));
}

#[test]
fn bounds_count_bytes_not_characters() {
    // Each of these characters takes two bytes.
    let twenty_five = "\u{e9}".repeat(25);
    let twenty_six = "\u{e9}".repeat(26);
    assert_eq!(twenty_five.len(), 50);
    assert!(TicketTitle::new(twenty_five).is_ok());
    assert_eq!(TicketTitle::new(twenty_six).unwrap_err(), TicketTitleError::TooLong);
    assert_eq!(
        TicketDescription::new("\u{e9}".repeat(251)).unwrap_err(),
        TicketDescriptionError::TooLong
    );
    assert!(TicketDescription::new("\u{e9}".repeat(250)).is_ok());
}

#[test]
fn valid_draft_passes() {
    let draft = TicketDraft { title: title("First"), description: description("Desc") };
    assert_eq!(draft.validate(), Ok(()));
}

#[test]
fn draft_title_failure_hides_description_failure() {
    let draft = TicketDraft { title: title(""), description: description("") };
    assert_eq!(
        draft.validate(),
        Err(TicketValidationError::Title(TicketTitleError::Empty))
    );
    let draft = TicketDraft { title: title(&"t".repeat(51)), description: description("") };
    assert_eq!(
        draft.validate(),
        Err(TicketValidationError::Title(TicketTitleError::TooLong))
    );
}

#[test]
fn draft_description_is_judged_after_title() {
    let draft = TicketDraft { title: title("ok"), description: description("") };
    assert_eq!(
        draft.validate(),
        Err(TicketValidationError::Description(TicketDescriptionError::Empty))
    );
    let draft = TicketDraft { title: title("ok"), description: description(&"d".repeat(501)) };
    assert_eq!(
        draft.validate(),
        Err(TicketValidationError::Description(TicketDescriptionError::TooLong))
    );
}

#[test]
fn patch_without_fields_is_refused() {
    let patch = TicketPatch { title: None, description: None, status: None };
    assert_eq!(patch.validate(), Err(TicketValidationError::EmptyPatch));
}

#[test]
fn patch_with_status_only_passes() {
    let patch = TicketPatch { title: None, description: None, status: Some(Status::Done) };
    assert_eq!(patch.validate(), Ok(()));
}

#[test]
fn patch_judges_only_the_fields_it_holds() {
    let patch = TicketPatch { title: Some(title("New")), description: None, status: None };
    assert_eq!(patch.validate(), Ok(()));
    let patch = TicketPatch { title: None, description: Some(description("New")), status: None };
    assert_eq!(patch.validate(), Ok(()));
    let patch = TicketPatch {
        title: Some(title("")),
        description: Some(description("")),
        status: Some(Status::InProgress),
    };
    assert_eq!(
        patch.validate(),
        Err(TicketValidationError::Title(TicketTitleError::Empty))
    );
    let patch = TicketPatch {
        title: Some(title("fine")),
        description: Some(description(&"d".repeat(501))),
        status: None,
    };
    assert_eq!(
        patch.validate(),
        Err(TicketValidationError::Description(TicketDescriptionError::TooLong))
    );
    let patch = TicketPatch { title: Some(title(&"t".repeat(51))), description: None, status: None };
    assert_eq!(
        patch.validate(),
        Err(TicketValidationError::Title(TicketTitleError::TooLong))
    );
}

#[test]
fn clones_are_equal_to_what_they_copy() {
    let draft = TicketDraft { title: title("First"), description: description("Desc") };
    assert_eq!(draft.clone(), draft);
    let patch = TicketPatch {
        title: Some(title("New")),
        description: None,
        status: Some(Status::InProgress),
    };
    assert_eq!(patch.clone(), patch);
    assert_ne!(
        patch,
        TicketPatch { title: Some(title("New")), description: None, status: None }
    );
    assert_eq!(title("a").clone().as_str(), "a");
    assert_eq!(description("b").clone().as_str(), "b");
}
