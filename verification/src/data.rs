//! Tickets and the values they are made of: validated titles and
//! descriptions, a status, the input that creates a ticket and the input that
//! updates one in part.

use crate::store::TicketId;
use vstd::prelude::*;
use vstd::std_specs::cmp::PartialEqSpecImpl;

verus! {

/// The longest title, in bytes of UTF-8.
pub const TITLE_MAX_BYTES: usize = 50;

/// The longest description, in bytes of UTF-8.
pub const DESCRIPTION_MAX_BYTES: usize = 500;

/// How many bytes a text takes in UTF-8.
pub open spec fn byte_len(text: Seq<char>) -> nat {
    vstd::utf8::encode_utf8(text).len()
}

#[derive(Clone, Copy, Debug, PartialEq, Eq, Structural)]
pub enum Status {
    ToDo,
    InProgress,
    Done,
}

#[derive(Clone, Copy, Debug, PartialEq, Eq, Structural)]
pub enum TicketTitleError {
    Empty,
    TooLong,
}

#[derive(Clone, Copy, Debug, PartialEq, Eq, Structural)]
pub enum TicketDescriptionError {
    Empty,
    TooLong,
}

#[derive(Clone, Copy, Debug, PartialEq, Eq, Structural)]
pub enum TicketValidationError {
    Title(TicketTitleError),
    Description(TicketDescriptionError),
    EmptyPatch,
}

/// What the title rule says of a text: empty is refused first, then a text of
/// more than 50 bytes.
pub open spec fn title_check(text: Seq<char>) -> Result<(), TicketTitleError> {
    if text.len() == 0 {
        Err(TicketTitleError::Empty)
    } else if byte_len(text) > TITLE_MAX_BYTES {
        Err(TicketTitleError::TooLong)
    } else {
        Ok(())
    }
}

/// What the description rule says of a text: empty is refused first, then a
/// text of more than 500 bytes.
pub open spec fn description_check(text: Seq<char>) -> Result<(), TicketDescriptionError> {
    if text.len() == 0 {
        Err(TicketDescriptionError::Empty)
    } else if byte_len(text) > DESCRIPTION_MAX_BYTES {
        Err(TicketDescriptionError::TooLong)
    } else {
        Ok(())
    }
}

pub fn validate_title(title: &str) -> (outcome: Result<(), TicketTitleError>)
    ensures
        outcome == title_check(title@),
{
    if title.is_empty() {
        Err(TicketTitleError::Empty)
    } else if title.as_bytes().len() > TITLE_MAX_BYTES {
        Err(TicketTitleError::TooLong)
    } else {
        Ok(())
    }
}

pub fn validate_desc(description: &str) -> (outcome: Result<(), TicketDescriptionError>)
    ensures
        outcome == description_check(description@),
{
    if description.is_empty() {
        Err(TicketDescriptionError::Empty)
    } else if description.as_bytes().len() > DESCRIPTION_MAX_BYTES {
        Err(TicketDescriptionError::TooLong)
    } else {
        Ok(())
    }
}

/// The title of a ticket. `new` admits only texts that pass the title rule;
/// `unchecked` wraps a text as it came in, for `validate` to judge later.
#[derive(Debug)]
pub struct TicketTitle(String);

impl Clone for TicketTitle {
    fn clone(&self) -> (copy: Self)
        ensures
            copy == *self,
    {
        TicketTitle(self.0.clone())
    }
}

impl View for TicketTitle {
    type V = Seq<char>;

    closed spec fn view(&self) -> Seq<char> {
        self.0@
    }
}

impl PartialEq for TicketTitle {
    fn eq(&self, other: &Self) -> (same: bool) {
        self.0 == other.0
    }
}

impl Eq for TicketTitle {

}

impl PartialEqSpecImpl for TicketTitle {
    open spec fn obeys_eq_spec() -> bool {
        true
    }

    open spec fn eq_spec(&self, other: &Self) -> bool {
        self@ == other@
    }
}

impl TicketTitle {
    /// Succeeds exactly on the texts that pass the title rule, and then holds
    /// the text unchanged.
    pub fn new(value: String) -> (outcome: Result<Self, TicketTitleError>)
        ensures
            match title_check(value@) {
                Ok(()) => outcome matches Ok(title) && title@ == value@,
                Err(reason) => outcome matches Err(given) && given == reason,
            },
    {
        match validate_title(value.as_str()) {
            Ok(()) => Ok(Self(value)),
            Err(reason) => Err(reason),
        }
    }

    /// Wraps a text without judging it.
    pub fn unchecked(value: String) -> (title: Self)
        ensures
            title@ == value@,
    {
        Self(value)
    }

    pub fn as_str(&self) -> (text: &str)
        ensures
            text@ == self@,
    {
        self.0.as_str()
    }
}

/// The description of a ticket. `new` admits only texts that pass the
/// description rule; `unchecked` wraps a text as it came in.
#[derive(Debug)]
pub struct TicketDescription(String);

impl Clone for TicketDescription {
    fn clone(&self) -> (copy: Self)
        ensures
            copy == *self,
    {
        TicketDescription(self.0.clone())
    }
}

impl View for TicketDescription {
    type V = Seq<char>;

    closed spec fn view(&self) -> Seq<char> {
        self.0@
    }
}

impl PartialEq for TicketDescription {
    fn eq(&self, other: &Self) -> (same: bool) {
        self.0 == other.0
    }
}

impl Eq for TicketDescription {

}

impl PartialEqSpecImpl for TicketDescription {
    open spec fn obeys_eq_spec() -> bool {
        true
    }

    open spec fn eq_spec(&self, other: &Self) -> bool {
        self@ == other@
    }
}

impl TicketDescription {
    /// Succeeds exactly on the texts that pass the description rule, and then
    /// holds the text unchanged.
    pub fn new(value: String) -> (outcome: Result<Self, TicketDescriptionError>)
        ensures
            match description_check(value@) {
                Ok(()) => outcome matches Ok(description) && description@ == value@,
                Err(reason) => outcome matches Err(given) && given == reason,
            },
    {
        match validate_desc(value.as_str()) {
            Ok(()) => Ok(Self(value)),
            Err(reason) => Err(reason),
        }
    }

    /// Wraps a text without judging it.
    pub fn unchecked(value: String) -> (description: Self)
        ensures
            description@ == value@,
    {
        Self(value)
    }

    pub fn as_str(&self) -> (text: &str)
        ensures
            text@ == self@,
    {
        self.0.as_str()
    }
}

#[derive(Debug)]
pub struct Ticket {
    pub id: TicketId,
    pub title: TicketTitle,
    pub description: TicketDescription,
    pub status: Status,
}

impl Clone for Ticket {
    /// A copy of the ticket as it stands: what a reader who holds the
    /// ticket's lock takes away.
    fn clone(&self) -> (copy: Self)
        ensures
            copy == *self,
    {
        Ticket {
            id: self.id,
            title: self.title.clone(),
            description: self.description.clone(),
            status: self.status,
        }
    }
}

impl PartialEq for Ticket {
    fn eq(&self, other: &Self) -> (same: bool) {
        self.id == other.id && self.title == other.title && self.description
            == other.description && self.status == other.status
    }
}

impl PartialEqSpecImpl for Ticket {
    open spec fn obeys_eq_spec() -> bool {
        true
    }

    open spec fn eq_spec(&self, other: &Self) -> bool {
        &&& self.id == other.id
        &&& self.title@ == other.title@
        &&& self.description@ == other.description@
        &&& self.status == other.status
    }
}

/// What creates a ticket: the store adds the id and the status.
#[derive(Debug)]
pub struct TicketDraft {
    pub title: TicketTitle,
    pub description: TicketDescription,
}

impl Clone for TicketDraft {
    fn clone(&self) -> (copy: Self)
        ensures
            copy == *self,
    {
        TicketDraft { title: self.title.clone(), description: self.description.clone() }
    }
}

impl PartialEq for TicketDraft {
    fn eq(&self, other: &Self) -> (same: bool) {
        self.title == other.title && self.description == other.description
    }
}

impl Eq for TicketDraft {

}

impl PartialEqSpecImpl for TicketDraft {
    open spec fn obeys_eq_spec() -> bool {
        true
    }

    open spec fn eq_spec(&self, other: &Self) -> bool {
        self.title@ == other.title@ && self.description@ == other.description@
    }
}

/// A partial update: a field that is absent leaves the ticket's field as it is.
#[derive(Debug)]
pub struct TicketPatch {
    pub title: Option<TicketTitle>,
    pub description: Option<TicketDescription>,
    pub status: Option<Status>,
}

impl Clone for TicketPatch {
    fn clone(&self) -> (copy: Self)
        ensures
            copy == *self,
    {
        TicketPatch {
            title: match &self.title {
                Some(title) => Some(title.clone()),
                None => None,
            },
            description: match &self.description {
                Some(description) => Some(description.clone()),
                None => None,
            },
            status: self.status,
        }
    }
}

impl PartialEq for TicketPatch {
    fn eq(&self, other: &Self) -> (same: bool) {
        let titles = match (&self.title, &other.title) {
            (Some(mine), Some(theirs)) => *mine == *theirs,
            (None, None) => true,
            _ => false,
        };
        let descriptions = match (&self.description, &other.description) {
            (Some(mine), Some(theirs)) => *mine == *theirs,
            (None, None) => true,
            _ => false,
        };
        let statuses = match (self.status, other.status) {
            (Some(mine), Some(theirs)) => mine == theirs,
            (None, None) => true,
            _ => false,
        };
        titles && descriptions && statuses
    }
}

impl PartialEqSpecImpl for TicketPatch {
    open spec fn obeys_eq_spec() -> bool {
        true
    }

    open spec fn eq_spec(&self, other: &Self) -> bool {
        &&& match (self.title, other.title) {
            (Some(mine), Some(theirs)) => mine@ == theirs@,
            (None, None) => true,
            _ => false,
        }
        &&& match (self.description, other.description) {
            (Some(mine), Some(theirs)) => mine@ == theirs@,
            (None, None) => true,
            _ => false,
        }
        &&& self.status == other.status
    }
}

impl TicketDraft {
    /// The verdict on a draft: the title is judged first, and its failure
    /// hides that of the description.
    pub open spec fn validation(&self) -> Result<(), TicketValidationError> {
        match title_check(self.title@) {
            Err(reason) => Err(TicketValidationError::Title(reason)),
            Ok(()) => match description_check(self.description@) {
                Err(reason) => Err(TicketValidationError::Description(reason)),
                Ok(()) => Ok(()),
            },
        }
    }

    pub fn validate(&self) -> (outcome: Result<(), TicketValidationError>)
        ensures
            outcome == self.validation(),
    {
        match validate_title(self.title.as_str()) {
            Err(reason) => Err(TicketValidationError::Title(reason)),
            Ok(()) => match validate_desc(self.description.as_str()) {
                Err(reason) => Err(TicketValidationError::Description(reason)),
                Ok(()) => Ok(()),
            },
        }
    }
}

impl TicketPatch {
    /// No field is present.
    pub open spec fn is_empty(&self) -> bool {
        self.title is None && self.description is None && self.status is None
    }

    /// The verdict on the title, where one is present.
    pub open spec fn title_verdict(&self) -> Result<(), TicketTitleError> {
        match self.title {
            Some(title) => title_check(title@),
            None => Ok(()),
        }
    }

    /// The verdict on the description, where one is present.
    pub open spec fn description_verdict(&self) -> Result<(), TicketDescriptionError> {
        match self.description {
            Some(description) => description_check(description@),
            None => Ok(()),
        }
    }

    /// The verdict on a patch: one without any field is refused before
    /// anything else is looked at; then the fields that are present are
    /// judged, the title first.
    pub open spec fn validation(&self) -> Result<(), TicketValidationError> {
        if self.is_empty() {
            Err(TicketValidationError::EmptyPatch)
        } else {
            match self.title_verdict() {
                Err(reason) => Err(TicketValidationError::Title(reason)),
                Ok(()) => match self.description_verdict() {
                    Err(reason) => Err(TicketValidationError::Description(reason)),
                    Ok(()) => Ok(()),
                },
            }
        }
    }

    pub fn validate(&self) -> (outcome: Result<(), TicketValidationError>)
        ensures
            outcome == self.validation(),
    {
        if self.title.is_none() && self.description.is_none() && self.status.is_none() {
            return Err(TicketValidationError::EmptyPatch);
        }
        if let Some(title) = &self.title {
            if let Err(reason) = validate_title(title.as_str()) {
                return Err(TicketValidationError::Title(reason));
            }
        }
        if let Some(description) = &self.description {
            if let Err(reason) = validate_desc(description.as_str()) {
                return Err(TicketValidationError::Description(reason));
            }
        }
        Ok(())
    }
}

/// The title rule, case by case: an empty text is refused as empty, a text of
/// more than 50 bytes as too long, and every other text passes.
pub proof fn lemma_title_rule(text: Seq<char>)
    ensures
        text.len() == 0 ==> title_check(text) == Err::<(), _>(TicketTitleError::Empty),
        byte_len(text) > 50 ==> title_check(text) == Err::<(), _>(TicketTitleError::TooLong),
        text.len() > 0 && byte_len(text) <= 50 ==> title_check(text) == Ok::<_, TicketTitleError>(()),
{
    lemma_empty_text_has_no_bytes(text);
}

/// The description rule, case by case: an empty text is refused as empty, a
/// text of more than 500 bytes as too long, and every other text passes.
pub proof fn lemma_description_rule(text: Seq<char>)
    ensures
        text.len() == 0 ==> description_check(text) == Err::<(), _>(
            TicketDescriptionError::Empty,
        ),
        byte_len(text) > 500 ==> description_check(text) == Err::<(), _>(
            TicketDescriptionError::TooLong,
        ),
        text.len() > 0 && byte_len(text) <= 500 ==> description_check(text) == Ok::<
            _,
            TicketDescriptionError,
        >(()),
{
    lemma_empty_text_has_no_bytes(text);
}

/// A text without characters takes no bytes.
proof fn lemma_empty_text_has_no_bytes(text: Seq<char>)
    ensures
        text.len() == 0 ==> byte_len(text) == 0,
{
    reveal_with_fuel(vstd::utf8::encode_utf8, 1);
}

/// The patches refused as empty are exactly those without any field, so a
/// patch that passes holds at least one.
pub proof fn lemma_empty_patch_is_refused(patch: TicketPatch)
    ensures
        patch.is_empty() <==> patch.validation() == Err::<(), _>(
            TicketValidationError::EmptyPatch,
        ),
        patch.validation() is Ok ==> !patch.is_empty(),
{
}

} // verus!
