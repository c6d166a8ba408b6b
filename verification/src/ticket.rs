use vstd::prelude::*;
use vstd::string::StrSliceExecFns;

verus! {

/// Where a ticket stands in its workflow.
#[derive(Debug, Clone, Copy, PartialEq, Eq, Structural)]
pub enum Status {
    ToDo,
    InProgress,
    Done,
}

/// A reason a title is rejected.
#[derive(Debug, Clone, Copy, PartialEq, Eq, Structural)]
pub enum TitleError {
    /// the title has no characters
    Empty,
    /// the title has more than `MAX_TITLE_LEN` characters
    TooLong,
}

/// A reason a description is rejected.
#[derive(Debug, Clone, Copy, PartialEq, Eq, Structural)]
pub enum DescriptionError {
    /// the description has more than `MAX_DESCRIPTION_LEN` characters
    TooLong,
}

/// The largest number of characters a title may have.
pub const MAX_TITLE_LEN: usize = 50;

/// The largest number of characters a description may have.
pub const MAX_DESCRIPTION_LEN: usize = 500;

/// A validated ticket title: never empty, never longer than
/// `MAX_TITLE_LEN` characters.
#[derive(Debug)]
pub struct TicketTitle {
    text: String,
}

impl View for TicketTitle {
    type V = Seq<char>;

    closed spec fn view(&self) -> Seq<char> {
        self.text@
    }
}

impl TicketTitle {
    /// What a title must satisfy.
    pub open spec fn valid(text: Seq<char>) -> bool {
        0 < text.len() <= MAX_TITLE_LEN
    }

    #[verifier::type_invariant]
    spec fn type_inv(self) -> bool {
        Self::valid(self.text@)
    }

    /// Validates the given text and wraps it: an empty text and one past the
    /// length bound are rejected, each with its own error.
    pub fn new(text: String) -> (r: Result<TicketTitle, TitleError>)
        ensures
            Self::valid(text@) ==> (r matches Ok(t) && t@ == text@),
            text@.len() == 0 ==> r == Err::<TicketTitle, TitleError>(TitleError::Empty),
            text@.len() > MAX_TITLE_LEN ==> r == Err::<TicketTitle, TitleError>(
                TitleError::TooLong,
            ),
    {
        let len = text.as_str().unicode_len();
        if len == 0 {
            Err(TitleError::Empty)
        } else if len > MAX_TITLE_LEN {
            Err(TitleError::TooLong)
        } else {
            Ok(TicketTitle { text })
        }
    }

    /// The text of the title.
    pub fn as_str(&self) -> (r: &str)
        ensures
            r@ == self@,
    {
        self.text.as_str()
    }
}

impl Clone for TicketTitle {
    /// A copy holding the same text.
    fn clone(&self) -> (r: Self)
        ensures
            r@ == self@,
    {
        proof {
            use_type_invariant(self);
        }
        TicketTitle { text: self.text.clone() }
    }
}

impl PartialEq for TicketTitle {
    /// Two titles are equal when their texts are.
    fn eq(&self, other: &TicketTitle) -> (r: bool) {
        self.text == other.text
    }
}

impl vstd::std_specs::cmp::PartialEqSpecImpl for TicketTitle {
    open spec fn obeys_eq_spec() -> bool {
        true
    }

    open spec fn eq_spec(&self, other: &TicketTitle) -> bool {
        self@ == other@
    }
}

/// A validated ticket description: never longer than
/// `MAX_DESCRIPTION_LEN` characters. It may be empty.
#[derive(Debug)]
pub struct TicketDescription {
    text: String,
}

impl View for TicketDescription {
    type V = Seq<char>;

    closed spec fn view(&self) -> Seq<char> {
        self.text@
    }
}

impl TicketDescription {
    /// What a description must satisfy.
    pub open spec fn valid(text: Seq<char>) -> bool {
        text.len() <= MAX_DESCRIPTION_LEN
    }

    #[verifier::type_invariant]
    spec fn type_inv(self) -> bool {
        Self::valid(self.text@)
    }

    /// Validates the given text and wraps it: text past the length bound is
    /// rejected.
    pub fn new(text: String) -> (r: Result<TicketDescription, DescriptionError>)
        ensures
            Self::valid(text@) ==> (r matches Ok(d) && d@ == text@),
            !Self::valid(text@) ==> r == Err::<TicketDescription, DescriptionError>(
                DescriptionError::TooLong,
            ),
    {
        let len = text.as_str().unicode_len();
        if len > MAX_DESCRIPTION_LEN {
            Err(DescriptionError::TooLong)
        } else {
            Ok(TicketDescription { text })
        }
    }

    /// The text of the description.
    pub fn as_str(&self) -> (r: &str)
        ensures
            r@ == self@,
    {
        self.text.as_str()
    }
}

impl Clone for TicketDescription {
    /// A copy holding the same text.
    fn clone(&self) -> (r: Self)
        ensures
            r@ == self@,
    {
        proof {
            use_type_invariant(self);
        }
        TicketDescription { text: self.text.clone() }
    }
}

impl PartialEq for TicketDescription {
    /// Two descriptions are equal when their texts are.
    fn eq(&self, other: &TicketDescription) -> (r: bool) {
        self.text == other.text
    }
}

impl vstd::std_specs::cmp::PartialEqSpecImpl for TicketDescription {
    open spec fn obeys_eq_spec() -> bool {
        true
    }

    open spec fn eq_spec(&self, other: &TicketDescription) -> bool {
        self@ == other@
    }
}

/// The fields of a ticket, as plain mathematical values.
pub struct TicketView {
    pub title: Seq<char>,
    pub description: Seq<char>,
    pub status: Status,
}

/// A ticket: a validated title and description, and a workflow status.
#[derive(Debug)]
pub struct Ticket {
    pub title: TicketTitle,
    pub description: TicketDescription,
    pub status: Status,
}

impl View for Ticket {
    type V = TicketView;

    open spec fn view(&self) -> TicketView {
        TicketView { title: self.title@, description: self.description@, status: self.status }
    }
}

impl Ticket {
    /// A fresh ticket with the given title and description, starting in
    /// `Status::ToDo`.
    pub fn new(title: TicketTitle, description: TicketDescription) -> (t: Ticket)
        ensures
            t@ == (TicketView { title: title@, description: description@, status: Status::ToDo }),
    {
        Ticket { title, description, status: Status::ToDo }
    }

    /// The ticket's title.
    pub fn title(&self) -> (r: &TicketTitle)
        ensures
            r@ == self@.title,
    {
        &self.title
    }

    /// The ticket's description.
    pub fn description(&self) -> (r: &TicketDescription)
        ensures
            r@ == self@.description,
    {
        &self.description
    }

    /// The ticket's status.
    pub fn status(&self) -> (r: &Status)
        ensures
            *r == self@.status,
    {
        &self.status
    }

    /// Replaces the status; the other fields stay as they were.
    pub fn change_status(&mut self, status: Status)
        ensures
            final(self)@ == (TicketView {
                title: old(self)@.title,
                description: old(self)@.description,
                status,
            }),
    {
        self.status = status;
    }

    /// Replaces the title; the other fields stay as they were.
    pub fn change_title(&mut self, title: TicketTitle)
        ensures
            final(self)@ == (TicketView {
                title: title@,
                description: old(self)@.description,
                status: old(self)@.status,
            }),
    {
        self.title = title;
    }

    /// Replaces the description; the other fields stay as they were.
    pub fn change_description(&mut self, description: TicketDescription)
        ensures
            final(self)@ == (TicketView {
                title: old(self)@.title,
                description: description@,
                status: old(self)@.status,
            }),
    {
        self.description = description;
    }

    /// Whether the ticket is done.
    pub fn is_done(&self) -> (r: bool)
        ensures
            r == (self@.status == Status::Done),
    {
        self.status == Status::Done
    }

    /// Whether the ticket is in progress.
    pub fn is_in_progress(&self) -> (r: bool)
        ensures
            r == (self@.status == Status::InProgress),
    {
        self.status == Status::InProgress
    }

    /// Whether the ticket is still to do.
    pub fn is_to_do(&self) -> (r: bool)
        ensures
            r == (self@.status == Status::ToDo),
    {
        self.status == Status::ToDo
    }
}

impl Clone for Ticket {
    /// A copy holding the same fields.
    fn clone(&self) -> (r: Self)
        ensures
            r@ == self@,
    {
        Ticket {
            title: self.title.clone(),
            description: self.description.clone(),
            status: self.status,
        }
    }
}

impl PartialEq for Ticket {
    /// Two tickets are equal when all three fields are.
    fn eq(&self, other: &Ticket) -> (r: bool) {
        self.title == other.title && self.description == other.description && self.status
            == other.status
    }
}

impl vstd::std_specs::cmp::PartialEqSpecImpl for Ticket {
    open spec fn obeys_eq_spec() -> bool {
        true
    }

    open spec fn eq_spec(&self, other: &Ticket) -> bool {
        self@ == other@
    }
}

/// What a client asks the store to record: a validated title and
/// description; the store itself assigns the identifier and the initial
/// status.
#[derive(Debug, Clone, PartialEq)]
pub struct TicketDraft {
    pub title: TicketTitle,
    pub description: TicketDescription,
}

/// The fields of a draft, as plain mathematical values.
pub struct DraftView {
    pub title: Seq<char>,
    pub description: Seq<char>,
}

impl View for TicketDraft {
    type V = DraftView;

    open spec fn view(&self) -> DraftView {
        DraftView { title: self.title@, description: self.description@ }
    }
}

/// The ticket that recording a draft creates: the draft's fields and the
/// initial status.
pub open spec fn fresh_ticket(draft: DraftView) -> TicketView {
    TicketView { title: draft.title, description: draft.description, status: Status::ToDo }
}

} // verus!
