//! Rows of the three tables, as plain values.
use vstd::prelude::*;

verus! {

/// Where a request stands in its lifecycle.
///
/// The in-progress state is written `in_progress` on the wire and in storage:
/// one spelling, used by every operation that writes a status. Rows that an
/// earlier release stored as `in_progres` are still read as in progress, and
/// are sent as `in_progress` from then on; clients that matched the old
/// literal must match the new one.
#[derive(Clone, Copy, Debug, PartialEq, Eq, Structural)]
pub enum Status {
    New,
    Binding,
    InProgress,
    Done,
}

impl Status {
    /// The literal stored and sent for this status.
    pub open spec fn wire(self) -> Seq<char> {
        match self {
            Status::New => "new"@,
            Status::Binding => "binding"@,
            Status::InProgress => "in_progress"@,
            Status::Done => "done"@,
        }
    }

    /// The literals that read back as this status: its own, and for
    /// `InProgress` also the misspelt `in_progres` of older rows.
    pub open spec fn read_from(self, s: Seq<char>) -> bool {
        s == self.wire() || (self == Status::InProgress && s == "in_progres"@)
    }

    pub fn as_str(&self) -> (r: &'static str)
        ensures
            r@ == self.wire(),
    {
        match self {
            Status::New => "new",
            Status::Binding => "binding",
            Status::InProgress => "in_progress",
            Status::Done => "done",
        }
    }

    /// Reads a stored literal back; `None` for a literal that names no status.
    pub fn from_wire(s: &str) -> (r: Option<Status>)
        ensures
            r matches Some(st) ==> st.read_from(s@),
            r is None ==> forall|st: Status| !#[trigger] st.read_from(s@),
    {
        proof {
            reveal_strlit("in_progres");
            reveal_strlit("new");
            reveal_strlit("binding");
            reveal_strlit("in_progress");
            reveal_strlit("done");
        }
        let owned = s.to_owned();
        if owned.eq(&"new".to_owned()) {
            Some(Status::New)
        } else if owned.eq(&"binding".to_owned()) {
            Some(Status::Binding)
        } else if owned.eq(&"in_progress".to_owned()) {
            Some(Status::InProgress)
        } else if owned.eq(&"in_progres".to_owned()) {
            Some(Status::InProgress)
        } else if owned.eq(&"done".to_owned()) {
            Some(Status::Done)
        } else {
            None
        }
    }
}

/// A helper directory entry. `deleted_at` is the soft-delete marker, in seconds
/// since the Unix epoch; `None` marks an active row.
#[derive(Clone, Debug, PartialEq, Eq)]
pub struct HelperRecord {
    pub id: i32,
    pub name: Option<String>,
    pub phone_number: Option<String>,
    pub email: Option<String>,
    pub deleted_at: Option<i64>,
}

/// A help request row. A `helper_id` of `None` or `Some(0)` means unbound.
#[derive(Clone, Debug, PartialEq, Eq)]
pub struct RequestRecord {
    pub id: i32,
    pub title: Option<String>,
    pub description: Option<String>,
    pub price: Option<i64>,
    pub requester_id: Option<i32>,
    pub helper_id: Option<i32>,
    pub status: Status,
    pub deleted_at: Option<i64>,
}

/// A proposed pairing of a request and a helper.
#[derive(Clone, Copy, Debug, PartialEq, Eq, Structural)]
pub struct HelperRequestRecord {
    pub id: i32,
    pub request_id: Option<i32>,
    pub helper_id: Option<i32>,
}

/// A failure of the store: a constraint violation, a lost connection, a
/// timeout. Its cause is not told apart.
#[derive(Clone, Copy, Debug, PartialEq, Eq, Structural)]
pub struct StorageError;

pub fn copy_text(s: &Option<String>) -> (r: Option<String>)
    ensures
        r == *s,
{
    match s {
        Some(t) => Some(t.clone()),
        None => None,
    }
}

impl HelperRecord {
    pub open spec fn is_active(self) -> bool {
        self.deleted_at is None
    }

    pub fn duplicate(&self) -> (r: HelperRecord)
        ensures
            r == *self,
    {
        HelperRecord {
            id: self.id,
            name: copy_text(&self.name),
            phone_number: copy_text(&self.phone_number),
            email: copy_text(&self.email),
            deleted_at: self.deleted_at,
        }
    }
}

impl RequestRecord {
    pub open spec fn is_active(self) -> bool {
        self.deleted_at is None
    }

    pub fn duplicate(&self) -> (r: RequestRecord)
        ensures
            r == *self,
    {
        RequestRecord {
            id: self.id,
            title: copy_text(&self.title),
            description: copy_text(&self.description),
            price: self.price,
            requester_id: self.requester_id,
            helper_id: self.helper_id,
            status: self.status,
            deleted_at: self.deleted_at,
        }
    }
}

} // verus!
