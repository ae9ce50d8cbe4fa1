//! The collector's decisions on one submitted report: whether its credential
//! admits it, and what to answer once storage has had its say.
//!
//! A report is let through on its credential alone: its content is not checked
//! against the record's invariants, and an earlier identical report does not
//! keep it from being stored again.
use crate::report::Report;
use vstd::prelude::*;

verus! {

/// The status of a stored report.
pub const STATUS_OK: u16 = 200;

/// The status of a report whose credential does not match.
pub const STATUS_UNAUTHORIZED: u16 = 401;

/// The status of a report that storage failed to take.
pub const STATUS_SERVER_ERROR: u16 = 500;

/// The answer to one submission: its status, the identifier storage gave
/// the new row (on success only), and a message.
pub struct Reply {
    pub status: u16,
    pub id: Option<i64>,
    pub message: String,
}

/// The message of a refused credential.
pub open spec fn bad_token_text() -> Seq<char> {
    "Bad token\n"@
}

/// The message of a stored report.
pub open spec fn created_text() -> Seq<char> {
    "Report created successfully"@
}

/// The message of a failed insert, from storage's own description.
pub open spec fn storage_error_text(cause: Seq<char>) -> Seq<char> {
    "Database error: "@ + cause
}

/// The answer, as a status, an identifier and a message, that storage's
/// result leads to.
pub open spec fn reply_for(inserted: Result<i64, Seq<char>>) -> (u16, Option<i64>, Seq<char>) {
    match inserted {
        Ok(id) => (200, Some(id), created_text()),
        Err(cause) => (500, None, storage_error_text(cause)),
    }
}

/// The view of a storage result, its error as text.
pub open spec fn inserted_view(inserted: Result<i64, String>) -> Result<i64, Seq<char>> {
    match inserted {
        Ok(id) => Ok(id),
        Err(e) => Err(e@),
    }
}

/// The collector's configuration: the one bearer credential it accepts.
pub struct Collector {
    secret: String,
}

impl Collector {
    /// The accepted credential.
    pub closed spec fn secret(&self) -> Seq<char> {
        self.secret@
    }

    /// A collector that accepts `secret`.
    pub fn new(secret: String) -> (r: Collector)
        ensures
            r.secret() == secret@,
    {
        Collector { secret }
    }

    /// Whether `report`, sent with the bearer credential `presented`, goes on
    /// to storage: it does exactly when the credential equals the accepted
    /// one, whatever the report holds; otherwise the answer is 401 with a
    /// plain message, and nothing is stored.
    pub fn authorize(&self, presented: &str, report: &Report) -> (r: Result<(), Reply>)
        ensures
            r is Ok <==> presented@ == self.secret(),
            r is Err ==> {
                let reply = r->Err_0;
                &&& reply.status == STATUS_UNAUTHORIZED
                &&& reply.id is None
                &&& reply.message@ == bad_token_text()
            },
    {
        let given = String::from_str(presented);
        if given == self.secret {
            Ok(())
        } else {
            Err(Reply { status: STATUS_UNAUTHORIZED, id: None, message: String::from_str("Bad token\n") })
        }
    }
}

/// The answer to a report let through, from what storage returned: the new
/// row's identifier with status 200, or status 500 with storage's own
/// description of the failure.
pub fn conclude(inserted: Result<i64, String>) -> (r: Reply)
    ensures
        (r.status, r.id, r.message@) == reply_for(inserted_view(inserted)),
{
    match inserted {
        Ok(id) => Reply { status: STATUS_OK, id: Some(id), message: String::from_str("Report created successfully") },
        Err(cause) => {
            let message = String::from_str("Database error: ").concat(cause.as_str());
            Reply { status: STATUS_SERVER_ERROR, id: None, message }
        },
    }
}

/// Storage's two rows for two stored reports, identical or not, are both
/// answered as successes, each with its own identifier: distinct
/// identifiers give distinct answers.
pub proof fn stored_twice_answered_twice(first: i64, second: i64)
    requires
        first != second,
    ensures
        reply_for(Ok(first)).0 == 200,
        reply_for(Ok(second)).0 == 200,
        reply_for(Ok(first)).1 != reply_for(Ok(second)).1,
{
}

} // verus!
