//! Direct messages to the site owner.
//!
//! Each user has at most one owner-DM thread, recognised by a reserved
//! title; sending a message finds or creates that thread and appends the
//! message under the `user` role.

use vstd::prelude::*;
use vstd::string::StrSliceExecFns;
use vstd::string::StringExecFns;
use vstd::string::StringSliceAdditionalSpecFns;

use crate::entities::NewMessage;
use crate::entities::NewThread;
use crate::text::trim_of;
use crate::text::trim_str;

verus! {

broadcast use vstd::string::group_string_axioms;

/// A request to message the owner.
#[derive(Debug)]
pub struct SendAdminDmRequest {
    pub user_id: String,
    pub content: String,
}

/// The answer to a send request.
#[derive(Debug)]
pub struct SendAdminDmResponse {
    pub success: bool,
    pub message: String,
    pub thread_id: Option<String>,
}

/// The reserved title that marks a user's owner-DM thread.
pub fn admin_dm_thread_title() -> (r: &'static str)
    ensures
        r@ == "__ADMIN_DM__"@,
{
    "__ADMIN_DM__"
}

/// Whether a message may be sent: at least five bytes once trimmed.
pub fn dm_content_ok(content: &str) -> (r: bool)
    ensures
        r == (vstd::utf8::encode_utf8(trim_of(content@)).len() >= 5),
{
    let t = trim_str(content);
    let bytes = t.as_bytes();
    proof {
        assert(bytes@ == vstd::utf8::encode_utf8(trim_of(content@)));
    }
    bytes.len() >= 5
}

/// Where a message goes: the existing owner-DM thread when there is one,
/// else a thread to create under the fresh id, bearing the reserved title
/// and the user.
#[derive(Debug)]
pub enum DmThreadPlan {
    /// Append to this existing thread.
    Existing { thread_id: String },
    /// Create this thread, then append to it.
    Create { thread: NewThread },
}

/// Decide the thread for a user's message, given the already-existing
/// owner-DM thread id, if any, and a fresh id for a new thread.
pub fn dm_thread_plan(existing: Option<String>, fresh_id: String, user_id: String) -> (r:
    DmThreadPlan)
    ensures
        match existing {
            Some(id) => r matches DmThreadPlan::Existing { thread_id } && thread_id@ == id@,
            None => {
                &&& r matches DmThreadPlan::Create { thread }
                &&& thread.id@ == fresh_id@
                &&& thread.title matches Some(t) && t@ == "__ADMIN_DM__"@
                &&& thread.user_id matches Some(u) && u@ == user_id@
            },
        },
{
    match existing {
        Some(thread_id) => DmThreadPlan::Existing { thread_id },
        None => DmThreadPlan::Create {
            thread: NewThread {
                id: fresh_id,
                title: Some(admin_dm_thread_title().to_owned()),
                user_id: Some(user_id),
            },
        },
    }
}

/// The message row a send request appends: the content under the `user`
/// role, in the decided thread.
pub fn dm_new_message(fresh_id: String, thread_id: String, content: String) -> (r: NewMessage)
    ensures
        r.id@ == fresh_id@,
        r.thread_id@ == thread_id@,
        r.role@ == "user"@,
        r.content@ == content@,
{
    NewMessage { id: fresh_id, thread_id, role: String::from_str("user"), content }
}

} // verus!
