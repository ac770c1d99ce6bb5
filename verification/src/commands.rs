//! Replies the shell sends to the embedded web front end.

use vstd::prelude::*;

verus! {

/// The greeting echoed back to the front end for a given name.
pub fn greet(name: &str) -> (r: String)
    ensures
        r@ == "Hello, "@ + name@ + "! You've been greeted from Rust!"@,
{
    let mut s = String::from_str("Hello, ");
    s.append(name);
    s.append("! You've been greeted from Rust!");
    s
}

/// The reply sent to the front end after an attempt to open the main app
/// window: success is passed through, and a failure is reported with a fixed
/// message.
pub fn open_app_window_reply(created: bool) -> (r: Result<(), String>)
    ensures
        created ==> r is Ok,
        !created ==> r is Err && r->Err_0@ == "Failed to create App Window"@,
{
    if created {
        Ok(())
    } else {
        Err(String::from_str("Failed to create App Window"))
    }
}

} // verus!
