use vstd::prelude::*;
use crate::args::Arg;

verus! {

/// Where a notification goes, by its name.
#[derive(Debug, Clone, Copy, PartialEq, Eq, Structural)]
pub enum Route {
    /// `"enter_buffer"` or `"push"`: a content push.
    Push,
    /// `"open_log"`: open the log, whatever the arguments.
    OpenLog,
    /// Any other name: nothing happens.
    Ignore,
}

/// The route of a notification named `name`.
pub open spec fn route_of(name: Seq<char>) -> Route {
    if name == "enter_buffer"@ || name == "push"@ {
        Route::Push
    } else if name == "open_log"@ {
        Route::OpenLog
    } else {
        Route::Ignore
    }
}

/// Whether two texts are the same.
fn same_text(a: &str, b: &str) -> (r: bool)
    ensures
        r == (a@ == b@),
{
    a.to_owned() == b.to_owned()
}

/// Classifies a notification by its name.
pub fn route(name: &str) -> (r: Route)
    ensures
        r == route_of(name@),
{
    if same_text(name, "enter_buffer") || same_text(name, "push") {
        Route::Push
    } else if same_text(name, "open_log") {
        Route::OpenLog
    } else {
        Route::Ignore
    }
}

/// The reply to any request: requests are not supported, so the reply is
/// always an error carrying the text `"not implemented"`.
pub fn request_reply() -> (r: Result<Arg, Arg>)
    ensures
        r matches Err(Arg::Text(s)) && s@ == "not implemented"@,
{
    Err(Arg::Text("not implemented".to_owned()))
}

} // verus!
