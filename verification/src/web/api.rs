//! Where the web front end sends navigation: to the API server, whose
//! address it is configured with.

use vstd::prelude::*;
use vstd::string::*;

verus! {

/// Where a member is looked up on the API server.
pub open spec fn user_path() -> Seq<char> {
    "/get/users/"@
}

/// The step round the ring that a visitor asks for.
#[derive(Debug, Clone, Copy, PartialEq, Eq, Structural)]
pub enum Step {
    /// To the member itself.
    Stay,
    Next,
    Prev,
    Random,
}

impl Step {
    /// What the step adds to the address of the member.
    pub open spec fn suffix(self) -> Seq<char> {
        match self {
            Step::Stay => ""@,
            Step::Next => "/next"@,
            Step::Prev => "/prev"@,
            Step::Random => "/random"@,
        }
    }

    /// Computes [`Step::suffix`].
    pub fn as_suffix(&self) -> (r: &'static str)
        ensures
            r@ == self.suffix(),
    {
        match self {
            Step::Stay => "",
            Step::Next => "/next",
            Step::Prev => "/prev",
            Step::Random => "/random",
        }
    }
}

/// The address on the API server for `step` from the member called
/// `username`.
pub open spec fn location(api_base_url: Seq<char>, username: Seq<char>, step: Step) -> Seq<char> {
    api_base_url + user_path() + username + step.suffix()
}

/// The value of text that may be missing.
pub open spec fn text_view(text: Option<String>) -> Option<Seq<char>> {
    match text {
        Some(t) => Some(t@),
        None => None,
    }
}

/// The address that a visitor is sent to, or `None` where the front end
/// has not been told where the API server is.
pub fn redirect(api_base_url: &str, username: &str, step: Step) -> (r: Option<String>)
    ensures
        text_view(r) == if api_base_url@.len() == 0 {
            None
        } else {
            Some(location(api_base_url@, username@, step))
        },
{
    if api_base_url.is_empty() {
        return None;
    }
    let mut target = api_base_url.to_owned();
    target.append("/get/users/");
    target.append(username);
    target.append(step.as_suffix());
    Some(target)
}

/// The address of the member called `username` on the API server.
pub fn get_user(api_base_url: &str, username: &str) -> (r: Option<String>)
    ensures
        text_view(r) == if api_base_url@.len() == 0 {
            None
        } else {
            Some(location(api_base_url@, username@, Step::Stay))
        },
{
    redirect(api_base_url, username, Step::Stay)
}

/// The address of the member after the one called `username`.
pub fn get_user_next(api_base_url: &str, username: &str) -> (r: Option<String>)
    ensures
        text_view(r) == if api_base_url@.len() == 0 {
            None
        } else {
            Some(location(api_base_url@, username@, Step::Next))
        },
{
    redirect(api_base_url, username, Step::Next)
}

/// The address of the member before the one called `username`.
pub fn get_user_prev(api_base_url: &str, username: &str) -> (r: Option<String>)
    ensures
        text_view(r) == if api_base_url@.len() == 0 {
            None
        } else {
            Some(location(api_base_url@, username@, Step::Prev))
        },
{
    redirect(api_base_url, username, Step::Prev)
}

/// The address of the random pick for the member called `username`.
pub fn get_user_random(api_base_url: &str, username: &str) -> (r: Option<String>)
    ensures
        text_view(r) == if api_base_url@.len() == 0 {
            None
        } else {
            Some(location(api_base_url@, username@, Step::Random))
        },
{
    redirect(api_base_url, username, Step::Random)
}

/// The address of the API server, or `None` where the front end has not
/// been told it.
pub fn get_api_url(api_base_url: &str) -> (r: Option<String>)
    ensures
        text_view(r) == if api_base_url@.len() == 0 {
            None
        } else {
            Some(api_base_url@)
        },
{
    if api_base_url.is_empty() {
        return None;
    }
    Some(api_base_url.to_owned())
}

} // verus!
