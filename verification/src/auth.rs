//! Admin-key session rules: which stored key counts, and which HTTP 401 may end a session.

use vstd::prelude::*;
use vstd::string::StringExecFns;

use crate::locale::{pick, Translations};
use crate::text::{blank, is_blank, str_eq, string_of, trim_ws, trimmed_chars};

verus! {

/// The admin key read back from storage: `None` when absent or blank.
pub fn load_admin_key(stored: Option<String>) -> (key: Option<String>)
    ensures
        key is Some <==> (stored is Some && !is_blank(stored->0@)),
        key is Some ==> key->0@ == stored->0@,
{
    match stored {
        Some(v) => if blank(v.as_str()) { None } else { Some(v) },
        None => None,
    }
}

/// The key for request headers: the in-memory key when it is not blank, otherwise the
/// stored key when that one is not blank.
pub fn admin_key_header_value(in_memory: Option<String>, stored: Option<String>) -> (key: Option<String>)
    ensures
        in_memory is Some && !is_blank(in_memory->0@) ==> key == in_memory,
        !(in_memory is Some && !is_blank(in_memory->0@)) ==> (key is Some <==> (stored is Some
            && !is_blank(stored->0@))),
        !(in_memory is Some && !is_blank(in_memory->0@)) && key is Some ==> key->0@ == stored->0@,
{
    if let Some(k) = in_memory {
        if !blank(k.as_str()) {
            return Some(k);
        }
    }
    load_admin_key(stored)
}

/// Whether the session holds an admin key.
pub fn is_authenticated(key: &str) -> (r: bool)
    ensures
        r == !is_blank(key@),
{
    !blank(key)
}

/// The generation after `v`: one more, saturating at `u64::MAX`.
pub open spec fn next_epoch(v: u64) -> u64 {
    if v == u64::MAX {
        u64::MAX
    } else {
        (v + 1) as u64
    }
}

/// Whether an HTTP 401 for a request of generation `request_epoch` ends the session
/// while the counter stands at `current`: only one of the current generation does.
pub open spec fn unauthorized_clears(current: u64, request_epoch: u64) -> bool {
    request_epoch == current
}

/// Login generation counter: it moves on at every login and logout, so an HTTP 401
/// answering a request of an earlier generation cannot end a newer session.
pub struct AuthEpoch {
    pub value: u64,
}

impl AuthEpoch {
    pub fn new() -> (e: Self)
        ensures
            e.value == 0,
    {
        AuthEpoch { value: 0 }
    }

    /// The generation to tag a request with.
    pub fn current(&self) -> (v: u64)
        ensures
            v == self.value,
    {
        self.value
    }

    /// Moves to the next generation (saturating at `u64::MAX`).
    pub fn bump(&mut self)
        ensures
            final(self).value == next_epoch(old(self).value),
    {
        self.value = self.value.saturating_add(1);
    }

    /// An HTTP 401 arrived for a request of generation `request_epoch`. Returns whether the
    /// stored key must be cleared; only a 401 of the current generation does that, and it
    /// also moves to the next generation.
    pub fn handle_unauthorized(&mut self, request_epoch: u64) -> (clear: bool)
        ensures
            clear == unauthorized_clears(old(self).value, request_epoch),
            clear ==> final(self).value == next_epoch(old(self).value),
            !clear ==> final(self).value == old(self).value,
    {
        if self.value != request_epoch {
            return false;
        }
        self.bump();
        true
    }

    /// A failed admin API response with `status`, for a request of generation
    /// `request_epoch`. A 401 sent while a key was in use ends the session when it is of
    /// the current generation. Returns whether the stored key must be cleared.
    pub fn on_error_status(&mut self, status: u16, key_in_use: bool, request_epoch: u64) -> (clear: bool)
        ensures
            clear == (status == 401 && key_in_use && unauthorized_clears(old(self).value, request_epoch)),
            clear ==> final(self).value == next_epoch(old(self).value),
            !clear ==> final(self).value == old(self).value,
    {
        if status == 401 && key_in_use {
            self.handle_unauthorized(request_epoch)
        } else {
            false
        }
    }
}


/// What the login form does when submitted.
pub enum SubmitStep {
    /// The key is blank: show the "empty" error.
    RejectEmpty,
    /// A check is already running: ignore the submission.
    Busy,
    /// Check this key (the input without surrounding whitespace) against the server.
    Verify(String),
}

/// Handles a login-form submission with the typed `input`.
pub fn login_submit(input: &str, verifying: bool) -> (s: SubmitStep)
    ensures
        trim_ws(input@).len() == 0 ==> s is RejectEmpty,
        trim_ws(input@).len() > 0 && verifying ==> s is Busy,
        trim_ws(input@).len() > 0 && !verifying ==> s is Verify && s->Verify_0@ == trim_ws(input@),
{
    let key = string_of(&trimmed_chars(input));
    if key.as_str().is_empty() {
        return SubmitStep::RejectEmpty;
    }
    if verifying {
        return SubmitStep::Busy;
    }
    SubmitStep::Verify(key)
}

/// The message shown when a key check fails: the localized "invalid key" text for the
/// server's `invalid_admin_key`, the error itself otherwise.
pub open spec fn login_error_text(t: Translations, err: Seq<char>) -> Seq<char> {
    if err == "invalid_admin_key"@ {
        pick(
            t.locale,
            "密钥无效，请确认与服务器 CRABCACHE_ADMIN_KEY 一致"@,
            "Invalid key — must match the server CRABCACHE_ADMIN_KEY"@,
        )
    } else {
        err
    }
}

/// The message shown when a key check fails.
pub fn login_error_message(t: Translations, err: &str) -> (m: String)
    ensures
        m@ == login_error_text(t, err@),
{
    if str_eq(err, "invalid_admin_key") {
        String::from_str(t.auth_error_invalid())
    } else {
        String::from_str(err)
    }
}


/// Outcome of one submission of the login form.
#[derive(Clone, PartialEq, Eq, Debug)]
pub enum LoginOutcome {
    /// A check is already running; the submission was ignored.
    Ignored,
    /// The key was accepted and stored; the session uses it from now on.
    LoggedIn(String),
    /// The form shows this error.
    Rejected(String),
}

/// What follows the login form's submission.
pub enum LoginStep {
    /// Check this key with the server.
    Check(String),
    /// Done: the form shows this outcome.
    Done(LoginOutcome),
}

/// The first step of a login: a blank key is rejected with the localized "empty" text,
/// a submission during a running check is ignored, any other key (without surrounding
/// whitespace) goes to the server check.
pub fn login_start(t: Translations, input: &str, verifying: bool) -> (s: LoginStep)
    ensures
        trim_ws(input@).len() == 0 ==> (s matches LoginStep::Done(LoginOutcome::Rejected(m)) && m@
            == pick(t.locale, "请输入 Admin API Key"@, "Admin API Key is required"@)),
        trim_ws(input@).len() > 0 && verifying ==> s matches LoginStep::Done(LoginOutcome::Ignored),
        trim_ws(input@).len() > 0 && !verifying ==> (s matches LoginStep::Check(k) && k@ == trim_ws(
            input@,
        )),
{
    match login_submit(input, verifying) {
        SubmitStep::RejectEmpty => LoginStep::Done(
            LoginOutcome::Rejected(String::from_str(t.auth_error_empty())),
        ),
        SubmitStep::Busy => LoginStep::Done(LoginOutcome::Ignored),
        SubmitStep::Verify(k) => LoginStep::Check(k),
    }
}

/// After the server check of the key: a refused key is rejected with its error message
/// (the localized text for `invalid_admin_key`); `None` means the accepted key is to be
/// stored.
pub fn login_after_check(t: Translations, check: Result<(), String>) -> (r: Option<LoginOutcome>)
    ensures
        check is Ok ==> r is None,
        check is Err ==> (r matches Some(LoginOutcome::Rejected(m)) && m@ == login_error_text(
            t,
            check->Err_0@,
        )),
{
    match check {
        Ok(()) => None,
        Err(e) => Some(LoginOutcome::Rejected(login_error_message(t, e.as_str()))),
    }
}

/// After storing the accepted `key`: logged in with it, or rejected with the storage
/// error.
pub fn login_after_store(key: String, stored: Result<(), String>) -> (o: LoginOutcome)
    ensures
        stored is Ok ==> o == LoginOutcome::LoggedIn(key),
        stored is Err ==> o == LoginOutcome::Rejected(stored->Err_0),
{
    match stored {
        Ok(()) => LoginOutcome::LoggedIn(key),
        Err(m) => LoginOutcome::Rejected(m),
    }
}

} // verus!
