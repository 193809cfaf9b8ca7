//! Errors of logging in and of loading plugins, with the messages that
//! describe them.

use vstd::prelude::*;

use crate::text::push_text;

verus! {

/// Why a client could not log in.
#[derive(Clone, Copy, PartialEq, Eq, Structural, Debug)]
pub enum LoginError {
    /// No token file could be read.
    TokenNotExist,
    /// The token belongs to another account.
    WrongToken,
    /// The server refused the token.
    TokenLoginFailed,
}

/// The message that describes a login error.
pub open spec fn login_error_message(e: LoginError) -> Seq<char> {
    match e {
        LoginError::TokenNotExist => "token not exist"@,
        LoginError::WrongToken => "wrong token"@,
        LoginError::TokenLoginFailed => "token login failed. maybe the token is expired"@,
    }
}

impl LoginError {
    /// The message that describes this error.
    pub fn message(&self) -> (r: &'static str)
        ensures
            r@ == login_error_message(*self),
    {
        match self {
            LoginError::TokenNotExist => "token not exist",
            LoginError::WrongToken => "wrong token",
            LoginError::TokenLoginFailed => "token login failed. maybe the token is expired",
        }
    }
}

/// Why a plugin could not be loaded.
pub enum PluginError {
    InitializeFail(&'static str),
    LoadFail(String),
    NameConflict,
}

/// The message that describes a plugin error.
pub open spec fn plugin_error_message(e: PluginError) -> Seq<char> {
    "plugin "@ + match e {
        PluginError::InitializeFail(s) => "initialize failed: "@ + s@,
        PluginError::LoadFail(s) => "load failed, cause: "@ + s@,
        PluginError::NameConflict => "name conflicted"@,
    }
}

impl PluginError {
    /// The message that describes this error.
    pub fn message(&self) -> (r: String)
        ensures
            r@ == plugin_error_message(*self),
    {
        let mut s = String::new();
        push_text(&mut s, "plugin ");
        match self {
            PluginError::InitializeFail(m) => {
                push_text(&mut s, "initialize failed: ");
                push_text(&mut s, m);
            },
            PluginError::LoadFail(m) => {
                push_text(&mut s, "load failed, cause: ");
                push_text(&mut s, m.as_str());
            },
            PluginError::NameConflict => push_text(&mut s, "name conflicted"),
        }
        assert(s@ =~= plugin_error_message(*self));
        s
    }
}

} // verus!
