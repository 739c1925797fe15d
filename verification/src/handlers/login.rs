//! Logging in: when the user is sent to the browser, and how the redirect
//! that comes back is turned into the code that buys a token.

use vstd::prelude::*;
use rspotify::clients::OAuthClient;
use rspotify::{AuthCodeSpotify, ClientError};
use crate::reauth::{next_step, Token, TokenStep, TokenView};

verus! {

/// The port on which the redirect of a login is captured.
pub const LOGIN_PORT: u16 = 8585;

/// Why a login failed.
#[derive(Debug)]
pub enum AuthError {
    /// No redirect was captured.
    NoRedirect,
    /// The redirect that was captured holds no code for this login.
    ResponseCode,
    /// The provider did not accept the code, or did not renew the token.
    Provider(ClientError),
}

/// What a login begins with.
#[derive(Clone, Copy, Debug, PartialEq, Eq)]
pub enum Login {
    /// A token that can be used is at hand: nothing is to be done.
    Ready,
    /// The token at hand is renewed.
    Refresh,
    /// The user is sent to the browser, and the redirect is captured on `port`.
    Capture { port: u16 },
}

/// What a login begins with, given the token at hand.
pub open spec fn login_plan(token: Option<TokenView>, now: u64) -> Login {
    match next_step(token, now) {
        TokenStep::Use => Login::Ready,
        TokenStep::Refresh => Login::Refresh,
        TokenStep::Login => Login::Capture { port: LOGIN_PORT },
    }
}

/// Begins a login at the time `now`, in seconds since the Unix epoch.
/// Whatever token the login ends with, the caller stores it.
pub fn login_spotify(token: Option<&Token>, now: u64) -> (login: Login)
    ensures
        login == login_plan(token.deep_view(), now),
{
    match Token::next_step(token, now) {
        TokenStep::Use => Login::Ready,
        TokenStep::Refresh => Login::Refresh,
        TokenStep::Login => Login::Capture { port: LOGIN_PORT },
    }
}

/// The code that the client library reads from a redirect, for a login
/// that was begun with the given state.
pub uninterp spec fn response_code(url: Seq<char>, state: Seq<char>) -> Option<Seq<char>>;

/// `OAuthClient::parse_response_code`, called on a client whose login was
/// begun with `state`. What it returns depends on the redirect and on that
/// state alone; the contract names it and says no more.
#[verifier::external_body]
fn parse_response_code(url: &str, state: &str) -> (code: Option<String>)
    ensures
        code.deep_view() == response_code(url@, state@),
{
    let mut client = AuthCodeSpotify::default();
    client.oauth.state = state.to_owned();
    client.parse_response_code(url)
}

/// What a login makes of the code that was read from the redirect.
pub fn authorization_code(code: Option<String>) -> (result: Result<String, AuthError>)
    ensures
        match code {
            Some(c) => result == Ok::<_, AuthError>(c),
            None => result == Err::<String, _>(AuthError::ResponseCode),
        },
{
    match code {
        Some(c) => Ok(c),
        None => Err(AuthError::ResponseCode),
    }
}

/// The code that buys the token of a login, read from the redirect that
/// was captured. `state` is the state that the login was begun with.
pub fn get_token_auto(captured: Result<String, ()>, state: &str) -> (result: Result<
    String,
    AuthError,
>)
    ensures
        match captured {
            Err(_) => result == Err::<String, _>(AuthError::NoRedirect),
            Ok(url) => match response_code(url@, state@) {
                Some(code) => result matches Ok(c) && c@ == code,
                None => result == Err::<String, _>(AuthError::ResponseCode),
            },
        },
{
    match captured {
        Err(_) => Err(AuthError::NoRedirect),
        Ok(url) => authorization_code(parse_response_code(url.as_str(), state)),
    }
}

/// What a login ends with, given what the provider made of the code.
pub fn token_requested(outcome: Result<(), ClientError>) -> (result: Result<(), AuthError>)
    ensures
        match outcome {
            Ok(_) => result is Ok,
            Err(e) => result == Err::<(), _>(AuthError::Provider(e)),
        },
{
    match outcome {
        Ok(_) => Ok(()),
        Err(e) => Err(AuthError::Provider(e)),
    }
}

} // verus!
