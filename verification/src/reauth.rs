//! The token of the streaming account: what is kept of it between runs,
//! and how it is brought back at startup.

use vstd::prelude::*;
use vstd::string::StringExecFns;
use crate::scopes::{get_scopes, lemma_scopes_differ, scope_names};

verus! {

/// An access token with what is needed to renew it.
#[derive(Debug, PartialEq, Eq)]
pub struct Token {
    /// What is sent along with a remote call. A token that was not yet
    /// granted or renewed has none: the text is empty.
    pub access_token: String,
    /// When the access token ends, in seconds since the Unix epoch.
    pub expires_at: Option<u64>,
    /// What renews the access token without a new login.
    pub refresh_token: Option<String>,
    /// The permissions that were granted.
    pub scopes: Vec<String>,
}

/// What the contracts see of [`Token`].
pub struct TokenView {
    pub access_token: Seq<char>,
    pub expires_at: Option<u64>,
    pub refresh_token: Option<Seq<char>>,
    pub scopes: Seq<Seq<char>>,
}

impl View for Token {
    type V = TokenView;

    open spec fn view(&self) -> TokenView {
        TokenView {
            access_token: self.access_token@,
            expires_at: self.expires_at,
            refresh_token: self.refresh_token.deep_view(),
            scopes: self.scopes.deep_view(),
        }
    }
}

impl DeepView for Token {
    type V = TokenView;

    open spec fn deep_view(&self) -> TokenView {
        self@
    }
}

/// The scopes of a token form a set: none of them occurs twice.
pub open spec fn well_formed(token: TokenView) -> bool {
    token.scopes.no_duplicates()
}

/// The seconds before its end from which on a token counts as ended: the
/// time that a remote call may take.
pub const EXPIRY_MARGIN: u64 = 10;

/// The token has ended, or ends within the margin. A token without an end
/// counts as ended.
pub open spec fn expired(token: TokenView, now: u64) -> bool {
    match token.expires_at {
        Some(at) => now + EXPIRY_MARGIN >= at,
        None => true,
    }
}

/// The token can be sent along with a remote call.
pub open spec fn usable(token: TokenView, now: u64) -> bool {
    token.access_token.len() > 0 && !expired(token, now)
}

/// The token can be renewed without a new login.
pub open spec fn renewable(token: TokenView) -> bool {
    token.refresh_token is Some
}

/// How a token that can be used is come by.
#[derive(Clone, Copy, Debug, PartialEq, Eq)]
pub enum TokenStep {
    /// The token at hand can be used.
    Use,
    /// The token at hand is to be renewed.
    Refresh,
    /// The user has to log in.
    Login,
}

/// The step that leads from the token at hand, if there is one, to a
/// token that can be used.
pub open spec fn next_step(token: Option<TokenView>, now: u64) -> TokenStep {
    match token {
        Some(t) => if usable(t, now) {
            TokenStep::Use
        } else if renewable(t) {
            TokenStep::Refresh
        } else {
            TokenStep::Login
        },
        None => TokenStep::Login,
    }
}

impl Token {
    /// Whether the token has ended at the time `now`, or ends within the margin.
    pub fn is_expired(&self, now: u64) -> (yes: bool)
        ensures
            yes == expired(self@, now),
    {
        match self.expires_at {
            Some(at) => at <= EXPIRY_MARGIN || now >= at - EXPIRY_MARGIN,
            None => true,
        }
    }

    /// The step that leads from `token` to a token that can be used.
    pub fn next_step(token: Option<&Token>, now: u64) -> (step: TokenStep)
        ensures
            step == next_step(token.deep_view(), now),
    {
        match token {
            Some(t) => if !t.access_token.as_str().is_empty() && !t.is_expired(now) {
                TokenStep::Use
            } else if t.refresh_token.is_some() {
                TokenStep::Refresh
            } else {
                TokenStep::Login
            },
            None => TokenStep::Login,
        }
    }
}

/// A value of the stored token record.
#[derive(Debug, PartialEq, Eq)]
pub enum StoredValue {
    Text(String),
    /// Anything that is no text.
    Other,
}

/// What the store holds under the key of the token, as far as it is read
/// at startup.
#[derive(Debug, PartialEq, Eq)]
pub struct TokenRecord {
    /// The value of the field `refresh_token`, if the record has that field.
    pub refresh_token: Option<StoredValue>,
}

/// What the contracts see of [`StoredValue`].
pub enum StoredValueView {
    Text(Seq<char>),
    Other,
}

impl View for StoredValue {
    type V = StoredValueView;

    open spec fn view(&self) -> StoredValueView {
        match self {
            StoredValue::Text(text) => StoredValueView::Text(text@),
            StoredValue::Other => StoredValueView::Other,
        }
    }
}

impl DeepView for StoredValue {
    type V = StoredValueView;

    open spec fn deep_view(&self) -> StoredValueView {
        self@
    }
}

/// What the contracts see of [`TokenRecord`].
pub struct TokenRecordView {
    pub refresh_token: Option<StoredValueView>,
}

impl View for TokenRecord {
    type V = TokenRecordView;

    open spec fn view(&self) -> TokenRecordView {
        TokenRecordView { refresh_token: self.refresh_token.deep_view() }
    }
}

impl DeepView for TokenRecord {
    type V = TokenRecordView;

    open spec fn deep_view(&self) -> TokenRecordView {
        self@
    }
}

/// Why no token could be brought back.
#[derive(Debug, PartialEq, Eq)]
pub enum ReauthError {
    TokenError(String),
}

/// The token that a stored refresh token is brought back as: it has no
/// access token yet, it ends at once, and it asks for the scopes of the player.
pub open spec fn restored(refresh_token: Option<Seq<char>>, now: u64) -> TokenView {
    TokenView {
        access_token: Seq::empty(),
        expires_at: Some(now),
        refresh_token,
        scopes: scope_names(),
    }
}

/// What startup makes of the stored record: the token to renew, or the
/// text that says why there is none.
pub open spec fn reauth(record: Option<TokenRecordView>, now: u64) -> Result<TokenView, Seq<char>> {
    match record {
        None => Err("No Token Present"@),
        Some(r) => match r.refresh_token {
            None => Err("Token store doesn't contain a refresh token"@),
            Some(StoredValueView::Text(text)) => Ok(restored(Some(text), now)),
            Some(StoredValueView::Other) => Ok(restored(None, now)),
        },
    }
}

/// Brings the token back from the stored record at the time `now`. The
/// token that comes back holds the stored refresh token and nothing else
/// of value: the caller renews it before it makes any remote call, and
/// stores what the renewal gives.
pub fn reauth_spotify(record: Option<TokenRecord>, now: u64) -> (token: Result<Token, ReauthError>)
    ensures
        match reauth(record.deep_view(), now) {
            Ok(expected) => token matches Ok(t) && t@ == expected && well_formed(t@),
            Err(why) => token matches Err(ReauthError::TokenError(text)) && text@ == why,
        },
{
    let record = match record {
        Some(record) => record,
        None => {
            return Err(ReauthError::TokenError(String::from_str("No Token Present")));
        },
    };
    let refresh_token = match record.refresh_token {
        Some(StoredValue::Text(text)) => Some(text),
        Some(StoredValue::Other) => None,
        None => {
            return Err(
                ReauthError::TokenError(
                    String::from_str("Token store doesn't contain a refresh token"),
                ),
            );
        },
    };
    Ok(
        Token {
            access_token: String::new(),
            expires_at: Some(now),
            refresh_token,
            scopes: get_scopes(),
        },
    )
}

/// A token that was brought back with a refresh token cannot be used as
/// it is, at no time, and is renewed without a new login.
pub proof fn lemma_restored_token_is_renewed(refresh_token: Seq<char>, restored_at: u64, now: u64)
    ensures
        well_formed(restored(Some(refresh_token), restored_at)),
        !usable(restored(Some(refresh_token), restored_at), now),
        next_step(Some(restored(Some(refresh_token), restored_at)), now) == TokenStep::Refresh,
{
    lemma_scopes_differ();
}

} // verus!
