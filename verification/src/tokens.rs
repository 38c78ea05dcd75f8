//! The token store: the credentials held in memory and what has to happen
//! on disk when they change. The functions update the record in memory and
//! return the disk action; the caller performs it and ignores its failure.

use std::path::PathBuf;
use vstd::prelude::*;

verus! {

/// `PathBuf` of std: the path of the token file is carried through as it
/// was given, and nothing here looks inside it.
#[verifier::external_type_specification]
#[verifier::external_body]
pub struct ExPathBuf(PathBuf);

/// Mathematical value of [`AuthTokens`].
pub struct TokenRecord {
    pub access_token: Option<Seq<char>>,
    pub refresh_token: Option<Seq<char>>,
    pub user_data: Option<Seq<char>>,
}

impl TokenRecord {
    /// The record with all three fields absent.
    pub open spec fn empty() -> TokenRecord {
        TokenRecord { access_token: None, refresh_token: None, user_data: None }
    }

    /// The record that holds these three values.
    pub open spec fn of(access: Seq<char>, refresh: Seq<char>, user: Seq<char>) -> TokenRecord {
        TokenRecord {
            access_token: Some(access),
            refresh_token: Some(refresh),
            user_data: Some(user),
        }
    }
}

/// The stored credentials. Each field may be absent.
#[derive(Debug)]
pub struct AuthTokens {
    pub access_token: Option<String>,
    pub refresh_token: Option<String>,
    pub user_data: Option<String>,
}

impl View for AuthTokens {
    type V = TokenRecord;

    open spec fn view(&self) -> TokenRecord {
        TokenRecord {
            access_token: self.access_token.deep_view(),
            refresh_token: self.refresh_token.deep_view(),
            user_data: self.user_data.deep_view(),
        }
    }
}

/// A copy of an optional text.
fn copy_field(field: &Option<String>) -> (copy: Option<String>)
    ensures
        copy.deep_view() == field.deep_view(),
{
    match field {
        Some(text) => Some(text.clone()),
        None => None,
    }
}

impl Clone for AuthTokens {
    fn clone(&self) -> (copy: AuthTokens)
        ensures
            copy@ == self@,
    {
        AuthTokens {
            access_token: copy_field(&self.access_token),
            refresh_token: copy_field(&self.refresh_token),
            user_data: copy_field(&self.user_data),
        }
    }
}

impl AuthTokens {
    /// The tokens with all three fields absent.
    pub fn empty() -> (tokens: AuthTokens)
        ensures
            tokens@ == TokenRecord::empty(),
    {
        AuthTokens { access_token: None, refresh_token: None, user_data: None }
    }
}

/// What has to happen to the token file.
#[derive(Debug)]
pub enum DiskAction {
    /// Nothing: the store has no file.
    Nothing,
    /// Create the directory of `path` if it is missing and write `tokens`
    /// to `path`, replacing what is there.
    Write { path: PathBuf, tokens: AuthTokens },
    /// Remove the file at `path`.
    Remove { path: PathBuf },
}

/// Mathematical value of a [`DiskAction`].
pub enum DiskEffect {
    Nothing,
    Write { path: PathBuf, tokens: TokenRecord },
    Remove { path: PathBuf },
}

impl View for DiskAction {
    type V = DiskEffect;

    open spec fn view(&self) -> DiskEffect {
        match self {
            DiskAction::Nothing => DiskEffect::Nothing,
            DiskAction::Write { path, tokens } => DiskEffect::Write { path: *path, tokens: tokens@ },
            DiskAction::Remove { path } => DiskEffect::Remove { path: *path },
        }
    }
}

/// Mathematical value of an [`AppState`].
pub struct StoreState {
    pub tokens: TokenRecord,
    pub auth_path: Option<PathBuf>,
}

impl StoreState {
    /// What writing `tokens` means for a store with this path.
    pub open spec fn save(self, tokens: TokenRecord) -> DiskEffect {
        match self.auth_path {
            Some(path) => DiskEffect::Write { path, tokens },
            None => DiskEffect::Nothing,
        }
    }

    /// What removing the file means for a store with this path.
    pub open spec fn clear(self) -> DiskEffect {
        match self.auth_path {
            Some(path) => DiskEffect::Remove { path },
            None => DiskEffect::Nothing,
        }
    }

    /// The store after these three values were set.
    pub open spec fn with_tokens(self, access: Seq<char>, refresh: Seq<char>, user: Seq<char>)
        -> StoreState {
        StoreState { tokens: TokenRecord::of(access, refresh, user), auth_path: self.auth_path }
    }

    /// The store after the tokens were cleared.
    pub open spec fn without_tokens(self) -> StoreState {
        StoreState { tokens: TokenRecord::empty(), auth_path: self.auth_path }
    }
}

/// The token store: the tokens in memory and the path of the file that
/// mirrors them, if the platform gave one. The functions that change it take
/// `&mut`, so no reader sees a record of which only some fields are updated.
pub struct AppState {
    tokens: AuthTokens,
    auth_path: Option<PathBuf>,
}

impl View for AppState {
    type V = StoreState;

    closed spec fn view(&self) -> StoreState {
        StoreState { tokens: self.tokens@, auth_path: self.auth_path }
    }
}

/// `PathBuf::clone` of std: the copy is the same path.
#[verifier::external_body]
fn clone_path(path: &PathBuf) -> (copy: PathBuf)
    ensures
        copy == *path,
{
    path.clone()
}

impl AppState {
    /// A store that holds `tokens` and mirrors them at `auth_path`.
    pub fn new(tokens: AuthTokens, auth_path: Option<PathBuf>) -> (state: AppState)
        ensures
            state@ == (StoreState { tokens: tokens@, auth_path }),
    {
        AppState { tokens, auth_path }
    }

    /// The tokens to start with, given what reading the token file gave:
    /// a file that is missing or cannot be parsed (`None`) stands for
    /// tokens that are all absent, never for an error.
    pub fn load_from_disk(loaded: Option<AuthTokens>) -> (tokens: AuthTokens)
        ensures
            tokens@ == match loaded {
                Some(found) => found@,
                None => TokenRecord::empty(),
            },
    {
        match loaded {
            Some(found) => found,
            None => AuthTokens::empty(),
        }
    }

    /// The path of the token file.
    pub fn auth_path(&self) -> (path: &Option<PathBuf>)
        ensures
            *path == self@.auth_path,
    {
        &self.auth_path
    }

    /// A copy of the tokens in memory.
    pub fn tokens(&self) -> (tokens: AuthTokens)
        ensures
            tokens@ == self@.tokens,
    {
        self.tokens.clone()
    }

    /// The disk action that saves `tokens`: a write to the token file, or
    /// nothing for a store without a file.
    pub fn save_to_disk(&self, tokens: &AuthTokens) -> (action: DiskAction)
        ensures
            action@ == self@.save(tokens@),
    {
        match &self.auth_path {
            Some(path) => DiskAction::Write { path: clone_path(path), tokens: tokens.clone() },
            None => DiskAction::Nothing,
        }
    }

    /// The disk action that forgets the saved tokens: the removal of the
    /// token file, or nothing for a store without a file.
    pub fn clear_from_disk(&self) -> (action: DiskAction)
        ensures
            action@ == self@.clear(),
    {
        match &self.auth_path {
            Some(path) => DiskAction::Remove { path: clone_path(path) },
            None => DiskAction::Nothing,
        }
    }
}

/// The access token, if one is stored.
pub fn get_token(state: &AppState) -> (token: Option<String>)
    ensures
        token.deep_view() == state@.tokens.access_token,
{
    copy_field(&state.tokens.access_token)
}

/// The refresh token, if one is stored.
pub fn get_refresh_token(state: &AppState) -> (token: Option<String>)
    ensures
        token.deep_view() == state@.tokens.refresh_token,
{
    copy_field(&state.tokens.refresh_token)
}

/// The user data, if any is stored.
pub fn get_user(state: &AppState) -> (user: Option<String>)
    ensures
        user.deep_view() == state@.tokens.user_data,
{
    copy_field(&state.tokens.user_data)
}

/// Stores the three values in memory, all at once, and returns the disk
/// action that saves them.
pub fn set_tokens(
    state: &mut AppState,
    access_token: String,
    refresh_token: String,
    user_data: String,
) -> (action: DiskAction)
    ensures
        final(state)@ == old(state)@.with_tokens(access_token@, refresh_token@, user_data@),
        action@ == old(state)@.save(TokenRecord::of(access_token@, refresh_token@, user_data@)),
{
    state.tokens = AuthTokens {
        access_token: Some(access_token),
        refresh_token: Some(refresh_token),
        user_data: Some(user_data),
    };
    state.save_to_disk(&state.tokens)
}

/// Forgets the three values in memory, all at once, and returns the disk
/// action that removes the saved copy.
pub fn clear_tokens(state: &mut AppState) -> (action: DiskAction)
    ensures
        final(state)@ == old(state)@.without_tokens(),
        action@ == old(state)@.clear(),
{
    state.tokens = AuthTokens::empty();
    state.clear_from_disk()
}

/// After the tokens were set, each getter gives the value that was set;
/// after they were cleared, each of the three fields is absent. The path of
/// the token file is the same throughout.
pub proof fn law_token_round_trip(
    s: StoreState,
    access: Seq<char>,
    refresh: Seq<char>,
    user: Seq<char>,
)
    ensures
        s.with_tokens(access, refresh, user).tokens.access_token == Some(access),
        s.with_tokens(access, refresh, user).tokens.refresh_token == Some(refresh),
        s.with_tokens(access, refresh, user).tokens.user_data == Some(user),
        s.without_tokens().tokens.access_token is None,
        s.without_tokens().tokens.refresh_token is None,
        s.without_tokens().tokens.user_data is None,
        s.with_tokens(access, refresh, user).without_tokens() == s.without_tokens(),
        s.with_tokens(access, refresh, user).auth_path == s.auth_path,
        s.without_tokens().auth_path == s.auth_path,
{
}

} // verus!
