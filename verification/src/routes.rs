//! What the requests of the platform and of the dashboard carry, how they are
//! decided, and how their failures are answered.

use vstd::prelude::*;
use vstd::string::StringExecFns;
use crate::bigcommerce::Claims;
use crate::bigcommerce::store_hash_of;
use crate::status::STATUS_INTERNAL_SERVER_ERROR;
use crate::status::STATUS_UNAUTHORIZED;

verus! {

/// What the platform sends when a store installs the app.
#[derive(Clone, Debug, PartialEq, Eq)]
pub struct InstallQuery {
    pub code: String,
    pub scope: String,
    pub context: String,
}

/// What the platform sends when a store loads or removes the app.
#[derive(Clone, Debug, PartialEq, Eq)]
pub struct LoadQuery {
    pub signed_payload_jwt: String,
}

/// Why an installation failed.
#[derive(Clone, Copy, Debug, PartialEq, Eq, Structural)]
pub enum InstallError {
    /// The platform did not accept the code of the installation.
    InvalidCredentials,
    UnexpectedError,
}

/// Why loading or removing the app failed.
#[derive(Clone, Copy, Debug, PartialEq, Eq, Structural)]
pub enum LoadError {
    /// The user who removes the app is not the owner of the store.
    NotStoreOwnerError,
    /// The payload of the platform does not hold.
    InvalidCredentials,
    UnexpectedError,
}

/// Why the configuration of a widget could not be read or written.
#[derive(Clone, Copy, Debug, PartialEq, Eq, Structural)]
pub enum ConfigurationError {
    UnexpectedError,
}

/// Why a widget could not be published or removed.
#[derive(Clone, Copy, Debug, PartialEq, Eq, Structural)]
pub enum PublishError {
    UnexpectedError,
}

/// Why a payment could not be started.
#[derive(Clone, Copy, Debug, PartialEq, Eq, Structural)]
pub enum PayError {
    UnexpectedError,
}

impl InstallError {
    /// The status that answers the failure.
    pub open spec fn status(self) -> u16 {
        match self {
            InstallError::InvalidCredentials => STATUS_UNAUTHORIZED,
            InstallError::UnexpectedError => STATUS_INTERNAL_SERVER_ERROR,
        }
    }

    /// The status that answers the failure.
    pub fn status_code(&self) -> (status: u16)
        ensures
            status == self.status(),
    {
        match self {
            InstallError::InvalidCredentials => STATUS_UNAUTHORIZED,
            InstallError::UnexpectedError => STATUS_INTERNAL_SERVER_ERROR,
        }
    }
}

impl LoadError {
    /// The status that answers the failure.
    pub open spec fn status(self) -> u16 {
        match self {
            LoadError::NotStoreOwnerError => STATUS_UNAUTHORIZED,
            LoadError::InvalidCredentials => STATUS_UNAUTHORIZED,
            LoadError::UnexpectedError => STATUS_INTERNAL_SERVER_ERROR,
        }
    }

    /// The status that answers the failure.
    pub fn status_code(&self) -> (status: u16)
        ensures
            status == self.status(),
    {
        match self {
            LoadError::NotStoreOwnerError | LoadError::InvalidCredentials => STATUS_UNAUTHORIZED,
            LoadError::UnexpectedError => STATUS_INTERNAL_SERVER_ERROR,
        }
    }

    /// The words of the failure, where it has words of its own.
    pub fn message(&self) -> (words: Option<&'static str>)
        ensures
            match self {
                LoadError::NotStoreOwnerError => words == Some("Not store owner."),
                LoadError::InvalidCredentials => words == Some("Invalid credentials."),
                LoadError::UnexpectedError => words is None,
            },
    {
        match self {
            LoadError::NotStoreOwnerError => Some("Not store owner."),
            LoadError::InvalidCredentials => Some("Invalid credentials."),
            LoadError::UnexpectedError => None,
        }
    }
}

impl ConfigurationError {
    /// The status that answers the failure.
    pub fn status_code(&self) -> (status: u16)
        ensures
            status == STATUS_INTERNAL_SERVER_ERROR,
    {
        STATUS_INTERNAL_SERVER_ERROR
    }
}

impl PublishError {
    /// The status that answers the failure.
    pub fn status_code(&self) -> (status: u16)
        ensures
            status == STATUS_INTERNAL_SERVER_ERROR,
    {
        STATUS_INTERNAL_SERVER_ERROR
    }
}

impl PayError {
    /// The status that answers the failure.
    pub fn status_code(&self) -> (status: u16)
        ensures
            status == STATUS_INTERNAL_SERVER_ERROR,
    {
        STATUS_INTERNAL_SERVER_ERROR
    }
}

/// The address of the dashboard of a store, with the token that signs the
/// store in: `<base>/dashboard/?token=<token>&store-id=<store hash>`.
pub open spec fn dashboard_url_text(
    base_url: Seq<char>,
    token: Seq<char>,
    store_hash: Seq<char>,
) -> Seq<char> {
    base_url + "/dashboard/?token="@ + token + "&store-id="@ + store_hash
}

/// The address of the dashboard of a store, with the token that signs the
/// store in.
pub fn generate_dashboard_url(base_url: &str, token: &str, store_hash: &str) -> (url: String)
    ensures
        url@ == dashboard_url_text(base_url@, token@, store_hash@),
{
    let mut url = base_url.to_owned();
    url.append("/dashboard/?token=");
    url.append(token);
    url.append("&store-id=");
    url.append(store_hash);
    url
}

/// The store that claims speak of when the app is loaded; claims that name
/// no store fail unexpectedly.
pub fn store_to_load(claims: &Claims) -> (store_hash: Result<&str, LoadError>)
    ensures
        match store_hash {
            Ok(hash) => store_hash_of(claims.sub@) == Some(hash@),
            Err(error) => store_hash_of(claims.sub@) is None && error
                == LoadError::UnexpectedError,
        },
{
    match claims.get_store_hash() {
        Ok(hash) => Ok(hash),
        Err(_) => Err(LoadError::UnexpectedError),
    }
}

/// The store that is marked as uninstalled when the app is removed. Only the
/// owner of a store removes the app; claims that name no store fail
/// unexpectedly.
pub fn store_to_uninstall(claims: &Claims) -> (store_hash: Result<&str, LoadError>)
    ensures
        match store_hash {
            Ok(hash) => claims.owner.same_as(&claims.user) && store_hash_of(claims.sub@) == Some(
                hash@,
            ),
            Err(error) => error == if !claims.owner.same_as(&claims.user) {
                LoadError::NotStoreOwnerError
            } else {
                LoadError::UnexpectedError
            } && (claims.owner.same_as(&claims.user) ==> store_hash_of(claims.sub@) is None),
        },
{
    if !claims.is_owner() {
        return Err(LoadError::NotStoreOwnerError);
    }
    store_to_load(claims)
}

} // verus!
