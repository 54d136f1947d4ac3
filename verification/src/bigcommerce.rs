//! What the shop platform tells about a store and its users, the scripts it
//! holds for a store, and where its interface is reached.

use vstd::prelude::*;
use vstd::string::StringExecFns;
use crate::text::after_first;
use crate::text::same_text;
use crate::text::text_after_first;

verus! {

/// Why a store could not be told from what the platform sent.
#[derive(Clone, Copy, Debug, PartialEq, Eq, Structural)]
pub enum ContextError {
    /// The context names no store after a slash.
    IncorrectFormat,
}

impl ContextError {
    /// The words of the error.
    pub open spec fn message_text(self) -> Seq<char> {
        "Context did not have correct format"@
    }

    /// The words of the error.
    pub fn message(&self) -> (words: String)
        ensures
            words@ == self.message_text(),
    {
        "Context did not have correct format".to_owned()
    }
}

/// The hash of the store that a context such as "stores/abc" names: what
/// follows its first slash.
pub open spec fn store_hash_of(context: Seq<char>) -> Option<Seq<char>> {
    text_after_first(context, '/')
}

/// The hash of the store that a context names, or the error that it names
/// none.
pub fn store_hash_from_context<'a>(context: &'a str) -> (store_hash: Result<&'a str, ContextError>)
    ensures
        match store_hash {
            Ok(hash) => store_hash_of(context@) == Some(hash@),
            Err(error) => store_hash_of(context@) is None && error
                == ContextError::IncorrectFormat,
        },
{
    match after_first(context, '/') {
        Some(hash) => Ok(hash),
        None => Err(ContextError::IncorrectFormat),
    }
}

/// A user of the platform.
#[derive(Clone, Debug, PartialEq, Eq)]
pub struct User {
    pub id: i32,
    pub email: String,
}

impl User {
    /// Whether two users are the same: same identifier, same email address.
    pub open spec fn same_as(&self, other: &User) -> bool {
        self.id == other.id && self.email@ == other.email@
    }

    /// Whether two users are the same.
    pub fn is_same_as(&self, other: &User) -> (same: bool)
        ensures
            same == self.same_as(other),
    {
        self.id == other.id && self.email == other.email
    }
}

/// What the platform asserts when it loads or removes the app: the user who
/// acts, the owner of the store, and the store as a context.
#[derive(Clone, Debug, PartialEq, Eq)]
pub struct Claims {
    pub user: User,
    pub owner: User,
    pub sub: String,
}

impl Claims {
    /// The hash of the store that the claims speak of.
    pub fn get_store_hash(&self) -> (store_hash: Result<&str, ContextError>)
        ensures
            match store_hash {
                Ok(hash) => store_hash_of(self.sub@) == Some(hash@),
                Err(error) => store_hash_of(self.sub@) is None && error
                    == ContextError::IncorrectFormat,
            },
    {
        store_hash_from_context(self.sub.as_str())
    }

    /// Whether the user who acts is the owner of the store.
    pub fn is_owner(&self) -> (owner: bool)
        ensures
            owner == self.owner.same_as(&self.user),
    {
        self.owner.is_same_as(&self.user)
    }
}

/// The access to the interface of the platform that one store has granted.
pub struct APIToken {
    store_hash: String,
    access_token: String,
}

impl APIToken {
    /// The hash of the store.
    pub closed spec fn store_hash_text(&self) -> Seq<char> {
        self.store_hash@
    }

    /// The token that grants the access.
    pub closed spec fn access_token_text(&self) -> Seq<char> {
        self.access_token@
    }

    /// The access to the store `store_hash` that `access_token` grants.
    pub fn new(store_hash: String, access_token: String) -> (token: Self)
        ensures
            token.store_hash_text() == store_hash@,
            token.access_token_text() == access_token@,
    {
        Self { store_hash, access_token }
    }

    /// The hash of the store.
    pub fn get_store_hash(&self) -> (store_hash: &str)
        ensures
            store_hash@ == self.store_hash_text(),
    {
        self.store_hash.as_str()
    }

    /// The token that grants the access.
    pub fn get_access_token(&self) -> (access_token: &str)
        ensures
            access_token@ == self.access_token_text(),
    {
        self.access_token.as_str()
    }
}

/// What the platform answers when a store installs the app.
#[derive(Clone, PartialEq, Eq)]
pub struct OAuthResponse {
    pub access_token: String,
    pub scope: String,
    pub user: User,
    pub context: String,
}

impl OAuthResponse {
    /// The access that the answer grants, to the store that its context
    /// names.
    pub fn get_bigcommerce_store(&self) -> (store: Result<APIToken, ContextError>)
        ensures
            match store {
                Ok(token) => store_hash_of(self.context@) == Some(token.store_hash_text())
                    && token.access_token_text() == self.access_token@,
                Err(error) => store_hash_of(self.context@) is None && error
                    == ContextError::IncorrectFormat,
            },
    {
        match store_hash_from_context(self.context.as_str()) {
            Ok(hash) => Ok(APIToken::new(hash.to_owned(), self.access_token.clone())),
            Err(error) => Err(error),
        }
    }
}

/// What the platform tells about a store.
#[derive(Clone, Debug, PartialEq, Eq)]
pub struct Information {
    pub secure_url: String,
}

/// The scripts that the platform holds for a store.
#[derive(Clone, Debug, PartialEq, Eq)]
pub struct ListResponse {
    pub data: Vec<GetResponse>,
}

/// A script as the platform holds it.
#[derive(Clone, Debug, PartialEq, Eq)]
pub struct GetResponse {
    pub uuid: String,
    pub api_client_id: String,
    pub enabled: bool,
    pub channel_id: i16,
    pub name: String,
}

/// Whether `i` is the first index of `scripts` whose script has the name
/// `name`.
pub open spec fn is_first_named(scripts: Seq<GetResponse>, name: Seq<char>, i: int) -> bool {
    &&& 0 <= i < scripts.len()
    &&& scripts[i].name@ == name
    &&& forall|j: int| 0 <= j < i ==> (#[trigger] scripts[j]).name@ != name
}

impl ListResponse {
    /// The first script with the name `name`, if there is one.
    pub fn try_get_script_with_name(self, name: &str) -> (found: Option<GetResponse>)
        ensures
            match found {
                Some(script) => exists|i: int|
                    is_first_named(self.data@, name@, i) && script == self.data@[i],
                None => forall|j: int|
                    0 <= j < self.data@.len() ==> (#[trigger] self.data@[j]).name@ != name@,
            },
    {
        let ghost all = self.data@;
        for script in it: self.data
            invariant
                it.seq() == all,
                forall|j: int| 0 <= j < it.index() ==> (#[trigger] all[j]).name@ != name@,
        {
            if same_text(script.name.as_str(), name) {
                assert(is_first_named(all, name@, it.index() as int));
                return Some(script);
            }
        }
        None
    }
}

/// What is asked of the platform for a store whose widget is published: to
/// replace the script it holds, or to create one.
#[derive(Clone, Debug, PartialEq, Eq)]
pub enum PublishRequest {
    /// Replace the script with this identifier.
    Update { script_uuid: String },
    /// Create a script.
    Create,
}

/// What to ask of the platform, given the script it already holds under the
/// name of the widget's script, if any.
pub fn publish_request(existing_script: Option<GetResponse>) -> (request: PublishRequest)
    ensures
        match existing_script {
            Some(script) => request == (PublishRequest::Update { script_uuid: script.uuid }),
            None => request == PublishRequest::Create,
        },
{
    match existing_script {
        Some(script) => PublishRequest::Update { script_uuid: script.uuid },
        None => PublishRequest::Create,
    }
}

/// A script that the app places on a storefront.
#[derive(Clone, Debug)]
pub struct Script {
    name: String,
    description: String,
    html: String,
}

/// What is sent to the platform to create or replace a script: the script
/// itself and how the storefront loads it.
#[derive(Clone, Debug, PartialEq, Eq)]
pub struct ScriptBody {
    pub name: String,
    pub description: String,
    pub html: String,
    pub kind: String,
    pub load_method: String,
    pub location: String,
    pub visibility: String,
    pub consent_category: String,
    pub auto_uninstall: bool,
    pub enabled: bool,
}

impl Script {
    /// The name of the script.
    pub closed spec fn name_text(&self) -> Seq<char> {
        self.name@
    }

    /// What the script is for.
    pub closed spec fn description_text(&self) -> Seq<char> {
        self.description@
    }

    /// The markup of the script.
    pub closed spec fn html_text(&self) -> Seq<char> {
        self.html@
    }

    /// The script with the given name, description and markup.
    pub fn new(name: String, description: String, html: String) -> (script: Self)
        ensures
            script.name_text() == name@,
            script.description_text() == description@,
            script.html_text() == html@,
    {
        Self { name, description, html }
    }

    /// The name of the script.
    pub fn get_name(&self) -> (name: &str)
        ensures
            name@ == self.name_text(),
    {
        self.name.as_str()
    }

    /// What the script is for.
    pub fn get_description(&self) -> (description: &str)
        ensures
            description@ == self.description_text(),
    {
        self.description.as_str()
    }

    /// The markup of the script.
    pub fn get_html(&self) -> (html: &str)
        ensures
            html@ == self.html_text(),
    {
        self.html.as_str()
    }

    /// The script that shows the widget on every storefront alike: the
    /// configuration, given written as JSON, and the script of the widget
    /// from `base_url`.
    pub fn new_main_script(configuration_json: &str, base_url: &str) -> (script: Self)
        ensures
            script.name_text() == "Stand With Ukraine"@,
            script.description_text()
                == "This script displays the stand with ukraine widget on your storefront. Configure it from the Stand With Ukraine app installed on your store."@,
            script.html_text() == "<script>window.SWU_CONFIG="@ + configuration_json@
                + ";</script><script src=\""@ + base_url@ + "/widget/index.js\"></script>"@,
    {
        let mut html = "<script>window.SWU_CONFIG=".to_owned();
        html.append(configuration_json);
        html.append(";</script><script src=\"");
        html.append(base_url);
        html.append("/widget/index.js\"></script>");
        Self {
            name: "Stand With Ukraine".to_owned(),
            description: "This script displays the stand with ukraine widget on your storefront. Configure it from the Stand With Ukraine app installed on your store.".to_owned(),
            html,
        }
    }

    /// Whether `body` asks for this script, loaded as an essential script tag
    /// in the footer of the storefront, enabled, and removed with the app.
    pub open spec fn is_body(&self, body: ScriptBody) -> bool {
        &&& body.name@ == self.name_text()
        &&& body.description@ == self.description_text()
        &&& body.html@ == self.html_text()
        &&& body.kind@ == "script_tag"@
        &&& body.load_method@ == "default"@
        &&& body.location@ == "footer"@
        &&& body.visibility@ == "storefront"@
        &&& body.consent_category@ == "essential"@
        &&& body.auto_uninstall
        &&& body.enabled
    }

    /// What is sent to the platform to create or replace the script.
    pub fn generate_script_body(&self) -> (body: ScriptBody)
        ensures
            self.is_body(body),
    {
        ScriptBody {
            name: self.name.clone(),
            description: self.description.clone(),
            html: self.html.clone(),
            kind: "script_tag".to_owned(),
            load_method: "default".to_owned(),
            location: "footer".to_owned(),
            visibility: "storefront".to_owned(),
            consent_category: "essential".to_owned(),
            auto_uninstall: true,
            enabled: true,
        }
    }
}

/// Where the interface of the platform is reached, and what the app is to it.
#[derive(Clone, PartialEq, Eq)]
pub struct HttpAPI {
    pub api_base_url: String,
    pub login_base_url: String,
    pub client_id: String,
    pub client_secret: String,
    pub install_redirect_uri: String,
}

/// What is sent to the platform to exchange the code of an installation for
/// the access to the store.
#[derive(Clone, PartialEq, Eq)]
pub struct OAuthInstallRequest {
    pub client_id: String,
    pub client_secret: String,
    pub redirect_uri: String,
    pub grant_type: String,
    pub code: String,
    pub scope: String,
    pub context: String,
}

/// The address that grants access: `<login base>/oauth2/token`.
pub open spec fn oauth2_url_text(login_base_url: Seq<char>) -> Seq<char> {
    login_base_url + "/oauth2/token"@
}

/// The address of the scripts of a store:
/// `<api base>/stores/<store hash>/v3/content/scripts`.
pub open spec fn scripts_route_text(api_base_url: Seq<char>, store_hash: Seq<char>) -> Seq<char> {
    api_base_url + "/stores/"@ + store_hash + "/v3/content/scripts"@
}

/// The address of what the platform tells about a store:
/// `<api base>/stores/<store hash>/v2/store`.
pub open spec fn store_information_route_text(
    api_base_url: Seq<char>,
    store_hash: Seq<char>,
) -> Seq<char> {
    api_base_url + "/stores/"@ + store_hash + "/v2/store"@
}

/// The address of one script of a store: that of its scripts, a slash, and
/// the identifier of the script.
pub open spec fn script_route_text(
    api_base_url: Seq<char>,
    store_hash: Seq<char>,
    script_id: Seq<char>,
) -> Seq<char> {
    scripts_route_text(api_base_url, store_hash) + seq!['/'] + script_id
}

impl HttpAPI {
    /// The interface reached at the given addresses, for the app with the
    /// given identifier and secret.
    pub fn new(
        api_base_url: String,
        login_base_url: String,
        client_id: String,
        client_secret: String,
        install_redirect_uri: String,
    ) -> (api: Self)
        ensures
            api.api_base_url == api_base_url,
            api.login_base_url == login_base_url,
            api.client_id == client_id,
            api.client_secret == client_secret,
            api.install_redirect_uri == install_redirect_uri,
    {
        Self { api_base_url, login_base_url, client_id, client_secret, install_redirect_uri }
    }

    /// The address that grants access.
    pub fn get_oauth2_url(&self) -> (url: String)
        ensures
            url@ == oauth2_url_text(self.login_base_url@),
    {
        let mut url = self.login_base_url.clone();
        url.append("/oauth2/token");
        url
    }

    /// The address of the scripts of a store.
    pub fn get_scripts_route(&self, store_hash: &str) -> (url: String)
        ensures
            url@ == scripts_route_text(self.api_base_url@, store_hash@),
    {
        let mut url = self.api_base_url.clone();
        url.append("/stores/");
        url.append(store_hash);
        url.append("/v3/content/scripts");
        url
    }

    /// The address of what the platform tells about a store.
    pub fn get_store_information_route(&self, store_hash: &str) -> (url: String)
        ensures
            url@ == store_information_route_text(self.api_base_url@, store_hash@),
    {
        let mut url = self.api_base_url.clone();
        url.append("/stores/");
        url.append(store_hash);
        url.append("/v2/store");
        url
    }

    /// The address of one script of a store.
    pub fn get_scripts_route_with_id(&self, store_hash: &str, script_id: &str) -> (url: String)
        ensures
            url@ == script_route_text(self.api_base_url@, store_hash@, script_id@),
    {
        let mut url = self.get_scripts_route(store_hash);
        url.push('/');
        url.append(script_id);
        assert(url@ =~= script_route_text(self.api_base_url@, store_hash@, script_id@));
        url
    }

    /// The addresses of all scripts of a store, in the order the platform
    /// lists them: what is removed when the widget is.
    pub fn script_routes(&self, store_hash: &str, scripts: &ListResponse) -> (urls: Vec<String>)
        ensures
            urls@.len() == scripts.data@.len(),
            forall|i: int|
                0 <= i < scripts.data@.len() ==> (#[trigger] urls@[i])@ == script_route_text(
                    self.api_base_url@,
                    store_hash@,
                    scripts.data@[i].uuid@,
                ),
    {
        let mut urls: Vec<String> = Vec::new();
        let mut i: usize = 0;
        while i < scripts.data.len()
            invariant
                i <= scripts.data.len(),
                urls@.len() == i,
                forall|k: int|
                    0 <= k < i ==> (#[trigger] urls@[k])@ == script_route_text(
                        self.api_base_url@,
                        store_hash@,
                        scripts.data@[k].uuid@,
                    ),
            decreases scripts.data.len() - i,
        {
            urls.push(self.get_scripts_route_with_id(store_hash, scripts.data[i].uuid.as_str()));
            i += 1;
        }
        urls
    }

    /// Whether `request` exchanges `code` for the access to the store of
    /// `context`, in the name of this app.
    pub open spec fn is_install_request(
        &self,
        request: OAuthInstallRequest,
        code: Seq<char>,
        scope: Seq<char>,
        context: Seq<char>,
    ) -> bool {
        &&& request.client_id@ == self.client_id@
        &&& request.client_secret@ == self.client_secret@
        &&& request.redirect_uri@ == self.install_redirect_uri@
        &&& request.grant_type@ == "authorization_code"@
        &&& request.code@ == code
        &&& request.scope@ == scope
        &&& request.context@ == context
    }

    /// What is sent to the platform to exchange the code of an installation
    /// for the access to the store.
    pub fn oauth_install_request(&self, code: &str, scope: &str, context: &str) -> (request:
        OAuthInstallRequest)
        ensures
            self.is_install_request(request, code@, scope@, context@),
    {
        OAuthInstallRequest {
            client_id: self.client_id.clone(),
            client_secret: self.client_secret.clone(),
            redirect_uri: self.install_redirect_uri.clone(),
            grant_type: "authorization_code".to_owned(),
            code: code.to_owned(),
            scope: scope.to_owned(),
            context: context.to_owned(),
        }
    }
}

/// Another name of [`User`].
pub type BCUser = User;

/// Another name of [`Claims`].
pub type BCClaims = Claims;

/// Another name of [`OAuthResponse`].
pub type BCOAuthResponse = OAuthResponse;

/// Another name of [`APIToken`].
pub type BCStore = APIToken;

/// Another name of [`ListResponse`].
pub type BCListScriptsResponse = ListResponse;

/// Another name of [`GetResponse`].
pub type BCScript = GetResponse;

/// Another name of [`Information`].
pub type BCStoreInformationResponse = Information;

/// Another name of [`Script`].
pub type AppScript = Script;

/// Another name of [`HttpAPI`].
pub type BCClient = HttpAPI;

} // verus!
