use swu_app::bigcommerce::publish_request;
use swu_app::bigcommerce::store_hash_from_context;
use swu_app::bigcommerce::APIToken;
use swu_app::bigcommerce::AppScript;
use swu_app::bigcommerce::BCClaims;
use swu_app::bigcommerce::BCUser;
use swu_app::bigcommerce::Claims;
use swu_app::bigcommerce::ContextError;
use swu_app::bigcommerce::GetResponse;
use swu_app::bigcommerce::HttpAPI;
use swu_app::bigcommerce::ListResponse;
use swu_app::bigcommerce::OAuthResponse;
use swu_app::bigcommerce::PublishRequest;
use swu_app::bigcommerce::Script;
use swu_app::bigcommerce::User;

fn user(id: i32, email: &str) -> User {
    User { id, email: email.to_owned() }
}

fn script(uuid: &str, name: &str) -> GetResponse {
    GetResponse {
        uuid: uuid.to_owned(),
        api_client_id: "client".to_owned(),
        enabled: true,
        channel_id: 1,
        name: name.to_owned(),
    }
}

fn api() -> HttpAPI {
    HttpAPI::new(
        "https://api.example.com".to_owned(),
        "https://login.example.com".to_owned(),
        "client-id".to_owned(),
        "client-secret".to_owned(),
        "https://app.example.com/bigcommerce/install".to_owned(),
    )
}

#[test]
fn store_hash_follows_the_first_slash_of_the_context() {
    assert_eq!(store_hash_from_context("stores/test-store"), Ok("test-store"));
    assert_eq!(store_hash_from_context("stores/a/b"), Ok("a/b"));
    assert_eq!(store_hash_from_context("stores/"), Ok(""));
    assert_eq!(store_hash_from_context("test-store"), Err(ContextError::IncorrectFormat));
    assert_eq!(store_hash_from_context(""), Err(ContextError::IncorrectFormat));
    assert_eq!(
        ContextError::IncorrectFormat.message(),
        "Context did not have correct format"
    );
}

#[test]
fn claims_name_their_store_and_know_the_owner() {
    let claims = Claims {
        user: user(1, "owner@example.com"),
        owner: user(1, "owner@example.com"),
        sub: "stores/test-store".to_owned(),
    };
    assert_eq!(claims.get_store_hash(), Ok("test-store"));
    assert!(claims.is_owner());

    let other_id = Claims { user: user(2, "owner@example.com"), ..claims.clone() };
    assert!(!other_id.is_owner());
    let other_email = Claims { user: user(1, "staff@example.com"), ..claims.clone() };
    assert!(!other_email.is_owner());
    let no_store = Claims { sub: "test-store".to_owned(), ..claims };
    assert_eq!(no_store.get_store_hash(), Err(ContextError::IncorrectFormat));
}

#[test]
fn claims_go_by_both_of_their_names() {
    let claims: BCClaims = BCClaims {
        user: BCUser { id: 7, email: "a@example.com".to_owned() },
        owner: BCUser { id: 7, email: "a@example.com".to_owned() },
        sub: "stores/xyz".to_owned(),
    };
    assert_eq!(claims.get_store_hash(), Ok("xyz"));
    assert!(claims.is_owner());
}

#[test]
fn installation_grants_access_to_the_store_of_its_context() {
    let response = OAuthResponse {
        access_token: "token-1".to_owned(),
        scope: "store_v2_content".to_owned(),
        user: user(1, "owner@example.com"),
        context: "stores/test-store".to_owned(),
    };
    let store = response.get_bigcommerce_store().ok().expect("the context names a store");
    assert_eq!(store.get_store_hash(), "test-store");
    assert_eq!(store.get_access_token(), "token-1");

    let broken = OAuthResponse { context: "test-store".to_owned(), ..response };
    assert_eq!(broken.get_bigcommerce_store().err(), Some(ContextError::IncorrectFormat));

    let token = APIToken::new("h".to_owned(), "t".to_owned());
    assert_eq!((token.get_store_hash(), token.get_access_token()), ("h", "t"));
}

#[test]
fn first_script_of_a_name_is_found() {
    let list = ListResponse {
        data: vec![
            script("u1", "Other"),
            script("u2", "Stand With Ukraine"),
            script("u3", "Stand With Ukraine"),
        ],
    };
    assert_eq!(
        list.clone().try_get_script_with_name("Stand With Ukraine"),
        Some(script("u2", "Stand With Ukraine"))
    );
    assert_eq!(list.clone().try_get_script_with_name("Other"), Some(script("u1", "Other")));
    assert_eq!(list.try_get_script_with_name("stand with ukraine"), None);
    assert_eq!(ListResponse { data: Vec::new() }.try_get_script_with_name("Other"), None);
}

#[test]
fn existing_script_is_replaced_and_a_missing_one_created() {
    assert_eq!(
        publish_request(Some(script("u2", "Stand With Ukraine"))),
        PublishRequest::Update { script_uuid: "u2".to_owned() }
    );
    assert_eq!(publish_request(None), PublishRequest::Create);
}

#[test]
fn script_body_loads_the_script_in_the_footer() {
    let script = Script::new("name".to_owned(), "what for".to_owned(), "<script></script>".to_owned());
    assert_eq!(script.get_name(), "name");
    assert_eq!(script.get_description(), "what for");
    assert_eq!(script.get_html(), "<script></script>");
    let body = script.generate_script_body();
    assert_eq!(body.name, "name");
    assert_eq!(body.description, "what for");
    assert_eq!(body.html, "<script></script>");
    assert_eq!(body.kind, "script_tag");
    assert_eq!(body.load_method, "default");
    assert_eq!(body.location, "footer");
    assert_eq!(body.visibility, "storefront");
    assert_eq!(body.consent_category, "essential");
    assert!(body.auto_uninstall);
    assert!(body.enabled);
}

#[test]
fn routes_are_built_from_base_store_and_script() {
    let api = api();
    assert_eq!(api.get_oauth2_url(), "https://login.example.com/oauth2/token");
    assert_eq!(
        api.get_scripts_route("test-store"),
        "https://api.example.com/stores/test-store/v3/content/scripts"
    );
    assert_eq!(
        api.get_store_information_route("test-store"),
        "https://api.example.com/stores/test-store/v2/store"
    );
    assert_eq!(
        api.get_scripts_route_with_id("test-store", "u2"),
        "https://api.example.com/stores/test-store/v3/content/scripts/u2"
    );
    let list = ListResponse { data: vec![script("u1", "a"), script("u2", "b")] };
    assert_eq!(
        api.script_routes("s", &list),
        vec![
            "https://api.example.com/stores/s/v3/content/scripts/u1",
            "https://api.example.com/stores/s/v3/content/scripts/u2",
        ]
    );
    assert_eq!(api.script_routes("s", &ListResponse { data: Vec::new() }), Vec::<String>::new());
}

#[test]
fn installation_is_requested_in_the_name_of_the_app() {
    let request = api().oauth_install_request("code-1", "scope-1", "stores/test-store");
    assert_eq!(request.client_id, "client-id");
    assert_eq!(request.client_secret, "client-secret");
    assert_eq!(request.redirect_uri, "https://app.example.com/bigcommerce/install");
    assert_eq!(request.grant_type, "authorization_code");
    assert_eq!(request.code, "code-1");
    assert_eq!(request.scope, "scope-1");
    assert_eq!(request.context, "stores/test-store");
}

#[test]
fn main_script_carries_configuration_and_source() {
    let script = AppScript::new_main_script("{\"style\":\"blue\"}", "https://app.example.com");
    assert_eq!(script.get_name(), "Stand With Ukraine");
    assert_eq!(
        script.get_description(),
        "This script displays the stand with ukraine widget on your storefront. Configure it from the Stand With Ukraine app installed on your store."
    );
    assert_eq!(
        script.get_html(),
        "<script>window.SWU_CONFIG={\"style\":\"blue\"};</script><script src=\"https://app.example.com/widget/index.js\"></script>"
    );
}
