use swu_app::bigcommerce::Claims;
use swu_app::bigcommerce::User;
use swu_app::routes::generate_dashboard_url;
use swu_app::routes::store_to_load;
use swu_app::routes::store_to_uninstall;
use swu_app::routes::ConfigurationError;
use swu_app::routes::InstallError;
use swu_app::routes::LoadError;
use swu_app::routes::PayError;
use swu_app::routes::PublishError;

fn claims(user: i32, owner: i32, sub: &str) -> Claims {
    Claims {
        user: User { id: user, email: "owner@example.com".to_owned() },
        owner: User { id: owner, email: "owner@example.com".to_owned() },
        sub: sub.to_owned(),
    }
}

#[test]
fn should_generate_dashboard_url() {
    let dashboard_url = generate_dashboard_url("test.com", "test.test.test", "test-store");

    assert_eq!(
        dashboard_url,
        "test.com/dashboard/?token=test.test.test&store-id=test-store"
    )
}

#[test]
fn dashboard_url_takes_its_parts_as_they_are() {
    assert_eq!(generate_dashboard_url("", "", ""), "/dashboard/?token=&store-id=");
    assert_eq!(
        generate_dashboard_url("https://a.b/", "t&x", "s/1"),
        "https://a.b//dashboard/?token=t&x&store-id=s/1"
    );
}

#[test]
fn failures_are_answered_with_their_status() {
    assert_eq!(InstallError::InvalidCredentials.status_code(), 401);
    assert_eq!(InstallError::UnexpectedError.status_code(), 500);
    assert_eq!(LoadError::NotStoreOwnerError.status_code(), 401);
    assert_eq!(LoadError::InvalidCredentials.status_code(), 401);
    assert_eq!(LoadError::UnexpectedError.status_code(), 500);
    assert_eq!(ConfigurationError::UnexpectedError.status_code(), 500);
    assert_eq!(PublishError::UnexpectedError.status_code(), 500);
    assert_eq!(PayError::UnexpectedError.status_code(), 500);
    assert_eq!(LoadError::NotStoreOwnerError.message(), Some("Not store owner."));
    assert_eq!(LoadError::InvalidCredentials.message(), Some("Invalid credentials."));
    assert_eq!(LoadError::UnexpectedError.message(), None);
}

#[test]
fn app_is_loaded_for_the_store_of_the_claims() {
    assert_eq!(store_to_load(&claims(2, 1, "stores/test-store")), Ok("test-store"));
    assert_eq!(store_to_load(&claims(1, 1, "test-store")), Err(LoadError::UnexpectedError));
}

#[test]
fn only_the_owner_removes_the_app() {
    assert_eq!(store_to_uninstall(&claims(1, 1, "stores/test-store")), Ok("test-store"));
    assert_eq!(
        store_to_uninstall(&claims(2, 1, "stores/test-store")),
        Err(LoadError::NotStoreOwnerError)
    );
    assert_eq!(
        store_to_uninstall(&claims(2, 1, "test-store")),
        Err(LoadError::NotStoreOwnerError)
    );
    assert_eq!(
        store_to_uninstall(&claims(1, 1, "test-store")),
        Err(LoadError::UnexpectedError)
    );
}
