use swu_app::configuration::listen_address;
use swu_app::configuration::AppEnvironment;
use swu_app::configuration::ApplicationBaseUrl;
use swu_app::configuration::Database;
use swu_app::configuration::Endpoint;
use swu_app::configuration::SslMode;

fn database() -> Database {
    Database {
        username: "postgres".to_owned(),
        password: "password".to_owned(),
        database_name: "swu".to_owned(),
        require_ssl: false,
        socket: None,
        host: "localhost".to_owned(),
        port: 5432,
    }
}

#[test]
#[should_panic]
fn configuration_test_try_from_environment_fail_unknown() {
    AppEnvironment::parse("unknown").expect("Should panic");
}

#[test]
fn try_from_string_into_environment() {
    assert_eq!(
        AppEnvironment::Local,
        AppEnvironment::parse("local").expect("Could not convert string to Environment")
    );
    assert_eq!(
        AppEnvironment::Production,
        AppEnvironment::parse("production").expect("Could not convert string to Environment")
    );
}

#[test]
fn environment_is_named_in_any_case() {
    assert_eq!(AppEnvironment::parse("LOCAL"), Ok(AppEnvironment::Local));
    assert_eq!(AppEnvironment::parse("Production"), Ok(AppEnvironment::Production));
    assert_eq!(AppEnvironment::from_lowercase("local"), Ok(AppEnvironment::Local));
    assert_eq!(AppEnvironment::from_lowercase("production"), Ok(AppEnvironment::Production));
    assert_eq!(
        AppEnvironment::from_lowercase("LOCAL"),
        Err("LOCAL is not a supported environment. Use either `local` or `production`.".to_owned())
    );
    assert_eq!(AppEnvironment::Local.as_str(), "local");
    assert_eq!(AppEnvironment::Production.as_str(), "production");
}

#[test]
fn unknown_environment_is_answered_in_lower_case() {
    assert_eq!(
        AppEnvironment::parse("Staging"),
        Err("staging is not a supported environment. Use either `local` or `production`."
            .to_owned())
    );
    assert_eq!(
        AppEnvironment::parse(""),
        Err(" is not a supported environment. Use either `local` or `production`.".to_owned())
    );
}

#[test]
fn database_is_reached_at_host_and_port() {
    let options = database().without_db();
    assert_eq!(
        options.endpoint,
        Endpoint::Tcp { host: "localhost".to_owned(), port: 5432 }
    );
    assert_eq!(options.username, "postgres");
    assert_eq!(options.password, "password");
    assert_eq!(options.ssl_mode, SslMode::Prefer);
    assert_eq!(options.database, None);
    assert!(!options.trace_statements);
}

#[test]
fn socket_takes_the_place_of_host_and_port() {
    let settings = Database {
        socket: Some("/var/run/postgresql".to_owned()),
        require_ssl: true,
        ..database()
    };
    let options = settings.with_db();
    assert_eq!(
        options.endpoint,
        Endpoint::Socket { path: "/var/run/postgresql".to_owned() }
    );
    assert_eq!(options.ssl_mode, SslMode::Require);
    assert_eq!(options.database, Some("swu".to_owned()));
    assert!(options.trace_statements);
    assert_eq!(options.username, "postgres");
    assert_eq!(options.password, "password");
}

#[test]
fn base_url_is_written_as_it_is() {
    assert_eq!(ApplicationBaseUrl("https://app.example.com".to_owned()).as_string(), "https://app.example.com");
}

#[test]
fn server_listens_at_host_and_port() {
    assert_eq!(listen_address("127.0.0.1", 8000), "127.0.0.1:8000");
    assert_eq!(listen_address("localhost", 0), "localhost:0");
    assert_eq!(listen_address("", 65535), ":65535");
}
