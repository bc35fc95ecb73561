use std::time::Duration;
use zero2prod::email::Email;
use zero2prod::email_client::EmailClient;
use zero2prod::settings::{App, Database, Env, SslMode, StatementLog};

fn database(ssl: bool) -> Database {
    Database {
        port: 5432,
        host: "db.local".to_string(),
        name: "newsletter".to_string(),
        username: "app".to_string(),
        password: "SECRET-REDACTED".to_string(),
        ssl,
    }
}

#[test]
fn address_joins_host_and_port() {
    let app = App { port: 8080, host: "127.0.0.1".to_string() };
    assert_eq!(app.address(), "127.0.0.1:8080");
    let app = App { port: 0, host: "localhost".to_string() };
    assert_eq!(app.address(), "localhost:0");
    let app = App { port: 65535, host: "h".to_string() };
    assert_eq!(app.address(), "h:65535");
}

#[test]
fn options_open_the_configured_database() {
    let db = database(true);
    let o = db.to_options();
    assert_eq!(o.host, "db.local");
    assert_eq!(o.username, "app");
    assert_eq!(o.password, "SECRET-REDACTED");
    assert_eq!(o.port, 5432);
    assert_eq!(o.ssl_mode, SslMode::Require);
    assert_eq!(o.statement_log, StatementLog::Trace);
    assert_eq!(o.database.as_deref(), Some("newsletter"));
}

#[test]
fn options_without_a_database() {
    let o = database(false).to_options_with(None);
    assert_eq!(o.ssl_mode, SslMode::Prefer);
    assert_eq!(o.database, None);
    let o = database(false).to_options_with(Some("other"));
    assert_eq!(o.database.as_deref(), Some("other"));
}

#[test]
fn env_names_read_back() {
    for env in [Env::Dev, Env::Prod] {
        assert_eq!(Env::try_from(env.as_str().to_string()), Ok(env));
    }
    assert_eq!(Env::Dev.as_str(), "dev");
    assert_eq!(Env::Prod.as_str(), "prod");
}

#[test]
fn env_ignores_case() {
    assert_eq!(Env::try_from("PROD".to_string()), Ok(Env::Prod));
    assert_eq!(Env::try_from("Dev".to_string()), Ok(Env::Dev));
}

#[test]
fn env_unknown_name_is_an_error() {
    assert_eq!(
        Env::try_from("Staging".to_string()),
        Err("Unrecognized environment staging; use dev or prod".to_string())
    );
    assert_eq!(
        Env::parse("ÜBER"),
        Err("Unrecognized environment über; use dev or prod".to_string())
    );
    assert_eq!(
        Env::from_lowercase("DEV"),
        Err("Unrecognized environment DEV; use dev or prod".to_string())
    );
}

#[test]
fn env_defaults_to_dev() {
    assert_eq!(Env::from_var(None), Ok(Env::Dev));
    assert_eq!(Env::from_var(Some("prod")), Ok(Env::Prod));
    assert!(Env::from_var(Some("")).is_err());
}

#[test]
fn email_request_targets_the_email_path() {
    let sender = Email::parse("news@example.com").unwrap();
    let client = EmailClient::new(
        "http://api.local".to_string(),
        sender,
        "token".to_string(),
        Duration::from_millis(200),
    );
    assert_eq!(client.timeout(), Duration::from_millis(200));
    let recipient = Email::parse("reader@example.com").unwrap();
    let r = client.request(recipient, "Hello", "<p>Hi</p>", "Hi");
    assert_eq!(r.url, "http://api.local/email");
    assert_eq!(r.auth_token, "token");
    assert_eq!(r.body.from, "news@example.com");
    assert_eq!(r.body.to, "reader@example.com");
    assert_eq!(r.body.subject, "Hello");
    assert_eq!(r.body.html_body, "<p>Hi</p>");
    assert_eq!(r.body.text_body, "Hi");
}
