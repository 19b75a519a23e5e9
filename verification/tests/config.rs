use download_bot::config::{startup_config, StartupConfig, StartupError};

#[test]
fn startup_without_token_is_refused() {
    assert_eq!(startup_config(None, None), Err(StartupError::MissingToken));
    assert_eq!(
        startup_config(None, Some(String::from("http://localhost:8081/bot"))),
        Err(StartupError::MissingToken)
    );
}

#[test]
fn startup_without_address_uses_the_local_service() {
    assert_eq!(
        startup_config(Some(String::from("123:abc")), None),
        Ok(StartupConfig {
            token: String::from("123:abc"),
            api_url: String::from("http://telegram-api:8081/bot"),
        })
    );
}

#[test]
fn startup_keeps_a_configured_address() {
    assert_eq!(
        startup_config(Some(String::from("123:abc")), Some(String::from("https://example.org/bot"))),
        Ok(StartupConfig {
            token: String::from("123:abc"),
            api_url: String::from("https://example.org/bot"),
        })
    );
}

#[test]
fn startup_accepts_an_empty_token_as_configured() {
    let config = startup_config(Some(String::new()), None).unwrap();
    assert_eq!(config.token, "");
}
