use garmin_export::config::Config;
use garmin_export::error::Error;

fn args(list: &[&str]) -> Vec<String> {
    list.iter().map(|s| s.to_string()).collect()
}

#[test]
fn credentials_follow_the_program_name() {
    assert_eq!(
        Config::new(args(&["garmin_export", "me", "secret", "more"])),
        Ok(Config { username: "me".to_string(), password: "secret".to_string() })
    );
}

#[test]
fn missing_username_is_invalid_input() {
    assert_eq!(
        Config::new(args(&["garmin_export"])),
        Err(Error::InvalidInput("Username is missing".to_string()))
    );
    assert_eq!(
        Config::new(args(&[])),
        Err(Error::InvalidInput("Username is missing".to_string()))
    );
}

#[test]
fn missing_password_is_invalid_input() {
    assert_eq!(
        Config::new(args(&["garmin_export", "me"])),
        Err(Error::InvalidInput("Password is missing".to_string()))
    );
}
