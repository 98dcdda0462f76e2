use sat_session::location::parse_path;
use sat_session::location::resolve_location;
use sat_session::location::SmartPath;

#[test]
fn url_argument_is_a_url() {
    assert_eq!(
        parse_path("http://example.com/x.cnf"),
        Ok(SmartPath::Url("http://example.com/x.cnf".to_string()))
    );
}

#[test]
fn url_is_kept_in_normal_form() {
    assert_eq!(
        parse_path("HTTP://EXAMPLE.com"),
        Ok(SmartPath::Url("http://example.com/".to_string()))
    );
}

#[test]
fn any_scheme_makes_a_url() {
    assert_eq!(
        parse_path("file:///tmp/absent.cnf"),
        Ok(SmartPath::Url("file:///tmp/absent.cnf".to_string()))
    );
}

#[test]
fn existing_path_is_a_file_path() {
    assert_eq!(parse_path("/"), Ok(SmartPath::FilePath("/".to_string())));
}

#[test]
fn absent_path_is_refused_by_name() {
    assert_eq!(
        parse_path("/tmp/absent-8c1f7a52.cnf"),
        Err("`/tmp/absent-8c1f7a52.cnf` is not a valid URL or file path".to_string())
    );
}

#[test]
fn resolve_prefers_the_url() {
    assert_eq!(
        resolve_location("x", Some("http://example.com/x.cnf".to_string()), true),
        Ok(SmartPath::Url("http://example.com/x.cnf".to_string()))
    );
    assert_eq!(
        resolve_location("x", Some("http://example.com/x.cnf".to_string()), false),
        Ok(SmartPath::Url("http://example.com/x.cnf".to_string()))
    );
}

#[test]
fn resolve_takes_a_present_path() {
    assert_eq!(
        resolve_location("/tmp/present.cnf", None, true),
        Ok(SmartPath::FilePath("/tmp/present.cnf".to_string()))
    );
}

#[test]
fn resolve_refuses_an_absent_path() {
    assert_eq!(
        resolve_location("/tmp/absent.cnf", None, false),
        Err("`/tmp/absent.cnf` is not a valid URL or file path".to_string())
    );
    assert_eq!(
        resolve_location("", None, false),
        Err("`` is not a valid URL or file path".to_string())
    );
}
