use merino::auth::method_codes;
use merino::loader::{check_permissions, finish_load, is_open_to_others, plan_load};
use merino::{negotiate, AuthMethods, Config, FileProbe, Fqdn, LoadStep, StartupError, User};

fn user(name: &str, secret: &str, active: bool) -> User {
    User::new(name.to_string(), secret.to_string(), active)
}

fn two_users() -> Config {
    Config::new(vec![user("a", "x", true), user("b", "y", false)], Vec::new())
}

#[test]
fn credential_matching() {
    let config = two_users();
    assert!(config.has_user(&user("a", "x", true)));
    assert!(!config.has_user(&user("a", "wrong", true)));
    assert!(!config.has_user(&user("b", "y", true)));
}

#[test]
fn credential_matching_is_case_sensitive() {
    let config = two_users();
    assert!(!config.has_user(&user("A", "x", true)));
    assert!(!config.has_user(&user("a", "X", true)));
}

#[test]
fn candidate_flag_does_not_matter() {
    let config = two_users();
    assert!(config.has_user(&user("a", "x", false)));
}

#[test]
fn host_matching_is_case_insensitive() {
    let config = Config::new(Vec::new(), vec![Fqdn::new("Example.com".to_string(), true)]);
    assert!(config.has_fqdn("EXAMPLE.COM"));
    assert!(config.has_fqdn("example.com"));
    assert!(config.has_fqdn("Example.com"));
    assert!(!config.has_fqdn("other.com"));
}

#[test]
fn disabled_host_never_matches() {
    let config = Config::new(Vec::new(), vec![Fqdn::new("example.com".to_string(), false)]);
    assert!(!config.has_fqdn("example.com"));
}

#[test]
fn folded_match_needs_active_entry() {
    let on = Fqdn::new("a.org".to_string(), true);
    let off = Fqdn::new("a.org".to_string(), false);
    let name = "a.org".to_string();
    assert!(on.matches_folded(&name, &name));
    assert!(!off.matches_folded(&name, &name));
    assert!(!on.matches_folded(&name, &"b.org".to_string()));
}

#[test]
fn empty_policy_matches_nothing() {
    let config = Config::default();
    assert!(config.users.is_empty());
    assert!(config.fqdns.is_empty());
    assert!(!config.has_user(&user("a", "x", true)));
    assert!(!config.has_fqdn("example.com"));
}

#[test]
fn negotiation_derivation() {
    let one = Config::new(vec![user("a", "x", true)], Vec::new());
    let none = Config::default();
    assert_eq!(negotiate(false, &one), vec![AuthMethods::UserPass]);
    assert_eq!(negotiate(true, &none), vec![AuthMethods::NoAuth]);
    assert_eq!(negotiate(true, &one), vec![AuthMethods::NoAuth, AuthMethods::UserPass]);
    assert_eq!(negotiate(false, &none), Vec::<AuthMethods>::new());
}

#[test]
fn method_codes_follow_socks5() {
    let codes = method_codes(&vec![AuthMethods::NoAuth, AuthMethods::UserPass]);
    assert_eq!(codes, vec![0x00, 0x02]);
    assert_eq!(AuthMethods::UserPass.code(), 2);
}

#[test]
fn default_on_absence() {
    let path = "config.yml".to_string();
    for allow in [false, true] {
        assert_eq!(plan_load(&path, &FileProbe::Missing, allow), Ok(LoadStep::UseDefault));
    }
    let config = Config::default();
    assert!(config.users.is_empty() && config.fqdns.is_empty());
    assert_eq!(negotiate(false, &config), Vec::<AuthMethods>::new());
    assert_eq!(negotiate(true, &config), vec![AuthMethods::NoAuth]);
}

#[test]
fn permission_gate() {
    let path = "config.yml".to_string();
    for mode in [0o100604u32, 0o100602, 0o100601, 0o100777] {
        assert_eq!(
            plan_load(&path, &FileProbe::Opened { mode }, false),
            Err(StartupError::InsecurePermissions { mode: mode & 0o777, path: path.clone() })
        );
        assert_eq!(plan_load(&path, &FileProbe::Opened { mode }, true), Ok(LoadStep::Parse));
    }
}

#[test]
fn private_file_is_parsed() {
    let path = "config.yml".to_string();
    for mode in [0o100600u32, 0o100640, 0o100660] {
        assert!(!is_open_to_others(mode));
        assert_eq!(check_permissions(&path, mode, false), Ok(()));
        assert_eq!(plan_load(&path, &FileProbe::Opened { mode }, false), Ok(LoadStep::Parse));
    }
}

#[test]
fn unopenable_file_is_fatal() {
    let path = "config.yml".to_string();
    let probe = FileProbe::Unopenable { reason: "permission denied".to_string() };
    assert_eq!(
        plan_load(&path, &probe, true),
        Err(StartupError::Unreadable {
            path: path.clone(),
            reason: "permission denied".to_string(),
        })
    );
}

#[test]
fn malformed_input() {
    let message = "missing field `password`".to_string();
    assert_eq!(
        finish_load(Err(message.clone())),
        Err(StartupError::MalformedConfig { message })
    );
}

#[test]
fn idempotence() {
    let first = finish_load(Ok(two_users())).unwrap();
    let second = finish_load(Ok(two_users())).unwrap();
    assert!(first == second);
    assert!(first == first.clone());
}

#[test]
fn policies_with_other_records_differ() {
    let base = two_users();
    let other = Config::new(vec![user("a", "x", true), user("b", "y", true)], Vec::new());
    let shorter = Config::new(vec![user("a", "x", true)], Vec::new());
    let with_host = Config::new(base.users.clone(), vec![Fqdn::new("h".to_string(), true)]);
    assert!(base != other);
    assert!(base != shorter);
    assert!(base != with_host);
}
