use canido::error::ReportError;
use canido::identity::resolve_role_name;
use canido::mode::Mode;

#[test]
fn assumed_role_identity_gives_the_role_name() {
    let identity = "arn:aws:sts::123456789012:assumed-role/DeployRole/session-1";
    assert_eq!(resolve_role_name(identity), Ok("DeployRole".to_string()));
}

#[test]
fn identity_without_slash_is_malformed() {
    assert_eq!(
        resolve_role_name("arn:aws:iam::123456789012:root"),
        Err(ReportError::MalformedIdentity)
    );
    assert_eq!(resolve_role_name(""), Err(ReportError::MalformedIdentity));
}

#[test]
fn identity_with_one_slash_gives_what_follows_it() {
    assert_eq!(
        resolve_role_name("arn:aws:iam::123456789012:user/alice"),
        Ok("alice".to_string())
    );
}

#[test]
fn empty_segments_count() {
    assert_eq!(resolve_role_name("a/"), Ok(String::new()));
    assert_eq!(resolve_role_name("/"), Ok(String::new()));
    assert_eq!(resolve_role_name("a//c"), Ok(String::new()));
    assert_eq!(resolve_role_name("/x/y/z"), Ok("x".to_string()));
}

#[test]
fn later_segments_are_discarded() {
    assert_eq!(resolve_role_name("a/b/c/d/e"), Ok("b".to_string()));
}

#[test]
fn role_name_may_hold_any_characters() {
    assert_eq!(
        resolve_role_name("arn:aws:sts::1:assumed-role/Rôle-管理者/s"),
        Ok("Rôle-管理者".to_string())
    );
}

#[test]
fn name_only_switch_wins() {
    assert_eq!(Mode::select(true, true), Mode::Short);
    assert_eq!(Mode::select(true, false), Mode::Short);
    assert_eq!(Mode::select(false, true), Mode::Json);
    assert_eq!(Mode::select(false, false), Mode::Human);
}
