use paste_service::{
    LoginForm, PassWordChangeForm, RegUserForm, Registration, User, UserError, UserToken,
};
use serde_json::Value;
use std::collections::{HashMap, HashSet};

struct Store {
    dirs: HashSet<String>,
    files: HashMap<String, String>,
    refuse_create: bool,
    refuse_write: bool,
    asked: Vec<String>,
}

fn store() -> Store {
    let mut dirs = HashSet::new();
    dirs.insert("upload/anonymous".to_string());
    Store { dirs, files: HashMap::new(), refuse_create: false, refuse_write: false, asked: Vec::new() }
}

fn reg_form(username: &str, password: &str, confirm: &str) -> RegUserForm {
    RegUserForm {
        username: username.to_string(),
        password: password.to_string(),
        confirm_password: confirm.to_string(),
    }
}

fn login_form(username: &str, password: &str) -> LoginForm {
    LoginForm { username: username.to_string(), password: password.to_string() }
}

fn register(store: &mut Store, username: &str, password: &str, confirm: &str) -> Result<(), UserError> {
    let mut state = User::register(reg_form(username, password, confirm), "upload")?;
    loop {
        let answer = match &state {
            Registration::Probing(plan) => {
                store.asked.push("probe".to_string());
                store.dirs.contains(&plan.user_dir)
            }
            Registration::Creating(plan) => {
                store.asked.push("create".to_string());
                !store.refuse_create && store.dirs.insert(plan.user_dir.clone())
            }
            Registration::Writing(plan) => {
                store.asked.push("write".to_string());
                if store.refuse_write {
                    false
                } else {
                    store.files.insert(plan.credentials_path.clone(), plan.credentials.clone());
                    true
                }
            }
            Registration::Removing(plan) => {
                store.asked.push("remove".to_string());
                store.dirs.remove(&plan.user_dir)
            }
            Registration::Registered => return Ok(()),
            Registration::Refused(e) => return Err(*e),
        };
        assert_eq!(state.outcome(), None);
        state = state.advance(answer);
    }
}

fn stored(store: &Store, username: &str) -> Option<User> {
    let text = store.files.get(&User::credentials_file("upload", username))?;
    let value: Value = serde_json::from_str(text).ok()?;
    Some(User {
        username: value.get("username")?.as_str()?.to_string(),
        password: value.get("password")?.as_str()?.to_string(),
    })
}

fn login(store: &Store, username: &str, password: &str) -> Result<User, UserError> {
    User::login(login_form(username, password), stored(store, username))
}

#[test]
fn a_user_registers_once() {
    let mut store = store();
    assert_eq!(register(&mut store, "alice", "p1", "p1"), Ok(()));
    assert_eq!(store.asked, ["probe", "create", "write"]);
    assert!(store.dirs.contains("upload/alice"));
    assert_eq!(
        store.files.get("upload/alice/.credentials").map(String::as_str),
        Some("{\"username\":\"alice\",\"password\":\"p1\"}")
    );
    assert_eq!(register(&mut store, "alice", "p1", "p1"), Err(UserError::UserExists));
    assert_eq!(register(&mut store, "alice", "other", "other"), Err(UserError::UserExists));
    assert_eq!(
        store.files.get("upload/alice/.credentials").map(String::as_str),
        Some("{\"username\":\"alice\",\"password\":\"p1\"}")
    );
}

#[test]
fn passwords_must_agree() {
    let mut store = store();
    assert_eq!(register(&mut store, "bob", "p1", "p2"), Err(UserError::PasswordsDontMatch));
    assert!(store.asked.is_empty());
    assert!(!store.dirs.contains("upload/bob"));
    assert_eq!(
        User::register(reg_form("alice", "p1", "p1 "), "upload"),
        Err(UserError::PasswordsDontMatch)
    );
}

#[test]
fn passwords_are_compared_before_the_store_is_asked() {
    let mut store = store();
    assert_eq!(register(&mut store, "alice", "p1", "p1"), Ok(()));
    store.asked.clear();
    assert_eq!(register(&mut store, "alice", "p1", "p2"), Err(UserError::PasswordsDontMatch));
    assert!(store.asked.is_empty());
}

#[test]
fn anonymous_cannot_be_registered() {
    let mut store = store();
    assert_eq!(register(&mut store, "anonymous", "p", "p"), Err(UserError::UserExists));
}

#[test]
fn a_directory_that_cannot_be_created_fails_the_registration() {
    let mut store = store();
    store.refuse_create = true;
    assert_eq!(register(&mut store, "alice", "p1", "p1"), Err(UserError::RegistrationFailed));
    assert_eq!(store.asked, ["probe", "create"]);
    assert!(store.files.is_empty());
}

#[test]
fn a_record_that_cannot_be_written_leaves_no_account() {
    let mut store = store();
    store.refuse_write = true;
    assert_eq!(register(&mut store, "alice", "p1", "p1"), Err(UserError::RegistrationFailed));
    assert_eq!(store.asked, ["probe", "create", "write", "remove"]);
    assert!(!store.dirs.contains("upload/alice"));
    store.refuse_write = false;
    assert_eq!(register(&mut store, "alice", "p1", "p1"), Ok(()));
}

#[test]
fn the_plan_of_a_registration() {
    let state = User::register(reg_form("al\"ice", "p\\1", "p\\1"), "/srv/up").unwrap();
    match state {
        Registration::Probing(plan) => {
            assert_eq!(plan.user_dir, "/srv/up/al\"ice");
            assert_eq!(plan.credentials_path, "/srv/up/al\"ice/.credentials");
            assert_eq!(plan.credentials, "{\"username\":\"al\\\"ice\",\"password\":\"p\\\\1\"}");
            let value: Value = serde_json::from_str(&plan.credentials).unwrap();
            assert_eq!(value["username"].as_str(), Some("al\"ice"));
            assert_eq!(value["password"].as_str(), Some("p\\1"));
        }
        other => panic!("{:?}", other),
    }
}

#[test]
fn a_settled_registration_stays_settled() {
    assert_eq!(Registration::Registered.advance(false), Registration::Registered);
    assert_eq!(Registration::Registered.advance(true), Registration::Registered);
    assert_eq!(Registration::Registered.outcome(), Some(Ok(())));
    let refused = Registration::Refused(UserError::UserExists);
    assert_eq!(refused.clone().advance(true), refused);
    assert_eq!(refused.outcome(), Some(Err(UserError::UserExists)));
}

#[test]
fn a_registered_user_logs_in() {
    let mut store = store();
    assert_eq!(register(&mut store, "alice", "secret", "secret"), Ok(()));
    let user = login(&store, "alice", "secret").unwrap();
    assert_eq!(user.username, "alice");
    assert_eq!(UserToken::from(user).username, "alice");
}

#[test]
fn failed_logins_look_alike() {
    let mut store = store();
    assert_eq!(register(&mut store, "alice", "secret", "secret"), Ok(()));
    let wrong = login(&store, "alice", "wrong").unwrap_err();
    let unknown = login(&store, "nobody", "x").unwrap_err();
    assert_eq!(wrong, UserError::IncorrectCredentials);
    assert_eq!(unknown, UserError::IncorrectCredentials);
    assert_eq!(wrong.to_response_params(), unknown.to_response_params());
    store.files.insert("upload/carol/.credentials".to_string(), "{\"username\":".to_string());
    let corrupt = login(&store, "carol", "x").unwrap_err();
    assert_eq!(corrupt.to_response_params(), unknown.to_response_params());
    assert_eq!(login(&store, "alice", ""), Err(UserError::IncorrectCredentials));
    assert_eq!(login(&store, "alice", "Secret"), Err(UserError::IncorrectCredentials));
}

#[test]
fn a_changed_password_replaces_the_old_one() {
    let mut store = store();
    assert_eq!(register(&mut store, "alice", "secret", "secret"), Ok(()));
    let mut user = login(&store, "alice", "secret").unwrap();
    let form = PassWordChangeForm {
        old_password: "secret".to_string(),
        new_password: "newpw".to_string(),
    };
    assert_eq!(user.change_password(form), Ok(()));
    assert_eq!(user.username, "alice");
    assert_eq!(user.credentials(), "{\"username\":\"alice\",\"password\":\"newpw\"}");
    store.files.insert(User::credentials_file("upload", &user.username), user.credentials());
    assert_eq!(login(&store, "alice", "newpw").map(|u| u.username), Ok("alice".to_string()));
    assert_eq!(login(&store, "alice", "secret"), Err(UserError::IncorrectCredentials));
}

#[test]
fn a_wrong_old_password_changes_nothing() {
    let mut user = User { username: "alice".to_string(), password: "secret".to_string() };
    let form = PassWordChangeForm {
        old_password: "guess".to_string(),
        new_password: "newpw".to_string(),
    };
    assert_eq!(user.change_password(form), Err(UserError::IncorrectCredentials));
    assert_eq!(user, User { username: "alice".to_string(), password: "secret".to_string() });
}

#[test]
fn the_anonymous_record() {
    let user = User::anonymous();
    assert_eq!(user.username, "anonymous");
    assert_eq!(user.password, "");
    assert_eq!(user.credentials(), "{\"username\":\"anonymous\",\"password\":\"\"}");
}

#[test]
fn where_a_record_is_stored() {
    assert_eq!(User::dir_of("upload", "alice"), "upload/alice");
    assert_eq!(User::credentials_file("upload", "alice"), "upload/alice/.credentials");
}

#[test]
fn user_errors_as_responses() {
    let r = UserError::RegistrationFailed.to_response_params();
    assert_eq!(r.status, 500);
    assert_eq!(r.error, "registration failed, if problem persists contact admins");
    assert_eq!(r.code, "RegistrationFailed");
    let r = UserError::IncorrectCredentials.to_response_params();
    assert_eq!(r.status, 400);
    assert_eq!(r.error, "please provide correct credentials");
    assert_eq!(r.code, "IncorrectCredentials");
    let r = UserError::UserExists.to_response_params();
    assert_eq!(r.status, 400);
    assert_eq!(r.error, "failed to register, username already exists");
    assert_eq!(r.code, "UserExists");
    let r = UserError::PasswordsDontMatch.to_response_params();
    assert_eq!(r.status, 400);
    assert_eq!(r.error, "failed to register, passwords dont match");
    assert_eq!(r.code, "PasswordsDontMatch");
    assert_eq!(UserError::UserExists.as_ref(), "UserExists");
}
