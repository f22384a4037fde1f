use std::marker::PhantomData;

use contacts::access::{is_public, may_delete_account, may_post_info, may_share_contact, may_share_persona};
use contacts::db::contact::{Contact, PostContact, UpdateContact, Visibility};
use contacts::db::info::{group_by_key, InfoFragment, InfoSection, Jurisdiction};
use contacts::db::persona::{NewPersona, Persona, PostPersona};
use contacts::db::user::{DBUser, ForUser, NewUser, User, UserDescriptor, UserId};
use contacts::password::{encrypt_password, PRE_HASH_ROUNDS};
use contacts::requests::{Login, RegisterUser};

fn user(id: i64, level: i32) -> User {
    User {
        id,
        username: "erin".to_string(),
        email: "erin@example.org".to_string(),
        password: "x".to_string(),
        level,
    }
}

#[test]
fn pre_hash_has_exact_value() {
    assert_eq!(PRE_HASH_ROUNDS, 5);
    assert_eq!(
        encrypt_password(&"hunter2".to_string()),
        "Mn3XdUYtaYXAENg/de3K6PvLJD7ivHJZiUOAVs4KYLS9f7xMMsmp9VegikXoOTeJNM7dVY9L8mwTGWeAHWoe+Q=="
    );
    assert_eq!(
        encrypt_password(&String::new()),
        "8CRL1frW/0ffAKiim1gu3tCeKg1jrDfiNMf7crrRuFQCSzCjbL1RiMUMPagywQzHf3vC+6eSlp2c5kVo+KD6qQ=="
    );
    let login = Login { username: "erin".to_string(), password: "hunter2".to_string() }.encrypt();
    assert_eq!(login.username, "erin");
    assert_eq!(login.password.len(), 88);
}

#[test]
fn salted_password_matches_only_itself() {
    let stored = NewUser::new("erin".to_string(), "e@x.org".to_string(), "hunter2".to_string())
        .encrypt()
        .salt()
        .unwrap();
    assert_eq!(stored.username, "erin");
    assert!(stored.password.starts_with("$2"));
    let mut u = user(1, 0);
    u.password = stored.password;
    let right = Login { username: "erin".to_string(), password: "hunter2".to_string() }.encrypt();
    let wrong = Login { username: "erin".to_string(), password: "hunter3".to_string() }.encrypt();
    assert_eq!(u.password_cmp(&right), Ok(true));
    assert_eq!(u.password_cmp(&wrong), Ok(false));
    u.password = "not a bcrypt hash".to_string();
    assert!(u.password_cmp(&right).is_err());
}

#[test]
fn registration_builds_a_base_level_user() {
    let r = RegisterUser {
        username: "erin".to_string(),
        password: "pw".to_string(),
        email: "e@x.org".to_string(),
    };
    let u = r.to_new_user();
    assert_eq!((u.username.as_str(), u.email.as_str(), u.password.as_str(), u.level), ("erin", "e@x.org", "pw", 0));
}

#[test]
fn visibility_codes() {
    assert_eq!(i16::from(Visibility::Local), 0);
    assert_eq!(i16::from(Visibility::Private), 1);
    assert_eq!(i16::from(Visibility::Public), 2);
    assert_eq!(Visibility::from(0i16), Visibility::Local);
    assert_eq!(Visibility::from(1i16), Visibility::Private);
    assert_eq!(Visibility::from(2i16), Visibility::Public);
    assert_eq!(Visibility::from(9i16), Visibility::Public);
    assert_eq!(Visibility::from(-1i16), Visibility::Public);
}

#[test]
fn contact_builders() {
    let me = ForUser::<contacts::db::contact::NewContact>::from(UserId::new(3));
    let d = me.new_default();
    assert_eq!(d.name, "No Name");
    assert_eq!(d.visibility(), Visibility::Local);
    assert_eq!(d.creator, 3);
    let posted = PostContact::new("Frank".to_string(), Some(vec![1, 2]), Visibility::Public);
    let related = ForUser::into::<PostContact>(&me).relate(posted);
    assert_eq!(related.name, "Frank");
    assert_eq!(related.icon, Some(vec![1, 2]));
    assert_eq!(related.visibility(), Visibility::Public);
    assert_eq!(related.creator, 3);
    let mut c = related;
    c.set_visibility(Visibility::Private);
    assert_eq!(c.visibility, 1);
}

#[test]
fn contact_updates() {
    let mut u = UpdateContact::new(Some("Gail".to_string()), None);
    assert_eq!(u.visibility(), None);
    u.set_visibility(Some(Visibility::Public));
    assert_eq!(u.visibility(), Some(Visibility::Public));
    let change = ForUser::<UpdateContact>::from(UserId::new(8)).get(u);
    assert_eq!(change.creator, 8);
    assert_eq!(change.visibility, Some(2));
    assert_eq!(change.name, Some("Gail".to_string()));
}

#[test]
fn personas() {
    let d = NewPersona::new_default(4);
    assert_eq!((d.name.as_str(), d.private, d.user_id), ("default", false, 4));
    let p = PostPersona { name: "work".to_string(), private: true }.to_new_persona(5);
    assert_eq!((p.name.as_str(), p.private, p.user_id), ("work", true, 5));
}

#[test]
fn user_ids() {
    assert_eq!(UserId::new(12).id(), 12);
    assert_eq!(ForUser::<User>::from(UserId::new(12)).0, 12);
    assert_eq!(ForUser::into::<Persona>(&ForUser::<User>(6, PhantomData)).0, 6);
    assert_eq!(DBUser::id(&user(9, 0)), 9);
    assert_eq!(DBUser::id(&UserDescriptor(10)), 10);
}

#[test]
fn access_rules() {
    let public = Contact::new(1, "p".to_string(), None, Visibility::Public, 7);
    let private = Contact::new(2, "q".to_string(), None, Visibility::Private, 7);
    assert!(is_public(&public));
    assert!(!is_public(&private));
    assert!(may_share_contact(&private, 7));
    assert!(!may_share_contact(&private, 8));
    assert!(may_share_contact(&public, 8));
    let persona = Persona { id: 1, name: "x".to_string(), private: true, user_id: 7 };
    assert!(may_share_persona(&persona, 7));
    assert!(!may_share_persona(&persona, 8));
    assert!(may_delete_account(&user(7, 0), 7));
    assert!(!may_delete_account(&user(7, 0), 8));
    assert!(may_delete_account(&user(7, 1), 8));
    assert!(may_post_info(&user(7, 0), 7));
    assert!(!may_post_info(&user(7, 0), 8));
}

#[test]
fn jurisdiction_contacts_are_distinct_in_order() {
    let items = vec![
        InfoFragment::new("phone".to_string(), "1".to_string(), 5),
        InfoFragment::new("mail".to_string(), "a@b".to_string(), 3),
        InfoFragment::new("phone".to_string(), "2".to_string(), 5),
        InfoFragment::new("phone".to_string(), "3".to_string(), 9),
    ];
    assert_eq!(Jurisdiction::contacts(&items), vec![5, 3, 9]);
    assert_eq!(Jurisdiction::<InfoSection>::contacts(&vec![]), Vec::<i64>::new());
    let j = Jurisdiction::new(items);
    assert_eq!(j.items().len(), 4);
}

#[test]
fn info_grouped_by_key() {
    let frags = vec![
        InfoFragment::new("phone".to_string(), "1".to_string(), 5),
        InfoFragment::new("mail".to_string(), "a@b".to_string(), 5),
        InfoFragment::new("phone".to_string(), "2".to_string(), 5),
    ];
    let g = group_by_key(&frags);
    assert_eq!(
        g,
        vec![
            ("phone".to_string(), vec!["1".to_string(), "2".to_string()]),
            ("mail".to_string(), vec!["a@b".to_string()]),
        ]
    );
    assert!(group_by_key(&vec![]).is_empty());
}
