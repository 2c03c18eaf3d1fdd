use toggle_touchpad::user::{
    get_current_guid, get_uid_gid, is_root, lookup, uid_is_root, user_exists, Identity,
};

#[test]
fn the_superuser_has_user_id_zero() {
    assert!(Identity { uid: 0, gid: 0 }.is_root());
    assert!(Identity { uid: 0, gid: 1000 }.is_root());
    assert!(!Identity { uid: 1000, gid: 0 }.is_root());
    assert!(!Identity { uid: u32::MAX, gid: 0 }.is_root());
}

#[test]
fn only_user_id_zero_is_the_superuser_s() {
    assert!(uid_is_root(0));
    assert!(!uid_is_root(1));
    assert!(!uid_is_root(1000));
    assert!(!uid_is_root(u32::MAX));
}

#[test]
fn an_identity_is_made_of_user_id_then_group_id() {
    assert_eq!(Identity::from_ids((1000, 100)), Identity { uid: 1000, gid: 100 });
    assert_eq!(Identity::from_ids((0, u32::MAX)), Identity { uid: 0, gid: u32::MAX });
}

#[test]
fn a_name_with_the_zero_character_is_nobody_s() {
    for name in ["\0", "root\0", "\0root", "ro\0ot", "a\0b\0c"] {
        assert_eq!(get_uid_gid(name), None);
        assert_eq!(lookup(name), None);
        assert!(!user_exists(name));
    }
}

#[test]
fn the_process_is_asked_who_it_is() {
    assert_eq!(get_current_guid(), (users::get_current_uid(), users::get_current_gid()));
    assert_eq!(is_root(), users::get_effective_uid() == 0);
}

#[test]
fn unknown_names_stand_for_nobody() {
    assert_eq!(get_uid_gid("no-such-user-on-this-machine"), None);
    assert_eq!(lookup("no-such-user-on-this-machine"), None);
    assert!(!user_exists("no-such-user-on-this-machine"));
    assert_eq!(get_uid_gid("with\0nul"), None);
    assert!(!user_exists(""));
}

#[test]
fn known_names_stand_for_their_ids() {
    if let Some(user) = users::get_user_by_uid(users::get_current_uid()) {
        let name = user.name().to_str().unwrap().to_string();
        assert!(user_exists(&name));
        assert_eq!(get_uid_gid(&name), Some((user.uid(), user.primary_group_id())));
        assert_eq!(lookup(&name), Some(Identity { uid: user.uid(), gid: user.primary_group_id() }));
    }
}
