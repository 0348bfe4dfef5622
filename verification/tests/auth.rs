use rewave::auth::{User, UserPermission, UserPermissionError};

const ALL: [UserPermission; 4] = [
    UserPermission::Read,
    UserPermission::Write,
    UserPermission::ReadAndWrite,
    UserPermission::Admin,
];

#[test]
fn from_str_reads_each_name() {
    assert!(matches!(UserPermission::from_str("read"), Ok(UserPermission::Read)));
    assert!(matches!(UserPermission::from_str("write"), Ok(UserPermission::Write)));
    assert!(matches!(UserPermission::from_str("read-write"), Ok(UserPermission::ReadAndWrite)));
    assert!(matches!(UserPermission::from_str("admin"), Ok(UserPermission::Admin)));
}

#[test]
fn from_str_ignores_letter_case() {
    assert!(matches!(UserPermission::from_str("READ"), Ok(UserPermission::Read)));
    assert!(matches!(UserPermission::from_str("Write"), Ok(UserPermission::Write)));
    assert!(matches!(UserPermission::from_str("Read-WRITE"), Ok(UserPermission::ReadAndWrite)));
    assert!(matches!(UserPermission::from_str("aDmIn"), Ok(UserPermission::Admin)));
}

#[test]
fn from_str_refuses_other_names() {
    for name in ["", "reader", "readwrite", "read_write", " read", "admin ", "root", "rw"] {
        assert!(matches!(
            UserPermission::from_str(name),
            Err(UserPermissionError::InvalidPermission)
        ));
    }
}

#[test]
fn from_lowercase_takes_only_lowercase_names() {
    assert!(matches!(UserPermission::from_lowercase("admin"), Ok(UserPermission::Admin)));
    assert!(matches!(UserPermission::from_lowercase("read-write"), Ok(UserPermission::ReadAndWrite)));
    assert!(matches!(
        UserPermission::from_lowercase("ADMIN"),
        Err(UserPermissionError::InvalidPermission)
    ));
}

#[test]
fn compare_table() {
    let expected = [
        (UserPermission::Read, UserPermission::Read, true),
        (UserPermission::Read, UserPermission::Write, false),
        (UserPermission::Read, UserPermission::ReadAndWrite, false),
        (UserPermission::Read, UserPermission::Admin, false),
        (UserPermission::Write, UserPermission::Read, false),
        (UserPermission::Write, UserPermission::Write, true),
        (UserPermission::Write, UserPermission::ReadAndWrite, false),
        (UserPermission::Write, UserPermission::Admin, false),
        (UserPermission::ReadAndWrite, UserPermission::Read, true),
        (UserPermission::ReadAndWrite, UserPermission::Write, true),
        (UserPermission::ReadAndWrite, UserPermission::ReadAndWrite, true),
        (UserPermission::ReadAndWrite, UserPermission::Admin, false),
        (UserPermission::Admin, UserPermission::Read, true),
        (UserPermission::Admin, UserPermission::Write, true),
        (UserPermission::Admin, UserPermission::ReadAndWrite, true),
        (UserPermission::Admin, UserPermission::Admin, true),
    ];
    for (held, needed, covers) in expected {
        assert_eq!(held.compare(&needed), covers);
    }
}

#[test]
fn compare_is_reflexive() {
    for p in ALL {
        assert!(p.compare(&p));
    }
}

#[test]
fn compare_is_transitive_and_antisymmetric() {
    for a in ALL {
        for b in ALL {
            for c in ALL {
                if a.compare(&b) && b.compare(&c) {
                    assert!(a.compare(&c));
                }
            }
            if a.compare(&b) && b.compare(&a) {
                assert_eq!(a, b);
            }
        }
    }
}

#[test]
fn only_admin_covers_admin() {
    for p in ALL {
        assert!(UserPermission::Admin.compare(&p));
        assert_eq!(p.compare(&UserPermission::Admin), p == UserPermission::Admin);
    }
}

#[test]
fn user_holds_a_permission() {
    let user = User { username: String::from("alice"), perm: UserPermission::Write };
    assert_eq!(user.username, "alice");
    assert!(user.perm.compare(&UserPermission::Write));
    assert!(!user.perm.compare(&UserPermission::Read));
}

#[test]
fn from_str_same_after_ascii_uppercasing() {
    for s in ["read", "write", "read-write", "admin", "Admin", "rEaD", "nobody", "", "réad", "write!"] {
        let upper = s.to_ascii_uppercase();
        match (UserPermission::from_str(s), UserPermission::from_str(&upper)) {
            (Ok(a), Ok(b)) => assert_eq!(a, b),
            (Err(UserPermissionError::InvalidPermission), Err(UserPermissionError::InvalidPermission)) => {}
            _ => panic!("letter case changed the outcome for {:?}", s),
        }
    }
}
