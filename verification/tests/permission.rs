use ticket_tracker::permission::{NaivePermission, Permission};

#[test]
fn naive_permission_to_from_int() {
    let new_perm = NaivePermission {
        read: false,
        write: false,
        comment: false,
    };
    let new_perm_7 = NaivePermission {
        read: true,
        write: true,
        comment: true,
    };
    let new_perm_6 = NaivePermission {
        read: true,
        write: true,
        comment: false,
    };
    let new_perm_5 = NaivePermission {
        read: true,
        write: false,
        comment: true,
    };
    let new_perm_4 = NaivePermission {
        read: true,
        write: false,
        comment: false,
    };
    let new_perm_3 = NaivePermission {
        read: false,
        write: true,
        comment: true,
    };
    let new_perm_2 = NaivePermission {
        read: false,
        write: true,
        comment: false,
    };
    let new_perm_1 = NaivePermission {
        read: false,
        write: false,
        comment: true,
    };
    assert_eq!(new_perm.get_int(), 0);
    assert_eq!(new_perm_1.get_int(), 1);
    assert_eq!(new_perm_2.get_int(), 2);
    assert_eq!(new_perm_3.get_int(), 3);
    assert_eq!(new_perm_4.get_int(), 4);
    assert_eq!(new_perm_5.get_int(), 5);
    assert_eq!(new_perm_6.get_int(), 6);
    assert_eq!(new_perm_7.get_int(), 7);
    assert_eq!(new_perm, NaivePermission::from_int(0));
    assert_eq!(new_perm_1, NaivePermission::from_int(1));
    assert_eq!(new_perm_2, NaivePermission::from_int(2));
    assert_eq!(new_perm_3, NaivePermission::from_int(3));
    assert_eq!(new_perm_4, NaivePermission::from_int(4));
    assert_eq!(new_perm_5, NaivePermission::from_int(5));
    assert_eq!(new_perm_6, NaivePermission::from_int(6));
    assert_eq!(new_perm_7, NaivePermission::from_int(7));
}

#[test]
fn permission_round_trip_all_grids() {
    for a in 0..8i64 {
        for r in 0..8i64 {
            for o in 0..8i64 {
                let p = Permission::from_naive(
                    NaivePermission::from_int(a),
                    NaivePermission::from_int(r),
                    NaivePermission::from_int(o),
                );
                let n = p.get_int();
                assert_eq!(n, a * 100 + r * 10 + o);
                assert_eq!(Permission::from_int(n), p);
            }
        }
    }
}

#[test]
fn default_grid_encodes_to_750() {
    let p = Permission::new();
    assert_eq!(p.get_int(), 750);
    let q = Permission::from_int(750);
    assert_eq!(q.author(), NaivePermission::new(true, true, true));
    assert_eq!(q.responsible(), NaivePermission::new(true, false, true));
    assert_eq!(q.others(), NaivePermission::new(false, false, false));
}

#[test]
fn decode_outside_encoded_domain() {
    // 999 is never produced by get_int; each digit 9 decodes bitwise to
    // comment-only (9 & 4 == 0, 9 & 2 == 0, 9 & 1 == 1).
    let q = Permission::from_int(999);
    let comment_only = NaivePermission::new(false, false, true);
    assert_eq!(q.author(), comment_only);
    assert_eq!(q.responsible(), comment_only);
    assert_eq!(q.others(), comment_only);

    // A negative integer is never produced either; it decodes to the
    // all-denied grid.
    let neg = Permission::from_int(-1);
    let none = NaivePermission::new(false, false, false);
    assert_eq!(neg.author(), none);
    assert_eq!(neg.responsible(), none);
    assert_eq!(neg.others(), none);
}
