//! The permission grid of a document and its compact integer encoding.
//!
//! Each of the three roles (author, responsible, everyone else) holds a
//! three-flag capability set.  A set packs into a 3-bit value in `[0, 7]`
//! (`read` contributes 4, `write` 2, `comment` 1), and the whole grid packs
//! into one integer whose decimal digits are the three role values:
//! `author * 100 + responsible * 10 + others`.

use vstd::prelude::*;

verus! {

/// One role's capability set.
#[derive(Debug, PartialEq, Eq, Structural, Copy, Clone)]
pub struct NaivePermission {
    pub read: bool,
    pub write: bool,
    pub comment: bool,
}

/// The full grid for one document: one capability set per role.
#[derive(Debug, PartialEq, Eq, Structural, Copy, Clone)]
pub struct Permission {
    pub author: NaivePermission,
    pub responsible: NaivePermission,
    pub others: NaivePermission,
}

/// The 3-bit value of one capability set: `read` is worth 4, `write` 2,
/// `comment` 1.
pub open spec fn naive_value(p: NaivePermission) -> int {
    (if p.read {
        4int
    } else {
        0int
    }) + (if p.write {
        2int
    } else {
        0int
    }) + (if p.comment {
        1int
    } else {
        0int
    })
}

/// The capability set read back from the low three bits of an integer.
pub open spec fn naive_of_int(n: i64) -> NaivePermission {
    NaivePermission { read: n & 4 == 4, write: n & 2 == 2, comment: n & 1 == 1 }
}

/// The grid encoded as decimal digits: hundreds for the author, tens for the
/// responsible user, units for everyone else.
pub open spec fn grid_value(p: Permission) -> int {
    naive_value(p.author) * 100 + naive_value(p.responsible) * 10 + naive_value(p.others)
}

/// The grid read back from a non-negative integer by extracting its digits in
/// the same base-100/base-10 arrangement that `grid_value` uses.
pub open spec fn grid_of_int(n: int) -> Permission {
    let author = n / 100;
    let responsible = (n - author * 100) / 10;
    let others = n - author * 100 - responsible * 10;
    Permission {
        author: naive_of_int(author as i64),
        responsible: naive_of_int(responsible as i64),
        others: naive_of_int(others as i64),
    }
}

impl NaivePermission {
    pub fn new(read: bool, write: bool, comment: bool) -> (r: Self)
        ensures
            r == (NaivePermission { read, write, comment }),
    {
        NaivePermission { read, write, comment }
    }

    pub fn get_int(&self) -> (r: i64)
        ensures
            r == naive_value(*self),
    {
        let mut res: i64 = 0;
        if self.read {
            res += 4;
        }
        if self.write {
            res += 2;
        }
        if self.comment {
            res += 1;
        }
        res
    }

    pub fn from_int(perm: i64) -> (r: NaivePermission)
        ensures
            r == naive_of_int(perm),
    {
        let read = perm & 4 == 4;
        let write = perm & 2 == 2;
        let comment = perm & 1 == 1;
        NaivePermission { read, write, comment }
    }
}

/// For a 3-bit value, each flag of the capability set read back bitwise
/// agrees with the arithmetic of `naive_value`.
proof fn lemma_low_bits(n: i64)
    by (bit_vector)
    requires
        0 <= n <= 7,
    ensures
        (n & 4 == 4) <==> n >= 4,
        (n & 2 == 2) <==> n % 4 >= 2,
        (n & 1 == 1) <==> n % 2 == 1,
{
}

/// Decoding inverts encoding on one capability set: reading the 3-bit value
/// of a set back yields the same set.
pub proof fn lemma_naive_round_trip(p: NaivePermission)
    ensures
        naive_of_int(naive_value(p) as i64) == p,
{
    let n = naive_value(p) as i64;
    lemma_low_bits(n);
}

/// The default grid of a fresh document: the author may do everything, the
/// responsible user may read and comment, everyone else nothing.
pub open spec fn default_grid() -> Permission {
    Permission {
        author: NaivePermission { read: true, write: true, comment: true },
        responsible: NaivePermission { read: true, write: false, comment: true },
        others: NaivePermission { read: false, write: false, comment: false },
    }
}

impl Permission {
    /// The default grid of a fresh document: the author may do everything,
    /// the responsible user may read and comment, everyone else nothing.
    pub fn new() -> (r: Self)
        ensures
            r == default_grid(),
    {
        Permission {
            author: NaivePermission::new(true, true, true),
            responsible: NaivePermission::new(true, false, true),
            others: NaivePermission::new(false, false, false),
        }
    }

    /// Assembles a grid from the three role capability sets.
    pub fn from_naive(
        author: NaivePermission,
        responsible: NaivePermission,
        others: NaivePermission,
    ) -> (r: Self)
        ensures
            r == (Permission { author, responsible, others }),
    {
        Permission { author, responsible, others }
    }

    pub fn author(&self) -> (r: NaivePermission)
        ensures
            r == self.author,
    {
        self.author
    }

    pub fn responsible(&self) -> (r: NaivePermission)
        ensures
            r == self.responsible,
    {
        self.responsible
    }

    pub fn others(&self) -> (r: NaivePermission)
        ensures
            r == self.others,
    {
        self.others
    }

    pub fn get_int(&self) -> (r: i64)
        ensures
            r == grid_value(*self),
            0 <= r <= 777,
    {
        let author_perm = self.author.get_int() * 100;
        let responsible_perm = self.responsible.get_int() * 10;
        let others_perm = self.others.get_int();
        author_perm + responsible_perm + others_perm
    }

    /// Reads a grid back from its encoded integer.  Only integers that
    /// `get_int` produces are in the guaranteed domain; any non-negative
    /// integer is decoded by the same digit arrangement, and a negative one
    /// (which no encoding produces) yields an all-denied grid.
    pub fn from_int(perm: i64) -> (r: Permission)
        ensures
            perm >= 0 ==> r == grid_of_int(perm as int),
            perm < 0 ==> r == (Permission {
                author: NaivePermission::spec_new(false, false, false),
                responsible: NaivePermission::spec_new(false, false, false),
                others: NaivePermission::spec_new(false, false, false),
            }),
    {
        if perm >= 0 {
            let author_perm = perm / 100;
            let responsible_perm = (perm - author_perm * 100) / 10;
            let others_perm = perm - author_perm * 100 - responsible_perm * 10;
            Permission {
                author: NaivePermission::from_int(author_perm),
                responsible: NaivePermission::from_int(responsible_perm),
                others: NaivePermission::from_int(others_perm),
            }
        } else {
            proof {
                lemma_low_bits(0);
            }
            Permission {
                author: NaivePermission::from_int(0),
                responsible: NaivePermission::from_int(0),
                others: NaivePermission::from_int(0),
            }
        }
    }
}

impl NaivePermission {
    /// Ghost mirror of `new`, for use in contracts.
    pub open spec fn spec_new(read: bool, write: bool, comment: bool) -> NaivePermission {
        NaivePermission { read, write, comment }
    }
}

/// Decoding inverts encoding on a whole grid: for every grid, reading its
/// encoded integer back yields the same grid.
pub proof fn lemma_permission_round_trip(p: Permission)
    ensures
        grid_of_int(grid_value(p)) == p,
{
    let a = naive_value(p.author);
    let r = naive_value(p.responsible);
    let o = naive_value(p.others);
    let n = grid_value(p);
    assert(n == a * 100 + r * 10 + o);
    assert(n / 100 == a && (n - a * 100) / 10 == r) by (nonlinear_arith)
        requires
            n == a * 100 + r * 10 + o,
            0 <= a <= 7,
            0 <= r <= 7,
            0 <= o <= 7,
    ;
    lemma_naive_round_trip(p.author);
    lemma_naive_round_trip(p.responsible);
    lemma_naive_round_trip(p.others);
}

} // verus!
