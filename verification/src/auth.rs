use vstd::prelude::*;
use vstd::string::*;

verus! {

/// What a user may do with the store.
#[derive(Debug, Clone, Copy, PartialEq, Eq, Structural)]
pub enum UserPermission {
    Read,
    Write,
    ReadAndWrite,
    Admin,
}

/// Why a permission name was refused.
#[derive(Debug)]
pub enum UserPermissionError {
    InvalidPermission,
}

/// A user and the permission the user holds.
#[derive(Debug, Clone)]
pub struct User {
    pub username: String,
    pub perm: UserPermission,
}

/// The Unicode lowercase form of a text, as `str::to_lowercase` computes it.
pub uninterp spec fn lowercase(s: Seq<char>) -> Seq<char>;

/// An ASCII capital letter, 'A' to 'Z'.
pub open spec fn is_ascii_capital(c: char) -> bool {
    'A' <= c <= 'Z'
}

/// `c` and `d` are the same character, or the same ASCII letter in the two
/// letter cases.
pub open spec fn same_char_ignoring_ascii_case(c: char, d: char) -> bool {
    ||| c == d
    ||| is_ascii_capital(c) && d as u32 == c as u32 + 32
    ||| is_ascii_capital(d) && c as u32 == d as u32 + 32
}

/// `a` and `b` differ at most in the letter case of ASCII letters.
pub open spec fn same_ignoring_ascii_case(a: Seq<char>, b: Seq<char>) -> bool {
    &&& a.len() == b.len()
    &&& forall|i: int| 0 <= i < a.len() ==> same_char_ignoring_ascii_case(#[trigger] a[i], b[i])
}

/// `str::to_lowercase`: the text in lowercase. Its result is a function of
/// the text alone, named `lowercase`; the Unicode rules it follows are not
/// restated here, but for one short consequence of them: under the Unicode
/// Lowercase mapping each ASCII capital letter becomes its small letter, and
/// the context rule (for the Greek capital sigma) treats both cases of an
/// ASCII letter alike, so a text whose ASCII letters are written in the
/// other case has the same lowercase form.
#[verifier::external_body]
fn to_lowercase(s: &str) -> (res: String)
    ensures
        res@ == lowercase(s@),
        forall|t: Seq<char>| #[trigger]
            same_ignoring_ascii_case(t, s@) ==> lowercase(t) == res@,
{
    s.to_lowercase()
}

/// The permission that a lowercase permission name stands for.
pub open spec fn permission_named(name: Seq<char>) -> Result<UserPermission, UserPermissionError> {
    if name == "read"@ {
        Ok(UserPermission::Read)
    } else if name == "write"@ {
        Ok(UserPermission::Write)
    } else if name == "read-write"@ {
        Ok(UserPermission::ReadAndWrite)
    } else if name == "admin"@ {
        Ok(UserPermission::Admin)
    } else {
        Err(UserPermissionError::InvalidPermission)
    }
}

/// Whether two texts hold the same characters.
fn same_text(a: &str, b: &str) -> (res: bool)
    ensures
        res == (a@ == b@),
{
    let n = a.unicode_len();
    if n != b.unicode_len() {
        return false;
    }
    let mut i: usize = 0;
    while i < n
        invariant
            n == a@.len(),
            n == b@.len(),
            i <= n,
            forall|j: int| 0 <= j < i ==> a@[j] == b@[j],
        decreases n - i,
    {
        if a.get_char(i) != b.get_char(i) {
            return false;
        }
        i = i + 1;
    }
    assert(a@ =~= b@);
    true
}

impl UserPermission {
    /// The permission named by `name`, which is already in lowercase:
    /// "read", "write", "read-write" or "admin".
    pub fn from_lowercase(name: &str) -> (res: Result<UserPermission, UserPermissionError>)
        ensures
            res == permission_named(name@),
            res matches Ok(p) ==> name@ == p.name(),
    {
        proof {
            lemma_only_names_accepted(name@);
        }
        if same_text(name, "read") {
            Ok(UserPermission::Read)
        } else if same_text(name, "write") {
            Ok(UserPermission::Write)
        } else if same_text(name, "read-write") {
            Ok(UserPermission::ReadAndWrite)
        } else if same_text(name, "admin") {
            Ok(UserPermission::Admin)
        } else {
            Err(UserPermissionError::InvalidPermission)
        }
    }

    /// The permission named by `s`, in any letter case: any text that
    /// differs from `s` only in the case of ASCII letters names the same
    /// permission, or is refused as `s` is.
    pub fn from_str(s: &str) -> (res: Result<UserPermission, UserPermissionError>)
        ensures
            res == permission_named(lowercase(s@)),
            forall|t: Seq<char>| #[trigger]
                same_ignoring_ascii_case(t, s@) ==> res == permission_named(lowercase(t)),
    {
        let lower = to_lowercase(s);
        UserPermission::from_lowercase(lower.as_str())
    }

    /// `self` covers `needed`: an administrator covers everything, a
    /// read-and-write user covers reading and writing, and every
    /// permission covers itself.
    pub open spec fn covers(self, needed: UserPermission) -> bool {
        ||| self == UserPermission::Admin
        ||| self == needed
        ||| (self == UserPermission::ReadAndWrite && (needed == UserPermission::Read
            || needed == UserPermission::Write))
    }

    pub fn compare(&self, o: &UserPermission) -> (res: bool)
        ensures
            res == self.covers(*o),
    {
        match self {
            UserPermission::Read => matches!(o, UserPermission::Read),
            UserPermission::Write => matches!(o, UserPermission::Write),
            UserPermission::ReadAndWrite => matches!(
                o,
                UserPermission::ReadAndWrite | UserPermission::Read | UserPermission::Write
            ),
            UserPermission::Admin => true,
        }
    }
}

impl UserPermission {
    /// The name a permission is written with: "read", "write",
    /// "read-write" or "admin".
    pub open spec fn name(self) -> Seq<char> {
        match self {
            UserPermission::Read => "read"@,
            UserPermission::Write => "write"@,
            UserPermission::ReadAndWrite => "read-write"@,
            UserPermission::Admin => "admin"@,
        }
    }
}

/// The four permission names are different texts.
proof fn lemma_names_distinct()
    ensures
        "read"@ != "write"@,
        "read"@ != "read-write"@,
        "read"@ != "admin"@,
        "write"@ != "read-write"@,
        "write"@ != "admin"@,
        "read-write"@ != "admin"@,
        forall|p: UserPermission, q: UserPermission| p.name() == q.name() ==> p == q,
{
    reveal_strlit("read");
    reveal_strlit("write");
    reveal_strlit("read-write");
    reveal_strlit("admin");
    assert("read"@.len() == 4 && "write"@.len() == 5 && "read-write"@.len() == 10
        && "admin"@.len() == 5);
    assert("write"@[0] == 'w' && "admin"@[0] == 'a');
    assert("read"@ != "write"@ && "read"@ != "read-write"@ && "read"@ != "admin"@);
    assert("write"@ != "read-write"@ && "write"@ != "admin"@);
    assert("read-write"@ != "admin"@);
}

/// Each permission's own name is read back as that permission.
pub proof fn lemma_name_read_back(p: UserPermission)
    ensures
        permission_named(p.name()) == Ok::<UserPermission, UserPermissionError>(p),
{
    lemma_names_distinct();
}

/// Only the four names are accepted: a text read as a permission is that
/// permission's own name, and every other text is refused with
/// `InvalidPermission`.
pub proof fn lemma_only_names_accepted(name: Seq<char>)
    ensures
        permission_named(name) matches Ok(p) ==> name == p.name(),
        (forall|p: UserPermission| name != p.name()) ==> permission_named(name) matches Err(
            UserPermissionError::InvalidPermission,
        ),
{
    lemma_names_distinct();
    if permission_named(name) is Ok {
        let p = permission_named(name)->Ok_0;
        assert(name == p.name());
    } else {
        assert(permission_named(name) matches Err(UserPermissionError::InvalidPermission));
    }
}

/// Every permission covers itself.
pub proof fn lemma_covers_reflexive(p: UserPermission)
    ensures
        p.covers(p),
{
}

/// Coverage passes along: what covers a permission covers all that it covers.
pub proof fn lemma_covers_transitive(a: UserPermission, b: UserPermission, c: UserPermission)
    requires
        a.covers(b),
        b.covers(c),
    ensures
        a.covers(c),
{
}

/// Two permissions that cover each other are the same permission.
pub proof fn lemma_covers_antisymmetric(a: UserPermission, b: UserPermission)
    requires
        a.covers(b),
        b.covers(a),
    ensures
        a == b,
{
}

/// The administrator covers every permission, and nothing else covers the
/// administrator.
pub proof fn lemma_admin_covers_all(p: UserPermission)
    ensures
        UserPermission::Admin.covers(p),
        p.covers(UserPermission::Admin) <==> p == UserPermission::Admin,
{
}

/// Reading and writing are separate: neither covers the other, and both are
/// covered by read-and-write.
pub proof fn lemma_read_write_separate()
    ensures
        !UserPermission::Read.covers(UserPermission::Write),
        !UserPermission::Write.covers(UserPermission::Read),
        UserPermission::ReadAndWrite.covers(UserPermission::Read),
        UserPermission::ReadAndWrite.covers(UserPermission::Write),
{
}

} // verus!
