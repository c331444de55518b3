//! The credential store: a table of username/password rows, queried by exact
//! match. The first row whose username and password both equal the supplied
//! values wins; uniqueness of usernames is not enforced.

use vstd::prelude::*;

verus! {

/// One stored credential row.
pub struct Credential {
    pub username: String,
    pub password: String,
}

/// Mathematical image of a [`Credential`].
#[verifier::ext_equal]
pub struct CredentialV {
    pub username: Seq<char>,
    pub password: Seq<char>,
}

impl View for Credential {
    type V = CredentialV;

    open spec fn view(&self) -> CredentialV {
        CredentialV { username: self.username@, password: self.password@ }
    }
}

/// Whether row `i` of `rows` matches the pair exactly.
pub open spec fn row_matches(
    rows: Seq<CredentialV>,
    i: int,
    username: Seq<char>,
    password: Seq<char>,
) -> bool {
    rows[i].username == username && rows[i].password == password
}

/// The stored username of the first row matching the pair exactly, nothing
/// when no row does.
pub open spec fn lookup_spec(
    rows: Seq<CredentialV>,
    username: Seq<char>,
    password: Seq<char>,
) -> Option<Seq<char>>
    decreases rows.len(),
{
    if rows.len() == 0 {
        None
    } else if row_matches(rows, 0, username, password) {
        Some(rows[0].username)
    } else {
        lookup_spec(rows.drop_first(), username, password)
    }
}

/// The lookup succeeds exactly when some row matches both fields literally,
/// and then returns the queried username itself. In particular a field that
/// merely contains quoting or query syntax matches nothing unless that very
/// string is stored.
pub proof fn lemma_lookup_exact(rows: Seq<CredentialV>, username: Seq<char>, password: Seq<char>)
    ensures
        lookup_spec(rows, username, password) is Some <==> exists|i: int|
            0 <= i < rows.len() && row_matches(rows, i, username, password),
        lookup_spec(rows, username, password) is Some ==> lookup_spec(rows, username, password)
            == Some(username),
    decreases rows.len(),
{
    if rows.len() == 0 {
    } else if row_matches(rows, 0, username, password) {
    } else {
        lemma_lookup_exact(rows.drop_first(), username, password);
        if lookup_spec(rows, username, password) is Some {
            let j = choose|j: int|
                0 <= j < rows.drop_first().len() && row_matches(
                    rows.drop_first(),
                    j,
                    username,
                    password,
                );
            assert(rows.drop_first()[j] == rows[j + 1]);
            assert(row_matches(rows, j + 1, username, password));
        }
        if exists|i: int| 0 <= i < rows.len() && row_matches(rows, i, username, password) {
            let i = choose|i: int| 0 <= i < rows.len() && row_matches(rows, i, username, password);
            assert(i >= 1);
            assert(rows.drop_first()[i - 1] == rows[i]);
            assert(row_matches(rows.drop_first(), i - 1, username, password));
        }
    }
}

/// The in-memory table of credential rows, seeded once and never mutated.
pub struct CredentialStore {
    pub rows: Vec<Credential>,
}

impl View for CredentialStore {
    type V = Seq<CredentialV>;

    open spec fn view(&self) -> Seq<CredentialV> {
        Seq::new(self.rows@.len(), |i: int| self.rows@[i]@)
    }
}

impl CredentialStore {
    /// A store holding exactly the given rows.
    pub fn from_rows(rows: Vec<Credential>) -> (r: CredentialStore)
        ensures
            r@ == Seq::new(rows@.len(), |i: int| rows@[i]@),
    {
        CredentialStore { rows }
    }

    /// Looks up a row whose username and password exactly equal the supplied
    /// values; returns the stored username of the first such row, nothing
    /// otherwise. It does not tell "username unknown" from "password wrong".
    pub fn verify(&self, username: &String, password: &String) -> (r: Option<String>)
        ensures
            (match r {
                Some(u) => lookup_spec(self@, username@, password@) == Some(u@),
                None => lookup_spec(self@, username@, password@) is None,
            }),
    {
        let n = self.rows.len();
        proof {
            assert(self@.skip(0) =~= self@);
        }
        for i in 0..n
            invariant
                n == self.rows.len(),
                lookup_spec(self@, username@, password@) == lookup_spec(
                    self@.skip(i as int),
                    username@,
                    password@,
                ),
        {
            let row = &self.rows[i];
            proof {
                assert(self@.skip(i as int)[0] == self@[i as int]);
                assert(self@.skip(i as int).drop_first() =~= self@.skip(i + 1));
            }
            if row.username == *username && row.password == *password {
                return Some(row.username.clone());
            }
        }
        proof {
            assert(self@.skip(n as int) =~= Seq::<CredentialV>::empty());
        }
        None
    }
}

} // verus!
