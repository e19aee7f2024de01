//! A user of the chat: a numeric id and a name.

use vstd::prelude::*;
use vstd::std_specs::cmp::{PartialEqSpec, PartialOrdSpec};
use vstd::string::StringExecFns;

use core::cmp::Ordering;

use crate::text::{decimal_digits, decimal_text};

verus! {

/// Text values that can become a user name.
pub trait UserName: Sized {
    /// The characters of the name.
    spec fn chars(&self) -> Seq<char>;

    /// The name as a `String`.
    fn into_string(self) -> (name: String)
        ensures
            name@ == self.chars(),
    ;
}

impl<'a> UserName for &'a str {
    open spec fn chars(&self) -> Seq<char> {
        (**self)@
    }

    fn into_string(self) -> (name: String) {
        String::from_str(self)
    }
}

impl UserName for String {
    open spec fn chars(&self) -> Seq<char> {
        self@
    }

    fn into_string(self) -> (name: String) {
        self
    }
}

/// A user: two users are the same user when their ids agree.
#[derive(Clone, Debug, Hash, Eq, Ord)]
pub struct User {
    id: u16,
    name: String,
}

/// The byte-wise lexicographic order of `a` and `b`, the order of strings.
pub open spec fn lex_order(a: Seq<u8>, b: Seq<u8>) -> Ordering
    decreases a.len(),
{
    if a.len() == 0 {
        if b.len() == 0 {
            Ordering::Equal
        } else {
            Ordering::Less
        }
    } else if b.len() == 0 {
        Ordering::Greater
    } else if a[0] < b[0] {
        Ordering::Less
    } else if a[0] > b[0] {
        Ordering::Greater
    } else {
        lex_order(a.drop_first(), b.drop_first())
    }
}

proof fn lemma_lex_order_skip(a: Seq<u8>, b: Seq<u8>, i: int)
    requires
        0 <= i < a.len(),
        i < b.len(),
        a[i] == b[i],
    ensures
        lex_order(a.skip(i), b.skip(i)) == lex_order(a.skip(i + 1), b.skip(i + 1)),
{
    assert(a.skip(i).drop_first() =~= a.skip(i + 1));
    assert(b.skip(i).drop_first() =~= b.skip(i + 1));
}

/// The position `i` as an integer.
spec fn position(i: usize) -> int {
    i as int
}

/// Compares two byte strings lexicographically.
fn compare_bytes(a: &[u8], b: &[u8]) -> (order: Ordering)
    ensures
        order == lex_order(a@, b@),
{
    let mut i: usize = 0;
    assert(a@.skip(0) =~= a@ && b@.skip(0) =~= b@);
    while i < a.len() && i < b.len()
        invariant
            i <= a@.len(),
            i <= b@.len(),
            lex_order(a@, b@) == lex_order(a@.skip(position(i)), b@.skip(position(i))),
        decreases a@.len() - i,
    {
        if a[i] < b[i] {
            return Ordering::Less;
        }
        if a[i] > b[i] {
            return Ordering::Greater;
        }
        proof {
            lemma_lex_order_skip(a@, b@, position(i));
        }
        i = i + 1;
    }
    if i < b.len() {
        Ordering::Less
    } else if i < a.len() {
        Ordering::Greater
    } else {
        Ordering::Equal
    }
}

/// The text of a user, `{ ID: { 7 }, Username: { bob } }`.
pub open spec fn user_text(u: &User) -> Seq<char> {
    "{ ID: { "@ + decimal_digits(u.id_spec() as nat) + " }, Username: { "@ + u.name_spec()
        + " } }"@
}

/// The order of users: by id, then by the bytes of the name.
pub open spec fn user_order(a: &User, b: &User) -> Ordering {
    if a.id_spec() < b.id_spec() {
        Ordering::Less
    } else if a.id_spec() > b.id_spec() {
        Ordering::Greater
    } else {
        lex_order(a.name_bytes(), b.name_bytes())
    }
}

impl User {
    /// The user with id `id` and the given name.
    pub fn new<S: UserName>(id: u16, name: S) -> (user: Self)
        ensures
            user.id_spec() == id,
            user.name_spec() == name.chars(),
    {
        Self { id, name: name.into_string() }
    }

    /// The id of the user.
    pub closed spec fn id_spec(&self) -> u16 {
        self.id
    }

    /// The characters of the user's name.
    pub closed spec fn name_spec(&self) -> Seq<char> {
        self.name@
    }

    /// The UTF-8 bytes of the user's name.
    pub open spec fn name_bytes(&self) -> Seq<u8> {
        vstd::utf8::encode_utf8(self.name_spec())
    }

    /// The id of the user.
    pub fn id(&self) -> (id: u16)
        ensures
            id == self.id_spec(),
    {
        self.id
    }

    /// The name of the user.
    pub fn name(&self) -> (name: String)
        ensures
            name@ == self.name_spec(),
    {
        self.name.clone()
    }

    /// The name followed by the id in square brackets, as in `bob[7]`.
    pub fn format(&self) -> (text: String)
        ensures
            text@ == self.name_spec() + seq!['['] + decimal_digits(self.id_spec() as nat) + seq![
                ']',
            ],
    {
        let mut text = self.name.clone();
        text.append("[");
        let digits = decimal_text(self.id as u64);
        text.append(digits.as_str());
        text.append("]");
        proof {
            reveal_strlit("[");
            reveal_strlit("]");
        }
        text
    }

    /// The user in the form `{ ID: { 7 }, Username: { bob } }`.
    pub fn to_string(&self) -> (text: String)
        ensures
            text@ == user_text(self),
    {
        let mut text = String::from_str("{ ID: { ");
        let digits = decimal_text(self.id as u64);
        text.append(digits.as_str());
        text.append(" }, Username: { ");
        text.append(self.name.as_str());
        text.append(" } }");
        text
    }
}

impl PartialEq for User {
    fn eq(&self, other: &Self) -> (r: bool)
        ensures
            r == (self.id_spec() == other.id_spec()),
    {
        self.id == other.id
    }
}

impl vstd::std_specs::cmp::PartialEqSpecImpl for User {
    open spec fn obeys_eq_spec() -> bool {
        true
    }

    open spec fn eq_spec(&self, other: &User) -> bool {
        self.id_spec() == other.id_spec()
    }
}

impl PartialOrd for User {
    fn partial_cmp(&self, other: &Self) -> (r: Option<Ordering>)
        ensures
            r == Some(user_order(self, other)),
    {
        if self.id < other.id {
            Some(Ordering::Less)
        } else if self.id > other.id {
            Some(Ordering::Greater)
        } else {
            Some(compare_bytes(self.name.as_str().as_bytes(), other.name.as_str().as_bytes()))
        }
    }
}

impl vstd::std_specs::cmp::PartialOrdSpecImpl for User {
    open spec fn obeys_partial_cmp_spec() -> bool {
        true
    }

    open spec fn partial_cmp_spec(&self, other: &User) -> Option<Ordering> {
        Some(user_order(self, other))
    }
}

} // verus!

verus! {

/// `a` is a proper prefix of `b`.
pub open spec fn proper_prefix(a: Seq<u8>, b: Seq<u8>) -> bool {
    a.len() < b.len() && a == b.take(a.len() as int)
}

/// Two byte strings are equal in the lexicographic order exactly when they
/// are the same, and swapping them swaps `Less` and `Greater`.
pub proof fn lemma_lex_order(a: Seq<u8>, b: Seq<u8>)
    ensures
        (lex_order(a, b) == Ordering::Equal) <==> (a == b),
        (lex_order(a, b) == Ordering::Less) <==> (lex_order(b, a) == Ordering::Greater),
        proper_prefix(a, b) ==> lex_order(a, b) == Ordering::Less,
    decreases a.len(),
{
    if a.len() > 0 && b.len() > 0 {
        lemma_lex_order(a.drop_first(), b.drop_first());
        if a[0] == b[0] && a.drop_first() == b.drop_first() {
            assert forall|i: int| 0 <= i < a.len() implies a[i] == b[i] by {
                if i > 0 {
                    assert(a[i] == a.drop_first()[i - 1]);
                    assert(b[i] == b.drop_first()[i - 1]);
                }
            }
            assert(a =~= b);
        }
        if a == b {
            assert(a.drop_first() == b.drop_first());
        }
        if proper_prefix(a, b) {
            assert(a[0] == b.take(a.len() - 0)[0]);
            assert(a.drop_first() =~= b.drop_first().take(a.len() - 1));
            assert(proper_prefix(a.drop_first(), b.drop_first()));
        }
    } else if a.len() == 0 && b.len() == 0 {
        assert(a =~= b);
    }
}

/// Users are equal exactly when their ids are, whatever their names.
pub proof fn lemma_user_eq(a: User, b: User)
    ensures
        a.eq_spec(&b) <==> a.id_spec() == b.id_spec(),
{
}

/// Users are ordered by id; users with the same id are ordered by the bytes
/// of their names, equal only when the names are, and swapping two users
/// swaps `Less` and `Greater`.
pub proof fn lemma_user_order(a: User, b: User)
    ensures
        a.id_spec() < b.id_spec() ==> a.partial_cmp_spec(&b) == Some(Ordering::Less),
        a.id_spec() > b.id_spec() ==> a.partial_cmp_spec(&b) == Some(Ordering::Greater),
        a.id_spec() == b.id_spec() ==> (a.partial_cmp_spec(&b) == Some(Ordering::Equal)
            <==> a.name_bytes() == b.name_bytes()),
        (a.partial_cmp_spec(&b) == Some(Ordering::Less)) <==> (b.partial_cmp_spec(&a) == Some(
            Ordering::Greater,
        )),
{
    lemma_lex_order(a.name_bytes(), b.name_bytes());
}

} // verus!
