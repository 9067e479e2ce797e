//! Account names and their syntax.

use vstd::prelude::*;
use vstd::utf8::{encode_utf8, is_ascii_chars, is_ascii_chars_encode_utf8};

verus! {

/// `-`, `_` or `.`: the bytes that separate the parts of an account name.
pub open spec fn is_separator(b: u8) -> bool {
    b == 45 || b == 95 || b == 46
}

/// A lower-case ASCII letter or an ASCII digit.
pub open spec fn is_lower_alnum(b: u8) -> bool {
    (97 <= b && b <= 122) || (48 <= b && b <= 57)
}

/// The syntax of an account name: 2 to 64 bytes, each a lower-case letter, a
/// digit or a separator, where no separator stands first, last or next to
/// another separator.
pub open spec fn valid_account_bytes(id: Seq<u8>) -> bool {
    &&& 2 <= id.len() <= 64
    &&& forall|i: int| 0 <= i < id.len() ==> is_lower_alnum(#[trigger] id[i]) || is_separator(id[i])
    &&& !is_separator(id[0])
    &&& !is_separator(id[id.len() - 1])
    &&& forall|i: int|
        0 <= i < id.len() - 1 ==> !(is_separator(#[trigger] id[i]) && is_separator(id[i + 1]))
}

/// `-`, `_` or `.` as a character.
pub open spec fn is_separator_char(c: char) -> bool {
    c == '-' || c == '_' || c == '.'
}

/// The syntax of an account name, stated of its characters: 2 to 64
/// characters, each a lower-case ASCII letter, an ASCII digit or a separator,
/// where no separator stands first, last or next to another separator.
pub open spec fn valid_account_name(name: Seq<char>) -> bool {
    &&& 2 <= name.len() <= 64
    &&& forall|i: int|
        0 <= i < name.len() ==> ('a' <= #[trigger] name[i] && name[i] <= 'z') || ('0' <= name[i]
            && name[i] <= '9') || is_separator_char(name[i])
    &&& !is_separator_char(name[0])
    &&& !is_separator_char(name[name.len() - 1])
    &&& forall|i: int|
        0 <= i < name.len() - 1 ==> !(is_separator_char(#[trigger] name[i]) && is_separator_char(
            name[i + 1],
        ))
}

/// A name that has the syntax of an account name, character by character,
/// has it byte by byte too, since each of its characters is encoded as one
/// byte of the same value.
pub proof fn lemma_valid_name_has_valid_bytes(name: Seq<char>)
    requires
        valid_account_name(name),
    ensures
        valid_account_bytes(encode_utf8(name)),
{
    assert(is_ascii_chars(name)) by {
        assert forall|i: int| 0 <= i < name.len() implies '\0' <= #[trigger] name[i] && name[i]
            <= '\u{7f}' by {
            let c = name[i];
            assert(('a' <= c && c <= 'z') || ('0' <= c && c <= '9') || is_separator_char(c));
        }
    }
    is_ascii_chars_encode_utf8(name);
    let bytes = encode_utf8(name);
    assert forall|i: int| 0 <= i < bytes.len() implies is_lower_alnum(#[trigger] bytes[i])
        || is_separator(bytes[i]) by {
        let c = name[i];
        assert(bytes[i] == c as u8);
        assert(('a' <= c && c <= 'z') || ('0' <= c && c <= '9') || is_separator_char(c));
    }
    assert(bytes[0] == name[0] as u8);
    assert(bytes[bytes.len() - 1] == name[name.len() - 1] as u8);
    assert forall|i: int| 0 <= i < bytes.len() - 1 implies !(is_separator(#[trigger] bytes[i])
        && is_separator(bytes[i + 1])) by {
        assert(bytes[i] == name[i] as u8);
        assert(bytes[i + 1] == name[i + 1] as u8);
        assert(!(is_separator_char(name[i]) && is_separator_char(name[i + 1])));
    }
}

/// Calls `near_sdk::env::is_valid_account_id`, which scans the bytes once and
/// accepts exactly the names of 2 to 64 bytes that are made of lower-case
/// letters, digits and the separators `-`, `_`, `.`, with no separator at either
/// end and no two separators in a row. The contract restates that rule; it is
/// taken on trust from the SDK's source.
#[verifier::external_body]
fn is_valid_account_id(account_id: &[u8]) -> (valid: bool)
    ensures
        valid == valid_account_bytes(account_id@),
{
    near_sdk::env::is_valid_account_id(account_id)
}

/// The name of an account, checked once when the value is made.
#[derive(Debug)]
pub struct AccountId {
    name: String,
}

impl View for AccountId {
    type V = Seq<char>;

    closed spec fn view(&self) -> Seq<char> {
        self.name@
    }
}

impl AccountId {
    #[verifier::type_invariant]
    spec fn well_formed(&self) -> bool {
        valid_account_bytes(encode_utf8(self.name@))
    }

    /// Accepts `name` if and only if it has the syntax of an account name.
    pub fn new(name: &str) -> (account: Option<AccountId>)
        ensures
            account is Some <==> valid_account_bytes(encode_utf8(name@)),
            account matches Some(a) ==> a@ == name@,
            valid_account_name(name@) ==> account is Some,
    {
        proof {
            if valid_account_name(name@) {
                lemma_valid_name_has_valid_bytes(name@);
            }
        }
        if is_valid_account_id(name.as_bytes()) {
            Some(AccountId { name: name.to_owned() })
        } else {
            None
        }
    }

    /// The name as text.
    pub fn as_str(&self) -> (name: &str)
        ensures
            name@ == self@,
            valid_account_bytes(encode_utf8(name@)),
    {
        proof {
            use_type_invariant(self);
        }
        self.name.as_str()
    }
}

impl Clone for AccountId {
    fn clone(&self) -> (copy: Self)
        ensures
            copy@ == self@,
    {
        proof {
            use_type_invariant(self);
        }
        AccountId { name: self.name.clone() }
    }
}

impl PartialEq for AccountId {
    fn eq(&self, other: &Self) -> (equal: bool) {
        self.name == other.name
    }
}

impl vstd::std_specs::cmp::PartialEqSpecImpl for AccountId {
    open spec fn obeys_eq_spec() -> bool {
        true
    }

    open spec fn eq_spec(&self, other: &Self) -> bool {
        self@ == other@
    }
}

} // verus!
