//! The user record that mention helpers read.
use vstd::prelude::*;

use crate::markdown::dec_i64;
use crate::markdown::dec_int;

verus! {

broadcast use vstd::string::group_string_axioms;

/// A user of the messaging service, as the mention helpers see one.
pub struct User {
    /// The numeric identifier of the user.
    pub id: i32,
    /// Whether the account is a bot.
    pub is_bot: bool,
    /// The user's first name.
    pub first_name: String,
    /// The user's last name, when one is set.
    pub last_name: Option<String>,
    /// The user's username, when one is set.
    pub username: Option<String>,
    /// The user's language code, when one is known.
    pub language_code: Option<String>,
}

impl User {
    /// The user's full name: first name, and last name after a space when
    /// one is set.
    pub open spec fn spec_full_name(&self) -> Seq<char> {
        match self.last_name {
            Some(last) => self.first_name@ + seq![' '] + last@,
            None => self.first_name@,
        }
    }

    /// Returns the user's full name.
    pub fn full_name(&self) -> (r: String)
        ensures
            r@ == self.spec_full_name(),
    {
        match &self.last_name {
            Some(last) => {
                let mut r = self.first_name.clone();
                r.append(" ");
                r.append(last.as_str());
                proof {
                    reveal_strlit(" ");
                    assert(" "@ =~= seq![' ']);
                    assert(r@ =~= self.spec_full_name());
                }
                r
            },
            None => self.first_name.clone(),
        }
    }

    /// The username mention, when a username is set: an at sign, then the
    /// username.
    pub open spec fn spec_mention(&self) -> Option<Seq<char>> {
        match self.username {
            Some(name) => Some(seq!['@'] + name@),
            None => None,
        }
    }

    /// Returns the username mention, when a username is set.
    pub fn mention(&self) -> (r: Option<String>)
        ensures
            r.deep_view() == self.spec_mention(),
    {
        match &self.username {
            Some(name) => {
                let mut r = String::from_str("@");
                r.append(name.as_str());
                proof {
                    reveal_strlit("@");
                    assert("@"@ =~= seq!['@']);
                    assert(r@ =~= seq!['@'] + name@);
                }
                Some(r)
            },
            None => None,
        }
    }

    /// The URL that addresses the user by identifier.
    pub open spec fn spec_url(&self) -> Seq<char> {
        seq!['t', 'g', ':', '/', '/', 'u', 's', 'e', 'r', '/', '?', 'i', 'd', '='] + dec_int(
            self.id as int,
        )
    }

    /// Returns the URL that addresses the user by identifier.
    pub fn url(&self) -> (r: String)
        ensures
            r@ == self.spec_url(),
    {
        let mut r = String::from_str("tg://user/?id=");
        let digits = dec_i64(self.id as i64);
        r.append(digits.as_str());
        proof {
            reveal_strlit("tg://user/?id=");
            assert("tg://user/?id="@ =~= seq![
                't',
                'g',
                ':',
                '/',
                '/',
                'u',
                's',
                'e',
                'r',
                '/',
                '?',
                'i',
                'd',
                '=',
            ]);
            assert(r@ =~= self.spec_url());
        }
        r
    }
}

} // verus!
