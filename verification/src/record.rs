//! Synthetic identity records and the rules that derive their fields.
//!
//! A record carries a first and last name, a primary email derived
//! deterministically from the names, a primary password, a phone number,
//! and an optional secondary login (email plus password) whose two parts
//! are always present or absent together.

use vstd::math::min;
use vstd::prelude::*;

verus! {

/// The fixed domain every derived email address ends in.
pub open spec fn domain() -> Seq<char> {
    "@uwindsor.ca"@
}

/// ASCII lowercasing of a single character: `'A'..='Z'` map to
/// `'a'..='z'`, every other character is unchanged.
pub open spec fn lower_char(c: char) -> char {
    if 65 <= c as u32 && c as u32 <= 90 {
        ((c as u32) + 32) as char
    } else {
        c
    }
}

/// ASCII lowercasing of a character sequence, applied pointwise.
pub open spec fn lower_seq(s: Seq<char>) -> Seq<char> {
    s.map_values(|c: char| lower_char(c))
}

/// The local part of the primary email: the last name truncated to its
/// first eight characters, followed by the first name's initial, all
/// lowercased.
pub open spec fn primary_local(first: Seq<char>, last: Seq<char>) -> Seq<char>
    recommends
        first.len() > 0,
{
    lower_seq(last.take(min(8, last.len() as int)).push(first[0]))
}

/// The primary email derived from a first and a last name.
pub open spec fn primary_email_spec(first: Seq<char>, last: Seq<char>) -> Seq<char>
    recommends
        first.len() > 0,
{
    primary_local(first, last) + domain()
}

/// Relies on `str::to_ascii_lowercase`: each character is mapped to its
/// ASCII lowercase equivalent (`'A'..='Z'` to `'a'..='z'`), all other
/// characters are left unchanged.
#[verifier::external_body]
fn lower_ascii(s: &str) -> (r: String)
    ensures
        r@ == lower_seq(s@),
{
    s.to_ascii_lowercase()
}

/// Builds the primary email address from the two names.
pub fn primary_email(first: &str, last: &str) -> (r: String)
    requires
        first@.len() > 0,
    ensures
        r@ == primary_email_spec(first@, last@),
{
    let last_len = last.unicode_len();
    let cut = if last_len < 8 { last_len } else { 8 };
    let prefix = last.substring_char(0, cut);
    let initial = first.substring_char(0, 1);
    let local = String::from_str(prefix).concat(initial);
    let lowered = lower_ascii(local.as_str());
    proof {
        assert(local@ =~= last@.take(min(8, last@.len() as int)).push(first@[0]));
    }
    let r = lowered.concat("@uwindsor.ca");
    r
}

/// The decimal digit character for a value below ten.
pub open spec fn digit_char(d: u8) -> char
    recommends
        d < 10,
{
    (48 + d) as char
}

/// The one-character string for a decimal digit.
fn digit_str(d: u8) -> (r: &'static str)
    requires
        d < 10,
    ensures
        r@.len() == 1,
        r@[0] == digit_char(d),
{
    proof {
        reveal_strlit("0123456789");
    }
    let s = "0123456789";
    s.substring_char(d as usize, (d + 1) as usize)
}

/// The local part of a secondary email: the last name truncated to its
/// first eight characters, followed by one decimal digit, all lowercased.
pub open spec fn secondary_local(last: Seq<char>, d: u8) -> Seq<char>
    recommends
        d < 10,
{
    lower_seq(last.take(min(8, last.len() as int)).push(digit_char(d)))
}

/// A secondary email derived from the last name and one decimal digit.
pub open spec fn secondary_email_spec(last: Seq<char>, d: u8) -> Seq<char>
    recommends
        d < 10,
{
    secondary_local(last, d) + domain()
}

/// Whether `e` is a secondary email derived from the last name `last`
/// and some decimal digit.
pub open spec fn is_secondary_email_for(e: Seq<char>, last: Seq<char>) -> bool {
    exists|d: u8| d < 10 && e == #[trigger] secondary_email_spec(last, d)
}

/// Builds a secondary email address from the last name and a digit.
pub fn secondary_email(last: &str, d: u8) -> (r: String)
    requires
        d < 10,
    ensures
        r@ == secondary_email_spec(last@, d),
{
    let last_len = last.unicode_len();
    let cut = if last_len < 8 { last_len } else { 8 };
    let prefix = last.substring_char(0, cut);
    let local = String::from_str(prefix).concat(digit_str(d));
    let lowered = lower_ascii(local.as_str());
    proof {
        assert(local@ =~= last@.take(min(8, last@.len() as int)).push(digit_char(d)));
    }
    let r = lowered.concat("@uwindsor.ca");
    r
}

/// One synthetic identity record, immutable once assembled.
pub struct FakeData {
    pub first_name: String,
    pub last_name: String,
    pub email: String,
    pub passcode: String,
    pub phone_number: String,
    pub alt_email: Option<String>,
    pub alt_passcode: Option<String>,
}

impl FakeData {
    /// Well-formedness of a record: the primary email is derived from the
    /// names, the password lengths lie in their ranges, and the secondary
    /// email and password are present or absent together.
    pub open spec fn wf(self) -> bool {
        &&& self.first_name@.len() > 0
        &&& self.email@ == primary_email_spec(self.first_name@, self.last_name@)
        &&& 8 <= self.passcode@.len() < 12
        &&& (self.alt_email is Some <==> self.alt_passcode is Some)
        &&& (self.alt_email matches Some(e) ==> is_secondary_email_for(e@, self.last_name@))
        &&& (self.alt_passcode matches Some(p) ==> 8 <= p@.len() < 13)
    }

    /// Assembles a record from the raw draws: the two names, the primary
    /// password, the phone number, and — when a secondary login was drawn —
    /// a decimal digit together with the secondary password. The emails are
    /// derived here; everything else is stored as given.
    pub fn assemble(
        first_name: String,
        last_name: String,
        passcode: String,
        phone_number: String,
        secondary: Option<(u8, String)>,
    ) -> (r: FakeData)
        requires
            first_name@.len() > 0,
            8 <= passcode@.len() < 12,
            secondary matches Some(s) ==> s.0 < 10 && 8 <= s.1@.len() < 13,
        ensures
            r.wf(),
            r.first_name == first_name,
            r.last_name == last_name,
            r.passcode == passcode,
            r.phone_number == phone_number,
            r.email@ == primary_email_spec(first_name@, last_name@),
            secondary is None ==> r.alt_email is None && r.alt_passcode is None,
            secondary matches Some(s) ==> {
                &&& r.alt_email matches Some(e) && e@ == secondary_email_spec(last_name@, s.0)
                &&& r.alt_passcode == Some(s.1)
            },
    {
        let email = primary_email(first_name.as_str(), last_name.as_str());
        let (alt_email, alt_passcode) = match secondary {
            Some((d, p)) => {
                let e = secondary_email(last_name.as_str(), d);
                proof {
                    assert(is_secondary_email_for(e@, last_name@)) by {
                        assert(d < 10 && e@ == secondary_email_spec(last_name@, d));
                    }
                }
                (Some(e), Some(p))
            },
            None => (None, None),
        };
        let r = FakeData {
            first_name,
            last_name,
            email,
            passcode,
            phone_number,
            alt_email,
            alt_passcode,
        };
        proof {
            assert(r.wf());
        }
        r
    }

    /// Draws the raw material of one record — two names, a primary
    /// password, a phone number, and with fixed probability a secondary
    /// login — and assembles a well-formed record from it.
    pub fn generate() -> (r: FakeData)
        ensures
            r.wf(),
    {
        let first_name = crate::entropy::draw_first_name();
        let last_name = crate::entropy::draw_last_name();
        let passcode = crate::entropy::draw_password(8, 12);
        let phone_number = crate::entropy::draw_phone_number();
        let has_other_login = crate::entropy::draw_boolean(75);
        let secondary = if has_other_login {
            let d = crate::entropy::draw_byte() % 10;
            let p = crate::entropy::draw_password(8, 13);
            Some((d, p))
        } else {
            None
        };
        FakeData::assemble(first_name, last_name, passcode, phone_number, secondary)
    }

    /// The first and last name joined by a single space.
    pub open spec fn full_name_spec(self) -> Seq<char> {
        self.first_name@ + " "@ + self.last_name@
    }

    pub fn full_name(&self) -> (r: String)
        ensures
            r@ == self.full_name_spec(),
    {
        let r = self.first_name.clone().concat(" ").concat(self.last_name.as_str());
        r
    }

    /// The secondary email, or the literal text `None` when absent.
    pub open spec fn other_email_spec(self) -> Seq<char> {
        match self.alt_email {
            Some(e) => e@,
            None => "None"@,
        }
    }

    pub fn other_email(&self) -> (r: String)
        ensures
            r@ == self.other_email_spec(),
    {
        match &self.alt_email {
            Some(e) => e.clone(),
            None => String::from_str("None"),
        }
    }

    /// The secondary password, or the literal text `None` when absent.
    pub open spec fn other_password_spec(self) -> Seq<char> {
        match self.alt_passcode {
            Some(p) => p@,
            None => "None"@,
        }
    }

    pub fn other_password(&self) -> (r: String)
        ensures
            r@ == self.other_password_spec(),
    {
        match &self.alt_passcode {
            Some(p) => p.clone(),
            None => String::from_str("None"),
        }
    }

    /// The one-line rendering of a record: the full name, the primary
    /// login, the secondary login (or `None` twice), and the phone number.
    pub open spec fn describe_spec(self) -> Seq<char> {
        "('"@ + self.full_name_spec() + "': ["@ + self.email@ + ", "@ + self.passcode@ + "], ["@
            + self.other_email_spec() + ", "@ + self.other_password_spec() + "], "@
            + self.phone_number@ + ")"@
    }

    pub fn describe(&self) -> (r: String)
        ensures
            r@ == self.describe_spec(),
    {
        let r = String::from_str("('").concat(self.full_name().as_str()).concat("': [").concat(
            self.email.as_str(),
        ).concat(", ").concat(self.passcode.as_str()).concat("], [").concat(
            self.other_email().as_str(),
        ).concat(", ").concat(self.other_password().as_str()).concat("], ").concat(
            self.phone_number.as_str(),
        ).concat(")");
        proof {
            assert(r@ =~= self.describe_spec());
        }
        r
    }
}

} // verus!
