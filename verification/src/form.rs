//! The urlencoded form body built from one record.
//!
//! The target form identifies its inputs by fixed opaque entry names; a
//! submission carries exactly seven key-value pairs, one per input, with
//! the password repeated in the confirmation field.

use crate::record::FakeData;
use vstd::prelude::*;

verus! {

/// The seven fixed form keys, in the order the body lists them.
pub open spec fn form_keys() -> Seq<Seq<char>> {
    seq![
        "entry.48451860"@,
        "entry.210207576"@,
        "entry.541825043"@,
        "entry.642704722"@,
        "entry.193709575"@,
        "entry.905225749"@,
        "entry.1107614691"@,
    ]
}

/// The form body for one record: full name, primary email, the password
/// twice (entry and confirmation), phone number, and the secondary email
/// and password with the literal text `None` standing for an absent one.
pub open spec fn form_spec(data: FakeData) -> Seq<(Seq<char>, Seq<char>)> {
    seq![
        (form_keys()[0], data.full_name_spec()),
        (form_keys()[1], data.email@),
        (form_keys()[2], data.passcode@),
        (form_keys()[3], data.passcode@),
        (form_keys()[4], data.phone_number@),
        (form_keys()[5], data.other_email_spec()),
        (form_keys()[6], data.other_password_spec()),
    ]
}

/// Builds the form body for one record.
pub fn build_form(data: &FakeData) -> (r: Vec<(String, String)>)
    ensures
        r.deep_view() == form_spec(*data),
        r@.len() == 7,
{
    let mut r: Vec<(String, String)> = Vec::new();
    r.push((String::from_str("entry.48451860"), data.full_name()));
    r.push((String::from_str("entry.210207576"), data.email.clone()));
    r.push((String::from_str("entry.541825043"), data.passcode.clone()));
    r.push((String::from_str("entry.642704722"), data.passcode.clone()));
    r.push((String::from_str("entry.193709575"), data.phone_number.clone()));
    r.push((String::from_str("entry.905225749"), data.other_email()));
    r.push((String::from_str("entry.1107614691"), data.other_password()));
    proof {
        assert(r.deep_view() =~~= form_spec(*data));
    }
    r
}

/// The form body always holds exactly seven pairs, and the password field
/// and its confirmation field carry the same content.
pub proof fn lemma_form_shape(data: FakeData)
    ensures
        form_spec(data).len() == 7,
        form_spec(data)[2].1 == form_spec(data)[3].1,
{
}

/// The seven form keys are pairwise distinct, so the body never assigns
/// one input twice.
pub proof fn lemma_form_keys_distinct()
    ensures
        forall|i: int, j: int| 0 <= i < j < 7 ==> form_keys()[i] != form_keys()[j],
{
    reveal_strlit("entry.48451860");
    reveal_strlit("entry.210207576");
    reveal_strlit("entry.541825043");
    reveal_strlit("entry.642704722");
    reveal_strlit("entry.193709575");
    reveal_strlit("entry.905225749");
    reveal_strlit("entry.1107614691");
    let keys = form_keys();
    assert(keys[0].len() == 14);
    assert(keys[1].len() == 15);
    assert(keys[2].len() == 15);
    assert(keys[3].len() == 15);
    assert(keys[4].len() == 15);
    assert(keys[5].len() == 15);
    assert(keys[6].len() == 16);
    assert(keys[1][6] == '2');
    assert(keys[2][6] == '5');
    assert(keys[3][6] == '6');
    assert(keys[4][6] == '1');
    assert(keys[5][6] == '9');
}

} // verus!
