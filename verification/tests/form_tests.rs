use form_filler::form::build_form;
use form_filler::record::FakeData;

fn sample_record() -> FakeData {
    FakeData::assemble(
        String::from("Ann"),
        String::from("Johnsonville"),
        String::from("passw0rd"),
        String::from("555-123-4567"),
        Some((3, String::from("secretpw9"))),
    )
}

#[test]
fn form_has_exactly_seven_pairs() {
    let form = build_form(&sample_record());
    assert_eq!(form.len(), 7);
}

#[test]
fn form_keys_are_the_fixed_identifiers() {
    let form = build_form(&sample_record());
    let keys: Vec<&str> = form.iter().map(|p| p.0.as_str()).collect();
    assert_eq!(
        keys,
        vec![
            "entry.48451860",
            "entry.210207576",
            "entry.541825043",
            "entry.642704722",
            "entry.193709575",
            "entry.905225749",
            "entry.1107614691",
        ]
    );
}

#[test]
fn form_keys_are_pairwise_distinct() {
    let form = build_form(&sample_record());
    for i in 0..form.len() {
        for j in 0..form.len() {
            if i != j {
                assert_ne!(form[i].0, form[j].0);
            }
        }
    }
}

#[test]
fn form_values_come_from_the_record() {
    let r = sample_record();
    let form = build_form(&r);
    assert_eq!(form[0].1, "Ann Johnsonville");
    assert_eq!(form[1].1, "johnsonva@uwindsor.ca");
    assert_eq!(form[2].1, "passw0rd");
    assert_eq!(form[3].1, "passw0rd");
    assert_eq!(form[4].1, "555-123-4567");
    assert_eq!(form[5].1, "johnsonv3@uwindsor.ca");
    assert_eq!(form[6].1, "secretpw9");
}

#[test]
fn form_password_and_confirmation_agree() {
    for _ in 0..50 {
        let form = build_form(&FakeData::generate());
        assert_eq!(form.len(), 7);
        assert_eq!(form[2].1, form[3].1);
    }
}

#[test]
fn form_absent_secondary_login_becomes_none_text() {
    let r = FakeData::assemble(
        String::from("Ann"),
        String::from("Johnsonville"),
        String::from("passw0rd"),
        String::from("555-123-4567"),
        None,
    );
    let form = build_form(&r);
    assert_eq!(form[5].1, "None");
    assert_eq!(form[6].1, "None");
}
