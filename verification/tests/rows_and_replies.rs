use license_store::{
    collect_entries, decimal_text, error_reply, first_license, into_reply, lookup_reply, ok_reply,
    text_reply, write_reply, Entry, Reply, ServiceError,
};

fn row(id: i32, license: Option<&str>) -> Result<Entry, String> {
    Ok(Entry { id: Some(id), key: Some(String::from("k")), license: license.map(String::from) })
}

fn failed(text: &str) -> Result<Entry, String> {
    Err(String::from(text))
}

#[test]
fn first_license_of_no_rows_is_empty() {
    assert_eq!(first_license::<String>(vec![]), Ok(String::new()));
}

#[test]
fn first_license_of_blank_rows_is_empty() {
    assert_eq!(first_license(vec![row(1, None), row(2, None), row(3, None)]), Ok(String::new()));
}

#[test]
fn first_license_is_the_first_in_order() {
    let rows = vec![row(1, None), row(2, Some("ISC")), row(3, Some("MIT")), failed("late")];
    assert_eq!(first_license(rows), Ok(String::from("ISC")));
}

#[test]
fn first_license_passes_over_empty_licenses() {
    let rows = vec![row(1, Some("")), row(2, None), row(3, Some("MIT")), row(4, Some("ISC"))];
    assert_eq!(first_license(rows), Ok(String::from("MIT")));
    assert_eq!(first_license(vec![row(1, Some("")), row(2, Some(""))]), Ok(String::new()));
    assert_eq!(first_license(vec![row(1, Some("")), failed("after")]), Err(String::from("after")));
}

#[test]
fn first_license_may_sit_in_the_last_row() {
    let rows = vec![row(1, None), row(2, None), row(3, Some("MIT"))];
    assert_eq!(first_license(rows), Ok(String::from("MIT")));
}

#[test]
fn first_license_fails_with_the_first_failure_before_a_license() {
    let rows = vec![row(1, None), failed("first"), failed("second"), row(4, Some("MIT"))];
    assert_eq!(first_license(rows), Err(String::from("first")));
}

#[test]
fn lookup_reply_has_status_200_and_the_license_as_body() {
    assert_eq!(lookup_reply::<String>(vec![]), Ok(Reply { status: 200, body: String::new() }));
    assert_eq!(
        lookup_reply(vec![row(1, Some("MIT"))]),
        Ok(Reply { status: 200, body: String::from("MIT") })
    );
    assert_eq!(lookup_reply(vec![row(1, None)]), Ok(Reply { status: 200, body: String::new() }));
    assert_eq!(lookup_reply(vec![failed("broken")]), Err(String::from("broken")));
}

#[test]
fn collect_entries_keeps_every_row_in_order() {
    let rows = vec![row(3, Some("c")), row(1, None), row(2, Some("b"))];
    let expected: Vec<Entry> =
        vec![row(3, Some("c")).unwrap(), row(1, None).unwrap(), row(2, Some("b")).unwrap()];
    assert_eq!(collect_entries(rows), Ok(expected));
    assert_eq!(collect_entries::<String>(vec![]), Ok(vec![]));
}

#[test]
fn collect_entries_fails_with_the_first_failure() {
    let rows = vec![row(1, Some("a")), failed("first"), row(3, None), failed("second")];
    assert_eq!(collect_entries(rows), Err(String::from("first")));
    assert_eq!(collect_entries(vec![failed("only")]), Err(String::from("only")));
}

#[test]
fn write_reply_acknowledges_any_number_of_changed_rows() {
    let ok = Reply { status: 200, body: String::from("OK") };
    assert_eq!(write_reply::<String>(Ok(0)), Ok(ok.clone()));
    assert_eq!(write_reply::<String>(Ok(1)), Ok(ok.clone()));
    assert_eq!(write_reply::<String>(Ok(usize::MAX)), Ok(ok));
    assert_eq!(write_reply(Err(String::from("locked"))), Err(String::from("locked")));
}

#[test]
fn replies_carry_their_fixed_status_and_text() {
    assert_eq!(ok_reply(), Reply { status: 200, body: String::from("OK") });
    assert_eq!(text_reply(String::from("MIT")), Reply { status: 200, body: String::from("MIT") });
    assert_eq!(text_reply(String::new()), Reply { status: 200, body: String::new() });
}

#[test]
fn error_reply_prefixes_the_description() {
    assert_eq!(
        error_reply(&ServiceError::MissingField),
        Reply {
            status: 500,
            body: String::from("Something went wrong: id and license are required"),
        }
    );
    assert_eq!(
        error_reply(&ServiceError::Storage(String::from("database is locked"))),
        Reply { status: 500, body: String::from("Something went wrong: database is locked") }
    );
    assert_eq!(
        error_reply(&ServiceError::Storage(String::new())),
        Reply { status: 500, body: String::from("Something went wrong: ") }
    );
}

#[test]
fn describe_gives_the_text_of_each_error() {
    assert_eq!(ServiceError::MissingField.describe(), "id and license are required");
    assert_eq!(ServiceError::Storage(String::from("disk I/O error")).describe(), "disk I/O error");
}

#[test]
fn into_reply_hands_a_reply_on_and_shapes_an_error() {
    let reply = Reply { status: 200, body: String::from("MIT") };
    assert_eq!(into_reply(Ok(reply.clone())), reply);
    assert_eq!(
        into_reply(Err(ServiceError::Storage(String::from("no such table: licenses")))),
        Reply { status: 500, body: String::from("Something went wrong: no such table: licenses") }
    );
}

#[test]
fn decimal_text_writes_base_ten() {
    assert_eq!(decimal_text(0), "0");
    assert_eq!(decimal_text(7), "7");
    assert_eq!(decimal_text(10), "10");
    assert_eq!(decimal_text(-1), "-1");
    assert_eq!(decimal_text(1002003), "1002003");
    assert_eq!(decimal_text(i32::MAX), "2147483647");
    assert_eq!(decimal_text(i32::MIN), "-2147483648");
}

#[test]
fn decimal_text_agrees_with_the_standard_formatting() {
    let mut n: i32 = i32::MIN;
    loop {
        assert_eq!(decimal_text(n), n.to_string());
        match n.checked_add(9_999_991) {
            Some(next) => n = next,
            None => break,
        }
    }
    for n in -1100..1100 {
        assert_eq!(decimal_text(n), n.to_string());
    }
}
