use axum::http::Uri;
use htmx_counter::{
    after_fetch, after_store, get_counter, post_counter, respond, Action, CounterAction,
    CounterError, CounterState, Fetched, Pending, Reply, Step, Stored,
};

/// A settings table that holds at most the row of the default count:
/// `None` is no row, `Some(None)` a row without a value.
struct Table {
    row: Option<Option<i64>>,
    reads: usize,
    writes: usize,
}

fn table(row: Option<Option<i64>>) -> Table {
    Table {
        row,
        reads: 0,
        writes: 0,
    }
}

fn fetch(table: &mut Table) -> Fetched {
    table.reads += 1;
    match table.row {
        Some(value) => Fetched::Row { value },
        None => Fetched::NoRow,
    }
}

fn store(table: &mut Table, value: i64) -> Stored {
    table.writes += 1;
    if table.row.is_some() {
        table.row = Some(Some(value));
    }
    Stored::Done
}

fn perform(table: &mut Table, step: Result<Step, CounterError>) -> Result<Reply, CounterError> {
    match step? {
        Step::Respond { reply } => Ok(reply),
        Step::Fetch { pending } => {
            let fetched = fetch(table);
            after_fetch(pending, fetched)
        }
        Step::Store { value, reply } => {
            let stored = store(table, value);
            after_store(reply, stored)
        }
    }
}

fn get(table: &mut Table, count: Option<i64>) -> Result<Reply, CounterError> {
    let state = count.map(|count| CounterState { count });
    perform(table, Ok(get_counter(state)))
}

fn post(
    table: &mut Table,
    root: &str,
    boosted: bool,
    count: i64,
    action: &str,
) -> Result<Reply, CounterError> {
    let form = CounterAction {
        count,
        action: action.to_string(),
    };
    assert!(form.in_range());
    perform(table, post_counter(root, boosted, &form))
}

/// Reads the counter at the address that a reply gave, as a client below
/// `root` would.
fn follow(table: &mut Table, root: &str, url: &str) -> Result<Reply, CounterError> {
    let uri: Uri = url.parse().unwrap();
    assert_eq!(uri.path(), format!("{}/counter", root));
    let count = uri
        .query()
        .map(|query| query.strip_prefix("count=").unwrap().parse::<i64>().unwrap());
    get(table, count)
}

#[test]
fn get_with_a_count_shows_that_count() {
    assert_eq!(
        get_counter(Some(CounterState { count: 5 })),
        Step::Respond {
            reply: Reply::Page { count: 5 }
        }
    );
    let mut settings = table(Some(Some(10)));
    assert_eq!(get(&mut settings, Some(5)), Ok(Reply::Page { count: 5 }));
    assert_eq!(get(&mut settings, Some(-5)), Ok(Reply::Page { count: -5 }));
    assert_eq!(settings.reads, 0);
}

#[test]
fn get_without_a_count_asks_for_the_default() {
    assert_eq!(
        get_counter(None),
        Step::Fetch {
            pending: Pending::Page
        }
    );
    let mut settings = table(Some(Some(10)));
    assert_eq!(get(&mut settings, None), Ok(Reply::Page { count: 10 }));
    assert_eq!(settings.reads, 1);
    assert_eq!(settings.writes, 0);
}

#[test]
fn inc_redirects_to_the_successor() {
    let mut settings = table(Some(Some(10)));
    for n in [-2i64, -1, 0, 1, 41, i64::MAX - 1, i64::MIN] {
        let reply = post(&mut settings, "/my/cool", false, n, "inc").unwrap();
        assert_eq!(
            reply,
            Reply::Redirect {
                location: format!("/my/cool/counter?count={}", n + 1)
            }
        );
        assert_eq!(
            follow(&mut settings, "/my/cool", reply.url().unwrap()),
            Ok(Reply::Page { count: n + 1 })
        );
    }
    assert_eq!(settings.reads, 0);
    assert_eq!(settings.writes, 0);
}

#[test]
fn inc_hands_an_enhanced_client_the_successor() {
    let mut settings = table(Some(Some(10)));
    assert_eq!(
        post(&mut settings, "/my/cool", true, 41, "inc"),
        Ok(Reply::Fragment {
            push_url: "/my/cool/counter?count=42".to_string(),
            count: 42
        })
    );
    assert_eq!(settings.reads, 0);
    assert_eq!(settings.writes, 0);
}

#[test]
fn dec_redirects_to_the_predecessor() {
    let mut settings = table(Some(Some(10)));
    for n in [-1i64, 0, 1, 2, 43, i64::MAX, i64::MIN + 1] {
        let reply = post(&mut settings, "/my/cool", false, n, "dec").unwrap();
        assert_eq!(
            reply,
            Reply::Redirect {
                location: format!("/my/cool/counter?count={}", n - 1)
            }
        );
        assert_eq!(
            follow(&mut settings, "/my/cool", reply.url().unwrap()),
            Ok(Reply::Page { count: n - 1 })
        );
    }
}

#[test]
fn dec_hands_an_enhanced_client_the_predecessor() {
    let mut settings = table(Some(Some(10)));
    assert_eq!(
        post(&mut settings, "", true, 0, "dec"),
        Ok(Reply::Fragment {
            push_url: "/counter?count=-1".to_string(),
            count: -1
        })
    );
}

#[test]
fn default_shows_the_stored_value_whatever_was_submitted() {
    let mut settings = table(Some(Some(10)));
    for submitted in [0i64, 10, 99, -99, i64::MAX, i64::MIN] {
        assert_eq!(
            post(&mut settings, "/my/cool", true, submitted, "default"),
            Ok(Reply::Fragment {
                push_url: "/my/cool/counter".to_string(),
                count: 10
            })
        );
        let reply = post(&mut settings, "/my/cool", false, submitted, "default").unwrap();
        assert_eq!(
            reply,
            Reply::Redirect {
                location: "/my/cool/counter".to_string()
            }
        );
        assert_eq!(
            follow(&mut settings, "/my/cool", reply.url().unwrap()),
            Ok(Reply::Page { count: 10 })
        );
    }
    assert_eq!(settings.writes, 0);
    assert_eq!(settings.row, Some(Some(10)));
}

#[test]
fn a_plain_default_does_not_read_the_store() {
    let form = CounterAction::of(3, Action::Default);
    assert_eq!(
        post_counter("/my/cool", false, &form),
        Ok(Step::Respond {
            reply: Reply::Redirect {
                location: "/my/cool/counter".to_string()
            }
        })
    );
    assert_eq!(
        post_counter("/my/cool", true, &form),
        Ok(Step::Fetch {
            pending: Pending::Fragment {
                push_url: "/my/cool/counter".to_string()
            }
        })
    );
}

#[test]
fn set_default_stores_the_submitted_count() {
    let form = CounterAction::of(7, Action::SetDefault);
    assert_eq!(
        post_counter("/my/cool", false, &form),
        Ok(Step::Store {
            value: 7,
            reply: Reply::Redirect {
                location: "/my/cool/counter".to_string()
            }
        })
    );
    assert_eq!(
        post_counter("/my/cool", true, &form),
        Ok(Step::Store {
            value: 7,
            reply: Reply::Fragment {
                push_url: "/my/cool/counter".to_string(),
                count: 7
            }
        })
    );
}

#[test]
fn set_default_then_default_returns_the_new_value() {
    for boosted in [false, true] {
        let mut settings = table(Some(Some(10)));
        let reply = post(&mut settings, "/my/cool", boosted, 7, "set-default").unwrap();
        assert_eq!(reply.url(), Some("/my/cool/counter"));
        assert_eq!(settings.row, Some(Some(7)));
        assert_eq!(settings.writes, 1);
        assert_eq!(
            post(&mut settings, "/my/cool", true, 123, "default"),
            Ok(Reply::Fragment {
                push_url: "/my/cool/counter".to_string(),
                count: 7
            })
        );
        assert_eq!(get(&mut settings, None), Ok(Reply::Page { count: 7 }));
    }
}

#[test]
fn set_default_fills_a_row_without_a_value() {
    let mut settings = table(Some(None));
    assert_eq!(
        post(&mut settings, "", true, -4, "set-default"),
        Ok(Reply::Fragment {
            push_url: "/counter".to_string(),
            count: -4
        })
    );
    assert_eq!(get(&mut settings, None), Ok(Reply::Page { count: -4 }));
}

#[test]
fn default_twice_gives_the_same_count() {
    for boosted in [false, true] {
        let mut settings = table(Some(Some(10)));
        let first = post(&mut settings, "/my/cool", boosted, 1, "default");
        let second = post(&mut settings, "/my/cool", boosted, 2, "default");
        assert_eq!(first, second);
        assert_eq!(settings.row, Some(Some(10)));
    }
    let mut empty = table(None);
    let first = post(&mut empty, "/my/cool", true, 1, "default");
    let second = post(&mut empty, "/my/cool", true, 2, "default");
    assert_eq!(first, Err(CounterError::MissingDefault));
    assert_eq!(first, second);
}

#[test]
fn the_form_of_a_page_round_trips() {
    let mut settings = table(Some(Some(10)));
    let page = get(&mut settings, Some(5)).unwrap();
    assert_eq!(page, Reply::Page { count: 5 });
    let form = CounterAction::of(page.count().unwrap(), Action::Inc);
    let from_page = perform(&mut settings, post_counter("", false, &form));
    let direct = post(&mut settings, "", false, 5, "inc");
    assert_eq!(from_page, direct);
    assert_eq!(
        direct,
        Ok(Reply::Redirect {
            location: "/counter?count=6".to_string()
        })
    );
}

#[test]
fn enhanced_and_plain_clients_see_the_same_count() {
    let cases: [(i64, &str); 6] = [
        (5, "inc"),
        (5, "dec"),
        (-1, "inc"),
        (0, "dec"),
        (5, "default"),
        (5, "set-default"),
    ];
    for (count, action) in cases {
        let mut enhanced_settings = table(Some(Some(10)));
        let mut plain_settings = table(Some(Some(10)));
        let enhanced = post(&mut enhanced_settings, "/my/cool", true, count, action).unwrap();
        let plain = post(&mut plain_settings, "/my/cool", false, count, action).unwrap();
        assert_eq!(enhanced.url(), plain.url());
        assert_eq!(enhanced_settings.row, plain_settings.row);
        assert_eq!(plain.count(), None);
        let page = follow(&mut plain_settings, "/my/cool", plain.url().unwrap()).unwrap();
        assert_eq!(page.count(), enhanced.count());
    }
}

#[test]
fn the_walk_through_the_counter() {
    let mut settings = table(Some(Some(10)));

    assert_eq!(get(&mut settings, None), Ok(Reply::Page { count: 10 }));

    let reply = post(&mut settings, "", false, 10, "inc").unwrap();
    assert_eq!(
        reply,
        Reply::Redirect {
            location: "/counter?count=11".to_string()
        }
    );
    assert_eq!(reply.status(), 303);

    assert_eq!(
        follow(&mut settings, "", "/counter?count=11"),
        Ok(Reply::Page { count: 11 })
    );

    let reply = post(&mut settings, "", false, 11, "set-default").unwrap();
    assert_eq!(settings.row, Some(Some(11)));
    assert_eq!(
        reply,
        Reply::Redirect {
            location: "/counter".to_string()
        }
    );

    assert_eq!(
        follow(&mut settings, "", "/counter"),
        Ok(Reply::Page { count: 11 })
    );
}

#[test]
fn replies_have_their_status_codes() {
    assert_eq!(Reply::Page { count: 1 }.status(), 200);
    assert_eq!(
        Reply::Fragment {
            push_url: "/counter".to_string(),
            count: 1
        }
        .status(),
        200
    );
    assert_eq!(
        Reply::Redirect {
            location: "/counter".to_string()
        }
        .status(),
        303
    );
}

#[test]
fn replies_tell_their_count_and_address() {
    let page = Reply::Page { count: 3 };
    assert_eq!(page.count(), Some(3));
    assert_eq!(page.url(), None);
    let fragment = Reply::Fragment {
        push_url: "/counter?count=3".to_string(),
        count: 3,
    };
    assert_eq!(fragment.count(), Some(3));
    assert_eq!(fragment.url(), Some("/counter?count=3"));
    let redirect = Reply::Redirect {
        location: "/counter?count=3".to_string(),
    };
    assert_eq!(redirect.count(), None);
    assert_eq!(redirect.url(), Some("/counter?count=3"));
}

#[test]
fn a_plain_reply_ignores_a_refusal() {
    assert_eq!(
        respond(
            Action::Inc,
            1,
            false,
            "not a uri".to_string(),
            Some("invalid uri character".to_string())
        ),
        Ok(Step::Respond {
            reply: Reply::Redirect {
                location: "not a uri".to_string()
            }
        })
    );
}

#[test]
fn an_enhanced_reply_fails_on_a_refusal() {
    for action in [Action::Inc, Action::Dec, Action::Default, Action::SetDefault] {
        assert_eq!(
            respond(
                action,
                1,
                true,
                "not a uri".to_string(),
                Some("invalid uri character".to_string())
            ),
            Err(CounterError::InvalidUrl {
                reason: "invalid uri character".to_string()
            })
        );
    }
}

#[test]
fn an_accepted_address_goes_into_the_reply() {
    assert_eq!(
        respond(Action::Dec, 1, true, "/counter?count=0".to_string(), None),
        Ok(Step::Respond {
            reply: Reply::Fragment {
                push_url: "/counter?count=0".to_string(),
                count: 0
            }
        })
    );
    assert_eq!(
        respond(Action::Default, 1, true, "/counter".to_string(), None),
        Ok(Step::Fetch {
            pending: Pending::Fragment {
                push_url: "/counter".to_string()
            }
        })
    );
    assert_eq!(
        respond(Action::SetDefault, 1, false, "/counter".to_string(), None),
        Ok(Step::Store {
            value: 1,
            reply: Reply::Redirect {
                location: "/counter".to_string()
            }
        })
    );
}
