use factorioops::db::{
    delete_user_selector, effective_limit, list_users_query, update_user_selector, user_collection,
    ClientTimeouts, TimeSpan,
};
use factorioops::error::FactorioopsError;
use factorioops::ids::UserId;
use factorioops::models::{DbUser, PaginationOptions, PasswordHashString, UserFilter};
use factorioops::query::{QueryField, UserQuery};
use factorioops::user_store::{
    finish_lookup, first_user, get_user_by_email_request, get_user_by_username_request,
    get_user_request,
};

fn clauses(q: &UserQuery) -> Vec<(QueryField, Vec<String>)> {
    let field = |k: &str| match k {
        "id" => QueryField::Id,
        "username" => QueryField::Username,
        "email" => QueryField::Email,
        _ => panic!("unexpected key {}", k),
    };
    q.document()
        .iter()
        .map(|(k, v)| {
            let cond = v.as_document().expect("a condition document");
            assert_eq!(cond.len(), 1);
            let values = cond
                .get_array("$in")
                .expect("an $in list")
                .iter()
                .map(|b| b.as_str().expect("a string").to_string())
                .collect();
            (field(k), values)
        })
        .collect()
}

fn strings(v: &[&str]) -> Vec<String> {
    v.iter().map(|s| s.to_string()).collect()
}

fn user(name: &str) -> DbUser {
    DbUser::new(name.to_string(), PasswordHashString("h".to_string()), format!("{}@e.com", name))
}

#[test]
fn insert_replaces_in_place_and_appends_new_fields() {
    let mut q = UserQuery::new();
    q.insert(QueryField::Username, strings(&["a"]));
    q.insert(QueryField::Email, strings(&["e"]));
    q.insert(QueryField::Username, strings(&["b", "c"]));
    assert_eq!(
        clauses(&q),
        vec![(QueryField::Username, strings(&["b", "c"])), (QueryField::Email, strings(&["e"]))]
    );
}

#[test]
fn field_names() {
    assert_eq!(QueryField::Id.name(), "id");
    assert_eq!(QueryField::Username.name(), "username");
    assert_eq!(QueryField::Email.name(), "email");
}

#[test]
fn later_filters_win_per_field() {
    let id = UserId { bits: 0x41414141414141414141414141414141 };
    let filters = vec![
        UserFilter { id: Some(vec![id]), username: Some(strings(&["x"])), email: None },
        UserFilter { id: None, username: Some(strings(&["y", "z"])), email: Some(strings(&["m"])) },
    ];
    let q = list_users_query(&Some(filters), &None).unwrap();
    assert_eq!(
        clauses(&q.filter),
        vec![
            (QueryField::Id, strings(&["21850M2GA1850M2GA1850M2GA1"])),
            (QueryField::Username, strings(&["y", "z"])),
            (QueryField::Email, strings(&["m"])),
        ]
    );
    assert_eq!(q.limit, 50);
}

#[test]
fn no_filters_give_empty_query() {
    let q = list_users_query(&None, &Some(PaginationOptions { limit: Some(7) })).unwrap();
    assert!(q.filter.document().is_empty());
    assert_eq!(q.limit, 7);
    let q = list_users_query(&Some(vec![]), &Some(PaginationOptions { limit: None })).unwrap();
    assert!(q.filter.document().is_empty());
    assert_eq!(q.limit, 50);
}

#[test]
fn page_limits() {
    assert_eq!(effective_limit(&None), 50);
    assert_eq!(effective_limit(&Some(PaginationOptions::default())), 50);
    assert_eq!(effective_limit(&Some(PaginationOptions { limit: None })), 50);
    assert_eq!(effective_limit(&Some(PaginationOptions { limit: Some(3) })), 3);
}

#[test]
fn lookup_by_username_sends_one_clause_for_one_user() {
    let req = get_user_by_username_request("alice".to_string());
    let q = list_users_query(&req.filters, &req.pagination).unwrap();
    assert_eq!(clauses(&q.filter), vec![(QueryField::Username, strings(&["alice"]))]);
    assert_eq!(q.limit, 1);
}

#[test]
fn lookup_by_email_sends_one_clause_for_one_user() {
    let req = get_user_by_email_request("a@e.com".to_string());
    let q = list_users_query(&req.filters, &req.pagination).unwrap();
    assert_eq!(clauses(&q.filter), vec![(QueryField::Email, strings(&["a@e.com"]))]);
    assert_eq!(q.limit, 1);
}

#[test]
fn lookup_by_id_sends_the_id_text() {
    let req = get_user_request(UserId { bits: 0 });
    let q = list_users_query(&req.filters, &req.pagination).unwrap();
    assert_eq!(clauses(&q.filter), vec![(QueryField::Id, strings(&["00000000000000000000000000"]))]);
    assert_eq!(q.limit, 1);
}

#[test]
fn first_listed_user_is_the_lookup_result() {
    assert!(first_user(&vec![]).is_none());
    let found = first_user(&vec![user("a"), user("b")]).unwrap();
    assert_eq!(found.username, "a");
    match finish_lookup(Ok(vec![user("c")])) {
        Ok(Some(u)) => assert_eq!(u.username, "c"),
        _ => panic!("expected a user"),
    }
    assert!(matches!(finish_lookup(Ok(vec![])), Ok(None)));
    match finish_lookup(Err(FactorioopsError::Other("down".to_string()))) {
        Err(FactorioopsError::Other(m)) => assert_eq!(m, "down"),
        _ => panic!("expected the listing's error"),
    }
}

#[test]
fn nil_ids_cannot_be_updated_or_deleted() {
    let mut u = user("a");
    u.id = UserId::nil();
    match update_user_selector(&u) {
        Err(FactorioopsError::Other(m)) => assert_eq!(m, "User ID is required for update"),
        _ => panic!("expected an error"),
    }
    match delete_user_selector(UserId::nil()) {
        Err(FactorioopsError::Other(m)) => assert_eq!(m, "User ID is required for deletion"),
        _ => panic!("expected an error"),
    }
}

#[test]
fn ids_select_by_their_text() {
    let id = UserId { bits: 0x41414141414141414141414141414141 };
    let mut u = user("a");
    u.id = id;
    assert_eq!(update_user_selector(&u).unwrap(), "21850M2GA1850M2GA1850M2GA1");
    assert_eq!(delete_user_selector(id).unwrap(), "21850M2GA1850M2GA1850M2GA1");
}

#[test]
fn store_needs_a_default_database() {
    match user_collection(None) {
        Err(FactorioopsError::Other(m)) => {
            assert_eq!(m, "MongoDB client must have a default database set")
        }
        _ => panic!("expected an error"),
    }
    let c = user_collection(Some("factorio".to_string())).unwrap();
    assert_eq!(c.database, "factorio");
    assert_eq!(c.collection, "users");
}

#[test]
fn missing_timeouts_get_defaults() {
    let given = TimeSpan { secs: 1, nanos: 500 };
    let t = ClientTimeouts {
        connect_timeout: None,
        max_idle_time: Some(given),
        server_selection_timeout: None,
    }
    .with_defaults();
    assert_eq!(t.connect_timeout, Some(TimeSpan { secs: 5, nanos: 0 }));
    assert_eq!(t.max_idle_time, Some(given));
    assert_eq!(t.server_selection_timeout, Some(TimeSpan { secs: 5, nanos: 0 }));
    let none = ClientTimeouts { connect_timeout: None, max_idle_time: None, server_selection_timeout: None }
        .with_defaults();
    assert_eq!(none.max_idle_time, Some(TimeSpan::from_secs(10)));
}

#[test]
fn zero_or_negative_limit_gives_an_empty_page() {
    let filters = Some(vec![UserFilter { id: None, username: Some(strings(&["a"])), email: None }]);
    assert!(list_users_query(&filters, &Some(PaginationOptions { limit: Some(0) })).is_none());
    assert!(list_users_query(&filters, &Some(PaginationOptions { limit: Some(-3) })).is_none());
    assert!(list_users_query(&filters, &Some(PaginationOptions { limit: Some(1) })).is_some());
}
