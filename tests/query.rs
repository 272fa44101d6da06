use dictionary_rs::query::{list_request, IndexSearch, QueryError, QueryReply, SearchStep};
use dictionary_rs::resolver::TenantContext;

fn ctx() -> TenantContext {
    TenantContext {
        language: Some("en".to_string()),
        client_id: Some("7".to_string()),
        role_id: None,
        user_id: None,
    }
}

#[test]
fn fetch_falls_back_until_hit() {
    let mut s = IndexSearch::new("menu", &ctx());
    assert_eq!(s.current(), "menu_en_7");
    assert!(matches!(s.on_reply(QueryReply::Miss), SearchStep::Continue));
    assert_eq!(s.current(), "menu_en");
    match s.on_reply(QueryReply::Hit("{}".to_string())) {
        SearchStep::Done(Ok(Some(b))) => assert_eq!(b, "{}"),
        _ => panic!("expected a hit"),
    }
}

#[test]
fn fetch_all_misses_is_typed_absence() {
    let mut s = IndexSearch::new("form", &ctx());
    assert!(matches!(s.on_reply(QueryReply::Miss), SearchStep::Continue));
    assert!(matches!(s.on_reply(QueryReply::Miss), SearchStep::Continue));
    assert_eq!(s.current(), "form");
    assert!(matches!(s.on_reply(QueryReply::Miss), SearchStep::Done(Ok(None))));
}

#[test]
fn fetch_failure_is_query_error() {
    let mut s = IndexSearch::new("form", &ctx());
    match s.on_reply(QueryReply::Failed("boom".to_string())) {
        SearchStep::Done(Err(e)) => {
            assert_eq!(e.message, "boom");
            assert_eq!(e.status(), 500);
        }
        _ => panic!("expected a failure"),
    }
    let e = QueryError { message: String::new() };
    assert_eq!(e.status(), 500);
}

#[test]
fn list_request_pages() {
    let r = list_request("menu", &ctx(), Some("sales"), Some(3), Some(10));
    assert_eq!(r.index, "menu_en_7");
    assert_eq!(r.search_value, "sales");
    assert_eq!(r.page, Some((20, 10)));
    let r = list_request("browser", &ctx(), None, Some(0), Some(10));
    assert_eq!(r.search_value, "");
    assert_eq!(r.page, Some((0, 10)));
    let r = list_request("browser", &ctx(), None, Some(5), None);
    assert_eq!(r.page, None);
    let r = list_request("browser", &ctx(), None, Some(u64::MAX), Some(u64::MAX));
    assert_eq!(r.page, None);
}
