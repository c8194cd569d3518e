use zkp_explorer::pagination::PagedResource;
use zkp_explorer::pagination::PageNav;
use zkp_explorer::pagination::PaginationHandler;

#[test]
fn twenty_five_records_at_page_size_ten() {
    // The server reports 25 records; integer division gives page index
    // bound 2, shown as 3 pages.
    let mut p = PaginationHandler::default(25, 0, Some(10));
    assert_eq!(p.total_pages, 2);
    assert_eq!(p.display_position(), (1, 3));
    // At page zero, stepping back or jumping to the beginning stays put.
    p.prev();
    assert_eq!(p.curr, 0);
    p.begin();
    assert_eq!(p.curr, 0);
    // Forward navigation works until the last page, then stops.
    p.next();
    assert_eq!(p.curr, 1);
    p.next();
    assert_eq!(p.curr, 2);
    p.next();
    assert_eq!(p.curr, 2);
    p.last();
    assert_eq!(p.curr, 2);
    assert_eq!(p.display_position(), (3, 3));
    p.begin();
    assert_eq!(p.curr, 0);
}

#[test]
fn default_page_size_is_ten() {
    let p = PaginationHandler::default(25, 0, None);
    assert_eq!(p.page_size, 10);
    assert_eq!(p.total_pages, 2);
}

#[test]
fn construction_keeps_the_given_page() {
    // The chosen page stands as given, even past the end; clicking the
    // controls is what pulls it back into range.
    let mut p = PaginationHandler::default(25, 9, Some(10));
    assert_eq!(p.curr, 9);
    p.next();
    assert_eq!(p.curr, 2);
}

#[test]
fn exact_multiple_still_shows_following_page() {
    // 20 records at 10 per page: index bound 20/10 = 2, shown as 3 pages
    // (the last of which the server serves empty).
    let p = PaginationHandler::default(20, 0, Some(10));
    assert_eq!(p.total_pages, 2);
}

#[test]
fn offset_is_page_times_size() {
    let mut p = PaginationHandler::default(95, 0, Some(10));
    p.navigate(PageNav::Next);
    p.navigate(PageNav::Next);
    assert_eq!(p.offset(), 20);
    p.navigate(PageNav::Last);
    assert_eq!(p.offset(), 90);
}

#[test]
fn binder_installs_only_the_latest_fetch() {
    let mut res: PagedResource<u32> = PagedResource::new(10);
    let first = res.begin_fetch();
    assert_eq!(first.req, 0);
    assert_eq!(first.offset, 0);
    assert_eq!(first.limit, 10);
    // A second fetch supersedes the first before it lands.
    let second = res.begin_fetch();
    assert_eq!(second.req, 1);
    // The stale outcome is dropped whole.
    assert!(!res.complete(first.req, vec![9, 9, 9], 3));
    assert_eq!(res.rows, None);
    // The current outcome installs and sets the page count.
    assert!(res.complete(second.req, vec![1, 2, 3], 25));
    assert_eq!(res.rows, Some(vec![1, 2, 3]));
    assert_eq!(res.pager.total_pages, 2);
    // A finished request cannot install twice.
    assert!(!res.complete(second.req, vec![7], 25));
    assert_eq!(res.rows, Some(vec![1, 2, 3]));
}

#[test]
fn binder_fetches_the_navigated_page() {
    let mut res: PagedResource<u32> = PagedResource::new(10);
    let req = res.begin_fetch();
    assert!(res.complete(req.req, vec![0; 10], 25));
    res.navigate(PageNav::Next);
    let req = res.begin_fetch();
    assert_eq!(req.offset, 10);
    assert_eq!(req.limit, 10);
}

#[test]
fn binder_filter_change_restarts_at_page_zero() {
    let mut res: PagedResource<u32> = PagedResource::new(10);
    let req = res.begin_fetch();
    assert!(res.complete(req.req, vec![0; 10], 55));
    res.navigate(PageNav::Last);
    assert_eq!(res.pager.curr, 5);
    res.reset_filters();
    assert_eq!(res.pager.curr, 0);
    let req = res.begin_fetch();
    assert_eq!(req.offset, 0);
}

#[test]
fn binder_keeps_page_when_total_shrinks() {
    let mut res: PagedResource<u32> = PagedResource::new(10);
    let req = res.begin_fetch();
    assert!(res.complete(req.req, vec![0; 10], 95));
    res.navigate(PageNav::Last);
    assert_eq!(res.pager.curr, 9);
    let req = res.begin_fetch();
    assert!(res.complete(req.req, vec![0; 5], 25));
    // The page count follows the new total; the page itself only moves by
    // navigation.
    assert_eq!(res.pager.total_pages, 2);
    assert_eq!(res.pager.curr, 9);
    res.navigate(PageNav::Next);
    assert_eq!(res.pager.curr, 2);
}
