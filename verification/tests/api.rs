use frogtable::api::{
    ExecQueryRequest, ListQueriesRequest, PageRequest, RpcRequest, DEFAULT_PAGE, DEFAULT_PAGE_SIZE,
};
use frogtable::sql::{Direction, OrderBy};

#[test]
fn defaults_are_first_page_of_a_hundred_rows() {
    assert_eq!(DEFAULT_PAGE, 1);
    assert_eq!(DEFAULT_PAGE_SIZE, 100);
    let request =
        ExecQueryRequest { name: "q1".to_string(), page: None, page_size: None, order_by: None };
    assert_eq!(request.page(), 1);
    assert_eq!(request.page_size(), 100);
    assert_eq!(
        request.with_defaults(),
        PageRequest { name: "q1".to_string(), page: 1, page_size: 100, order_by: vec![] }
    );
}

#[test]
fn given_values_are_kept() {
    let request = ExecQueryRequest {
        name: "q1".to_string(),
        page: Some(3),
        page_size: Some(25),
        order_by: Some(vec![OrderBy { column: "x".to_string(), direction: Direction::Desc }]),
    };
    assert_eq!(request.page(), 3);
    assert_eq!(request.page_size(), 25);
    assert_eq!(
        request.with_defaults(),
        PageRequest {
            name: "q1".to_string(),
            page: 3,
            page_size: 25,
            order_by: vec![OrderBy { column: "x".to_string(), direction: Direction::Desc }],
        }
    );
}

#[test]
fn requests_compare_by_content() {
    assert_eq!(ListQueriesRequest {}, ListQueriesRequest {});
    assert_ne!(
        RpcRequest::ListQueries,
        RpcRequest::ExecQuery(ExecQueryRequest {
            name: "q".to_string(),
            page: None,
            page_size: None,
            order_by: None
        })
    );
}
