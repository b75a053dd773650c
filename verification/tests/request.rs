use recipe_jsonld::request::{request_headers, ACCEPT, ACCEPT_HTML, BROWSER, USER_AGENT};

#[test]
fn the_request_carries_the_two_fixed_headers() {
    assert_eq!(
        request_headers(),
        vec![
            ("accept", "text/html"),
            (
                "user-agent",
                "Mozilla/5.0 (Windows NT 10.0; Win64; x64) AppleWebKit/537.36 (KHTML, like Gecko) Chrome/91.0.4472.124 Safari/537.36"
            ),
        ]
    );
    assert_eq!(request_headers(), vec![(ACCEPT, ACCEPT_HTML), (USER_AGENT, BROWSER)]);
}
