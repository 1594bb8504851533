use ms_todo_app::integration::ms_todo::http_client::{
    Attempt, HttpMethod, MsTodoHttpClient, OnceAnswer, Pages, RetryStep, GRAPH_API_BASE,
    MAX_RETRIES,
};

#[test]
fn test_get_full_url_with_relative_path() {
    let client = MsTodoHttpClient::new();
    let result = client.get_full_url("/me/todo/lists").unwrap();
    assert_eq!(result, "https://graph.microsoft.com/v1.0/me/todo/lists");
}

#[test]
fn test_get_full_url_with_absolute_url() {
    let client = MsTodoHttpClient::new();
    let full_url = "https://example.com/api/test";
    let result = client.get_full_url(full_url).unwrap();
    assert_eq!(result, full_url);
}

#[test]
fn test_get_full_url_with_http_url() {
    let client = MsTodoHttpClient::new();
    let http_url = "http://example.com/api/test";
    let result = client.get_full_url(http_url).unwrap();
    assert_eq!(result, http_url);
}

#[test]
fn test_graph_api_base_constant() {
    assert_eq!(GRAPH_API_BASE, "https://graph.microsoft.com/v1.0");
}

#[test]
fn full_url_of_short_and_empty_text() {
    let client = MsTodoHttpClient::new();
    assert_eq!(client.get_full_url("").unwrap(), GRAPH_API_BASE);
    assert_eq!(
        client.get_full_url("htt").unwrap(),
        "https://graph.microsoft.com/v1.0htt"
    );
    assert_eq!(client.get_full_url("http").unwrap(), "http");
}

#[test]
fn full_url_is_completed_once() {
    let client = MsTodoHttpClient::new();
    let once = client.get_full_url("/me").unwrap();
    assert_eq!(client.get_full_url(&once).unwrap(), once);
}

#[test]
fn retryable_statuses() {
    for status in [408, 429, 500, 503, 599] {
        assert!(MsTodoHttpClient::is_retryable_status(status));
    }
    for status in [200, 400, 401, 404, 407, 409, 428, 430, 499, 600] {
        assert!(!MsTodoHttpClient::is_retryable_status(status));
    }
}

#[test]
fn retry_delays() {
    let delays: Vec<u64> = (1..=7)
        .map(MsTodoHttpClient::calculate_retry_delay)
        .collect();
    assert_eq!(delays, vec![1000, 2000, 4000, 8000, 16000, 30000, 30000]);
    assert_eq!(MsTodoHttpClient::calculate_retry_delay(0), 500);
    assert_eq!(MsTodoHttpClient::calculate_retry_delay(0x7fff_ffff), 30000);
    assert_eq!(MsTodoHttpClient::calculate_retry_delay(u32::MAX), 250);
    assert_eq!(MsTodoHttpClient::calculate_retry_delay(0x8000_0001), 0);
}

#[test]
fn a_success_ends_the_request() {
    let client = MsTodoHttpClient::new();
    assert_eq!(
        client.execute_with_retry(1, Attempt::Answered(200)),
        RetryStep::Finish
    );
    assert_eq!(
        client.execute_with_retry(5, Attempt::Answered(299)),
        RetryStep::Finish
    );
}

#[test]
fn a_refusal_ends_the_request() {
    let client = MsTodoHttpClient::new();
    assert_eq!(
        client.execute_with_retry(1, Attempt::Answered(404)),
        RetryStep::Refused { status: 404 }
    );
    assert_eq!(
        client.execute_with_retry(2, Attempt::Answered(199)),
        RetryStep::Refused { status: 199 }
    );
    assert_eq!(
        client.execute_with_retry(2, Attempt::Answered(300)),
        RetryStep::Refused { status: 300 }
    );
}

#[test]
fn trouble_is_met_with_patience() {
    let client = MsTodoHttpClient::new();
    let mut attempt = 1;
    let mut waited = 0;
    loop {
        match client.execute_with_retry(attempt, Attempt::Answered(503)) {
            RetryStep::Retry {
                delay_ms,
                attempt: next,
            } => {
                assert_eq!(next, attempt + 1);
                waited += delay_ms;
                attempt = next;
            }
            step => {
                assert_eq!(step, RetryStep::Exhausted { status: 503 });
                break;
            }
        }
    }
    assert_eq!(attempt, MAX_RETRIES);
    assert_eq!(waited, 15000);
}

#[test]
fn silence_ends_at_the_last_attempt() {
    let client = MsTodoHttpClient::new();
    assert_eq!(
        client.execute_with_retry(4, Attempt::Failed),
        RetryStep::Retry {
            delay_ms: 8000,
            attempt: 5
        }
    );
    assert_eq!(
        client.execute_with_retry(5, Attempt::Failed),
        RetryStep::Unreachable
    );
}

#[test]
fn reports_of_failed_requests() {
    assert_eq!(
        MsTodoHttpClient::refused_error(404, Some("no such list".to_string())),
        "HTTP 404: no such list"
    );
    assert_eq!(
        MsTodoHttpClient::refused_error(401, None),
        "HTTP 401: Failed to read error body"
    );
    assert_eq!(
        MsTodoHttpClient::exhausted_error(503, Some("busy".to_string())),
        "HTTP 503 after 5 retries: busy"
    );
    assert_eq!(
        MsTodoHttpClient::exhausted_error(429, None),
        "HTTP 429 after 5 retries: Failed to read error body"
    );
    assert_eq!(
        MsTodoHttpClient::unreachable_error("timed out"),
        "Request failed after 5 retries: Some(timed out)"
    );
}

#[test]
fn requests_carry_their_headers() {
    let client = MsTodoHttpClient::new();
    let authorization = ("Authorization".to_string(), "Bearer t".to_string());
    let content_type = ("Content-Type".to_string(), "application/json".to_string());

    let get = client.get("/me", "Bearer t");
    assert_eq!(get.method, HttpMethod::Get);
    assert_eq!(get.url, "https://graph.microsoft.com/v1.0/me");
    assert_eq!(get.headers, vec![authorization.clone()]);
    assert!(!get.has_body && get.retried);

    let post = client.post("/me", "Bearer t");
    assert_eq!(post.method, HttpMethod::Post);
    assert_eq!(
        post.headers,
        vec![authorization.clone(), content_type.clone()]
    );
    assert!(post.has_body && post.retried);

    let delete = client.delete("http://a", "Bearer t");
    assert_eq!(delete.method, HttpMethod::Delete);
    assert_eq!(delete.url, "http://a");
    assert_eq!(delete.headers, vec![authorization.clone()]);
    assert!(!delete.has_body && delete.retried);

    let put = client.put("/me", "Bearer t");
    assert_eq!(put.method, HttpMethod::Put);
    assert_eq!(
        put.headers,
        vec![authorization.clone(), content_type.clone()]
    );
    assert!(put.has_body && !put.retried);

    let patch = client.patch("/me", "Bearer t");
    assert_eq!(patch.method, HttpMethod::Patch);
    assert_eq!(patch.headers, vec![authorization, content_type]);
    assert!(patch.has_body && patch.retried);
}

fn once(
    status: u16,
    status_text: &str,
    body: Option<&str>,
    parsed: Result<u8, String>,
) -> Result<OnceAnswer<u8>, String> {
    Ok(OnceAnswer {
        status,
        status_text: status_text.to_string(),
        body: body.map(str::to_string),
        parsed,
    })
}

#[test]
fn an_answer_that_is_not_repeated() {
    let unread = || Err("unread".to_string());
    assert_eq!(
        MsTodoHttpClient::put_answered(once(200, "200 OK", Some("7"), Ok(7))),
        Ok(7)
    );
    assert_eq!(
        MsTodoHttpClient::put_answered(once(204, "204 No Content", Some(""), unread())),
        Err("Failed to deserialize response to type R".to_string())
    );
    assert_eq!(
        MsTodoHttpClient::put_answered(once(409, "409 Conflict", Some("twice"), unread())),
        Err("HTTP 409 Conflict: twice".to_string())
    );
    assert_eq!(
        MsTodoHttpClient::put_answered(once(500, "500 Internal Server Error", None, Ok(7))),
        Err("HTTP 500 Internal Server Error: Failed to read error body".to_string())
    );
    assert_eq!(
        MsTodoHttpClient::put_answered::<u8>(unread_answer()),
        Err("Failed to get response for put".to_string())
    );
}

fn unread_answer() -> Result<OnceAnswer<u8>, String> {
    Err("timed out".to_string())
}

#[test]
fn the_caller_gets_what_was_answered() {
    let answered = |method, answer| MsTodoHttpClient::answered::<u8>(method, answer);
    let unparsed = || Ok(Err("no number".to_string()));
    let unanswered = || Err("HTTP 404: gone".to_string());
    for method in [HttpMethod::Get, HttpMethod::Post, HttpMethod::Put, HttpMethod::Patch] {
        assert_eq!(answered(method, Ok(Ok(3))), Ok(3));
    }
    let text = |text: &str| Err(text.to_string());
    assert_eq!(answered(HttpMethod::Get, unanswered()), text("Failed to get response"));
    assert_eq!(
        answered(HttpMethod::Post, unanswered()),
        text("Failed to get response for post")
    );
    assert_eq!(
        answered(HttpMethod::Put, unanswered()),
        text("Failed to get response for put")
    );
    assert_eq!(
        answered(HttpMethod::Patch, unanswered()),
        text("Failed to get response for patch")
    );
    for method in [HttpMethod::Get, HttpMethod::Post] {
        assert_eq!(
            answered(method, unparsed()),
            text("Failed to deserialize response to type T")
        );
    }
    for method in [HttpMethod::Put, HttpMethod::Patch] {
        assert_eq!(
            answered(method, unparsed()),
            text("Failed to deserialize response to type R")
        );
    }
    assert_eq!(MsTodoHttpClient::delete_answered(Ok(())), Ok(()));
    assert_eq!(
        MsTodoHttpClient::delete_answered(Err("HTTP 404: gone".to_string())),
        Err("Failed to get response for delete".to_string())
    );
}

#[test]
fn a_request_is_settled() {
    let body = || Some("b".to_string());
    assert_eq!(MsTodoHttpClient::settle(RetryStep::Finish, None, ""), Ok(()));
    assert_eq!(
        MsTodoHttpClient::settle(RetryStep::Refused { status: 404 }, body(), ""),
        Err("HTTP 404: b".to_string())
    );
    assert_eq!(
        MsTodoHttpClient::settle(RetryStep::Exhausted { status: 503 }, body(), ""),
        Err("HTTP 503 after 5 retries: b".to_string())
    );
    assert_eq!(
        MsTodoHttpClient::settle(RetryStep::Unreachable, None, "timed out"),
        Err("Request failed after 5 retries: Some(timed out)".to_string())
    );
}

#[test]
fn a_page_that_fails_ends_the_gathering() {
    let client = MsTodoHttpClient::new();
    let mut pages: Pages<u8> = client.get_all_pages("/me/todo/lists", "Bearer t");
    let first = (vec![1, 2], Some("https://next".to_string()));
    assert_eq!(pages.page_answered(Ok(first)), Ok(()));
    assert_eq!(pages.items, vec![1, 2]);
    assert_eq!(
        pages.page_answered(Err("Failed to get response".to_string())),
        Err("Failed to get response".to_string())
    );
    assert!(pages.next_request().is_none());
    assert!(pages.items.is_empty());
    let mut pages: Pages<u8> = client.get_all_pages("/me/todo/lists", "Bearer t");
    assert_eq!(pages.page_answered(Ok((vec![3], None))), Ok(()));
    assert!(pages.next_request().is_none());
    assert_eq!(pages.items, vec![3]);
}

#[test]
fn methods_by_name() {
    let client = MsTodoHttpClient::new();
    let method = |name: &str| client.request_builder(name, "http://a").method;
    assert_eq!(method("get"), HttpMethod::Get);
    assert_eq!(method("post"), HttpMethod::Post);
    assert_eq!(method("Put"), HttpMethod::Put);
    assert_eq!(method("dElEtE"), HttpMethod::Delete);
    assert_eq!(method("PATCH"), HttpMethod::Patch);
    assert_eq!(method("head"), HttpMethod::Get);
    assert_eq!(MsTodoHttpClient::method_named("post"), HttpMethod::Get);

    let request = client.request_builder("post", "/me");
    assert_eq!(request.url, "/me");
    assert!(request.headers.is_empty() && !request.has_body && !request.retried);
}

#[test]
fn pages_are_gathered_in_order() {
    let client = MsTodoHttpClient::new();
    let mut pages: Pages<u8> = client.get_all_pages("/me/todo/lists", "Bearer t");
    let first = pages.next_request().unwrap();
    assert_eq!(first.url, "https://graph.microsoft.com/v1.0/me/todo/lists");
    assert_eq!(
        first.headers,
        vec![("Authorization".to_string(), "Bearer t".to_string())]
    );
    pages.add_page(vec![3, 1], Some("https://next".to_string()));
    assert_eq!(pages.next_request().unwrap().url, "https://next");
    pages.add_page(vec![], Some("/relative".to_string()));
    assert_eq!(
        pages.next_request().unwrap().url,
        "https://graph.microsoft.com/v1.0/relative"
    );
    pages.add_page(vec![2], None);
    assert!(pages.next_request().is_none());
    assert_eq!(pages.items, vec![3, 1, 2]);
}
