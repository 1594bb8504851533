//! Requests to the To Do service of Microsoft Graph: their addresses and headers, when one is
//! made again, and how the pages of an answer are gathered.

use vstd::prelude::*;
use vstd::string::*;

use crate::text;

verus! {

/// The address that relative addresses are appended to.
pub const GRAPH_API_BASE: &'static str = "https://graph.microsoft.com/v1.0";

/// How many times a request is made before it counts as failed.
pub const MAX_RETRIES: u32 = 5;

/// The wait before the second attempt, in milliseconds.
pub const INITIAL_RETRY_DELAY_MS: u64 = 1000;

/// The longest wait between two attempts, in milliseconds.
pub const MAX_RETRY_DELAY_MS: u64 = 30000;

/// The methods of HTTP that the service understands.
#[derive(Clone, Copy, Debug, PartialEq, Eq, Structural)]
pub enum HttpMethod {
    Get,
    Post,
    Put,
    Delete,
    Patch,
}

/// A request that is ready to be sent.
#[derive(Debug)]
pub struct HttpRequest {
    pub method: HttpMethod,
    /// The absolute address.
    pub url: String,
    /// The names and values of the headers, in the order in which they are sent.
    pub headers: Vec<(String, String)>,
    /// Whether a body in JSON goes with the request.
    pub has_body: bool,
    /// Whether the request is made again after a failure that may pass.
    pub retried: bool,
}

/// What an [`HttpRequest`] says.
pub struct HttpRequestView {
    pub method: HttpMethod,
    pub url: Seq<char>,
    pub headers: Seq<(Seq<char>, Seq<char>)>,
    pub has_body: bool,
    pub retried: bool,
}

impl View for HttpRequest {
    type V = HttpRequestView;

    open spec fn view(&self) -> HttpRequestView {
        HttpRequestView {
            method: self.method,
            url: self.url@,
            headers: self.headers.deep_view(),
            has_body: self.has_body,
            retried: self.retried,
        }
    }
}

/// How one attempt at a request went.
#[derive(Clone, Copy, Debug, PartialEq, Eq, Structural)]
pub enum Attempt {
    /// The service answered with this status.
    Answered(u16),
    /// No answer came.
    Failed,
}

/// What to do after an attempt.
#[derive(Clone, Copy, Debug, PartialEq, Eq, Structural)]
pub enum RetryStep {
    /// Hand the answer to the caller.
    Finish,
    /// Wait, then make the attempt of the given number.
    Retry { delay_ms: u64, attempt: u32 },
    /// Fail: the service refused the request.
    Refused { status: u16 },
    /// Fail: the service was in trouble at the last attempt too.
    Exhausted { status: u16 },
    /// Fail: the last attempt got no answer.
    Unreachable,
}

/// Makes the requests to the To Do service.
#[derive(Clone, Copy, Debug)]
pub struct MsTodoHttpClient {}

/// The address to send a request for `url` to: `url` itself where it is absolute, else `url`
/// behind the base of the service.
pub open spec fn full_url(url: Seq<char>) -> Seq<char> {
    if text::has_prefix(url, "http"@) {
        url
    } else {
        GRAPH_API_BASE@ + url
    }
}

/// The statuses that say that the request was carried out.
pub open spec fn is_success(status: u16) -> bool {
    200 <= status < 300
}

/// The statuses after which the same request may succeed later: a rate limit, a timeout, or
/// trouble inside the service.
pub open spec fn is_retryable(status: u16) -> bool {
    status == 429 || 500 <= status < 600 || status == 408
}

/// `attempt` read as a signed number of the same width.
pub open spec fn signed(attempt: u32) -> int {
    if attempt < 0x8000_0000 {
        attempt as int
    } else {
        attempt - 0x1_0000_0000
    }
}

/// The initial wait, doubled `n` times.
pub open spec fn doubled_delay(n: nat) -> nat
    decreases n,
{
    if n == 0 {
        INITIAL_RETRY_DELAY_MS as nat
    } else {
        2 * doubled_delay((n - 1) as nat)
    }
}

/// The initial wait, halved `n` times and rounded down.
pub open spec fn halved_delay(n: nat) -> nat
    decreases n,
{
    if n == 0 {
        INITIAL_RETRY_DELAY_MS as nat
    } else {
        halved_delay((n - 1) as nat) / 2
    }
}

/// The wait after attempt number `attempt`: the initial one, doubled with each attempt after the
/// first, halved with each one before it, and never over the longest.
pub open spec fn retry_delay(attempt: u32) -> nat {
    let doublings = signed(attempt) - 1;
    if doublings < 0 {
        halved_delay((-doublings) as nat)
    } else if doubled_delay(doublings as nat) < MAX_RETRY_DELAY_MS {
        doubled_delay(doublings as nat)
    } else {
        MAX_RETRY_DELAY_MS as nat
    }
}

/// Doubling once more never shortens the wait.
proof fn lemma_doubled_delay_grows(m: nat, n: nat)
    requires
        m <= n,
    ensures
        doubled_delay(m) <= doubled_delay(n),
    decreases n,
{
    if m < n {
        lemma_doubled_delay_grows(m, (n - 1) as nat);
    }
}

/// Halving a wait of nothing leaves nothing.
proof fn lemma_halved_delay_vanishes(n: nat)
    requires
        n >= 10,
    ensures
        halved_delay(n) == 0,
    decreases n,
{
    if n == 10 {
        reveal_with_fuel(halved_delay, 11);
    } else {
        lemma_halved_delay_vanishes((n - 1) as nat);
    }
}

/// What follows when attempt number `attempt` went as `outcome` says: an answer that is no
/// passing trouble ends the request, anything else leads to the next attempt while one is left.
pub open spec fn retry_step(attempt: u32, outcome: Attempt) -> RetryStep {
    let again = RetryStep::Retry {
        delay_ms: retry_delay(attempt) as u64,
        attempt: (attempt + 1) as u32,
    };
    match outcome {
        Attempt::Answered(status) => if is_success(status) {
            RetryStep::Finish
        } else if !is_retryable(status) {
            RetryStep::Refused { status }
        } else if attempt < MAX_RETRIES {
            again
        } else {
            RetryStep::Exhausted { status }
        },
        Attempt::Failed => if attempt < MAX_RETRIES {
            again
        } else {
            RetryStep::Unreachable
        },
    }
}

/// The text that stands for the body of an answer that could not be read.
pub open spec fn body_or_notice(body: Option<Seq<char>>) -> Seq<char> {
    match body {
        Some(body) => body,
        None => "Failed to read error body"@,
    }
}

/// What is reported of a request that the service refused with `status`.
pub open spec fn refused_text(status: u16, body: Option<Seq<char>>) -> Seq<char> {
    "HTTP "@ + text::decimal_digits(status as nat) + ": "@ + body_or_notice(body)
}

/// What is reported of a request that got `status` at every attempt that was left.
pub open spec fn exhausted_text(status: u16, body: Option<Seq<char>>) -> Seq<char> {
    "HTTP "@ + text::decimal_digits(status as nat) + " after "@ + text::decimal_digits(
        MAX_RETRIES as nat,
    ) + " retries: "@ + body_or_notice(body)
}

/// What is reported of a request whose last attempt ended in `error`.
pub open spec fn unreachable_text(error: Seq<char>) -> Seq<char> {
    "Request failed after "@ + text::decimal_digits(MAX_RETRIES as nat) + " retries: Some("@ + error
        + ")"@
}

/// What is reported of a request whose last attempt led to `step`: `body` is the body of the answer
/// where it could be read, and `error` what kept an answer from coming. A success reports nothing.
pub open spec fn failure_text(step: RetryStep, body: Option<Seq<char>>, error: Seq<char>) -> Option<
    Seq<char>,
> {
    match step {
        RetryStep::Finish => None,
        RetryStep::Refused { status } => Some(refused_text(status, body)),
        RetryStep::Exhausted { status } => Some(exhausted_text(status, body)),
        RetryStep::Unreachable | RetryStep::Retry { .. } => Some(unreachable_text(error)),
    }
}

/// What is reported to the caller of a request that got no answer of success.
pub open spec fn no_response_text(method: HttpMethod) -> Seq<char> {
    match method {
        HttpMethod::Get => "Failed to get response"@,
        HttpMethod::Post => "Failed to get response for post"@,
        HttpMethod::Put => "Failed to get response for put"@,
        HttpMethod::Delete => "Failed to get response for delete"@,
        HttpMethod::Patch => "Failed to get response for patch"@,
    }
}

/// What is reported to the caller of a request whose answer has a body that cannot be understood.
pub open spec fn unreadable_text(method: HttpMethod) -> Seq<char> {
    match method {
        HttpMethod::Put | HttpMethod::Patch => "Failed to deserialize response to type R"@,
        _ => "Failed to deserialize response to type T"@,
    }
}

/// What the caller of a request gets: `answer` holds what the body of an answer of success was
/// understood as, or why it could not be; or why no such answer came.
pub open spec fn caller_gets<T>(
    method: HttpMethod,
    answer: Result<Result<T, Seq<char>>, Seq<char>>,
) -> Result<T, Seq<char>> {
    match answer {
        Ok(Ok(value)) => Ok(value),
        Ok(Err(_)) => Err(unreadable_text(method)),
        Err(_) => Err(no_response_text(method)),
    }
}

/// What a result says: the text of an error stands for the error.
pub open spec fn result_text<T>(result: Result<T, String>) -> Result<T, Seq<char>> {
    match result {
        Ok(value) => Ok(value),
        Err(error) => Err(error@),
    }
}

/// What an answer says: the texts of errors stand for the errors.
pub open spec fn answer_text<T>(answer: Result<Result<T, String>, String>) -> Result<
    Result<T, Seq<char>>,
    Seq<char>,
> {
    match answer {
        Ok(parsed) => Ok(result_text(parsed)),
        Err(error) => Err(error@),
    }
}

/// The answer to a request that is made once only.
#[derive(Debug)]
pub struct OnceAnswer<T> {
    pub status: u16,
    /// The status with its usual text.
    pub status_text: String,
    /// The body, where it could be read.
    pub body: Option<String>,
    /// What the body was understood as, or why it could not be.
    pub parsed: Result<T, String>,
}

/// The request for `url` that carries `auth_header`.
pub open spec fn authorized(
    method: HttpMethod,
    url: Seq<char>,
    auth_header: Seq<char>,
    has_body: bool,
    retried: bool,
) -> HttpRequestView {
    HttpRequestView {
        method,
        url: full_url(url),
        headers: if has_body {
            seq![("Authorization"@, auth_header), ("Content-Type"@, "application/json"@)]
        } else {
            seq![("Authorization"@, auth_header)]
        },
        has_body,
        retried,
    }
}

/// The method whose name in capitals is `name`; a name that is none of them stands for `Get`.
pub open spec fn method_of_name(name: Seq<char>) -> HttpMethod {
    if name == "POST"@ {
        HttpMethod::Post
    } else if name == "PUT"@ {
        HttpMethod::Put
    } else if name == "DELETE"@ {
        HttpMethod::Delete
    } else if name == "PATCH"@ {
        HttpMethod::Patch
    } else {
        HttpMethod::Get
    }
}

/// The text that `str::to_uppercase` gives for `s`.
pub uninterp spec fn uppercase(s: Seq<char>) -> Seq<char>;

/// Calls `str::to_uppercase` of the standard library. Its result is a function of the text alone,
/// by the tables of Unicode; nothing more is claimed of it.
#[verifier::external_body]
fn to_uppercase(s: &str) -> (r: String)
    ensures
        r@ == uppercase(s@),
{
    s.to_uppercase()
}

impl MsTodoHttpClient {
    pub fn new() -> (client: MsTodoHttpClient)
        ensures
            client == (MsTodoHttpClient {  }),
    {
        MsTodoHttpClient {  }
    }

    /// The address to send a request for `url` to.
    pub fn get_full_url(&self, url: &str) -> (r: Result<String, String>)
        ensures
            r is Ok,
            r->Ok_0@ == full_url(url@),
    {
        if text::starts_with(url, "http") {
            Ok(url.to_string())
        } else {
            Ok(text::join(GRAPH_API_BASE, url))
        }
    }

    /// Tells whether a request that got `status` is worth making again.
    pub fn is_retryable_status(status: u16) -> (b: bool)
        ensures
            b == is_retryable(status),
    {
        status == 429 || (status >= 500 && status < 600) || status == 408
    }

    /// The wait after attempt number `attempt`, in milliseconds.
    pub fn calculate_retry_delay(attempt: u32) -> (delay: u64)
        requires
            attempt != 0x8000_0000,
        ensures
            delay == retry_delay(attempt),
    {
        proof {
            reveal_with_fuel(doubled_delay, 6);
            reveal_with_fuel(halved_delay, 2);
        }
        if attempt < 0x8000_0000 {
            if attempt == 0 {
                INITIAL_RETRY_DELAY_MS / 2
            } else {
                let doublings = attempt - 1;
                if doublings >= 5 {
                    proof {
                        lemma_doubled_delay_grows(5, doublings as nat);
                    }
                    return MAX_RETRY_DELAY_MS;
                }
                let mut delay: u64 = INITIAL_RETRY_DELAY_MS;
                let mut i: u32 = 0;
                while i < doublings
                    invariant
                        i <= doublings < 5,
                        delay == doubled_delay(i as nat),
                        delay <= 1000 * 16,
                        i < 1 ==> delay <= 1000,
                        i < 2 ==> delay <= 2000,
                        i < 3 ==> delay <= 4000,
                        i < 4 ==> delay <= 8000,
                    decreases doublings - i,
                {
                    delay = delay * 2;
                    i += 1;
                }
                delay
            }
        } else {
            let halvings: u64 = 0x1_0000_0001 - attempt as u64;
            if halvings >= 10 {
                proof {
                    lemma_halved_delay_vanishes(halvings as nat);
                }
                return 0;
            }
            let mut delay: u64 = INITIAL_RETRY_DELAY_MS;
            let mut i: u64 = 0;
            while i < halvings
                invariant
                    i <= halvings,
                    delay == halved_delay(i as nat),
                decreases halvings - i,
            {
                delay = delay / 2;
                i += 1;
            }
            delay
        }
    }

    /// Says what to do when attempt number `attempt` at a request went as `outcome` says.
    pub fn execute_with_retry(&self, attempt: u32, outcome: Attempt) -> (step: RetryStep)
        requires
            1 <= attempt <= MAX_RETRIES,
        ensures
            step == retry_step(attempt, outcome),
    {
        match outcome {
            Attempt::Answered(status) => {
                if status >= 200 && status < 300 {
                    return RetryStep::Finish;
                }
                if Self::is_retryable_status(status) {
                    if attempt < MAX_RETRIES {
                        RetryStep::Retry {
                            delay_ms: Self::calculate_retry_delay(attempt),
                            attempt: attempt + 1,
                        }
                    } else {
                        RetryStep::Exhausted { status }
                    }
                } else {
                    RetryStep::Refused { status }
                }
            },
            Attempt::Failed => {
                if attempt < MAX_RETRIES {
                    RetryStep::Retry {
                        delay_ms: Self::calculate_retry_delay(attempt),
                        attempt: attempt + 1,
                    }
                } else {
                    RetryStep::Unreachable
                }
            },
        }
    }

    /// The report of a request that the service refused with `status`; `body` is the body of the
    /// answer where it could be read.
    pub fn refused_error(status: u16, body: Option<String>) -> (s: String)
        ensures
            s@ == refused_text(status, body.deep_view()),
    {
        let mut s = text::join("HTTP ", text::decimal(status as u64).as_str());
        s.append(": ");
        match body {
            Some(body) => s.append(body.as_str()),
            None => s.append("Failed to read error body"),
        }
        s
    }

    /// The report of a request that got `status` at the last attempt; `body` is the body of the
    /// answer where it could be read.
    pub fn exhausted_error(status: u16, body: Option<String>) -> (s: String)
        ensures
            s@ == exhausted_text(status, body.deep_view()),
    {
        let mut s = text::join("HTTP ", text::decimal(status as u64).as_str());
        s.append(" after ");
        s.append(text::decimal(MAX_RETRIES as u64).as_str());
        s.append(" retries: ");
        match body {
            Some(body) => s.append(body.as_str()),
            None => s.append("Failed to read error body"),
        }
        s
    }

    /// The report of a request whose last attempt ended in `error`.
    pub fn unreachable_error(error: &str) -> (s: String)
        ensures
            s@ == unreachable_text(error@),
    {
        let mut s = text::join("Request failed after ", text::decimal(MAX_RETRIES as u64).as_str());
        s.append(" retries: Some(");
        s.append(error);
        s.append(")");
        s
    }

    /// Ends a request whose last attempt led to `step`: an answer of success is there, or the report
    /// of what went wrong is.
    pub fn settle(step: RetryStep, body: Option<String>, error: &str) -> (r: Result<(), String>)
        requires
            !(step is Retry),
        ensures
            match failure_text(step, body.deep_view(), error@) {
                Some(text) => r matches Err(report) && report@ == text,
                None => r == Ok::<(), String>(()),
            },
    {
        match step {
            RetryStep::Finish => Ok(()),
            RetryStep::Refused { status } => Err(Self::refused_error(status, body)),
            RetryStep::Exhausted { status } => Err(Self::exhausted_error(status, body)),
            _ => Err(Self::unreachable_error(error)),
        }
    }

    /// What the caller of a request gets that is answered with a body: `answer` holds what the body of
    /// an answer of success was understood as, or why it could not be; or why no such answer came.
    pub fn answered<T>(method: HttpMethod, answer: Result<Result<T, String>, String>) -> (r: Result<
        T,
        String,
    >)
        requires
            method != HttpMethod::Delete,
        ensures
            result_text(r) == caller_gets(method, answer_text(answer)),
    {
        match answer {
            Ok(Ok(value)) => Ok(value),
            Ok(Err(_)) => match method {
                HttpMethod::Put | HttpMethod::Patch => Err(
                    "Failed to deserialize response to type R".to_string(),
                ),
                _ => Err("Failed to deserialize response to type T".to_string()),
            },
            Err(_) => match method {
                HttpMethod::Get => Err("Failed to get response".to_string()),
                HttpMethod::Post => Err("Failed to get response for post".to_string()),
                HttpMethod::Put => Err("Failed to get response for put".to_string()),
                HttpMethod::Delete => Err("Failed to get response for delete".to_string()),
                HttpMethod::Patch => Err("Failed to get response for patch".to_string()),
            },
        }
    }

    /// What the caller of a DELETE request gets: an answer of success is enough, whatever its body.
    pub fn delete_answered(answer: Result<(), String>) -> (r: Result<(), String>)
        ensures
            match answer {
                Ok(_) => r == Ok::<(), String>(()),
                Err(_) => r matches Err(error) && error@ == no_response_text(HttpMethod::Delete),
            },
    {
        match answer {
            Ok(_) => Ok(()),
            Err(_) => Err("Failed to get response for delete".to_string()),
        }
    }

    fn authorized_request(
        &self,
        method: HttpMethod,
        url: &str,
        auth_header: &str,
        has_body: bool,
        retried: bool,
    ) -> (r: HttpRequest)
        ensures
            r@ == authorized(method, url@, auth_header@, has_body, retried),
    {
        let url = match self.get_full_url(url) {
            Ok(url) => url,
            Err(error) => error,
        };
        let mut headers: Vec<(String, String)> = Vec::new();
        headers.push(("Authorization".to_string(), auth_header.to_string()));
        if has_body {
            headers.push(("Content-Type".to_string(), "application/json".to_string()));
        }
        let r = HttpRequest { method, url, headers, has_body, retried };
        assert(r@.headers =~= authorized(
            method,
            url@,
            auth_header@,
            has_body,
            retried,
        ).headers);
        r
    }

    /// A GET request with authorization header.
    pub fn get(&self, url: &str, auth_header: &str) -> (r: HttpRequest)
        ensures
            r@ == authorized(HttpMethod::Get, url@, auth_header@, false, true),
    {
        self.authorized_request(HttpMethod::Get, url, auth_header, false, true)
    }

    /// A POST request with authorization header.
    pub fn post(&self, url: &str, auth_header: &str) -> (r: HttpRequest)
        ensures
            r@ == authorized(HttpMethod::Post, url@, auth_header@, true, true),
    {
        self.authorized_request(HttpMethod::Post, url, auth_header, true, true)
    }

    /// A DELETE request with authorization header.
    pub fn delete(&self, url: &str, auth_header: &str) -> (r: HttpRequest)
        ensures
            r@ == authorized(HttpMethod::Delete, url@, auth_header@, false, true),
    {
        self.authorized_request(HttpMethod::Delete, url, auth_header, false, true)
    }

    /// A PUT request with authorization header. It is made once only.
    pub fn put(&self, url: &str, auth_header: &str) -> (r: HttpRequest)
        ensures
            r@ == authorized(HttpMethod::Put, url@, auth_header@, true, false),
    {
        self.authorized_request(HttpMethod::Put, url, auth_header, true, false)
    }

    /// Takes what came of a PUT request: the answer, or why none came.
    pub fn put_answered<T>(answer: Result<OnceAnswer<T>, String>) -> (r: Result<T, String>)
        ensures
            result_text(r) == (match answer {
                Ok(answer) => if is_success(answer.status) {
                    caller_gets(HttpMethod::Put, Ok(result_text(answer.parsed)))
                } else {
                    Err(
                        "HTTP "@ + answer.status_text@ + ": "@ + body_or_notice(
                            answer.body.deep_view(),
                        ),
                    )
                },
                Err(error) => caller_gets(HttpMethod::Put, Err(error@)),
            }),
    {
        match answer {
            Ok(answer) => {
                if answer.status >= 200 && answer.status < 300 {
                    return Self::answered(HttpMethod::Put, Ok(answer.parsed));
                }
                let mut s = text::join("HTTP ", answer.status_text.as_str());
                s.append(": ");
                match answer.body {
                    Some(body) => s.append(body.as_str()),
                    None => s.append("Failed to read error body"),
                }
                Err(s)
            },
            Err(error) => Self::answered(HttpMethod::Put, Err(error)),
        }
    }

    /// A PATCH request with authorization header.
    pub fn patch(&self, url: &str, auth_header: &str) -> (r: HttpRequest)
        ensures
            r@ == authorized(HttpMethod::Patch, url@, auth_header@, true, true),
    {
        self.authorized_request(HttpMethod::Patch, url, auth_header, true, true)
    }

    /// The method whose name in capitals is `name`; a name that is none of them stands for `Get`.
    pub fn method_named(name: &str) -> (m: HttpMethod)
        ensures
            m == method_of_name(name@),
    {
        let name = name.to_string();
        if name == "POST".to_string() {
            HttpMethod::Post
        } else if name == "PUT".to_string() {
            HttpMethod::Put
        } else if name == "DELETE".to_string() {
            HttpMethod::Delete
        } else if name == "PATCH".to_string() {
            HttpMethod::Patch
        } else {
            HttpMethod::Get
        }
    }

    /// A bare request for the absolute address `url`, with the method named `method` in letters of
    /// either case.
    pub fn request_builder(&self, method: &str, url: &str) -> (r: HttpRequest)
        ensures
            r@ == (HttpRequestView {
                method: method_of_name(uppercase(method@)),
                url: url@,
                headers: Seq::empty(),
                has_body: false,
                retried: false,
            }),
    {
        let name = to_uppercase(method);
        let headers: Vec<(String, String)> = Vec::new();
        let r = HttpRequest {
            method: Self::method_named(name.as_str()),
            url: url.to_string(),
            headers,
            has_body: false,
            retried: false,
        };
        assert(r@.headers =~= Seq::empty());
        r
    }

    /// Begins to gather all pages of the collection at `url`.
    pub fn get_all_pages<T>(&self, url: &str, auth_header: &str) -> (pages: Pages<T>)
        ensures
            pages@ == first_page::<T>(url@, auth_header@),
    {
        let pages = Pages {
            client: *self,
            next_url: Some(url.to_string()),
            auth_header: auth_header.to_string(),
            items: Vec::new(),
        };
        assert(pages@.items =~= Seq::<T>::empty());
        pages
    }
}

/// The pages of a collection, gathered one after the other.
#[derive(Debug)]
pub struct Pages<T> {
    pub client: MsTodoHttpClient,
    /// The address of the next page, if there is one.
    pub next_url: Option<String>,
    pub auth_header: String,
    /// The items of the pages so far.
    pub items: Vec<T>,
}

/// What [`Pages`] says.
pub struct PagesView<T> {
    pub next_url: Option<Seq<char>>,
    pub auth_header: Seq<char>,
    pub items: Seq<T>,
}

impl<T> View for Pages<T> {
    type V = PagesView<T>;

    open spec fn view(&self) -> PagesView<T> {
        PagesView {
            next_url: self.next_url.deep_view(),
            auth_header: self.auth_header@,
            items: self.items@,
        }
    }
}

/// Nothing gathered yet of the collection at `url`.
pub open spec fn first_page<T>(url: Seq<char>, auth_header: Seq<char>) -> PagesView<T> {
    PagesView { next_url: Some(url), auth_header, items: Seq::empty() }
}

/// What is gathered once a page with `items` and `next_link` has come.
pub open spec fn with_page<T>(
    pages: PagesView<T>,
    items: Seq<T>,
    next_link: Option<Seq<char>>,
) -> PagesView<T> {
    PagesView { next_url: next_link, items: pages.items + items, ..pages }
}

/// What is left once a page has failed: nothing, and no further page to ask for.
pub open spec fn without_pages<T>(pages: PagesView<T>) -> PagesView<T> {
    PagesView { next_url: None, items: Seq::empty(), ..pages }
}

/// What is gathered once all of `answers` have come, in this order.
pub open spec fn with_pages<T>(
    pages: PagesView<T>,
    answers: Seq<(Seq<T>, Option<Seq<char>>)>,
) -> PagesView<T>
    decreases answers.len(),
{
    if answers.len() == 0 {
        pages
    } else {
        let before = with_pages(pages, answers.drop_last());
        with_page(before, answers.last().0, answers.last().1)
    }
}

impl<T> Pages<T> {
    /// The request for the next page; `None` once the last page has come.
    pub fn next_request(&self) -> (r: Option<HttpRequest>)
        ensures
            r is Some <==> self@.next_url is Some,
            r matches Some(request) ==> request@ == authorized(
                HttpMethod::Get,
                self@.next_url->0,
                self@.auth_header,
                false,
                true,
            ),
    {
        match &self.next_url {
            Some(url) => Some(self.client.get(url.as_str(), self.auth_header.as_str())),
            None => None,
        }
    }

    /// Takes the items of the page that was asked for, and the link to the page behind it.
    pub fn add_page(&mut self, items: Vec<T>, next_link: Option<String>)
        requires
            old(self)@.next_url is Some,
        ensures
            final(self)@ == with_page(old(self)@, items@, next_link.deep_view()),
    {
        let mut items = items;
        self.items.append(&mut items);
        self.next_url = next_link;
    }

    /// Takes what came of the request for the next page: its items with the link to the page behind
    /// it, or an error. An error is handed on and ends the gathering, with nothing gathered.
    pub fn page_answered(&mut self, answer: Result<(Vec<T>, Option<String>), String>) -> (r: Result<
        (),
        String,
    >)
        requires
            old(self)@.next_url is Some,
        ensures
            match answer {
                Ok((items, next_link)) => {
                    &&& r == Ok::<(), String>(())
                    &&& final(self)@ == with_page(old(self)@, items@, next_link.deep_view())
                },
                Err(error) => {
                    &&& r == Err::<(), String>(error)
                    &&& final(self)@ == without_pages(old(self)@)
                },
            },
    {
        match answer {
            Ok((items, next_link)) => {
                self.add_page(items, next_link);
                Ok(())
            },
            Err(error) => {
                self.items = Vec::new();
                self.next_url = None;
                Err(error)
            },
        }
    }
}

/// All pages together hold the items of each page, in the order of the pages, and the next page is
/// the one that the last of them links to.
pub proof fn pages_are_gathered_in_order<T>(
    url: Seq<char>,
    auth_header: Seq<char>,
    answers: Seq<(Seq<T>, Option<Seq<char>>)>,
)
    ensures
        with_pages(first_page::<T>(url, auth_header), answers).items == answers.map_values(
            |answer: (Seq<T>, Option<Seq<char>>)| answer.0,
        ).flatten(),
        with_pages(first_page::<T>(url, auth_header), answers).next_url == (if answers.len() == 0 {
            Some(url)
        } else {
            answers.last().1
        }),
        with_pages(first_page::<T>(url, auth_header), answers).auth_header == auth_header,
    decreases answers.len(),
{
    let pick = |answer: (Seq<T>, Option<Seq<char>>)| answer.0;
    if answers.len() == 0 {
        assert(answers.map_values(pick) =~= Seq::empty());
        assert(answers.map_values(pick).flatten() =~= Seq::empty());
    } else {
        pages_are_gathered_in_order(url, auth_header, answers.drop_last());
        assert(answers.map_values(pick) =~= answers.drop_last().map_values(pick).push(
            answers.last().0,
        ));
        answers.drop_last().map_values(pick).lemma_flatten_push(answers.last().0);
    }
}

/// Gathering goes on exactly as long as each page links to a next one: a page is asked for after
/// `answers` if and only if the last of them has a link, and a page that fails ends the gathering
/// with nothing gathered.
pub proof fn gathering_ends_with_the_last_page<T>(
    url: Seq<char>,
    auth_header: Seq<char>,
    answers: Seq<(Seq<T>, Option<Seq<char>>)>,
)
    ensures
        ({
            let pages = with_pages(first_page::<T>(url, auth_header), answers);
            &&& pages.next_url is Some <==> (answers.len() > 0 ==> answers.last().1 is Some)
            &&& without_pages(pages).next_url is None
            &&& without_pages(pages).items.len() == 0
        }),
{
    pages_are_gathered_in_order(url, auth_header, answers);
}

/// Where every page but the last links to a next one, each page is asked for once, in the order of the
/// links and with the same header, and nothing is asked for after the last. All items are there then.
pub proof fn pages_are_followed_link_by_link<T>(
    url: Seq<char>,
    auth_header: Seq<char>,
    answers: Seq<(Seq<T>, Option<Seq<char>>)>,
    k: int,
)
    requires
        answers.len() > 0,
        forall|i: int| 0 <= i < answers.len() - 1 ==> (#[trigger] answers[i]).1 is Some,
        answers.last().1 is None,
        0 <= k <= answers.len(),
    ensures
        ({
            let pages = with_pages(first_page::<T>(url, auth_header), answers.take(k));
            &&& pages.auth_header == auth_header
            &&& pages.next_url == (if k == 0 {
                Some(url)
            } else {
                answers[k - 1].1
            })
            &&& pages.next_url is Some <==> k < answers.len()
        }),
        with_pages(first_page::<T>(url, auth_header), answers).items == answers.map_values(
            |answer: (Seq<T>, Option<Seq<char>>)| answer.0,
        ).flatten(),
{
    pages_are_gathered_in_order(url, auth_header, answers.take(k));
    pages_are_gathered_in_order(url, auth_header, answers);
    if k > 0 {
        assert(answers.take(k).last() == answers[k - 1]);
    }
}

/// An address that was completed once is not changed by completing it again.
pub proof fn full_url_is_idempotent(url: Seq<char>)
    ensures
        full_url(full_url(url)) == full_url(url),
        text::has_prefix(full_url(url), "http"@),
{
    reveal_strlit("http");
    reveal_strlit("https://graph.microsoft.com/v1.0");
    assert((GRAPH_API_BASE@ + url).subrange(0, 4) =~= "http"@);
}

/// Whether an attempt that went as `outcome` says leaves nothing to try again.
pub open spec fn is_settled(outcome: Attempt) -> bool {
    match outcome {
        Attempt::Answered(status) => !is_retryable(status),
        Attempt::Failed => false,
    }
}

/// How a request ends whose attempts, from number `attempt` on, go as `outcomes` says: the number
/// of the last attempt, and what is done after it.
pub open spec fn retry_run(outcomes: spec_fn(u32) -> Attempt, attempt: u32) -> (u32, RetryStep)
    decreases MAX_RETRIES - attempt,
{
    match retry_step(attempt, outcomes(attempt)) {
        RetryStep::Retry { delay_ms, attempt: next } => if attempt < MAX_RETRIES {
            retry_run(outcomes, next)
        } else {
            (attempt, RetryStep::Unreachable)
        },
        step => (attempt, step),
    }
}

/// A request ends at the first attempt that settles it, at the latest at the last attempt that is
/// allowed: it succeeds if and only if that attempt got an answer of success.
pub proof fn retry_ends_at_first_settled_attempt(outcomes: spec_fn(u32) -> Attempt, attempt: u32)
    requires
        1 <= attempt <= MAX_RETRIES,
    ensures
        ({
            let (last, step) = retry_run(outcomes, attempt);
            &&& attempt <= last <= MAX_RETRIES
            &&& forall|k: u32| attempt <= k < last ==> !is_settled(#[trigger] outcomes(k))
            &&& is_settled(outcomes(last)) || last == MAX_RETRIES
            &&& step == retry_step(last, outcomes(last))
            &&& !(step is Retry)
            &&& step is Finish <==> (outcomes(last) matches Attempt::Answered(status) && is_success(
                status,
            ))
        }),
    decreases MAX_RETRIES - attempt,
{
    if attempt < MAX_RETRIES {
        retry_ends_at_first_settled_attempt(outcomes, (attempt + 1) as u32);
    }
}

/// What a request ends with whose attempts go as `outcomes` says, where `parsed` tells what the body of
/// an answer of success is understood as, `body` is the body of any other answer, and `error` tells
/// what kept an answer from coming.
pub open spec fn exchanged<T>(
    outcomes: spec_fn(u32) -> Attempt,
    parsed: Result<T, Seq<char>>,
    body: Option<Seq<char>>,
    error: Seq<char>,
) -> Result<Result<T, Seq<char>>, Seq<char>> {
    match failure_text(retry_run(outcomes, 1).1, body, error) {
        Some(text) => Err(text),
        None => Ok(parsed),
    }
}

/// The caller of a request that is made again after trouble gets a value if and only if the attempt at
/// which the request ends brings an answer of success whose body is understood as that value. Without
/// such an answer the caller is told that there was no response; with one whose body is not
/// understood, that it could not be read.
pub proof fn caller_gets_what_was_answered<T>(
    method: HttpMethod,
    outcomes: spec_fn(u32) -> Attempt,
    parsed: Result<T, Seq<char>>,
    body: Option<Seq<char>>,
    error: Seq<char>,
)
    ensures
        ({
            let (last, _) = retry_run(outcomes, 1);
            let succeeds = outcomes(last) matches Attempt::Answered(status) && is_success(status);
            let got = caller_gets(method, exchanged(outcomes, parsed, body, error));
            &&& 1 <= last <= MAX_RETRIES
            &&& forall|k: u32| 1 <= k < last ==> !is_settled(#[trigger] outcomes(k))
            &&& is_settled(outcomes(last)) || last == MAX_RETRIES
            &&& forall|value: T|
                got == Ok::<T, Seq<char>>(value) <==> succeeds && parsed == Ok::<T, Seq<char>>(value)
            &&& !succeeds ==> got == Err::<T, Seq<char>>(no_response_text(method))
            &&& succeeds && parsed is Err ==> got == Err::<T, Seq<char>>(unreadable_text(method))
        }),
{
    retry_ends_at_first_settled_attempt(outcomes, 1);
}

/// A DELETE request succeeds if and only if the attempt at which it ends brings an answer of success,
/// whatever its body.
pub proof fn delete_needs_no_body(
    outcomes: spec_fn(u32) -> Attempt,
    body: Option<Seq<char>>,
    error: Seq<char>,
)
    ensures
        failure_text(retry_run(outcomes, 1).1, body, error) is None <==> (outcomes(
            retry_run(outcomes, 1).0,
        ) matches Attempt::Answered(status) && is_success(status)),
{
    retry_ends_at_first_settled_attempt(outcomes, 1);
}

/// The waits: the first is one second, and each is twice the one before it, but never over the
/// longest. Those between the attempts that are allowed take fifteen seconds together.
pub proof fn retry_waits()
    ensures
        retry_delay(1) == 1000,
        forall|attempt: u32|
            1 <= attempt < 0x7fff_ffff ==> #[trigger] retry_delay((attempt + 1) as u32) == (if 2
                * retry_delay(attempt) < MAX_RETRY_DELAY_MS {
                2 * retry_delay(attempt)
            } else {
                MAX_RETRY_DELAY_MS as nat
            }),
        retry_delay(1) + retry_delay(2) + retry_delay(3) + retry_delay(4) == 15000,
        forall|attempt: u32| #[trigger] retry_delay(attempt) <= MAX_RETRY_DELAY_MS,
{
    reveal_with_fuel(doubled_delay, 6);
    assert forall|attempt: u32| 1 <= attempt < 0x7fff_ffff implies #[trigger] retry_delay(
        (attempt + 1) as u32,
    ) == (if 2 * retry_delay(attempt) < MAX_RETRY_DELAY_MS {
        2 * retry_delay(attempt)
    } else {
        MAX_RETRY_DELAY_MS as nat
    }) by {
        assert(doubled_delay(attempt as nat) == 2 * doubled_delay((attempt - 1) as nat));
    }
    assert forall|attempt: u32| #[trigger] retry_delay(attempt) <= MAX_RETRY_DELAY_MS by {
        if signed(attempt) < 1 {
            lemma_halved_delay_shrinks((1 - signed(attempt)) as nat);
        }
    }
}

/// Halving never takes the wait over the initial one.
proof fn lemma_halved_delay_shrinks(n: nat)
    ensures
        halved_delay(n) <= INITIAL_RETRY_DELAY_MS,
    decreases n,
{
    if n > 0 {
        lemma_halved_delay_shrinks((n - 1) as nat);
    }
}

/// Whether the service may answer the same request better later: it asks to slow down, took too long, or
/// is in trouble itself.
pub open spec fn may_pass(status: u16) -> bool {
    status == 408 || status == 429 || status / 100 == 5
}

/// What comes of an attempt. An answer of success ends the request well. An answer that will not change
/// ends it with its status. After trouble that may pass, or no answer at all, the next attempt is made
/// one, two, four and then eight seconds later; the fifth attempt is the last, and a failure then is
/// final.
pub proof fn five_attempts_are_made_at_most(attempt: u32, status: u16)
    requires
        1 <= attempt <= 5,
    ensures
        ({
            let wait: u64 = if attempt == 1 {
                1000
            } else if attempt == 2 {
                2000
            } else if attempt == 3 {
                4000
            } else {
                8000
            };
            let again = RetryStep::Retry { delay_ms: wait, attempt: (attempt + 1) as u32 };
            let answered = retry_step(attempt, Attempt::Answered(status));
            &&& status / 100 == 2 ==> answered == RetryStep::Finish
            &&& status / 100 != 2 && !may_pass(status) ==> answered == (RetryStep::Refused { status })
            &&& may_pass(status) && attempt < 5 ==> answered == again
            &&& may_pass(status) && attempt == 5 ==> answered == (RetryStep::Exhausted { status })
            &&& attempt < 5 ==> retry_step(attempt, Attempt::Failed) == again
            &&& attempt == 5 ==> retry_step(attempt, Attempt::Failed) == RetryStep::Unreachable
        }),
{
    reveal_with_fuel(doubled_delay, 6);
}

/// The wait after the fifth attempt would be sixteen seconds, and that after each later one half a minute.
pub proof fn waits_stop_growing(attempt: u32)
    requires
        5 <= attempt <= 0x7fff_ffff,
    ensures
        attempt == 5 ==> retry_delay(attempt) == 16000,
        attempt > 5 ==> retry_delay(attempt) == 30000,
        retry_delay(0) == 500,
{
    reveal_with_fuel(doubled_delay, 6);
    reveal_with_fuel(halved_delay, 2);
    if attempt > 5 {
        lemma_doubled_delay_grows(5, (attempt - 1) as nat);
    }
}

/// A request for a relative address goes to that address behind the base of the service; one for an
/// address that begins with `http` goes there. It carries the authorization first, and says that it
/// carries JSON if and only if it does.
pub proof fn requests_are_addressed_and_authorized(
    method: HttpMethod,
    url: Seq<char>,
    auth_header: Seq<char>,
    has_body: bool,
    retried: bool,
)
    ensures
        ({
            let request = authorized(method, url, auth_header, has_body, retried);
            &&& request.method == method
            &&& request.has_body == has_body
            &&& request.retried == retried
            &&& request.headers.len() == (if has_body {
                2int
            } else {
                1
            })
            &&& request.headers[0] == ("Authorization"@, auth_header)
            &&& has_body ==> request.headers[1] == ("Content-Type"@, "application/json"@)
            &&& url.len() >= 4 && url[0] == 'h' && url[1] == 't' && url[2] == 't' && url[3] == 'p'
                ==> request.url == url
            &&& !(url.len() >= 4 && url[0] == 'h' && url[1] == 't' && url[2] == 't' && url[3] == 'p')
                ==> request.url == "https://graph.microsoft.com/v1.0"@ + url
        }),
{
    reveal_strlit("http");
    if url.len() >= 4 {
        if url[0] == 'h' && url[1] == 't' && url[2] == 't' && url[3] == 'p' {
            assert(url.subrange(0, 4) =~= "http"@);
        } else if url.subrange(0, 4) == "http"@ {
            assert(url.subrange(0, 4)[0] == url[0]);
            assert(url.subrange(0, 4)[1] == url[1]);
            assert(url.subrange(0, 4)[2] == url[2]);
            assert(url.subrange(0, 4)[3] == url[3]);
        }
    }
}

/// The report of a failure names the status and holds the body of the answer, or a notice where the body
/// could not be read; that of a request without an answer holds the error. A success has no report.
pub proof fn failures_are_reported(status: u16, body: Seq<char>, error: Seq<char>)
    ensures
        failure_text(RetryStep::Finish, Some(body), error) is None,
        failure_text(RetryStep::Refused { status }, Some(body), error) == Some(
            "HTTP "@ + text::decimal_digits(status as nat) + ": "@ + body,
        ),
        failure_text(RetryStep::Refused { status }, None, error) == Some(
            "HTTP "@ + text::decimal_digits(status as nat) + ": "@ + "Failed to read error body"@,
        ),
        failure_text(RetryStep::Exhausted { status }, Some(body), error) == Some(
            "HTTP "@ + text::decimal_digits(status as nat) + " after 5 retries: "@ + body,
        ),
        failure_text(RetryStep::Exhausted { status }, None, error) == Some(
            "HTTP "@ + text::decimal_digits(status as nat) + " after 5 retries: "@
                + "Failed to read error body"@,
        ),
        failure_text(RetryStep::Unreachable, Some(body), error) == Some(
            "Request failed after 5 retries: Some("@ + error + ")"@,
        ),
        failure_text(RetryStep::Unreachable, None, error) == Some(
            "Request failed after 5 retries: Some("@ + error + ")"@,
        ),
{
    reveal_strlit(" after ");
    reveal_strlit(" retries: ");
    reveal_strlit(" after 5 retries: ");
    reveal_strlit("Request failed after ");
    reveal_strlit(" retries: Some(");
    reveal_strlit("Request failed after 5 retries: Some(");
    assert(text::decimal_digits(5) =~= seq!['5']);
    let head = "HTTP "@ + text::decimal_digits(status as nat);
    assert(" after "@ + seq!['5'] + " retries: "@ =~= " after 5 retries: "@);
    assert(head + " after "@ + seq!['5'] + " retries: "@ + body =~= head + " after 5 retries: "@ + body);
    assert(head + " after "@ + seq!['5'] + " retries: "@ + "Failed to read error body"@ =~= head
        + " after 5 retries: "@ + "Failed to read error body"@);
    assert("Request failed after "@ + seq!['5'] + " retries: Some("@
        =~= "Request failed after 5 retries: Some("@);
}

/// What the caller of a request is told: the value where there is one, that a body could not be
/// understood, or that there was no response to a request of this method.
pub proof fn callers_are_told_by_method<T>(method: HttpMethod, value: T, error: Seq<char>)
    ensures
        caller_gets(method, Ok(Ok(value))) == Ok::<T, Seq<char>>(value),
        caller_gets::<T>(method, Ok(Err(error))) == Err::<T, Seq<char>>(
            if method == HttpMethod::Put || method == HttpMethod::Patch {
                "Failed to deserialize response to type R"@
            } else {
                "Failed to deserialize response to type T"@
            },
        ),
        caller_gets::<T>(HttpMethod::Get, Err(error)) == Err::<T, Seq<char>>(
            "Failed to get response"@,
        ),
        caller_gets::<T>(HttpMethod::Post, Err(error)) == Err::<T, Seq<char>>(
            "Failed to get response for post"@,
        ),
        caller_gets::<T>(HttpMethod::Put, Err(error)) == Err::<T, Seq<char>>(
            "Failed to get response for put"@,
        ),
        caller_gets::<T>(HttpMethod::Patch, Err(error)) == Err::<T, Seq<char>>(
            "Failed to get response for patch"@,
        ),
        no_response_text(HttpMethod::Delete) == "Failed to get response for delete"@,
{
}

/// Each method but `Get` is known by its name in capitals alone, and every other name stands for `Get`.
pub proof fn methods_are_known_by_their_names(name: Seq<char>)
    ensures
        method_of_name(name) == HttpMethod::Post <==> name == "POST"@,
        method_of_name(name) == HttpMethod::Put <==> name == "PUT"@,
        method_of_name(name) == HttpMethod::Delete <==> name == "DELETE"@,
        method_of_name(name) == HttpMethod::Patch <==> name == "PATCH"@,
{
    reveal_strlit("POST");
    reveal_strlit("PUT");
    reveal_strlit("DELETE");
    reveal_strlit("PATCH");
    assert("POST"@.len() == 4 && "PUT"@.len() == 3 && "DELETE"@.len() == 6 && "PATCH"@.len() == 5);
}

/// A page that has come adds its items behind those that are there and tells where the next page is; the
/// header stays. A page that has failed leaves nothing of the pages before it.
pub proof fn pages_grow_at_their_end<T>(
    pages: PagesView<T>,
    items: Seq<T>,
    next_link: Option<Seq<char>>,
    i: int,
)
    ensures
        with_page(pages, items, next_link).next_url == next_link,
        with_page(pages, items, next_link).auth_header == pages.auth_header,
        with_page(pages, items, next_link).items.len() == pages.items.len() + items.len(),
        0 <= i < pages.items.len() ==> with_page(pages, items, next_link).items[i] == pages.items[i],
        0 <= i < items.len() ==> with_page(pages, items, next_link).items[pages.items.len() + i]
            == items[i],
        without_pages(pages).next_url is None,
        without_pages(pages).items.len() == 0,
{
}

/// The wait for a number below one is half that for the next number, rounded down.
pub proof fn waits_before_the_first_attempt_shrink(attempt: u32)
    requires
        0x8000_0000 < attempt < 0xffff_ffff,
    ensures
        retry_delay(0xffff_ffff) == 250,
        retry_delay(attempt) == retry_delay((attempt + 1) as u32) / 2,
{
    reveal_with_fuel(halved_delay, 3);
    assert(halved_delay((1 - signed(attempt)) as nat) == halved_delay((-signed(attempt)) as nat) / 2);
}

} // verus!
