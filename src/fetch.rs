use vstd::prelude::*;

verus! {

/// How a finished delivery went, as two flags: `is_success` when the remote
/// accepted the payload, `is_error` when every attempt failed.
#[derive(Debug, Clone, Copy, PartialEq, Eq)]
pub struct ErrorResponseType {
    pub is_success: bool,
    pub is_error: bool,
}

/// The body sent to the collection endpoint.
#[derive(Debug, Clone, Copy)]
pub struct ErrorPayload<'a> {
    pub client_id: &'a str,
    pub client_secret: &'a str,
    pub message: &'a str,
    pub error_details: &'a str,
}

/// What a delivery is given: where to send, who sends, extra headers that
/// override the standard ones, the body, the number of sends allowed and the
/// wait between two sends in milliseconds.
#[derive(Debug, Clone)]
pub struct CustomFetchProps<'a> {
    pub client_secret: &'a str,
    pub client_id: &'a str,
    pub headers: Option<Vec<(String, String)>>,
    pub endpoint: &'a str,
    pub body: Option<ErrorPayload<'a>>,
    pub retry_attempts: usize,
    pub retry_delay: u64,
}

/// A header list as name and value character sequences.
pub open spec fn header_view(h: Seq<(String, String)>) -> Seq<(Seq<char>, Seq<char>)> {
    h.map_values(|e: (String, String)| (e.0@, e.1@))
}

/// `h` with header `name` set to `value`: an entry of that name takes the new
/// value where it stands, otherwise the header is added at the end.
pub open spec fn put_header(h: Seq<(Seq<char>, Seq<char>)>, name: Seq<char>, value: Seq<char>) -> Seq<
    (Seq<char>, Seq<char>),
> {
    if exists|i: int| 0 <= i < h.len() && #[trigger] h[i].0 == name {
        h.map_values(
            |e: (Seq<char>, Seq<char>)|
                if e.0 == name {
                    (name, value)
                } else {
                    e
                },
        )
    } else {
        h.push((name, value))
    }
}

/// `h` with each header of `extra` set in turn, so that a later one wins.
pub open spec fn put_headers(h: Seq<(Seq<char>, Seq<char>)>, extra: Seq<(Seq<char>, Seq<char>)>) -> Seq<
    (Seq<char>, Seq<char>),
>
    decreases extra.len(),
{
    if extra.len() == 0 {
        h
    } else {
        put_header(put_headers(h, extra.drop_last()), extra.last().0, extra.last().1)
    }
}

/// The headers every delivery carries: the identity pair, then the JSON
/// content type.
pub open spec fn standard_headers(client_id: Seq<char>, client_secret: Seq<char>) -> Seq<
    (Seq<char>, Seq<char>),
> {
    seq![("client_id"@, client_id), ("client_secret"@, client_secret), ("Content-Type"@, "application/json"@)]
}

/// The headers of a request: the standard ones, then `custom` set over them.
pub open spec fn request_headers(
    client_id: Seq<char>,
    client_secret: Seq<char>,
    custom: Option<Seq<(String, String)>>,
) -> Seq<(Seq<char>, Seq<char>)> {
    match custom {
        Some(c) => put_headers(standard_headers(client_id, client_secret), header_view(c)),
        None => standard_headers(client_id, client_secret),
    }
}

fn set_header(h: &mut Vec<(String, String)>, name: &String, value: &String)
    ensures
        header_view(final(h)@) == put_header(header_view(old(h)@), name@, value@),
{
    let ghost h0 = header_view(h@);
    let mut found = false;
    let mut i: usize = 0;
    while i < h.len()
        invariant
            h@.len() == h0.len(),
            h0 == header_view(old(h)@),
            i <= h@.len(),
            forall|j: int|
                0 <= j < i ==> ((#[trigger] h@[j]).0@, h@[j].1@) == if h0[j].0 == name@ {
                    (name@, value@)
                } else {
                    h0[j]
                },
            forall|j: int| i <= j < h@.len() ==> #[trigger] h@[j] == old(h)@[j],
            found == exists|j: int| 0 <= j < i && #[trigger] h0[j].0 == name@,
        decreases h@.len() - i,
    {
        assert(h0[i as int] == (h@[i as int].0@, h@[i as int].1@));
        if h[i].0 == *name {
            h.set(i, (name.clone(), value.clone()));
            found = true;
            assert(h0[i as int].0 == name@);
        }
        i = i + 1;
    }
    if found {
        assert(header_view(h@) =~= put_header(h0, name@, value@));
    } else {
        h.push((name.clone(), value.clone()));
        assert(header_view(h@) =~= put_header(h0, name@, value@));
    }
}

/// The headers for a request from `client_id` and `client_secret`, with
/// `custom` laid over the standard ones.
pub fn build_headers(client_id: &str, client_secret: &str, custom: &Option<Vec<(String, String)>>) -> (r: Vec<(String, String)>)
    ensures
        header_view(r@) == request_headers(
            client_id@,
            client_secret@,
            match custom {
                Some(c) => Some(c@),
                None => None,
            },
        ),
{
    let mut h: Vec<(String, String)> = Vec::new();
    h.push(("client_id".to_string(), client_id.to_string()));
    h.push(("client_secret".to_string(), client_secret.to_string()));
    h.push(("Content-Type".to_string(), "application/json".to_string()));
    let ghost base = standard_headers(client_id@, client_secret@);
    assert(header_view(h@) =~= base);
    match custom {
        None => {},
        Some(extra) => {
            let mut i: usize = 0;
            while i < extra.len()
                invariant
                    i <= extra@.len(),
                    header_view(h@) == put_headers(base, header_view(extra@).take(i as int)),
                decreases extra@.len() - i,
            {
                set_header(&mut h, &extra[i].0, &extra[i].1);
                assert(header_view(extra@).take(i + 1).drop_last() =~= header_view(extra@).take(i as int));
                i = i + 1;
            }
            assert(header_view(extra@).take(extra@.len() as int) =~= header_view(extra@));
        },
    }
    h
}

/// What one send gave back.
#[derive(Debug, Clone, PartialEq, Eq)]
pub enum AttemptResult {
    /// The remote answered with a success status.
    Accepted,
    /// The remote answered with another status.
    Rejected,
    /// The transport could not complete the exchange; the reason.
    Unreachable(String),
}

/// How a whole delivery ended: success, or the failure of its last attempt.
#[derive(Debug, Clone, PartialEq, Eq)]
pub enum DeliveryOutcome {
    Success,
    RemoteRejected,
    TransportFailure(String),
}

/// What the caller does after an attempt: wait the retry delay and send
/// again, or stop with the outcome.
#[derive(Debug, Clone, PartialEq, Eq)]
pub enum NextStep {
    Retry,
    Finish(DeliveryOutcome),
}

/// The outcome that a failed attempt leaves when it is the last one.
pub open spec fn failure_outcome(r: AttemptResult) -> DeliveryOutcome {
    match r {
        AttemptResult::Accepted => DeliveryOutcome::Success,
        AttemptResult::Rejected => DeliveryOutcome::RemoteRejected,
        AttemptResult::Unreachable(e) => DeliveryOutcome::TransportFailure(e),
    }
}

/// The decision after attempt number `made + 1` of at most `attempts`:
/// success ends at once; a failure is retried while attempts remain and is
/// otherwise the outcome.
pub open spec fn step_spec(made: nat, attempts: nat, r: AttemptResult) -> NextStep {
    if r is Accepted {
        NextStep::Finish(DeliveryOutcome::Success)
    } else if made + 1 < attempts {
        NextStep::Retry
    } else {
        NextStep::Finish(failure_outcome(r))
    }
}

/// A delivery of at most `attempts` sends, `made` of them done, whose
/// remaining sends the transport answers with `results` in order: the
/// outcome (`None` when `results` runs out first), the sends made and the
/// waits between them.
pub open spec fn run(attempts: nat, made: nat, results: Seq<AttemptResult>) -> (
    Option<DeliveryOutcome>,
    nat,
    nat,
)
    decreases results.len(),
{
    if results.len() == 0 || made >= attempts {
        (None, 0, 0)
    } else {
        match step_spec(made, attempts, results[0]) {
            NextStep::Finish(o) => (Some(o), 1, 0),
            NextStep::Retry => {
                let (o, sends, waits) = run(attempts, made + 1, results.drop_first());
                (o, sends + 1, waits + 1)
            },
        }
    }
}

/// The retry policy of one delivery and how far it has gone.
#[derive(Debug)]
pub struct Delivery {
    attempts: usize,
    made: usize,
    done: bool,
}

impl Delivery {
    /// The number of sends allowed.
    pub closed spec fn attempts(&self) -> nat {
        self.attempts as nat
    }

    /// The number of sends made.
    pub closed spec fn made(&self) -> nat {
        self.made as nat
    }

    /// Whether the delivery has ended.
    pub closed spec fn done(&self) -> bool {
        self.done
    }

    /// A send may still be made.
    pub open spec fn open(&self) -> bool {
        !self.done() && self.made() < self.attempts()
    }

    /// A delivery allowing `retry_attempts` sends, none made yet.
    pub fn new(retry_attempts: usize) -> (r: Self)
        requires
            retry_attempts > 0,
        ensures
            r.attempts() == retry_attempts,
            r.made() == 0,
            !r.done(),
            r.open(),
    {
        Delivery { attempts: retry_attempts, made: 0, done: false }
    }

    /// Whether a send may still be made.
    pub fn is_open(&self) -> (r: bool)
        ensures
            r == self.open(),
    {
        !self.done && self.made < self.attempts
    }

    /// The number of sends made so far.
    pub fn attempts_made(&self) -> (r: usize)
        ensures
            r == self.made(),
    {
        self.made
    }

    /// Takes the result of the send just made and says what comes next.
    pub fn record_attempt(&mut self, result: AttemptResult) -> (r: NextStep)
        requires
            old(self).open(),
        ensures
            r == step_spec(old(self).made(), old(self).attempts(), result),
            final(self).attempts() == old(self).attempts(),
            final(self).made() == old(self).made() + 1,
            final(self).done() == (r is Finish),
            r is Retry ==> final(self).open(),
    {
        self.made = self.made + 1;
        match result {
            AttemptResult::Accepted => {
                self.done = true;
                NextStep::Finish(DeliveryOutcome::Success)
            },
            AttemptResult::Rejected => {
                if self.made < self.attempts {
                    NextStep::Retry
                } else {
                    self.done = true;
                    NextStep::Finish(DeliveryOutcome::RemoteRejected)
                }
            },
            AttemptResult::Unreachable(reason) => {
                if self.made < self.attempts {
                    NextStep::Retry
                } else {
                    self.done = true;
                    NextStep::Finish(DeliveryOutcome::TransportFailure(reason))
                }
            },
        }
    }
}

impl DeliveryOutcome {
    /// The two flags that describe this outcome.
    pub fn to_response(&self) -> (r: ErrorResponseType)
        ensures
            r.is_success == (*self is Success),
            r.is_error == !(*self is Success),
    {
        match self {
            DeliveryOutcome::Success => ErrorResponseType { is_success: true, is_error: false },
            _ => ErrorResponseType { is_success: false, is_error: true },
        }
    }
}

/// When the transport fails the first `n - 1` sends and accepts the `n`-th,
/// a delivery allowing `n` sends succeeds after exactly `n` sends and `n - 1`
/// waits.
pub proof fn lemma_success_on_last_attempt(n: nat, results: Seq<AttemptResult>)
    requires
        n > 0,
        results.len() == n,
        forall|i: int| 0 <= i < n - 1 ==> !(#[trigger] results[i] is Accepted),
        results[n - 1] is Accepted,
    ensures
        run(n, 0, results) == (Some(DeliveryOutcome::Success), n, (n - 1) as nat),
{
    lemma_success_on_last_from(n, 0, results);
}

proof fn lemma_success_on_last_from(n: nat, made: nat, results: Seq<AttemptResult>)
    requires
        made < n,
        results.len() == n - made,
        forall|i: int| 0 <= i < results.len() - 1 ==> !(#[trigger] results[i] is Accepted),
        results[results.len() - 1] is Accepted,
    ensures
        run(n, made, results) == (Some(DeliveryOutcome::Success), (n - made) as nat, (n - made
            - 1) as nat),
    decreases results.len(),
{
    if results.len() > 1 {
        assert(!(results[0] is Accepted));
        let rest = results.drop_first();
        assert forall|i: int| 0 <= i < rest.len() - 1 implies !(#[trigger] rest[i] is Accepted) by {
            assert(rest[i] == results[i + 1]);
        }
        lemma_success_on_last_from(n, made + 1, rest);
    }
}

/// When the transport fails every send, a delivery allowing `n` sends makes
/// exactly `n` sends and `n - 1` waits, and ends with the failure of the
/// last send.
pub proof fn lemma_failure_after_all_attempts(n: nat, results: Seq<AttemptResult>)
    requires
        n > 0,
        results.len() >= n,
        forall|i: int| 0 <= i < results.len() ==> !(#[trigger] results[i] is Accepted),
    ensures
        run(n, 0, results) == (Some(failure_outcome(results[n - 1])), n, (n - 1) as nat),
{
    lemma_failure_from(n, 0, results);
}

proof fn lemma_failure_from(n: nat, made: nat, results: Seq<AttemptResult>)
    requires
        made < n,
        results.len() >= n - made,
        forall|i: int| 0 <= i < results.len() ==> !(#[trigger] results[i] is Accepted),
    ensures
        run(n, made, results) == (Some(failure_outcome(results[n - made - 1])), (n
            - made) as nat, (n - made - 1) as nat),
    decreases n - made,
{
    assert(!(results[0] is Accepted));
    if made + 1 < n {
        let rest = results.drop_first();
        assert forall|i: int| 0 <= i < rest.len() implies !(#[trigger] rest[i] is Accepted) by {
            assert(rest[i] == results[i + 1]);
        }
        lemma_failure_from(n, made + 1, rest);
        assert(rest[n - (made + 1) - 1] == results[n - made - 1]);
    }
}

} // verus!
