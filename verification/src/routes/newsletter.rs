//! Publishing an issue: who may publish, and the fan-out to the confirmed
//! subscribers, in which one recipient's failure touches no other.

use vstd::prelude::*;
use crate::authentication::password::basic_authentication;
use crate::authentication::password::basic_credentials;
use crate::authentication::password::AuthError;
use crate::authentication::password::Credentials;
use crate::authentication::password::Fault;
use crate::authentication::password::MalformedCause;
use crate::authentication::password::MalformedCredentials;
use crate::authentication::password::Rejection;
use crate::authentication::password::Validation;
use crate::headers::HeaderList;
use crate::domain::SubscriberEmail;
use crate::http::status_of;
use crate::http::Response;

verus! {

/// A newsletter issue as it is posted.
pub struct BodyData {
    pub title: String,
    pub content: Content,
}

/// The two renderings of an issue.
pub struct Content {
    pub html: String,
    pub text: String,
}

/// A subscriber who confirmed, with an address that passed validation.
pub struct ConfirmedSubscriber {
    pub email: SubscriberEmail,
}

/// A user whose credentials were found valid, and who may therefore
/// publish. Only `authenticate_publisher` makes a value of this type.
pub struct Publisher {
    user_id: uuid::Uuid,
}

/// Why the publisher was not let in.
#[derive(Debug, Clone, Copy, PartialEq, Eq, Structural)]
pub enum AuthFailure {
    /// The request carried no usable credentials.
    Malformed(MalformedCause),
    /// The credentials were turned down.
    Rejected(Rejection),
}

/// Why an issue was not published.
pub enum PublishError {
    /// The caller did not authenticate.
    AuthError(AuthFailure),
    /// The server could not do its part.
    UnexpectedError(Fault),
}

/// What became of one subscriber in a fan-out.
pub enum Settlement {
    /// The issue was handed to the transport, which accepted it.
    Sent,
    /// The stored address is not valid; nothing was sent. The text says why.
    Skipped(String),
    /// The transport refused or failed; the text is its account.
    Failed(String),
}

/// The kind of a failure that a fan-out recorded.
#[derive(Debug, Clone, Copy, PartialEq, Eq, Structural)]
pub enum FailureKind {
    InvalidStoredEmail,
    Transport,
}

/// One recorded failure: whose it was, by position in the list of
/// subscribers, of what kind, and the cause as text.
pub struct SendFailure {
    pub position: usize,
    pub kind: FailureKind,
    pub cause: String,
}

/// The stored rows as subscribers: row by row, the validated address or the
/// reason why the row's address is not one.
pub open spec fn subscribers_of(rows: Seq<String>) -> Seq<Result<Seq<char>, Seq<char>>> {
    Seq::new(
        rows.len(),
        |i: int|
            if crate::domain::is_valid_email(vstd::utf8::encode_utf8(rows[i]@)) {
                Ok(rows[i]@)
            } else {
                Err(rows[i]@ + crate::domain::invalid_email_suffix())
            },
    )
}

/// A list of subscribers by its views.
pub open spec fn subscribers_view(subscribers: Seq<Result<ConfirmedSubscriber, String>>) -> Seq<
    Result<Seq<char>, Seq<char>>,
> {
    Seq::new(
        subscribers.len(),
        |i: int|
            match subscribers[i] {
                Ok(subscriber) => Ok(subscriber.email@),
                Err(message) => Err(message@),
            },
    )
}

/// The first position from `from` on that holds a valid subscriber, or the
/// length of the list.
pub open spec fn next_valid(subscribers: Seq<Result<ConfirmedSubscriber, String>>, from: int) -> int
    decreases subscribers.len() - from,
{
    if from < 0 || from >= subscribers.len() {
        subscribers.len() as int
    } else if subscribers[from] is Ok {
        from
    } else {
        next_valid(subscribers, from + 1)
    }
}

/// The settlements of the positions `from..to`, all of which hold invalid
/// addresses: each is skipped, for the reason stored with it.
pub open spec fn skipped_between(
    subscribers: Seq<Result<ConfirmedSubscriber, String>>,
    from: int,
    to: int,
) -> Seq<Settlement>
    decreases to - from,
{
    if from >= to {
        Seq::empty()
    } else {
        skipped_between(subscribers, from, to - 1).push(
            Settlement::Skipped(subscribers[to - 1]->Err_0),
        )
    }
}

/// The settlement that a transport's answer amounts to.
pub open spec fn settlement_of(outcome: Result<(), String>) -> Settlement {
    match outcome {
        Ok(_) => Settlement::Sent,
        Err(cause) => Settlement::Failed(cause),
    }
}

/// Settlements agree with the subscribers they are about: there are no more
/// of them than subscribers, an invalid address was skipped for its own
/// reason, and a valid one was handed to the transport.
pub open spec fn consistent(
    subscribers: Seq<Result<ConfirmedSubscriber, String>>,
    settled: Seq<Settlement>,
) -> bool {
    &&& settled.len() <= subscribers.len()
    &&& forall|i: int|
        0 <= i < settled.len() ==> match #[trigger] subscribers[i] {
            Ok(_) => settled[i] is Sent || settled[i] is Failed,
            Err(message) => settled[i] == Settlement::Skipped(message),
        }
}

/// How many of the first `upto` subscribers hold an invalid address.
pub open spec fn count_invalid(subscribers: Seq<Result<ConfirmedSubscriber, String>>, upto: int) -> nat
    decreases upto,
{
    if upto <= 0 {
        0
    } else {
        count_invalid(subscribers, upto - 1) + if subscribers[upto - 1] is Err {
            1nat
        } else {
            0nat
        }
    }
}

/// How many of the first `upto` settlements are `Sent`.
pub open spec fn count_sent(settled: Seq<Settlement>, upto: int) -> nat
    decreases upto,
{
    if upto <= 0 {
        0
    } else {
        count_sent(settled, upto - 1) + if settled[upto - 1] is Sent {
            1nat
        } else {
            0nat
        }
    }
}

/// How many of the first `upto` settlements are `Skipped`.
pub open spec fn count_skipped(settled: Seq<Settlement>, upto: int) -> nat
    decreases upto,
{
    if upto <= 0 {
        0
    } else {
        count_skipped(settled, upto - 1) + if settled[upto - 1] is Skipped {
            1nat
        } else {
            0nat
        }
    }
}

/// How many of the first `upto` settlements are `Failed`.
pub open spec fn count_failed(settled: Seq<Settlement>, upto: int) -> nat
    decreases upto,
{
    if upto <= 0 {
        0
    } else {
        count_failed(settled, upto - 1) + if settled[upto - 1] is Failed {
            1nat
        } else {
            0nat
        }
    }
}

/// The failures among the first `upto` settlements, in order.
pub open spec fn failures_of(settled: Seq<Settlement>, upto: int) -> Seq<SendFailure>
    decreases upto,
{
    if upto <= 0 {
        Seq::empty()
    } else {
        let before = failures_of(settled, upto - 1);
        match settled[upto - 1] {
            Settlement::Sent => before,
            Settlement::Skipped(cause) => before.push(
                SendFailure {
                    position: (upto - 1) as usize,
                    kind: FailureKind::InvalidStoredEmail,
                    cause,
                },
            ),
            Settlement::Failed(cause) => before.push(
                SendFailure { position: (upto - 1) as usize, kind: FailureKind::Transport, cause },
            ),
        }
    }
}

/// The status for each kind of error: 401 where the caller did not
/// authenticate, 500 where the server could not do its part.
pub open spec fn publish_status(error: PublishError) -> u16 {
    match error {
        PublishError::AuthError(_) => 401,
        PublishError::UnexpectedError(_) => 500,
    }
}

impl Publisher {
    /// The publisher's user id.
    pub closed spec fn id(&self) -> uuid::Uuid {
        self.user_id
    }

    /// The publisher's user id.
    pub fn user_id(&self) -> (id: uuid::Uuid)
        ensures
            id == self.id(),
    {
        self.user_id
    }
}

impl PublishError {
    /// The error of a request without usable credentials.
    pub fn from_malformed(error: MalformedCredentials) -> (e: PublishError)
        ensures
            e == PublishError::AuthError(AuthFailure::Malformed(error.cause)),
    {
        PublishError::AuthError(AuthFailure::Malformed(error.cause))
    }

    /// The error that a failed validation amounts to: credentials that were
    /// turned down are the caller's fault, all else is the server's.
    pub fn from_auth(error: AuthError) -> (e: PublishError)
        ensures
            e == publish_error_of(error),
    {
        match error {
            AuthError::InvalidCredentials(rejection) => PublishError::AuthError(
                AuthFailure::Rejected(rejection),
            ),
            AuthError::UnexpectedError(fault) => PublishError::UnexpectedError(fault),
        }
    }

    /// The status code.
    pub fn status_code(&self) -> (code: u16)
        ensures
            code == publish_status(*self),
    {
        match self {
            PublishError::UnexpectedError(_) => 500,
            PublishError::AuthError(_) => 401,
        }
    }

    /// The response: a 401 with its challenge, or a 500.
    pub fn error_response(&self) -> (response: Response)
        ensures
            response == match *self {
                PublishError::AuthError(_) => Response::Unauthorized,
                PublishError::UnexpectedError(_) => Response::InternalServerError,
            },
            status_of(response) == publish_status(*self),
    {
        match self {
            PublishError::AuthError(_) => Response::Unauthorized,
            PublishError::UnexpectedError(_) => Response::InternalServerError,
        }
    }
}

/// One fan-out under way: the subscribers, and what became of those that
/// have been settled so far. Subscribers are settled in order, each once.
pub struct Dispatch {
    publisher: uuid::Uuid,
    issue: BodyData,
    subscribers: Vec<Result<ConfirmedSubscriber, String>>,
    settled: Vec<Settlement>,
}

/// The counts of a fan-out.
#[derive(Debug, Clone, Copy, PartialEq, Eq, Structural)]
pub struct DispatchReport {
    /// How many subscribers there are.
    pub subscribers: usize,
    /// How many the issue was sent to.
    pub sent: usize,
    /// How many were skipped for an invalid stored address.
    pub skipped: usize,
    /// How many the transport failed for.
    pub failed: usize,
}

/// Among settlements that agree with their subscribers, the skipped ones
/// are the invalid addresses, and the rest were handed to the transport.
pub proof fn lemma_counts(
    subscribers: Seq<Result<ConfirmedSubscriber, String>>,
    settled: Seq<Settlement>,
    upto: int,
)
    requires
        consistent(subscribers, settled),
        0 <= upto <= settled.len(),
    ensures
        count_skipped(settled, upto) == count_invalid(subscribers, upto),
        count_sent(settled, upto) + count_failed(settled, upto) + count_skipped(settled, upto)
            == upto,
        failures_of(settled, upto).len() == count_failed(settled, upto) + count_skipped(
            settled,
            upto,
        ),
    decreases upto,
{
    if upto > 0 {
        lemma_counts(subscribers, settled, upto - 1);
        assert(subscribers[upto - 1] is Ok || subscribers[upto - 1] is Err);
    }
}

/// A fan-out over `n` subscribers of which exactly one holds an invalid
/// stored address, once all are settled, has handed the issue to the
/// transport for exactly `n - 1` of them and skipped exactly one. Where the
/// transport failed for none, `n - 1` were sent and the one skipped is the
/// only failure on record.
pub proof fn lemma_one_invalid_address(
    subscribers: Seq<Result<ConfirmedSubscriber, String>>,
    settled: Seq<Settlement>,
)
    requires
        consistent(subscribers, settled),
        settled.len() == subscribers.len(),
        count_invalid(subscribers, subscribers.len() as int) == 1,
    ensures
        count_sent(settled, settled.len() as int) + count_failed(settled, settled.len() as int)
            == subscribers.len() - 1,
        count_skipped(settled, settled.len() as int) == 1,
        count_failed(settled, settled.len() as int) == 0 ==> count_sent(
            settled,
            settled.len() as int,
        ) == subscribers.len() - 1 && failures_of(settled, settled.len() as int).len() == 1,
{
    lemma_counts(subscribers, settled, settled.len() as int);
}

/// A fan-out over no subscribers is complete from the start, with nothing
/// sent, nothing skipped and nothing failed.
pub proof fn lemma_no_subscribers(
    subscribers: Seq<Result<ConfirmedSubscriber, String>>,
    settled: Seq<Settlement>,
)
    requires
        consistent(subscribers, settled),
        subscribers.len() == 0,
    ensures
        settled.len() == subscribers.len(),
        next_valid(subscribers, 0) == subscribers.len(),
        count_sent(settled, settled.len() as int) == 0,
        count_skipped(settled, settled.len() as int) == 0,
        count_failed(settled, settled.len() as int) == 0,
        failures_of(settled, settled.len() as int) == Seq::<SendFailure>::empty(),
{
}

/// One recipient's failure touches no other: whatever the transport answers
/// for a recipient, the recipient that comes next is the same, and so is
/// every settlement that was recorded before.
pub proof fn lemma_failures_are_isolated(
    subscribers: Seq<Result<ConfirmedSubscriber, String>>,
    settled: Seq<Settlement>,
    one: Result<(), String>,
    other: Result<(), String>,
)
    requires
        consistent(subscribers, settled),
        settled.len() < subscribers.len(),
    ensures
        next_valid(subscribers, settled.push(settlement_of(one)).len() as int) == next_valid(
            subscribers,
            settled.push(settlement_of(other)).len() as int,
        ),
        settled.push(settlement_of(one)).take(settled.len() as int) == settled,
        settled.push(settlement_of(other)).take(settled.len() as int) == settled,
{
    assert(settled.push(settlement_of(one)).take(settled.len() as int) =~= settled);
    assert(settled.push(settlement_of(other)).take(settled.len() as int) =~= settled);
}

/// Every position before the next valid one holds an invalid address.
pub proof fn lemma_next_valid(subscribers: Seq<Result<ConfirmedSubscriber, String>>, from: int)
    requires
        0 <= from <= subscribers.len(),
    ensures
        from <= next_valid(subscribers, from) <= subscribers.len(),
        next_valid(subscribers, from) < subscribers.len() ==> subscribers[next_valid(
            subscribers,
            from,
        )] is Ok,
        forall|i: int| from <= i < next_valid(subscribers, from) ==> subscribers[i] is Err,
    decreases subscribers.len() - from,
{
    if from < subscribers.len() && !(subscribers[from] is Ok) {
        lemma_next_valid(subscribers, from + 1);
    }
}

impl Dispatch {
    #[verifier::type_invariant]
    spec fn agrees(&self) -> bool {
        consistent(self.subscribers@, self.settled@)
    }

    /// On whose behalf the issue goes out.
    pub closed spec fn publisher(&self) -> uuid::Uuid {
        self.publisher
    }

    /// The issue that goes out.
    pub closed spec fn issue(&self) -> BodyData {
        self.issue
    }

    /// The subscribers, valid or not, in stored order.
    pub closed spec fn subscribers(&self) -> Seq<Result<ConfirmedSubscriber, String>> {
        self.subscribers@
    }

    /// What became of the subscribers settled so far, in the same order.
    pub closed spec fn settled(&self) -> Seq<Settlement> {
        self.settled@
    }

    /// All subscribers are settled.
    pub open spec fn finished(&self) -> bool {
        self.settled().len() == self.subscribers().len()
    }

    /// The next subscriber to settle is a valid one: a recipient whose
    /// delivery is to be attempted and answered for.
    pub open spec fn awaiting(&self) -> bool {
        self.settled().len() < self.subscribers().len() && self.subscribers()[self.settled().len() as int]
            is Ok
    }

    /// An empty fan-out, to stand in while another is taken apart.
    fn placeholder(publisher: uuid::Uuid) -> (d: Dispatch)
        ensures
            d.publisher() == publisher,
            d.issue().title@ == Seq::<char>::empty(),
            d.issue().content.html@ == Seq::<char>::empty(),
            d.issue().content.text@ == Seq::<char>::empty(),
            d.subscribers() == Seq::<Result<ConfirmedSubscriber, String>>::empty(),
            d.settled() == Seq::<Settlement>::empty(),
            d.finished(),
    {
        Dispatch {
            publisher,
            issue: BodyData {
                title: String::new(),
                content: Content { html: String::new(), text: String::new() },
            },
            subscribers: Vec::new(),
            settled: Vec::new(),
        }
    }

    /// A fan-out in which nobody is settled yet.
    pub fn new(
        publisher: uuid::Uuid,
        issue: BodyData,
        subscribers: Vec<Result<ConfirmedSubscriber, String>>,
    ) -> (d: Dispatch)
        ensures
            d.publisher() == publisher,
            d.issue() == issue,
            d.subscribers() == subscribers@,
            d.settled() == Seq::<Settlement>::empty(),
    {
        Dispatch { publisher, issue, subscribers, settled: Vec::new() }
    }

    /// Skips the invalid addresses that come next, recording each with its
    /// reason, and returns the address to send to, with its position; `None`
    /// once all subscribers are settled. Nothing that was settled changes.
    pub fn next_recipient(&mut self) -> (next: Option<(usize, SubscriberEmail)>)
        ensures
            final(self).publisher() == old(self).publisher(),
            final(self).issue() == old(self).issue(),
            final(self).subscribers() == old(self).subscribers(),
            consistent(final(self).subscribers(), final(self).settled()),
            final(self).settled().len() == next_valid(
                old(self).subscribers(),
                old(self).settled().len() as int,
            ),
            final(self).settled() == old(self).settled() + skipped_between(
                old(self).subscribers(),
                old(self).settled().len() as int,
                final(self).settled().len() as int,
            ),
            match next {
                None => final(self).finished(),
                Some((position, email)) => {
                    &&& position == final(self).settled().len()
                    &&& !final(self).finished()
                    &&& final(self).subscribers()[position as int] matches Ok(subscriber)
                    &&& subscriber.email@ == email@
                },
            },
    {
        proof {
            use_type_invariant(&*self);
            lemma_next_valid(self.subscribers@, self.settled@.len() as int);
        }
        let mut taken = Dispatch::placeholder(self.publisher);
        std::mem::swap(self, &mut taken);
        let Dispatch { publisher, issue, subscribers, settled } = taken;
        let mut settled = settled;
        let ghost start = settled@.len() as int;
        let ghost before = settled@;
        let mut next: Option<(usize, SubscriberEmail)> = None;
        while next.is_none() && settled.len() < subscribers.len()
            invariant
                consistent(subscribers@, settled@),
                start <= settled@.len() <= subscribers@.len(),
                next_valid(subscribers@, start) == next_valid(subscribers@, settled@.len() as int),
                settled@ == before + skipped_between(subscribers@, start, settled@.len() as int),
                match next {
                    None => true,
                    Some((position, email)) => {
                        &&& position == settled@.len()
                        &&& position < subscribers@.len()
                        &&& subscribers@[position as int] matches Ok(subscriber)
                        &&& subscriber.email@ == email@
                    },
                },
            decreases subscribers@.len() - settled@.len() + if next is None { 1int } else { 0int },
        {
            let position = settled.len();
            match &subscribers[position] {
                Ok(subscriber) => {
                    next = Some((position, subscriber.email.duplicate()));
                },
                Err(message) => {
                    let cause = message.clone();
                    settled.push(Settlement::Skipped(cause));
                    proof {
                        assert(skipped_between(subscribers@, start, position as int + 1)
                            == skipped_between(subscribers@, start, position as int).push(
                            Settlement::Skipped(cause),
                        ));
                        assert(settled@ =~= before + skipped_between(
                            subscribers@,
                            start,
                            position as int + 1,
                        ));
                    }
                },
            }
        }
        let mut rebuilt = Dispatch { publisher, issue, subscribers, settled };
        std::mem::swap(self, &mut rebuilt);
        next
    }

    /// Records what the transport answered for the recipient that
    /// `next_recipient` handed out. A failure is kept with its cause and
    /// changes nothing else: those settled before stay as they were, and those
    /// that follow are still to come. Where no recipient is awaiting an
    /// answer, nothing is recorded.
    pub fn settle(&mut self, outcome: Result<(), String>)
        ensures
            final(self).publisher() == old(self).publisher(),
            final(self).issue() == old(self).issue(),
            final(self).subscribers() == old(self).subscribers(),
            consistent(final(self).subscribers(), final(self).settled()),
            final(self).settled() == if old(self).awaiting() {
                old(self).settled().push(settlement_of(outcome))
            } else {
                old(self).settled()
            },
    {
        proof {
            use_type_invariant(&*self);
        }
        let position = self.settled.len();
        if position >= self.subscribers.len() || self.subscribers[position].is_err() {
            return ;
        }
        let mut taken = Dispatch::placeholder(self.publisher);
        std::mem::swap(self, &mut taken);
        let Dispatch { publisher, issue, subscribers, settled } = taken;
        let mut settled = settled;
        match outcome {
            Ok(_) => settled.push(Settlement::Sent),
            Err(cause) => settled.push(Settlement::Failed(cause)),
        }
        let mut rebuilt = Dispatch { publisher, issue, subscribers, settled };
        std::mem::swap(self, &mut rebuilt);
    }

    /// Whether every subscriber is settled.
    pub fn is_finished(&self) -> (done: bool)
        ensures
            done == self.finished(),
    {
        proof {
            use_type_invariant(self);
        }
        self.settled.len() == self.subscribers.len()
    }

    /// On whose behalf the issue goes out.
    pub fn publisher_id(&self) -> (id: uuid::Uuid)
        ensures
            id == self.publisher(),
    {
        self.publisher
    }

    /// The issue that goes out, the same to every recipient.
    pub fn content(&self) -> (issue: &BodyData)
        ensures
            *issue == self.issue(),
    {
        &self.issue
    }

    /// The response to the publisher: 200 once the fan-out is complete,
    /// whatever became of the single recipients; none before that.
    pub fn response(&self) -> (response: Option<Response>)
        ensures
            response == if self.finished() {
                Some(Response::Success)
            } else {
                None
            },
    {
        if self.is_finished() {
            Some(Response::Success)
        } else {
            None
        }
    }

    /// The counts so far. Those skipped are as many as the invalid addresses
    /// among the settled subscribers, and every settled subscriber is counted
    /// once.
    pub fn report(&self) -> (report: DispatchReport)
        ensures
            consistent(self.subscribers(), self.settled()),
            report.subscribers == self.subscribers().len(),
            report.sent == count_sent(self.settled(), self.settled().len() as int),
            report.skipped == count_skipped(self.settled(), self.settled().len() as int),
            report.failed == count_failed(self.settled(), self.settled().len() as int),
            report.skipped == count_invalid(self.subscribers(), self.settled().len() as int),
            report.sent + report.failed + report.skipped == self.settled().len(),
    {
        proof {
            use_type_invariant(self);
        }
        let mut sent: usize = 0;
        let mut skipped: usize = 0;
        let mut failed: usize = 0;
        let mut i: usize = 0;
        while i < self.settled.len()
            invariant
                consistent(self.subscribers@, self.settled@),
                0 <= i <= self.settled@.len(),
                sent == count_sent(self.settled@, i as int),
                skipped == count_skipped(self.settled@, i as int),
                failed == count_failed(self.settled@, i as int),
                sent + skipped + failed == i,
            decreases self.settled@.len() - i,
        {
            match &self.settled[i] {
                Settlement::Sent => { sent += 1; },
                Settlement::Skipped(_) => { skipped += 1; },
                Settlement::Failed(_) => { failed += 1; },
            }
            i += 1;
        }
        proof {
            lemma_counts(self.subscribers@, self.settled@, self.settled@.len() as int);
        }
        DispatchReport { subscribers: self.subscribers.len(), sent, skipped, failed }
    }

    /// The failures recorded so far, in the order of the subscribers, each
    /// with its position, its kind and its cause.
    pub fn failures(&self) -> (failures: Vec<SendFailure>)
        ensures
            failures@ == failures_of(self.settled(), self.settled().len() as int),
    {
        let mut failures: Vec<SendFailure> = Vec::new();
        let mut i: usize = 0;
        while i < self.settled.len()
            invariant
                0 <= i <= self.settled@.len(),
                failures@ == failures_of(self.settled@, i as int),
            decreases self.settled@.len() - i,
        {
            match &self.settled[i] {
                Settlement::Sent => {},
                Settlement::Skipped(cause) => {
                    failures.push(
                        SendFailure {
                            position: i,
                            kind: FailureKind::InvalidStoredEmail,
                            cause: cause.clone(),
                        },
                    );
                },
                Settlement::Failed(cause) => {
                    failures.push(
                        SendFailure { position: i, kind: FailureKind::Transport, cause: cause.clone() },
                    );
                },
            }
            i += 1;
        }
        failures
    }
}

/// Turns the stored addresses of the confirmed subscribers into
/// subscribers, row by row and in order: a row whose address does not pass
/// validation becomes the message that says so, and stays in its place.
pub fn get_confirmed_subscribers(rows: Vec<String>) -> (subscribers: Vec<
    Result<ConfirmedSubscriber, String>,
>)
    ensures
        subscribers@.len() == rows@.len(),
        subscribers_view(subscribers@) == subscribers_of(rows@),
{
    let mut subscribers: Vec<Result<ConfirmedSubscriber, String>> = Vec::new();
    let mut i: usize = 0;
    while i < rows.len()
        invariant
            0 <= i <= rows@.len(),
            subscribers@.len() == i,
            forall|j: int|
                0 <= j < i ==> subscribers_view(subscribers@)[j] == subscribers_of(rows@)[j],
        decreases rows@.len() - i,
    {
        let ghost before = subscribers@;
        let entry = match SubscriberEmail::parse(rows[i].clone()) {
            Ok(email) => Ok(ConfirmedSubscriber { email }),
            Err(message) => Err(message),
        };
        subscribers.push(entry);
        proof {
            assert forall|j: int| 0 <= j < i + 1 implies subscribers_view(subscribers@)[j]
                == subscribers_of(rows@)[j] by {
                if j < i {
                    assert(subscribers@[j] == before[j]);
                    assert(subscribers_view(before)[j] == subscribers_of(rows@)[j]);
                }
            }
        }
        i += 1;
    }
    assert(subscribers_view(subscribers@) =~= subscribers_of(rows@));
    subscribers
}

/// The credentials of the caller who asks to publish; a request without
/// usable credentials is an authentication failure.
pub fn publisher_credentials(headers: &HeaderList) -> (r: Result<Credentials, PublishError>)
    ensures
        match basic_credentials(headers@) {
            Ok((username, secret)) => r matches Ok(c) && c.username@ == username && c.password@
                == secret,
            Err(cause) => r matches Err(e) && e == PublishError::AuthError(
                AuthFailure::Malformed(cause),
            ),
        },
{
    match basic_authentication(headers) {
        Ok(credentials) => Ok(credentials),
        Err(e) => Err(PublishError::from_malformed(e)),
    }
}

/// What a failed validation amounts to for a request to publish.
pub open spec fn publish_error_of(error: AuthError) -> PublishError {
    match error {
        AuthError::InvalidCredentials(rejection) => PublishError::AuthError(
            AuthFailure::Rejected(rejection),
        ),
        AuthError::UnexpectedError(fault) => PublishError::UnexpectedError(fault),
    }
}

/// Lets the publisher in on the strength of a validation of their
/// credentials: valid credentials make a publisher of that user; credentials
/// that were turned down are an authentication failure, answered with 401; a
/// datastore that failed or a stored hash that does not parse is the
/// server's, answered with 500.
pub fn authenticate_publisher(validation: Validation) -> (r: Result<Publisher, PublishError>)
    ensures
        match validation.result() {
            Ok(user_id) => r matches Ok(publisher) && publisher.id() == user_id,
            Err(e) => r == Err::<Publisher, PublishError>(publish_error_of(e)),
        },
{
    match validation.into_result() {
        Ok(user_id) => Ok(Publisher { user_id }),
        Err(e) => Err(PublishError::from_auth(e)),
    }
}

/// Starts the fan-out of an issue on behalf of an authenticated publisher,
/// from what the datastore answered when asked for the confirmed
/// subscribers: their stored addresses, or its account of why it could not
/// say. No subscriber at all is no error: that fan-out is complete at once.
/// There is no publisher but an authenticated one, so nothing is ever sent
/// for a caller who did not authenticate.
pub fn publish_newsletter(
    publisher: Publisher,
    body: BodyData,
    listing: Result<Vec<String>, String>,
) -> (r: Result<Dispatch, PublishError>)
    ensures
        match listing {
            Ok(rows) => {
                &&& r matches Ok(dispatch)
                &&& dispatch.publisher() == publisher.id()
                &&& dispatch.issue() == body
                &&& dispatch.subscribers().len() == rows@.len()
                &&& subscribers_view(dispatch.subscribers()) == subscribers_of(rows@)
                &&& dispatch.settled() == Seq::<Settlement>::empty()
            },
            Err(detail) => r matches Err(PublishError::UnexpectedError(Fault::Datastore(d))) && d
                == detail,
        },
{
    match listing {
        Ok(rows) => Ok(Dispatch::new(publisher.user_id, body, get_confirmed_subscribers(rows))),
        Err(detail) => Err(PublishError::UnexpectedError(Fault::Datastore(detail))),
    }
}

} // verus!
