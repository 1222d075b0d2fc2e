//! The answer to a request: a greeting, after a sleep and with the value of an
//! environment variable if the environment asks for them.

use vstd::prelude::*;

use crate::cancel::Cancel;
use crate::decimal;

verus! {

/// The environment variable that holds the number of seconds to sleep.
pub const SLEEP_VARIABLE: &'static str = "ECHO_SLEEP";

/// The environment variable that holds the name of the variable to show.
pub const ECHO_VARIABLE: &'static str = "ECHO_ENV";

/// The number of seconds that a text asks to sleep.
pub open spec fn sleep_request(text: Seq<char>) -> Option<nat> {
    decimal::parsed(text, u64::MAX as nat)
}

/// Reads the number of seconds that a text asks to sleep.
pub fn sleep_seconds(text: &str) -> (secs: Option<u64>)
    ensures
        match secs {
            Some(secs) => sleep_request(text@) == Some(secs as nat),
            None => sleep_request(text@) is None,
        },
{
    decimal::parse_u64(text)
}

/// How a sleep ends.
#[derive(Debug, Clone, Copy, PartialEq, Eq, Structural)]
pub enum SleepEnd {
    /// Its time is over.
    Elapsed,
    /// The wait for the request to shut down ended before that.
    Cancelled(Cancel),
}

/// Whether a sleep was interrupted: whatever ends the wait for the request to shut
/// down, be it the request or not, interrupts it.
pub open spec fn is_interrupted(end: SleepEnd) -> bool {
    match end {
        SleepEnd::Elapsed => false,
        SleepEnd::Cancelled(Cancel::Told) => true,
        SleepEnd::Cancelled(Cancel::Closed) => true,
        SleepEnd::Cancelled(Cancel::Lagged) => true,
    }
}

/// What the answer says of a sleep.
pub open spec fn sleep_message(secs: nat, end: SleepEnd) -> Seq<char> {
    if is_interrupted(end) {
        "Sleep was interupted"@
    } else {
        "woke after "@ + decimal::decimal(secs)
    }
}

/// The answer when no variable is to be shown.
pub open spec fn plain_reply(sleep: Seq<char>) -> Seq<char> {
    sleep + "\nHello World!"@
}

/// The answer when the variable `name` is to be shown.
pub open spec fn echo_reply(
    sleep: Seq<char>,
    name: Seq<char>,
    value: Option<Seq<char>>,
) -> Seq<char> {
    match value {
        Some(value) => sleep + "\n"@ + name + "="@ + value + "\nHello, World!"@,
        None => sleep + "\n"@ + name + " not set\nHello, World!"@,
    }
}

/// What a request waits for.
#[verifier::ext_equal]
pub enum HandlerView {
    /// How long to sleep is being read.
    ReadingSleep,
    /// The sleep.
    Sleeping { secs: u64 },
    /// Which variable to show is being read.
    ReadingName { sleep: Seq<char> },
    /// The value to show is being read.
    ReadingValue { sleep: Seq<char>, name: Seq<char> },
}

/// An operation for a request.
#[verifier::ext_equal]
pub enum HandlerActionView {
    ReadVariable { name: Seq<char> },
    Sleep { secs: u64 },
}

/// What can happen to a request.
#[verifier::ext_equal]
pub enum HandlerEventView {
    Variable { value: Option<Seq<char>> },
    Slept { end: SleepEnd },
}

/// Where a request stands once something has happened.
#[verifier::ext_equal]
pub enum HandlerProgressView {
    Next(HandlerView),
    Finished { reply: Seq<char> },
}

/// The operation to perform for a request now.
pub open spec fn handler_action(handler: HandlerView) -> HandlerActionView {
    match handler {
        HandlerView::ReadingSleep => HandlerActionView::ReadVariable { name: SLEEP_VARIABLE@ },
        HandlerView::Sleeping { secs } => HandlerActionView::Sleep { secs },
        HandlerView::ReadingName { .. } => HandlerActionView::ReadVariable {
            name: ECHO_VARIABLE@,
        },
        HandlerView::ReadingValue { name, .. } => HandlerActionView::ReadVariable { name },
    }
}

/// Whether a request can go on from an event: a text that asks for a sleep has to
/// hold a number.
pub open spec fn handler_accepts(handler: HandlerView, event: HandlerEventView) -> bool {
    match (handler, event) {
        (
            HandlerView::ReadingSleep,
            HandlerEventView::Variable { value: Some(text) },
        ) => sleep_request(text) is Some,
        _ => true,
    }
}

/// What follows an event. One that does not answer the operation under way changes
/// nothing.
pub open spec fn handler_step(handler: HandlerView, event: HandlerEventView) -> HandlerProgressView
    recommends
        handler_accepts(handler, event),
{
    match event {
        HandlerEventView::Variable { value } => match handler {
            HandlerView::ReadingSleep => HandlerProgressView::Next(
                match value {
                    None => HandlerView::ReadingName { sleep: Seq::empty() },
                    Some(text) => HandlerView::Sleeping { secs: sleep_request(text)->0 as u64 },
                },
            ),
            HandlerView::Sleeping { .. } => HandlerProgressView::Next(handler),
            HandlerView::ReadingName { sleep } => match value {
                None => HandlerProgressView::Finished { reply: plain_reply(sleep) },
                Some(name) => HandlerProgressView::Next(HandlerView::ReadingValue { sleep, name }),
            },
            HandlerView::ReadingValue { sleep, name } => HandlerProgressView::Finished {
                reply: echo_reply(sleep, name, value),
            },
        },
        HandlerEventView::Slept { end } => match handler {
            HandlerView::Sleeping { secs } => HandlerProgressView::Next(
                HandlerView::ReadingName { sleep: sleep_message(secs as nat, end) },
            ),
            _ => HandlerProgressView::Next(handler),
        },
    }
}

/// What a request waits for.
enum Stage {
    ReadingSleep,
    Sleeping { secs: u64 },
    ReadingName { sleep: String },
    ReadingValue { sleep: String, name: String },
}

/// A request. Its action is to be performed, and what happens told to it.
pub struct Handler {
    stage: Stage,
}

impl View for Handler {
    type V = HandlerView;

    closed spec fn view(&self) -> HandlerView {
        match self.stage {
            Stage::ReadingSleep => HandlerView::ReadingSleep,
            Stage::Sleeping { secs } => HandlerView::Sleeping { secs },
            Stage::ReadingName { sleep } => HandlerView::ReadingName { sleep: sleep@ },
            Stage::ReadingValue { sleep, name } => HandlerView::ReadingValue {
                sleep: sleep@,
                name: name@,
            },
        }
    }
}

/// What can happen to a request.
pub enum HandlerEvent {
    /// The value of the variable that was read; none if it is not set to a text.
    Variable { value: Option<String> },
    /// The sleep is over.
    Slept { end: SleepEnd },
}

impl View for HandlerEvent {
    type V = HandlerEventView;

    open spec fn view(&self) -> HandlerEventView {
        match self {
            HandlerEvent::Variable { value } => HandlerEventView::Variable {
                value: match value {
                    Some(value) => Some(value@),
                    None => None,
                },
            },
            HandlerEvent::Slept { end } => HandlerEventView::Slept { end: *end },
        }
    }
}

/// Where a request stands once something has happened.
pub enum HandlerProgress {
    /// Another operation is to be performed.
    Next(Handler),
    /// The answer.
    Finished { reply: String },
}

impl View for HandlerProgress {
    type V = HandlerProgressView;

    open spec fn view(&self) -> HandlerProgressView {
        match self {
            HandlerProgress::Next(handler) => HandlerProgressView::Next(handler@),
            HandlerProgress::Finished { reply } => HandlerProgressView::Finished { reply: reply@ },
        }
    }
}

/// An operation for a request.
pub enum HandlerAction<'a> {
    /// Read an environment variable.
    ReadVariable { name: &'a str },
    /// Sleep, unless interrupted.
    Sleep { secs: u64 },
}

impl<'a> View for HandlerAction<'a> {
    type V = HandlerActionView;

    open spec fn view(&self) -> HandlerActionView {
        match self {
            HandlerAction::ReadVariable { name } => HandlerActionView::ReadVariable {
                name: name@,
            },
            HandlerAction::Sleep { secs } => HandlerActionView::Sleep { secs: *secs },
        }
    }
}

/// Starts to answer a request.
pub fn handler() -> (handler: Handler)
    ensures
        handler@ == HandlerView::ReadingSleep,
{
    Handler { stage: Stage::ReadingSleep }
}

impl Handler {
    /// The operation to perform now.
    pub fn action(&self) -> (action: HandlerAction<'_>)
        ensures
            action@ == handler_action(self@),
    {
        match &self.stage {
            Stage::ReadingSleep => HandlerAction::ReadVariable { name: SLEEP_VARIABLE },
            Stage::Sleeping { secs } => HandlerAction::Sleep { secs: *secs },
            Stage::ReadingName { .. } => HandlerAction::ReadVariable { name: ECHO_VARIABLE },
            Stage::ReadingValue { name, .. } => HandlerAction::ReadVariable { name: name.as_str() },
        }
    }

    /// Whether the request can go on from an event.
    pub fn accepts(&self, event: &HandlerEvent) -> (accepts: bool)
        ensures
            accepts == handler_accepts(self@, event@),
    {
        match (&self.stage, event) {
            (Stage::ReadingSleep, HandlerEvent::Variable { value: Some(text) }) => sleep_seconds(
                text.as_str(),
            ).is_some(),
            _ => true,
        }
    }

    /// Goes on from what happened.
    pub fn advance(self, event: HandlerEvent) -> (progress: HandlerProgress)
        requires
            handler_accepts(self@, event@),
        ensures
            progress@ == handler_step(self@, event@),
    {
        match event {
            HandlerEvent::Variable { value } => match self.stage {
                Stage::ReadingSleep => {
                    let stage = match value {
                        None => Stage::ReadingName { sleep: String::new() },
                        Some(text) => Stage::Sleeping {
                            secs: sleep_seconds(text.as_str()).unwrap(),
                        },
                    };
                    HandlerProgress::Next(Handler { stage })
                },
                Stage::Sleeping { secs } => HandlerProgress::Next(
                    Handler { stage: Stage::Sleeping { secs } },
                ),
                Stage::ReadingName { sleep } => match value {
                    None => HandlerProgress::Finished { reply: sleep.concat("\nHello World!") },
                    Some(name) => HandlerProgress::Next(
                        Handler { stage: Stage::ReadingValue { sleep, name } },
                    ),
                },
                Stage::ReadingValue { sleep, name } => {
                    let start = sleep.concat("\n").concat(name.as_str());
                    let reply = match value {
                        Some(value) => start.concat("=").concat(value.as_str()).concat(
                            "\nHello, World!",
                        ),
                        None => start.concat(" not set\nHello, World!"),
                    };
                    HandlerProgress::Finished { reply }
                },
            },
            HandlerEvent::Slept { end } => match self.stage {
                Stage::Sleeping { secs } => {
                    let sleep = match end {
                        SleepEnd::Elapsed => {
                            let secs = decimal::to_decimal(secs);
                            String::from_str("woke after ").concat(secs.as_str())
                        },
                        SleepEnd::Cancelled(Cancel::Told | Cancel::Closed | Cancel::Lagged) => {
                            String::from_str("Sleep was interupted")
                        },
                    };
                    HandlerProgress::Next(Handler { stage: Stage::ReadingName { sleep } })
                },
                stage => HandlerProgress::Next(Handler { stage }),
            },
        }
    }
}

/// Where a request stands after a number of events.
pub open spec fn handler_run(
    handler: HandlerView,
    events: Seq<HandlerEventView>,
) -> HandlerProgressView
    decreases events.len(),
{
    if events.len() == 0 {
        HandlerProgressView::Next(handler)
    } else {
        match handler_run(handler, events.drop_last()) {
            HandlerProgressView::Next(next) => handler_step(next, events.last()),
            done => done,
        }
    }
}

/// What happens to a request in an environment: `sleep` holds the sleep that is
/// asked for, if any, and how it ends, `echo` the variable that is to
/// be shown, if any, and its value.
pub open spec fn handler_events(
    sleep: Option<(Seq<char>, SleepEnd)>,
    echo: Option<(Seq<char>, Option<Seq<char>>)>,
) -> Seq<HandlerEventView> {
    let slept = match sleep {
        None => seq![HandlerEventView::Variable { value: None }],
        Some((text, end)) => seq![
            HandlerEventView::Variable { value: Some(text) },
            HandlerEventView::Slept { end },
        ],
    };
    match echo {
        None => slept.push(HandlerEventView::Variable { value: None }),
        Some((name, value)) => slept.push(HandlerEventView::Variable { value: Some(name) }).push(
            HandlerEventView::Variable { value },
        ),
    }
}

/// The answer in every environment: what is said of the sleep, or nothing if there
/// was none, on a line of its own; the variable that is to be shown, if any; and the
/// greeting.
pub proof fn law_handler_reply(
    sleep: Option<(Seq<char>, SleepEnd)>,
    echo: Option<(Seq<char>, Option<Seq<char>>)>,
)
    requires
        sleep matches Some((text, _)) ==> sleep_request(text) is Some,
    ensures
        handler_run(HandlerView::ReadingSleep, handler_events(sleep, echo)) == (
        HandlerProgressView::Finished {
            reply: {
                let said = match sleep {
                    None => Seq::empty(),
                    Some((text, end)) => sleep_message(sleep_request(text)->0, end),
                };
                match echo {
                    None => plain_reply(said),
                    Some((name, value)) => echo_reply(said, name, value),
                }
            },
        }),
{
    reveal_with_fuel(handler_run, 5);
    let first = match sleep {
        None => seq![HandlerEventView::Variable { value: None }],
        Some((text, end)) => seq![
            HandlerEventView::Variable { value: Some(text) },
            HandlerEventView::Slept { end },
        ],
    };
    let events = handler_events(sleep, echo);
    match echo {
        None => {
            assert(events.drop_last() =~= first);
        },
        Some((name, value)) => {
            assert(events.drop_last().drop_last() =~= first);
        },
    }
}

/// A request first reads `ECHO_SLEEP`. If that is not set, it says nothing of a sleep
/// and reads `ECHO_ENV` next. If it is set, it has to hold a number of seconds that is
/// below two to the power of sixty-four, and the request sleeps for that very number.
pub proof fn law_handler_start(text: Seq<char>)
    ensures
        handler_action(HandlerView::ReadingSleep) == (HandlerActionView::ReadVariable {
            name: "ECHO_SLEEP"@,
        }),
        handler_accepts(HandlerView::ReadingSleep, HandlerEventView::Variable { value: None }),
        handler_step(HandlerView::ReadingSleep, HandlerEventView::Variable { value: None })
            == HandlerProgressView::Next(HandlerView::ReadingName { sleep: seq![] }),
        handler_accepts(HandlerView::ReadingSleep, HandlerEventView::Variable { value: Some(text) })
            <==> decimal::parsed(text, 18446744073709551615) is Some,
        decimal::parsed(text, 18446744073709551615) matches Some(secs) ==> {
            &&& secs <= 18446744073709551615
            &&& handler_step(
                HandlerView::ReadingSleep,
                HandlerEventView::Variable { value: Some(text) },
            ) matches HandlerProgressView::Next(next)
            &&& handler_action(next) matches HandlerActionView::Sleep { secs: asked }
            &&& asked == secs
        },
{
}

/// What the answer to a request that slept says before anything else: that the whole
/// time is over, with the number of seconds, or that the sleep was interrupted.
pub proof fn law_sleep_is_told(handler: HandlerView, secs: u64, cancel: Cancel)
    requires
        handler_action(handler) == (HandlerActionView::Sleep { secs }),
    ensures
        handler_step(handler, HandlerEventView::Slept { end: SleepEnd::Elapsed }) matches
            HandlerProgressView::Next(HandlerView::ReadingName { sleep }) && sleep.len() == 11
            + decimal::decimal(secs as nat).len() && sleep.take(11) == "woke after "@ && sleep.skip(
            11,
        ) == decimal::decimal(secs as nat),
        handler_step(handler, HandlerEventView::Slept { end: SleepEnd::Cancelled(cancel) })
            == HandlerProgressView::Next(
            HandlerView::ReadingName { sleep: "Sleep was interupted"@ },
        ),
{
    reveal_strlit("woke after ");
    let told = sleep_message(secs as nat, SleepEnd::Elapsed);
    assert(told.take(11) =~= "woke after "@);
    assert(told.skip(11) =~= decimal::decimal(secs as nat));
}

/// A request that knows what to say of its sleep reads `ECHO_ENV`. If that is not set,
/// the answer is what is said of the sleep, a line break and a greeting.
pub proof fn law_plain_answer(sleep: Seq<char>)
    ensures
        handler_action(HandlerView::ReadingName { sleep }) == (HandlerActionView::ReadVariable {
            name: "ECHO_ENV"@,
        }),
        handler_step(
            HandlerView::ReadingName { sleep },
            HandlerEventView::Variable { value: None },
        ) matches HandlerProgressView::Finished { reply } && reply.len() == sleep.len() + 13
            && reply.take(sleep.len() as int) == sleep && reply[sleep.len() as int] == '\n'
            && reply.skip(sleep.len() as int + 1) == "Hello World!"@,
{
    reveal_strlit("\nHello World!");
    reveal_strlit("Hello World!");
    let reply = plain_reply(sleep);
    assert(reply.take(sleep.len() as int) =~= sleep);
    assert(reply.skip(sleep.len() as int + 1) =~= "Hello World!"@);
}

/// A request that is told a name in `ECHO_ENV` reads the variable with that very name
/// next, and keeps what it says of its sleep.
pub proof fn law_named_variable_is_read(sleep: Seq<char>, name: Seq<char>)
    ensures
        handler_step(
            HandlerView::ReadingName { sleep },
            HandlerEventView::Variable { value: Some(name) },
        ) == HandlerProgressView::Next(HandlerView::ReadingValue { sleep, name }),
        handler_action(HandlerView::ReadingValue { sleep, name }) == (
        HandlerActionView::ReadVariable { name }),
{
}

/// The answer that shows a variable consists of what is said of the sleep, a line
/// break, the name, an equals sign, the whole value, a line break and a greeting, and
/// of nothing else.
pub proof fn law_echo_answer(sleep: Seq<char>, name: Seq<char>, value: Seq<char>)
    ensures
        handler_step(
            HandlerView::ReadingValue { sleep, name },
            HandlerEventView::Variable { value: Some(value) },
        ) matches HandlerProgressView::Finished { reply } && ({
            let m = sleep.len() as int;
            let n = m + 1 + name.len();
            let v = n + 1 + value.len();
            &&& reply.len() == v + 14
            &&& reply.take(m) == sleep
            &&& reply[m] == '\n'
            &&& reply.subrange(m + 1, n) == name
            &&& reply[n] == '='
            &&& reply.subrange(n + 1, v) == value
            &&& reply[v] == '\n'
            &&& reply.skip(v + 1) == "Hello, World!"@
        }),
{
    reveal_strlit("\n");
    reveal_strlit("=");
    reveal_strlit("\nHello, World!");
    reveal_strlit("Hello, World!");
    let reply = echo_reply(sleep, name, Some(value));
    let m = sleep.len() as int;
    let n = m + 1 + name.len();
    let v = n + 1 + value.len();
    assert(reply.take(m) =~= sleep);
    assert(reply.subrange(m + 1, n) =~= name);
    assert(reply.subrange(n + 1, v) =~= value);
    assert(reply.skip(v + 1) =~= "Hello, World!"@);
}

/// The answer for a variable that is not set consists of what is said of the sleep, a
/// line break, the name, the words that it is not set, a line break and a greeting,
/// and of nothing else.
pub proof fn law_unset_answer(sleep: Seq<char>, name: Seq<char>)
    ensures
        handler_step(
            HandlerView::ReadingValue { sleep, name },
            HandlerEventView::Variable { value: None },
        ) matches HandlerProgressView::Finished { reply } && ({
            let m = sleep.len() as int;
            let n = m + 1 + name.len();
            &&& reply.len() == n + 22
            &&& reply.take(m) == sleep
            &&& reply[m] == '\n'
            &&& reply.subrange(m + 1, n) == name
            &&& reply.subrange(n, n + 8) == " not set"@
            &&& reply[n + 8] == '\n'
            &&& reply.skip(n + 9) == "Hello, World!"@
        }),
{
    reveal_strlit("\n");
    reveal_strlit(" not set");
    reveal_strlit(" not set\nHello, World!");
    reveal_strlit("Hello, World!");
    let reply = echo_reply(sleep, name, None);
    let m = sleep.len() as int;
    let n = m + 1 + name.len();
    assert(reply.take(m) =~= sleep);
    assert(reply.subrange(m + 1, n) =~= name);
    assert(reply.subrange(n, n + 8) =~= " not set"@);
    assert(reply.skip(n + 9) =~= "Hello, World!"@);
}

/// Only the text that asks for a sleep can be unacceptable, and what does not answer
/// the operation under way changes nothing.
pub proof fn law_unanswered_event_changes_nothing(
    handler: HandlerView,
    end: SleepEnd,
    value: Option<Seq<char>>,
)
    ensures
        handler_accepts(handler, HandlerEventView::Slept { end }),
        handler !is ReadingSleep ==> handler_accepts(handler, HandlerEventView::Variable { value }),
        handler_action(handler) is ReadVariable ==> handler_step(
            handler,
            HandlerEventView::Slept { end },
        ) == HandlerProgressView::Next(handler),
        handler_action(handler) is Sleep ==> handler_step(
            handler,
            HandlerEventView::Variable { value },
        ) == HandlerProgressView::Next(handler),
{
}

/// The answer in an environment that asks for a sleep and shows a variable, part by
/// part: what became of the sleep, the name and the whole value.
pub proof fn law_answer_after_sleep(
    text: Seq<char>,
    secs: u64,
    end: SleepEnd,
    name: Seq<char>,
    value: Seq<char>,
)
    requires
        decimal::parsed(text, 18446744073709551615) == Some(secs as nat),
    ensures
        handler_run(
            HandlerView::ReadingSleep,
            seq![
                HandlerEventView::Variable { value: Some(text) },
                HandlerEventView::Slept { end },
                HandlerEventView::Variable { value: Some(name) },
                HandlerEventView::Variable { value: Some(value) },
            ],
        ) matches HandlerProgressView::Finished { reply } && ({
            let told = if end is Elapsed {
                "woke after "@ + decimal::decimal(secs as nat)
            } else {
                "Sleep was interupted"@
            };
            reply == told + seq!['\n'] + name + seq!['='] + value + "\nHello, World!"@
        }),
{
    reveal_strlit("\n");
    reveal_strlit("=");
    assert("\n"@ =~= seq!['\n']);
    assert("="@ =~= seq!['=']);
    let events = seq![
        HandlerEventView::Variable { value: Some(text) },
        HandlerEventView::Slept { end },
        HandlerEventView::Variable { value: Some(name) },
        HandlerEventView::Variable { value: Some(value) },
    ];
    reveal_with_fuel(handler_run, 5);
    let third = events.drop_last();
    let second = third.drop_last();
    let first = second.drop_last();
    assert(first.drop_last().len() == 0);
    assert(first.last() == events[0]);
    assert(second.last() == events[1]);
    assert(third.last() == events[2]);
    assert(events.last() == events[3]);
}

/// What is told to a request, what it asks for and its answer are taken as they are.
pub proof fn law_handler_shown<'a>(
    value: String,
    end: SleepEnd,
    handler: Handler,
    reply: String,
    name: &'a str,
    secs: u64,
)
    ensures
        (HandlerEvent::Variable { value: None })@ == (HandlerEventView::Variable { value: None }),
        (HandlerEvent::Variable { value: Some(value) })@ == (HandlerEventView::Variable {
            value: Some(value@),
        }),
        (HandlerEvent::Slept { end })@ == (HandlerEventView::Slept { end }),
        HandlerProgress::Next(handler)@ == HandlerProgressView::Next(handler@),
        (HandlerProgress::Finished { reply })@ == (HandlerProgressView::Finished { reply: reply@ }),
        (HandlerAction::ReadVariable { name })@ == (HandlerActionView::ReadVariable {
            name: name@,
        }),
        (HandlerAction::Sleep { secs })@ == (HandlerActionView::Sleep { secs }),
{
}

} // verus!
