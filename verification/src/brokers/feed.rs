use vstd::prelude::*;
use crate::types::str_equal;
use crate::brokers::bitget::spec_opt_text;

verus! {

/// Where the Bitget ticker feed stands.
#[derive(Debug, Clone, Copy, PartialEq, Eq, Structural)]
pub enum FeedState {
    /// No WebSocket connection is open.
    Disconnected,
    /// A connection is open and the ticker subscription is being sent.
    Subscribing,
    /// Subscribed: ticker messages and pings flow.
    Streaming,
    /// Nobody listens to the ticks any more; the feed has ended.
    Stopped,
}

/// What happened since the feed's last action.
#[derive(Debug, Clone, Copy, PartialEq, Eq, Structural)]
pub enum FeedEvent {
    /// The WebSocket connection was opened.
    Connected,
    /// Opening the connection failed.
    ConnectFailed,
    /// The pause after a failure is over.
    BackoffElapsed,
    /// The subscription message was sent.
    Subscribed,
    /// Sending the subscription message failed.
    SubscribeFailed,
    /// The keep-alive interval has come round.
    PingDue,
    /// The keep-alive ping was sent.
    PingSent,
    /// Sending the keep-alive ping failed.
    PingFailed,
    /// A text frame reading `pong` arrived.
    PongText,
    /// Any other text frame arrived.
    DataText,
    /// The ticks of a text frame were all handed on.
    Published,
    /// A tick could not be handed on: its receiver is gone.
    ReceiverGone,
    /// The server closed the connection, it failed, or it ended.
    Closed,
    /// A frame other than text or close arrived.
    OtherFrame,
}

/// What the feed does next.
#[derive(Debug, Clone, Copy, PartialEq, Eq, Structural)]
pub enum FeedAction {
    /// Open the WebSocket connection.
    Connect,
    /// Wait five seconds, then report `BackoffElapsed`.
    Backoff,
    /// Send the ticker subscription.
    Subscribe,
    /// Wait for the next frame or the next keep-alive.
    Await,
    /// Send a keep-alive ping.
    SendPing,
    /// Parse the text frame and hand its ticks on.
    Publish,
    /// End the feed.
    Stop,
}

/// The feed's decision: its next state and what to do next.
#[derive(Debug, Clone, Copy, PartialEq, Eq, Structural)]
pub struct FeedStep {
    pub state: FeedState,
    pub action: FeedAction,
}

/// What a state does when nothing new calls for anything else.
pub open spec fn spec_pending_action(state: FeedState) -> FeedAction {
    match state {
        FeedState::Disconnected => FeedAction::Connect,
        FeedState::Subscribing => FeedAction::Subscribe,
        FeedState::Streaming => FeedAction::Await,
        FeedState::Stopped => FeedAction::Stop,
    }
}

/// The feed's control loop as a state machine. A failed connection or
/// subscription waits five seconds before reconnecting; a failed ping or a
/// closed connection reconnects at once; `pong` frames and non-text frames
/// are ignored; every other text frame is published; a gone receiver ends
/// the feed for good. An event that cannot occur in a state leaves the
/// state as it is.
pub open spec fn spec_feed_step(state: FeedState, event: FeedEvent) -> FeedStep {
    match (state, event) {
        (FeedState::Disconnected, FeedEvent::Connected) => FeedStep {
            state: FeedState::Subscribing,
            action: FeedAction::Subscribe,
        },
        (FeedState::Disconnected, FeedEvent::ConnectFailed) => FeedStep {
            state: FeedState::Disconnected,
            action: FeedAction::Backoff,
        },
        (FeedState::Subscribing, FeedEvent::Subscribed) => FeedStep {
            state: FeedState::Streaming,
            action: FeedAction::Await,
        },
        (FeedState::Subscribing, FeedEvent::SubscribeFailed) => FeedStep {
            state: FeedState::Disconnected,
            action: FeedAction::Backoff,
        },
        (FeedState::Streaming, FeedEvent::PingDue) => FeedStep {
            state: FeedState::Streaming,
            action: FeedAction::SendPing,
        },
        (FeedState::Streaming, FeedEvent::PingFailed) => FeedStep {
            state: FeedState::Disconnected,
            action: FeedAction::Connect,
        },
        (FeedState::Streaming, FeedEvent::DataText) => FeedStep {
            state: FeedState::Streaming,
            action: FeedAction::Publish,
        },
        (FeedState::Streaming, FeedEvent::ReceiverGone) => FeedStep {
            state: FeedState::Stopped,
            action: FeedAction::Stop,
        },
        (FeedState::Streaming, FeedEvent::Closed) => FeedStep {
            state: FeedState::Disconnected,
            action: FeedAction::Connect,
        },
        _ => FeedStep { state, action: spec_pending_action(state) },
    }
}

/// The feed before anything has happened: disconnected, about to connect.
pub fn feed_start() -> (s: FeedStep)
    ensures
        s == (FeedStep { state: FeedState::Disconnected, action: FeedAction::Connect }),
{
    FeedStep { state: FeedState::Disconnected, action: FeedAction::Connect }
}

/// Decides the feed's next state and action after an event.
pub fn feed_step(state: FeedState, event: FeedEvent) -> (s: FeedStep)
    ensures
        s == spec_feed_step(state, event),
{
    match (state, event) {
        (FeedState::Disconnected, FeedEvent::Connected) => FeedStep {
            state: FeedState::Subscribing,
            action: FeedAction::Subscribe,
        },
        (FeedState::Disconnected, FeedEvent::ConnectFailed) => FeedStep {
            state: FeedState::Disconnected,
            action: FeedAction::Backoff,
        },
        (FeedState::Subscribing, FeedEvent::Subscribed) => FeedStep {
            state: FeedState::Streaming,
            action: FeedAction::Await,
        },
        (FeedState::Subscribing, FeedEvent::SubscribeFailed) => FeedStep {
            state: FeedState::Disconnected,
            action: FeedAction::Backoff,
        },
        (FeedState::Streaming, FeedEvent::PingDue) => FeedStep {
            state: FeedState::Streaming,
            action: FeedAction::SendPing,
        },
        (FeedState::Streaming, FeedEvent::PingFailed) => FeedStep {
            state: FeedState::Disconnected,
            action: FeedAction::Connect,
        },
        (FeedState::Streaming, FeedEvent::DataText) => FeedStep {
            state: FeedState::Streaming,
            action: FeedAction::Publish,
        },
        (FeedState::Streaming, FeedEvent::ReceiverGone) => FeedStep {
            state: FeedState::Stopped,
            action: FeedAction::Stop,
        },
        (FeedState::Streaming, FeedEvent::Closed) => FeedStep {
            state: FeedState::Disconnected,
            action: FeedAction::Connect,
        },
        _ => {
            let action = match state {
                FeedState::Disconnected => FeedAction::Connect,
                FeedState::Subscribing => FeedAction::Subscribe,
                FeedState::Streaming => FeedAction::Await,
                FeedState::Stopped => FeedAction::Stop,
            };
            FeedStep { state, action }
        },
    }
}

/// The event of a text frame: `pong` answers a keep-alive, anything else
/// carries data.
pub fn text_event(text: &str) -> (e: FeedEvent)
    ensures
        e == (if text@ == "pong"@ {
            FeedEvent::PongText
        } else {
            FeedEvent::DataText
        }),
{
    if str_equal(text, "pong") {
        FeedEvent::PongText
    } else {
        FeedEvent::DataText
    }
}

/// The value of a sequence of decimal digits.
pub open spec fn spec_digits_value(d: Seq<char>) -> int
    decreases d.len(),
{
    if d.len() == 0 {
        0
    } else {
        spec_digits_value(d.drop_last()) * 10 + (d.last() as int - '0' as int)
    }
}

/// Whether every character is an ASCII decimal digit.
pub open spec fn spec_all_digits(d: Seq<char>) -> bool {
    forall|i: int| 0 <= i < d.len() ==> '0' <= #[trigger] d[i] <= '9'
}

/// The integer a text denotes as Rust reads an `i64`: an optional `+` or
/// `-` followed by at least one decimal digit and nothing else, with a
/// value that fits in an `i64`.
pub open spec fn spec_parse_i64(s: Seq<char>) -> Option<i64> {
    let negative = s.len() > 0 && s[0] == '-';
    let signed = s.len() > 0 && (s[0] == '-' || s[0] == '+');
    let digits = if signed {
        s.skip(1)
    } else {
        s
    };
    let magnitude = spec_digits_value(digits);
    let value = if negative {
        -magnitude
    } else {
        magnitude
    };
    if digits.len() > 0 && spec_all_digits(digits) && i64::MIN <= value <= i64::MAX {
        Some(value as i64)
    } else {
        None
    }
}

/// Calls `str::parse::<i64>` of std and keeps the value when it succeeds.
/// The contract claims what std documents for integer parsing: an
/// optional sign followed by decimal digits only, within the range of
/// `i64`, parses to its value; any other text is an error.
#[verifier::external_body]
fn parse_i64(s: &str) -> (r: Option<i64>)
    ensures
        r == spec_parse_i64(s@),
{
    s.parse::<i64>().ok()
}

/// The time of a ticker update, in milliseconds: its `ts` text when it is
/// present and reads as an integer, otherwise `now_ms`.
pub open spec fn spec_tick_time(ts: Option<Seq<char>>, now_ms: i64) -> i64 {
    match ts {
        Some(s) => match spec_parse_i64(s) {
            Some(v) => v,
            None => now_ms,
        },
        None => now_ms,
    }
}

/// Reads the time of a ticker update from its `ts` text.
pub fn tick_timestamp(ts: Option<&str>, now_ms: i64) -> (t: i64)
    ensures
        t == spec_tick_time(
            match ts {
                Some(s) => Some(s@),
                None => None,
            },
            now_ms,
        ),
{
    match ts {
        Some(s) => match parse_i64(s) {
            Some(v) => v,
            None => now_ms,
        },
        None => now_ms,
    }
}

/// One entry of the `data` array of a Bitget ticker frame: the texts of its
/// `lastPr` (last price) and `ts` (time in milliseconds) fields, each absent
/// when the field is missing or is not a JSON string.
pub struct TickerUpdate {
    pub last_pr: Option<String>,
    pub ts: Option<String>,
}

impl TickerUpdate {
    /// The texts of the update's price and time fields.
    pub open spec fn texts(self) -> (Option<Seq<char>>, Option<Seq<char>>) {
        (spec_opt_text(self.last_pr), spec_opt_text(self.ts))
    }
}

/// The entries of a ticker frame as `serde_json` reads them: `None` when the
/// frame is not JSON or has no `data` array; otherwise, for each element of
/// `data` in order, the string values of its `lastPr` and `ts` fields.
pub uninterp spec fn spec_ticker_updates(text: Seq<char>) -> Option<
    Seq<(Option<Seq<char>>, Option<Seq<char>>)>,
>;

/// Calls `serde_json::from_str::<Value>`, indexes `data`, takes
/// `Value::as_array`, and of each element the `Value::as_str` of its
/// `lastPr` and `ts` fields. The contract claims that the result is a
/// function of the frame's text alone, one entry per element of `data` in
/// order, as serde_json's `Value` keeps arrays.
#[verifier::external_body]
fn parse_ticker_frame(text: &str) -> (r: Option<Vec<TickerUpdate>>)
    ensures
        match r {
            None => spec_ticker_updates(text@) is None,
            Some(v) => spec_ticker_updates(text@) == Some(
                v@.map_values(|u: TickerUpdate| u.texts()),
            ),
        },
{
    let json = serde_json::from_str::<serde_json::Value>(text).ok()?;
    let items = json["data"].as_array()?;
    Some(items.iter().map(|item| TickerUpdate {
        last_pr: item["lastPr"].as_str().map(|p| p.to_string()),
        ts: item["ts"].as_str().map(|t| t.to_string()),
    }).collect())
}

/// The ticks of a list of ticker updates, in order: each with the text of
/// its last price, and its time read by `tick_timestamp` against `now_ms`.
pub fn update_ticks(updates: &Vec<TickerUpdate>, now_ms: i64) -> (out: Vec<(Option<String>, i64)>)
    ensures
        out@.len() == updates@.len(),
        forall|i: int|
            0 <= i < updates@.len() ==> spec_opt_text(#[trigger] out@[i].0) == updates@[i].texts().0
                && out@[i].1 == spec_tick_time(updates@[i].texts().1, now_ms),
{
    let mut out: Vec<(Option<String>, i64)> = Vec::new();
    let n = updates.len();
    let mut i: usize = 0;
    while i < n
        invariant
            n == updates@.len(),
            i <= n,
            out@.len() == i,
            forall|j: int|
                0 <= j < i ==> spec_opt_text(#[trigger] out@[j].0) == updates@[j].texts().0
                    && out@[j].1 == spec_tick_time(updates@[j].texts().1, now_ms),
        decreases n - i,
    {
        let update = &updates[i];
        let price: Option<String> = match &update.last_pr {
            Some(p) => Some(p.clone()),
            None => None,
        };
        let ts = match &update.ts {
            Some(t) => tick_timestamp(Some(t.as_str()), now_ms),
            None => tick_timestamp(None, now_ms),
        };
        out.push((price, ts));
        i = i + 1;
    }
    out
}

/// The ticks of a ticker frame, in the order of its `data` array: each
/// with the text of its last price, and its time read by `tick_timestamp`
/// against `now_ms`. A frame that is not JSON or has no `data` array gives
/// no tick.
pub fn frame_ticks(text: &str, now_ms: i64) -> (out: Vec<(Option<String>, i64)>)
    ensures
        match spec_ticker_updates(text@) {
            None => out@.len() == 0,
            Some(u) => out@.len() == u.len() && forall|i: int|
                0 <= i < u.len() ==> spec_opt_text(#[trigger] out@[i].0) == u[i].0 && out@[i].1
                    == spec_tick_time(u[i].1, now_ms),
        },
{
    match parse_ticker_frame(text) {
        Some(updates) => {
            let out = update_ticks(&updates, now_ms);
            proof {
                let u = updates@.map_values(|x: TickerUpdate| x.texts());
                assert forall|i: int| 0 <= i < u.len() implies spec_opt_text(
                    #[trigger] out@[i].0,
                ) == u[i].0 && out@[i].1 == spec_tick_time(u[i].1, now_ms) by {
                    assert(u[i] == updates@[i].texts());
                }
            }
            out
        },
        None => Vec::new(),
    }
}

/// A stopped feed stays stopped, whatever happens.
pub proof fn lemma_stop_is_final(event: FeedEvent)
    ensures
        spec_feed_step(FeedState::Stopped, event) == (FeedStep {
            state: FeedState::Stopped,
            action: FeedAction::Stop,
        }),
{
}

/// The feed ends only when the receiver of its ticks is gone, and only
/// while streaming.
pub proof fn lemma_stop_only_when_receiver_gone(state: FeedState, event: FeedEvent)
    requires
        state != FeedState::Stopped,
        spec_feed_step(state, event).action == FeedAction::Stop,
    ensures
        state == FeedState::Streaming,
        event == FeedEvent::ReceiverGone,
{
}

/// Ticks are published only from a data frame received while streaming;
/// a `pong` frame is never published.
pub proof fn lemma_publish_only_data(state: FeedState, event: FeedEvent)
    ensures
        spec_feed_step(state, event).action == FeedAction::Publish <==> (state
            == FeedState::Streaming && event == FeedEvent::DataText),
{
}

/// A failure before streaming backs off before reconnecting; losing the
/// stream reconnects at once.
pub proof fn lemma_reconnect_policy(state: FeedState, event: FeedEvent)
    ensures
        (event == FeedEvent::ConnectFailed && state == FeedState::Disconnected) || (event
            == FeedEvent::SubscribeFailed && state == FeedState::Subscribing) ==> spec_feed_step(
            state,
            event,
        ) == (FeedStep { state: FeedState::Disconnected, action: FeedAction::Backoff }),
        state == FeedState::Streaming && (event == FeedEvent::Closed || event
            == FeedEvent::PingFailed) ==> spec_feed_step(state, event) == (FeedStep {
            state: FeedState::Disconnected,
            action: FeedAction::Connect,
        }),
{
}

/// A feed that connects and subscribes is streaming and waits for frames; a
/// due keep-alive is pinged without leaving the stream; a `pong`, a sent
/// ping, a published frame or a frame of another kind leaves the feed
/// streaming and waiting.
pub proof fn lemma_connection_lifecycle()
    ensures
        spec_feed_step(FeedState::Disconnected, FeedEvent::Connected) == (FeedStep {
            state: FeedState::Subscribing,
            action: FeedAction::Subscribe,
        }),
        spec_feed_step(FeedState::Subscribing, FeedEvent::Subscribed) == (FeedStep {
            state: FeedState::Streaming,
            action: FeedAction::Await,
        }),
        spec_feed_step(FeedState::Streaming, FeedEvent::PingDue) == (FeedStep {
            state: FeedState::Streaming,
            action: FeedAction::SendPing,
        }),
        spec_feed_step(FeedState::Streaming, FeedEvent::PongText) == (FeedStep {
            state: FeedState::Streaming,
            action: FeedAction::Await,
        }),
        spec_feed_step(FeedState::Streaming, FeedEvent::PingSent) == (FeedStep {
            state: FeedState::Streaming,
            action: FeedAction::Await,
        }),
        spec_feed_step(FeedState::Streaming, FeedEvent::Published) == (FeedStep {
            state: FeedState::Streaming,
            action: FeedAction::Await,
        }),
        spec_feed_step(FeedState::Streaming, FeedEvent::OtherFrame) == (FeedStep {
            state: FeedState::Streaming,
            action: FeedAction::Await,
        }),
        spec_feed_step(FeedState::Disconnected, FeedEvent::BackoffElapsed) == (FeedStep {
            state: FeedState::Disconnected,
            action: FeedAction::Connect,
        }),
{
}

/// A tick carries the time its `ts` text denotes whenever that text reads
/// as an integer, and the local time `now_ms` otherwise: a missing `ts`
/// or one that is not an integer never stops the tick.
pub proof fn lemma_tick_time(ts: Option<Seq<char>>, now_ms: i64)
    ensures
        ts is Some && spec_parse_i64(ts.unwrap()) is Some ==> spec_tick_time(ts, now_ms)
            == spec_parse_i64(ts.unwrap()).unwrap(),
        ts is Some && spec_parse_i64(ts.unwrap()) is None ==> spec_tick_time(ts, now_ms) == now_ms,
        ts is None ==> spec_tick_time(ts, now_ms) == now_ms,
{
}

/// A text of decimal digits alone reads as its value when that value fits
/// in an `i64`, and a leading `-` reads as its negation; a text with any
/// other character after the sign does not read at all.
pub proof fn lemma_parse_digits(d: Seq<char>)
    requires
        d.len() > 0,
    ensures
        spec_all_digits(d) && spec_digits_value(d) <= i64::MAX ==> spec_parse_i64(d) == Some(
            spec_digits_value(d) as i64,
        ),
        spec_all_digits(d) && spec_digits_value(d) <= i64::MAX ==> spec_parse_i64(
            seq!['-'] + d,
        ) == Some((-spec_digits_value(d)) as i64),
        !spec_all_digits(d) ==> spec_parse_i64(seq!['-'] + d) is None,
{
    if spec_all_digits(d) {
        lemma_digits_value_nonnegative(d);
    }
    let neg = seq!['-'] + d;
    assert(neg.skip(1) =~= d);
    if spec_all_digits(d) {
        assert(d[0] != '-' && d[0] != '+');
    }
}

/// The value of a sequence of decimal digits is never negative.
pub proof fn lemma_digits_value_nonnegative(d: Seq<char>)
    requires
        spec_all_digits(d),
    ensures
        spec_digits_value(d) >= 0,
    decreases d.len(),
{
    if d.len() > 0 {
        let p = d.drop_last();
        assert forall|i: int| 0 <= i < p.len() implies '0' <= #[trigger] p[i] <= '9' by {
            assert(p[i] == d[i]);
        }
        lemma_digits_value_nonnegative(p);
        assert('0' <= d[d.len() - 1] <= '9');
    }
}

} // verus!
