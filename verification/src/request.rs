//! The subscription request and the text frame that carries it.

use vstd::prelude::*;
use vstd::string::*;
use crate::codec::{is_plain, json_string, quote_string};

verus! {

/// What one session subscribes to: the OHLC channel of one symbol pair at
/// one interval. Built once per session start and never changed.
#[derive(Clone, Debug, PartialEq, Eq)]
pub struct SubscriptionRequest {
    symbol: String,
    interval: u32,
}

/// The mathematical value of a [`SubscriptionRequest`].
pub struct RequestView {
    /// The symbol pair, `BASE/QUOTE`.
    pub symbol: Seq<char>,
    /// The candle interval in minutes.
    pub interval: nat,
}

impl View for SubscriptionRequest {
    type V = RequestView;

    closed spec fn view(&self) -> RequestView {
        RequestView { symbol: self.symbol@, interval: self.interval as nat }
    }
}

/// The decimal digit `d`, for `d` below ten.
pub open spec fn digit(d: nat) -> char {
    seq!['0', '1', '2', '3', '4', '5', '6', '7', '8', '9'][d as int]
}

/// The decimal numeral of `n`, without leading zeros.
pub open spec fn decimal_text(n: nat) -> Seq<char>
    decreases n,
{
    if n < 10 {
        seq![digit(n)]
    } else {
        decimal_text(n / 10).push(digit(n % 10))
    }
}

/// The subscribe frame: one JSON object that names the method, the channel,
/// the symbol pair as the only element of a list, and the interval.
pub open spec fn subscribe_text(request: RequestView) -> Seq<char> {
    subscribe_text_with(json_string(request.symbol), request.interval)
}

/// The subscribe frame around a symbol pair that is already quoted.
pub open spec fn subscribe_text_with(quoted_symbol: Seq<char>, interval: nat) -> Seq<char> {
    "{\"method\":\"subscribe\",\"params\":{\"channel\":\"ohlc\",\"symbol\":["@ + quoted_symbol
        + "],\"interval\":"@ + decimal_text(interval) + "}}"@
}

/// The one-character text of a decimal digit.
fn digit_text(d: u32) -> (r: &'static str)
    requires
        d < 10,
    ensures
        r@ == seq![digit(d as nat)],
{
    proof {
        reveal_strlit("0");
        reveal_strlit("1");
        reveal_strlit("2");
        reveal_strlit("3");
        reveal_strlit("4");
        reveal_strlit("5");
        reveal_strlit("6");
        reveal_strlit("7");
        reveal_strlit("8");
        reveal_strlit("9");
    }
    match d {
        0 => "0",
        1 => "1",
        2 => "2",
        3 => "3",
        4 => "4",
        5 => "5",
        6 => "6",
        7 => "7",
        8 => "8",
        _ => "9",
    }
}

/// Appends the decimal numeral of `n` to `out`.
pub fn push_decimal(out: &mut String, n: u32)
    ensures
        final(out)@ == old(out)@ + decimal_text(n as nat),
    decreases n,
{
    if n >= 10 {
        push_decimal(out, n / 10);
    }
    out.append(digit_text(n % 10));
}

impl SubscriptionRequest {
    /// A request for the pair `base`/`quote` at `interval` minutes.
    pub fn new(base: &str, quote: &str, interval: u32) -> (r: SubscriptionRequest)
        ensures
            r@.symbol == base@ + seq!['/'] + quote@,
            r@.interval == interval,
    {
        proof {
            reveal_strlit("/");
        }
        let mut symbol = base.to_owned();
        symbol.append("/");
        symbol.append(quote);
        SubscriptionRequest { symbol, interval }
    }

    /// The channel, which is always `ohlc`.
    pub fn channel(&self) -> (r: &'static str)
        ensures
            r@ == "ohlc"@,
    {
        "ohlc"
    }

    /// The symbol pair.
    pub fn symbol(&self) -> (r: &str)
        ensures
            r@ == self@.symbol,
    {
        self.symbol.as_str()
    }

    /// The candle interval in minutes.
    pub fn interval(&self) -> (r: u32)
        ensures
            r == self@.interval,
    {
        self.interval
    }

    /// The text frame that asks for the subscription. A symbol pair that
    /// needs no escape stands in it unchanged, between double quotes.
    pub fn to_frame(&self) -> (r: String)
        ensures
            r@ == subscribe_text(self@),
            is_plain(self@.symbol) ==> r@ == subscribe_text_with(
                seq!['"'] + self@.symbol + seq!['"'],
                self@.interval,
            ),
    {
        let mut frame =
            "{\"method\":\"subscribe\",\"params\":{\"channel\":\"ohlc\",\"symbol\":[".to_owned();
        let symbol = quote_string(self.symbol.as_str());
        frame.append(symbol.as_str());
        frame.append("],\"interval\":");
        push_decimal(&mut frame, self.interval);
        frame.append("}}");
        frame
    }
}

} // verus!
