//! What the screen shows, as plain values: the texts and which of the two
//! buttons can be pressed.

use vstd::prelude::*;
use vstd::string::*;

verus! {

/// The contents of the screen.
#[derive(Debug, PartialEq, Eq)]
pub struct Screen {
    pub title: String,
    /// The exchange and the symbol pair.
    pub heading: String,
    /// The latest price behind a dollar sign.
    pub price: String,
    pub start_enabled: bool,
    pub stop_enabled: bool,
}

/// Lays the screen out: `Start` can be pressed while no session runs, `Stop`
/// while one does.
pub fn view(running: bool, symbol: &str, price: &str) -> (screen: Screen)
    ensures
        screen.title@ == "OpenCharting"@,
        screen.heading@ == "Kraken "@ + symbol@,
        screen.price@ == "$"@ + price@,
        screen.start_enabled == !running,
        screen.stop_enabled == running,
{
    let mut heading = "Kraken ".to_owned();
    heading.append(symbol);
    let mut label = "$".to_owned();
    label.append(price);
    Screen {
        title: "OpenCharting".to_owned(),
        heading,
        price: label,
        start_enabled: !running,
        stop_enabled: running,
    }
}

} // verus!
