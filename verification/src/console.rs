use vstd::prelude::*;

use crate::cards::OracleScryfallCard;
use crate::text::string_of;

verus! {

/// A message shown in a game's console: a line of text, or a card, each
/// with who sent it.
#[derive(Debug, Clone)]
pub enum ConsoleMessage {
    Text { sender: String, body: String },
    Card { sender: String, card: OracleScryfallCard },
}

/// The character of the decimal digit `d`.
pub open spec fn digit_char(d: nat) -> char {
    (48 + d) as char
}

/// The decimal digits of `n`, most significant first, without leading
/// zeros (zero is `0`).
pub open spec fn digits_of(n: nat) -> Seq<char>
    decreases n,
{
    if n < 10 {
        seq![digit_char(n)]
    } else {
        digits_of(n / 10) + seq![digit_char(n % 10)]
    }
}

/// `n` written in decimal, with a minus sign when it is negative.
pub open spec fn decimal_text(n: int) -> Seq<char> {
    if n < 0 {
        seq!['-'] + digits_of((-n) as nat)
    } else {
        digits_of(n as nat)
    }
}

fn digit(d: u32) -> (c: char)
    requires
        d < 10,
    ensures
        c == digit_char(d as nat),
{
    let b: u8 = 48 + d as u8;
    b as char
}

fn digits(n: u32) -> (v: Vec<char>)
    ensures
        v@ == digits_of(n as nat),
    decreases n,
{
    if n < 10 {
        let mut v: Vec<char> = Vec::new();
        v.push(digit(n));
        proof {
            assert(v@ =~= seq![digit_char(n as nat)]);
        }
        v
    } else {
        let mut v = digits(n / 10);
        v.push(digit(n % 10));
        v
    }
}

/// `n` written in decimal, as integers are displayed.
pub fn decimal(n: i32) -> (s: String)
    ensures
        s@ == decimal_text(n as int),
{
    if n < 0 {
        let m: u32 = (-(n as i64)) as u32;
        let mut v: Vec<char> = Vec::new();
        v.push('-');
        let mut ds = digits(m);
        v.append(&mut ds);
        string_of(&v)
    } else {
        string_of(&digits(n as u32))
    }
}

impl ConsoleMessage {
    /// The message Momir sends for a request of converted mana cost `cmc`:
    /// the card chosen, or, when none was, a line saying so.
    pub fn momir(card: Option<OracleScryfallCard>, cmc: i32) -> (m: ConsoleMessage)
        ensures
            match card {
                Some(c) => m matches ConsoleMessage::Card { sender, card: k } && sender@ == "Momir"@ && k == c,
                None => m matches ConsoleMessage::Text { sender, body } && sender@ == "Momir"@
                    && body@ == "No creature found for CMC "@ + decimal_text(cmc as int),
            },
    {
        match card {
            Some(c) => ConsoleMessage::Card { sender: String::from_str("Momir"), card: c },
            None => {
                let mut body = String::from_str("No creature found for CMC ");
                let digits = decimal(cmc);
                body.append(digits.as_str());
                ConsoleMessage::Text { sender: String::from_str("Momir"), body }
            },
        }
    }

    /// A line from the system.
    pub fn system(body: &str) -> (m: ConsoleMessage)
        ensures
            m matches ConsoleMessage::Text { sender, body: b } && sender@ == "System"@ && b@ == body@,
    {
        ConsoleMessage::Text { sender: String::from_str("System"), body: String::from_str(body) }
    }
}

} // verus!
