use vstd::prelude::*;

use crate::cards::{CoreCardFields, OracleScryfallCard};
use crate::sets::{first_set_with_id, ScryfallSets};

verus! {

/// The user agent sent when none is configured.
pub open spec fn default_user_agent() -> Seq<char> {
    "oracle_scryfall_rs/0.1.0"@
}

/// The user agent the client sends: the one given, else the default.
pub fn user_agent_or_default(user_agent: Option<&str>) -> (ua: &str)
    ensures
        ua@ == match user_agent {
            Some(u) => u@,
            None => default_user_agent(),
        },
{
    match user_agent {
        Some(u) => u,
        None => {
            let d = "oracle_scryfall_rs/0.1.0";
            proof {
                reveal_strlit("oracle_scryfall_rs/0.1.0");
            }
            d
        },
    }
}

/// The least time between two requests to Scryfall, in nanoseconds: half a
/// second, as Scryfall asks of its clients.
pub const REQUEST_INTERVAL_NANOS: u64 = 500_000_000;

/// How long to wait before the next request when `elapsed_nanos` have
/// passed since the last: the rest of the interval, or nothing.
pub fn request_delay(elapsed_nanos: u64) -> (wait: u64)
    ensures
        elapsed_nanos < REQUEST_INTERVAL_NANOS ==> wait == REQUEST_INTERVAL_NANOS - elapsed_nanos,
        elapsed_nanos >= REQUEST_INTERVAL_NANOS ==> wait == 0,
        elapsed_nanos + wait >= REQUEST_INTERVAL_NANOS,
{
    if elapsed_nanos < REQUEST_INTERVAL_NANOS {
        REQUEST_INTERVAL_NANOS - elapsed_nanos
    } else {
        0
    }
}

/// How long a request made at `now` waits at a gate last passed at `last`
/// (times in nanoseconds on one clock): nothing before the first pass, else
/// what is left of the interval since the last pass.
pub open spec fn gate_delay(last: Option<u64>, now: u64) -> int {
    match last {
        None => 0,
        Some(l) => if now >= l + REQUEST_INTERVAL_NANOS {
            0
        } else if now >= l {
            l + REQUEST_INTERVAL_NANOS - now
        } else {
            REQUEST_INTERVAL_NANOS as int
        },
    }
}

/// Holds a client's requests back so that each goes out at least the
/// request interval after the previous one.
#[derive(Debug, Clone, Copy, PartialEq, Eq, Structural)]
pub struct RequestGate {
    /// When a request last passed, if one has.
    pub last_pass: Option<u64>,
}

impl RequestGate {
    /// A gate that no request has passed yet.
    pub fn new() -> (g: Self)
        ensures
            g.last_pass is None,
    {
        RequestGate { last_pass: None }
    }

    /// How long a request arriving at `now` waits before it passes.
    pub fn delay(&self, now: u64) -> (wait: u64)
        ensures
            wait == gate_delay(self.last_pass, now),
    {
        match self.last_pass {
            None => 0,
            Some(l) => {
                let elapsed = if now >= l {
                    now - l
                } else {
                    0
                };
                request_delay(elapsed)
            },
        }
    }

    /// Records that a request passed at `at`.
    pub fn passed(&mut self, at: u64)
        ensures
            final(self).last_pass == Some(at),
    {
        self.last_pass = Some(at);
    }
}

/// The first request through a gate does not wait, and a request that
/// passes after waiting its delay passes at least the request interval after
/// the one before it (on a clock that does not run backwards).
pub proof fn law_requests_are_spaced(last: u64, now: u64, at: u64)
    requires
        now >= last,
        at >= now + gate_delay(Some(last), now),
    ensures
        gate_delay(None, now) == 0,
        at >= last + REQUEST_INTERVAL_NANOS,
{
}

/// The address of a card on the Scryfall API, by id.
pub open spec fn card_url_of(id: Seq<char>) -> Seq<char> {
    "https://api.scryfall.com/cards/"@ + id
}

/// The address of the card with Scryfall id `id`.
pub fn card_url(id: &str) -> (u: String)
    ensures
        u@ == card_url_of(id@),
{
    let mut u = String::from_str("https://api.scryfall.com/cards/");
    u.append(id);
    u
}

/// The address of a set on the Scryfall API, as the `url` crate builds it
/// from the sets address and the set's id or code.
pub uninterp spec fn set_url_of(id: Seq<char>) -> Seq<char>;

/// Whether `c` is an ASCII letter, digit or hyphen.
pub open spec fn plain_segment_char(c: char) -> bool {
    ('a' <= c <= 'z') || ('A' <= c <= 'Z') || ('0' <= c <= '9') || c == '-'
}

/// Builds the address of a set with `reqwest::Url` (the `url` crate):
/// `Url::parse` of the sets address `https://api.scryfall.com/sets/`, then
/// `path_segments_mut().push(id)`. The result is named. As the crate's
/// source shows, a segment made only of ASCII letters, digits and hyphens
/// is not encoded, and a slash is put between it and the path, which ends
/// in a slash already.
#[verifier::external_body]
fn build_set_url(id: &str) -> (u: String)
    ensures
        u@ == set_url_of(id@),
        (forall|i: int| 0 <= i < id@.len() ==> plain_segment_char(#[trigger] id@[i])) ==> u@
            == "https://api.scryfall.com/sets//"@ + id@,
{
    let mut url = reqwest::Url::parse("https://api.scryfall.com/sets/").expect("the sets address is a valid URL");
    url.path_segments_mut().expect("Scryfall API URL should support path segments").push(id);
    url.as_str().to_string()
}

/// The address of the set with id or code `id`.
pub fn set_url(id: &str) -> (u: String)
    ensures
        u@ == set_url_of(id@),
{
    build_set_url(id)
}

/// `card` with its set's icon link: the icon of the first known set whose id
/// is the card's set id; the card unchanged when no set has that id.
pub open spec fn with_set_icon(card: OracleScryfallCard, sets: Seq<crate::sets::ScryfallSet>, after: OracleScryfallCard) -> bool {
    match first_set_with_id(sets, card.core.set_id@) {
        Some(s) => after == (OracleScryfallCard {
            core: CoreCardFields { set_icon_svg_uri: Some(s.icon_svg_uri), ..card.core },
            ..card
        }),
        None => after == card,
    }
}

/// Gives `card` the icon link of its set, when the set is known.
pub fn attach_set_icon(card: &mut OracleScryfallCard, sets: &ScryfallSets)
    ensures
        with_set_icon(*old(card), sets.view(), *final(card)),
{
    match sets.get_set_from_id(card.core.set_id.as_str()) {
        Some(set) => {
            card.core.set_icon_svg_uri = Some(set.icon_svg_uri.clone());
        },
        None => {},
    }
}

} // verus!
