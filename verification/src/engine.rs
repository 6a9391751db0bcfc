//! The action-decision engine: given a message's repetition category and its
//! text, pick the moderation action.

use vstd::prelude::*;
use crate::classify::Check;
use crate::classify::spec_check_hms;
use crate::classify::check;
use crate::classify::MAX_CLOCK_TIMESTAMP;
use crate::text::has_prefix;
use crate::text::str_has_prefix;
use crate::types::Message;

verus! {

/// The moderation outcome for one message.
#[derive(PartialEq, Eq, Structural, Debug, Clone, Copy)]
pub enum Action {
    Delete,
    Reply,
    Ignore,
}

/// What `str::to_lowercase` returns for a given character sequence.
pub uninterp spec fn lower_of(s: Seq<char>) -> Seq<char>;

/// Relies on str::to_lowercase: the lowercase mapping depends on the
/// characters alone.
#[verifier::external_body]
fn lowercase(s: &str) -> (r: String)
    ensures
        r@ == lower_of(s@),
{
    s.to_lowercase()
}

/// The first keyword the engine looks for.
pub open spec fn kw_quads() -> Seq<char> {
    seq!['q', 'u', 'a', 'd', 's']
}

/// The second keyword the engine looks for.
pub open spec fn kw_sexts() -> Seq<char> {
    seq!['s', 'e', 'x', 't', 's']
}

/// The decision table: a category outside the qualifying windows deletes the
/// message whatever it says; inside them, a lowercased text that starts with
/// `quads` is rewarded in either window, one that starts with `sexts` only in
/// the `Sexts` window, and everything else — a missing text included — is
/// left alone.
pub open spec fn spec_decide(category: Check, lowered: Option<Seq<char>>) -> Action {
    if category == Check::Other {
        Action::Delete
    } else {
        match lowered {
            Option::Some(l) => {
                if has_prefix(l, kw_quads()) {
                    Action::Reply
                } else if category == Check::Sexts && has_prefix(l, kw_sexts()) {
                    Action::Reply
                } else {
                    Action::Ignore
                }
            },
            Option::None => Action::Ignore,
        }
    }
}

/// Pick the action for a category and an optional text.
pub fn decide(category: Check, text: &Option<String>) -> (a: Action)
    ensures
        a == spec_decide(
            category,
            match text {
                Option::Some(t) => Option::Some(lower_of(t@)),
                Option::None => Option::None,
            },
        ),
{
    match category {
        Check::Other => Action::Delete,
        _ => {
            match text {
                Option::Some(t) => {
                    let lowered = lowercase(t.as_str());
                    proof {
                        reveal_strlit("quads");
                        reveal_strlit("sexts");
                        assert("quads"@ =~= kw_quads());
                        assert("sexts"@ =~= kw_sexts());
                    }
                    if str_has_prefix(lowered.as_str(), "quads") {
                        Action::Reply
                    } else if matches!(category, Check::Sexts)
                        && str_has_prefix(lowered.as_str(), "sexts") {
                        Action::Reply
                    } else {
                        Action::Ignore
                    }
                },
                Option::None => Action::Ignore,
            }
        },
    }
}

/// Work out the correct action for a message: classify its timestamp on the
/// local wall clock, then apply the decision table to its text.
///
/// The clock reading depends on the process's time zone, so the action is
/// pinned relative to some valid reading; `decide` carries the exact
/// decision table.
pub fn process_message(message: &Message) -> (a: Action)
    requires
        -MAX_CLOCK_TIMESTAMP <= message.date <= MAX_CLOCK_TIMESTAMP,
    ensures
        exists|h: u8, m: u8, s: u8|
            h < 24 && m < 60 && s < 60 && a == spec_decide(
                #[trigger] spec_check_hms(h, m, s),
                match message.text {
                    Option::Some(t) => Option::Some(lower_of(t@)),
                    Option::None => Option::None,
                },
            ),
{
    let category = check(&message.date);
    decide(category, &message.text)
}

} // verus!
