//! The decisions the screens make before they hand work to the session: the
//! name a login stores, whether typed text is sent, how a page starts the
//! session, and which messages are the reader's own.
use crate::message::ChatMessage;
use crate::session::{ChatAction, EventModel, SessionEvent};
use vstd::prelude::*;

verus! {

/// The characters that `char::is_whitespace` accepts (Unicode White_Space).
pub open spec fn is_white(c: char) -> bool {
    let n = c as u32;
    (0x9 <= n && n <= 0xd) || n == 0x20 || n == 0x85 || n == 0xa0 || n == 0x1680 || (0x2000 <= n
        && n <= 0x200a) || n == 0x2028 || n == 0x2029 || n == 0x202f || n == 0x205f || n == 0x3000
}

/// `r` is `s` without its leading and trailing white space.
pub open spec fn is_trim_of(s: Seq<char>, r: Seq<char>) -> bool {
    exists|i: int, j: int|
        0 <= i <= j <= s.len() && r == #[trigger] s.subrange(i, j) && (forall|k: int|
            0 <= k < i ==> is_white(s[k])) && (forall|k: int| j <= k < s.len() ==> is_white(s[k]))
            && (i < j ==> !is_white(s[i]) && !is_white(s[j - 1]))
}

/// Whether `s` holds nothing but white space.
pub open spec fn all_white(s: Seq<char>) -> bool {
    forall|k: int| 0 <= k < s.len() ==> is_white(#[trigger] s[k])
}

proof fn lemma_trim_empty_iff_all_white(s: Seq<char>, r: Seq<char>)
    requires
        is_trim_of(s, r),
    ensures
        r.len() == 0 <==> all_white(s),
{
    let (i, j) = choose|i: int, j: int|
        0 <= i <= j <= s.len() && r == #[trigger] s.subrange(i, j) && (forall|k: int|
            0 <= k < i ==> is_white(s[k])) && (forall|k: int| j <= k < s.len() ==> is_white(s[k]))
            && (i < j ==> !is_white(s[i]) && !is_white(s[j - 1]));
    if i < j {
        assert(!is_white(s[i]));
        assert(r.len() > 0);
    } else {
        assert forall|k: int| 0 <= k < s.len() implies is_white(#[trigger] s[k]) by {
            if k < i {
            } else {
            }
        }
    }
}

/// Relies on str::trim: the slice without leading and trailing characters
/// for which `char::is_whitespace` holds.
#[verifier::external_body]
fn trim(s: &str) -> (r: &str)
    ensures
        is_trim_of(s@, r@),
{
    s.trim()
}

/// The name a login stores: the input without surrounding white space, or
/// the guest name when nothing else is left.
pub fn login_name(input: &str) -> (r: String)
    ensures
        all_white(input@) ==> r@ == "Гость"@,
        !all_white(input@) ==> is_trim_of(input@, r@),
{
    let t = trim(input);
    proof {
        lemma_trim_empty_iff_all_white(input@, t@);
    }
    if t.is_empty() {
        String::from_str("Гость")
    } else {
        String::from_str(t)
    }
}

/// Whether typed text is sent: it holds something besides white space.
pub fn should_send(text: &str) -> (r: bool)
    ensures
        r == !all_white(text@),
{
    let t = trim(text);
    proof {
        lemma_trim_empty_iff_all_white(text@, t@);
    }
    !t.is_empty()
}

/// How the chat page starts its session from the stored name: with a
/// non-empty name, it sets that name and then connects, in that order; with
/// none (`None`), or an empty one, it starts nothing and sends the reader to
/// the login page.
pub fn startup_events(stored: Option<String>) -> (r: Option<Vec<SessionEvent>>)
    ensures
        match stored {
            Some(n) => if n@.len() > 0 {
                r matches Some(evs) && evs@.map_values(|e: SessionEvent| e@) == seq![
                    EventModel::SetUser(n@),
                    EventModel::Connect,
                ]
            } else {
                r is None
            },
            None => r is None,
        },
{
    match stored {
        Some(name) => {
            if name.as_str().is_empty() {
                None
            } else {
                let ghost n = name@;
                let mut evs: Vec<SessionEvent> = Vec::new();
                evs.push(SessionEvent::Action(ChatAction::SetUser(name)));
                evs.push(SessionEvent::Action(ChatAction::Connect));
                assert(evs@.map_values(|e: SessionEvent| e@) =~= seq![
                    EventModel::SetUser(n),
                    EventModel::Connect,
                ]);
                Some(evs)
            }
        },
        None => None,
    }
}

/// Whether a message was sent under the reader's own name.
pub fn is_own_message(msg: &ChatMessage, current_user: &String) -> (r: bool)
    ensures
        r == (msg.user@ == current_user@),
{
    msg.user == *current_user
}

} // verus!
