//! Suffix matching of the rolling buffer against the rule set.
//!
//! A rule fires only when the buffer ends with the rule's trigger followed
//! immediately by the delimiter that was just typed — the delimiter is what
//! keeps a trigger from firing mid-word.  Rules are scanned in list order
//! and the first hit wins.

use vstd::prelude::*;
use crate::buffer::RollingBuffer;
use crate::rules::Rule;

verus! {

/// The character a backspace key decodes to.
pub const BACKSPACE_CHAR: char = '\u{8}';

/// A delimiter ends a trigger and asks the matcher to evaluate.
pub open spec fn is_delimiter_char(c: char) -> bool {
    c == ' ' || c == '\n' || c == '\t'
}

/// An event is a backspace when it decodes to exactly the backspace
/// character and nothing else.
pub open spec fn is_backspace_event(chars: Seq<char>) -> bool {
    chars.len() == 1 && chars[0] == BACKSPACE_CHAR
}

/// The delimiter an event carries: only an event that decodes to a single
/// delimiter character counts.
pub open spec fn event_delimiter(chars: Seq<char>) -> Option<char> {
    if chars.len() == 1 && is_delimiter_char(chars[0]) {
        Some(chars[0])
    } else {
        None
    }
}

/// `suffix` is the tail of `s`.
pub open spec fn is_suffix_of(suffix: Seq<char>, s: Seq<char>) -> bool {
    s.len() >= suffix.len() && s.skip(s.len() - suffix.len()) == suffix
}

/// A rule fires iff the buffer ends with its trigger followed by the
/// delimiter just typed.
pub open spec fn rule_fires(buf: Seq<char>, trigger: Seq<char>, delim: char) -> bool {
    is_suffix_of(trigger.push(delim), buf)
}

/// The triggers of a rule list, as character sequences, in list order.
pub open spec fn trigger_views(rules: Seq<Rule>) -> Seq<Seq<char>> {
    rules.map(|i: int, r: Rule| r.trigger@)
}

/// The first trigger from position `i` on that fires on `buf`.
pub open spec fn first_match_from(
    triggers: Seq<Seq<char>>,
    buf: Seq<char>,
    delim: char,
    i: int,
) -> Option<int>
    decreases triggers.len() - i,
{
    if i < 0 || i >= triggers.len() {
        None
    } else if rule_fires(buf, triggers[i], delim) {
        Some(i)
    } else {
        first_match_from(triggers, buf, delim, i + 1)
    }
}

/// The first trigger in list order that fires on `buf`, if any.
pub open spec fn first_match(triggers: Seq<Seq<char>>, buf: Seq<char>, delim: char) -> Option<
    int,
> {
    first_match_from(triggers, buf, delim, 0)
}

/// Whether one trigger fires: the buffer must end in the trigger followed
/// by the delimiter, character for character.
fn trigger_matches(buf: &RollingBuffer, trigger: &str, delim: char) -> (r: bool)
    ensures
        r == rule_fires(buf@, trigger@, delim),
{
    let tlen = trigger.unicode_len();
    let blen = buf.len();
    if blen <= tlen {
        return false;
    }
    let start = blen - 1 - tlen;
    if buf.get(blen - 1) != delim {
        proof {
            if rule_fires(buf@, trigger@, delim) {
                assert(buf@.skip(start as int)[tlen as int] == buf@[blen - 1]);
                assert(trigger@.push(delim)[tlen as int] == delim);
            }
        }
        return false;
    }
    let mut i: usize = 0;
    while i < tlen
        invariant
            i <= tlen,
            tlen == trigger@.len(),
            blen == buf@.len(),
            blen > tlen,
            start == blen - 1 - tlen,
            buf@[blen - 1] == delim,
            forall|j: int| 0 <= j < i ==> buf@[start + j] == trigger@[j],
        decreases tlen - i,
    {
        if buf.get(start + i) != trigger.get_char(i) {
            proof {
                if rule_fires(buf@, trigger@, delim) {
                    assert(buf@.skip(start as int)[i as int] == buf@[start + i]);
                    assert(trigger@.push(delim)[i as int] == trigger@[i as int]);
                }
            }
            return false;
        }
        i = i + 1;
    }
    proof {
        assert(buf@.skip(start as int) =~= trigger@.push(delim));
    }
    true
}

/// Scans the rules in order and returns the index of the first whose
/// trigger fires on the buffer; scanning stops at the first hit.
pub fn find_match(rules: &Vec<Rule>, buf: &RollingBuffer, delim: char) -> (r: Option<usize>)
    ensures
        match r {
            Some(i) => i < rules@.len() && first_match(trigger_views(rules@), buf@, delim)
                == Some(i as int),
            None => first_match(trigger_views(rules@), buf@, delim) is None,
        },
{
    let ghost triggers = trigger_views(rules@);
    let mut i: usize = 0;
    while i < rules.len()
        invariant
            i <= rules@.len(),
            triggers == trigger_views(rules@),
            triggers.len() == rules@.len(),
            first_match(triggers, buf@, delim) == first_match_from(
                triggers,
                buf@,
                delim,
                i as int,
            ),
        decreases rules@.len() - i,
    {
        proof {
            assert(triggers[i as int] == rules@[i as int].trigger@);
        }
        if trigger_matches(buf, rules[i].trigger.as_str(), delim) {
            return Some(i);
        }
        i = i + 1;
    }
    None
}

/// Exact backspace check on a decoded event.
pub fn event_is_backspace(chars: &Vec<char>) -> (r: bool)
    ensures
        r == is_backspace_event(chars@),
{
    chars.len() == 1 && chars[0] == BACKSPACE_CHAR
}

/// Exact delimiter check on a decoded event.
pub fn event_delimiter_char(chars: &Vec<char>) -> (r: Option<char>)
    ensures
        r == event_delimiter(chars@),
{
    if chars.len() == 1 {
        let c = chars[0];
        if c == ' ' || c == '\n' || c == '\t' {
            return Some(c);
        }
    }
    None
}

proof fn lemma_first_match_from_characterizes(
    triggers: Seq<Seq<char>>,
    buf: Seq<char>,
    delim: char,
    i: int,
)
    requires
        0 <= i <= triggers.len(),
    ensures
        match first_match_from(triggers, buf, delim, i) {
            Some(k) => i <= k < triggers.len() && rule_fires(buf, triggers[k], delim) && (forall|
                j: int,
            | i <= j < k ==> !rule_fires(buf, #[trigger] triggers[j], delim)),
            None => forall|j: int|
                i <= j < triggers.len() ==> !rule_fires(buf, #[trigger] triggers[j], delim),
        },
    decreases triggers.len() - i,
{
    if i < triggers.len() {
        if !rule_fires(buf, triggers[i], delim) {
            lemma_first_match_from_characterizes(triggers, buf, delim, i + 1);
        }
    }
}

/// Matching selects the first rule in list order whose trigger, followed by
/// the delimiter, is exactly the buffer's suffix; no earlier rule fires,
/// and if no rule's trigger is such a suffix, nothing matches.
pub proof fn law_first_match(triggers: Seq<Seq<char>>, buf: Seq<char>, delim: char)
    ensures
        match first_match(triggers, buf, delim) {
            Some(k) => 0 <= k < triggers.len() && rule_fires(buf, triggers[k], delim) && (forall|
                j: int,
            | 0 <= j < k ==> !rule_fires(buf, #[trigger] triggers[j], delim)),
            None => forall|j: int|
                0 <= j < triggers.len() ==> !rule_fires(buf, #[trigger] triggers[j], delim),
        },
{
    lemma_first_match_from_characterizes(triggers, buf, delim, 0);
}

/// No partial match: a rule fires exactly when the buffer's suffix is the
/// trigger immediately followed by the delimiter — a trigger that merely
/// appears somewhere near the end, or is preceded by other word characters
/// in its own place, is not enough.
pub proof fn law_no_partial_match(buf: Seq<char>, trigger: Seq<char>, delim: char)
    ensures
        rule_fires(buf, trigger, delim) <==> (buf.len() > trigger.len() && buf.skip(
            buf.len() - trigger.len() - 1,
        ) == trigger.push(delim)),
{
}

} // verus!
